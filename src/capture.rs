//! The acquisition-relevant part of the configuration, and when a capture
//! session must be rebuilt because of it.
use vstd::prelude::*;
use vstd::string::StringExecFns;
use crate::text::{append_decimal, decimal};

verus! {

/// How long to let the device settle after releasing it, before reopening.
pub const DEVICE_SETTLE_MS: u64 = 2000;

/// The settings that a capture session is opened with.
#[derive(Clone, Debug)]
pub struct CaptureSettings {
    pub video_path: String,
    pub width: u32,
    pub height: u32,
    pub auto_exposure: u32,
    pub exposure: u32,
    pub gain: u32,
}

/// The two settings open the device in the same way.
pub open spec fn same_capture(a: CaptureSettings, b: CaptureSettings) -> bool {
    &&& a.video_path@ == b.video_path@
    &&& a.width == b.width
    &&& a.height == b.height
    &&& a.exposure == b.exposure
    &&& a.auto_exposure == b.auto_exposure
    &&& a.gain == b.gain
}

/// Whether going from settings `a` to settings `b` (either possibly absent)
/// calls for a new session: when exactly one is present, or both are and
/// they differ in any acquisition-relevant field.
pub open spec fn config_changed_spec(a: Option<CaptureSettings>, b: Option<CaptureSettings>) -> bool {
    match (a, b) {
        (Some(x), Some(y)) => !same_capture(x, y),
        (None, None) => false,
        _ => true,
    }
}

/// Whether a session opened with `config_a` must be rebuilt for `config_b`.
pub fn config_changed(config_a: Option<&CaptureSettings>, config_b: Option<&CaptureSettings>) -> (r: bool)
    ensures
        r == config_changed_spec(
            match config_a {
                Some(x) => Some(*x),
                None => None,
            },
            match config_b {
                Some(y) => Some(*y),
                None => None,
            },
        ),
{
    match config_a {
        Some(a) => match config_b {
            Some(b) => {
                !(a.video_path == b.video_path) || a.width != b.width || a.height != b.height
                    || a.exposure != b.exposure || a.auto_exposure != b.auto_exposure || a.gain
                    != b.gain
            },
            None => true,
        },
        None => match config_b {
            Some(_) => true,
            None => false,
        },
    }
}

/// What to do with the capture device before reading a frame.
#[derive(Clone, Copy, PartialEq, Eq, Structural, Debug)]
pub struct CapturePlan {
    /// Release the open device first.
    pub release: bool,
    /// Then sleep this many milliseconds.
    pub settle_ms: u64,
    /// Then open the device with the current settings.
    pub open: bool,
    /// A device is open afterwards, so a frame can be read.
    pub read: bool,
}

/// Plans the session for the next frame: an open device is released (and
/// given time to settle) when the settings changed since it was opened; with
/// no device left open, one is opened unless the settings name no device.
pub fn plan_capture(device_open: bool, last: Option<&CaptureSettings>, current: &CaptureSettings) -> (r:
    CapturePlan)
    ensures
        r.release == (device_open && config_changed_spec(
            match last {
                Some(x) => Some(*x),
                None => None,
            },
            Some(*current),
        )),
        r.settle_ms == if r.release {
            DEVICE_SETTLE_MS
        } else {
            0
        },
        r.open == ((!device_open || r.release) && current.video_path@.len() > 0),
        r.read == ((device_open && !r.release) || r.open),
{
    let release = device_open && config_changed(last, Some(current));
    let settle_ms: u64 = if release {
        DEVICE_SETTLE_MS
    } else {
        0
    };
    let open = (!device_open || release) && !current.video_path.as_str().is_empty();
    CapturePlan { release, settle_ms, open, read: (device_open && !release) || open }
}

/// The pipeline description that opens the device through GStreamer.
pub open spec fn gstreamer_pipeline_spec(s: CaptureSettings) -> Seq<char> {
    "v4l2src device="@ + s.video_path@ + " extra_controls=\"c,exposure_auto="@ + decimal(
        s.auto_exposure as nat,
    ) + ",exposure_absolute="@ + decimal(s.exposure as nat) + ",gain="@ + decimal(s.gain as nat)
        + ",sharpness=0,brightness=0\" ! image/jpeg,format=MJPG,width="@ + decimal(s.width as nat)
        + ",height="@ + decimal(s.height as nat) + " ! jpegdec ! video/x-raw ! appsink drop=1"@
}

/// Renders the GStreamer pipeline for these settings: an MJPEG V4L2 source
/// with the exposure and gain controls, decoded to raw frames for the
/// application sink, which drops frames it cannot take.
pub fn gstreamer_pipeline(settings: &CaptureSettings) -> (r: String)
    ensures
        r@ == gstreamer_pipeline_spec(*settings),
{
    let mut r = String::from_str("v4l2src device=");
    r.append(settings.video_path.as_str());
    r.append(" extra_controls=\"c,exposure_auto=");
    append_decimal(&mut r, settings.auto_exposure as u64);
    r.append(",exposure_absolute=");
    append_decimal(&mut r, settings.exposure as u64);
    r.append(",gain=");
    append_decimal(&mut r, settings.gain as u64);
    r.append(",sharpness=0,brightness=0\" ! image/jpeg,format=MJPG,width=");
    append_decimal(&mut r, settings.width as u64);
    r.append(",height=");
    append_decimal(&mut r, settings.height as u64);
    r.append(" ! jpegdec ! video/x-raw ! appsink drop=1");
    r
}

} // verus!
