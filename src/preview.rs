//! The distribution policy and the preview stream's framing.
use vstd::prelude::*;
use vstd::string::{StrSliceExecFns, StringSliceAdditionalSpecFns};

verus! {

/// Frames the preview channel holds before further frames are dropped.
pub const PREVIEW_CAPACITY: usize = 2;

/// How long a frame may wait for room in the preview channel.
pub const PREVIEW_SEND_TIMEOUT_MS: u64 = 8;

/// The telemetry channel is a rendezvous: it holds nothing.
pub const TELEMETRY_CAPACITY: usize = 0;

/// How long a pose sample may wait for the publisher to take it.
pub const TELEMETRY_SEND_TIMEOUT_MS: u64 = 4;

/// The header in front of each JPEG image of the preview stream.
pub open spec fn part_header() -> Seq<u8> {
    "--FRAME\r\nContent-Type: image/jpeg\r\n\r\n".spec_bytes()
}

/// What follows each image.
pub open spec fn part_trailer() -> Seq<u8> {
    "\r\n".spec_bytes()
}

/// Wraps one JPEG image as a part of the `multipart/x-mixed-replace`
/// preview stream: `--FRAME`, the content type, a blank line, the image,
/// and a line end.
pub fn frame_part(jpeg: &Vec<u8>) -> (r: Vec<u8>)
    ensures
        r@ == part_header() + jpeg@ + part_trailer(),
{
    let mut out = "--FRAME\r\nContent-Type: image/jpeg\r\n\r\n".as_bytes_vec();
    let ghost head = out@;
    let mut i: usize = 0;
    while i < jpeg.len()
        invariant
            i <= jpeg@.len(),
            head == part_header(),
            out@ == head + jpeg@.subrange(0, i as int),
        decreases jpeg@.len() - i,
    {
        out.push(jpeg[i]);
        assert(out@ =~= head + jpeg@.subrange(0, i + 1));
        i = i + 1;
    }
    assert(jpeg@.subrange(0, jpeg@.len() as int) =~= jpeg@);
    let tail = "\r\n".as_bytes_vec();
    let ghost body = out@;
    let mut j: usize = 0;
    while j < tail.len()
        invariant
            j <= tail@.len(),
            tail@ == part_trailer(),
            out@ == body + tail@.subrange(0, j as int),
        decreases tail@.len() - j,
    {
        out.push(tail[j]);
        assert(out@ =~= body + tail@.subrange(0, j + 1));
        j = j + 1;
    }
    assert(tail@.subrange(0, tail@.len() as int) =~= tail@);
    out
}

/// The landing page: the live preview of this camera.
pub fn index() -> (r: &'static str)
    ensures
        r@ == index_page()@,
{
    "<!DOCTYPE html>\n<html>\n<head><title>Camera preview</title></head>\n<body>\n<img src=\"/test.mjpeg\" alt=\"live preview\">\n</body>\n</html>\n"
}

/// The landing page's markup.
pub open spec fn index_page() -> &'static str {
    "<!DOCTYPE html>\n<html>\n<head><title>Camera preview</title></head>\n<body>\n<img src=\"/test.mjpeg\" alt=\"live preview\">\n</body>\n</html>\n"
}

} // verus!
