//! The decisions of the network publish loop, and the names and values it
//! publishes. The caller holds the telemetry-bus session: it reads the stop
//! signal, asks `step` what to do, does it, and reports whether it worked.
use vstd::prelude::*;
use vstd::string::StringExecFns;
use crate::text::{append_decimal, decimal};

verus! {

/// How long a pose sample may take to publish before the session is dropped.
pub const PUBLISH_TIMEOUT_MS: u64 = 1000;

/// How long to wait after a failed session before connecting again.
pub const RECONNECT_BACKOFF_MS: u64 = 500;

/// The telemetry-bus server's port.
pub const SERVER_PORT: u16 = 5810;

/// What to do next; the caller reports whether it worked.
#[derive(Clone, Copy, PartialEq, Eq, Structural, Debug)]
pub enum PublisherAction {
    /// Connect to the server.
    Connect,
    /// Create the retained, non-persistent string-array topic that
    /// announces the preview stream.
    CreateStreamTopic,
    /// Publish the preview stream's address on it, once.
    AnnounceStream,
    /// Create the non-retained, non-persistent raw topic for pose samples.
    CreatePoseTopic,
    /// Record the server time and the local instant as the clock-sync
    /// snapshot.
    SyncClock,
    /// Wait for the next encoded pose sample.
    AwaitSample,
    /// Publish it, giving up after this many milliseconds.
    PublishSample { timeout_ms: u64 },
    /// Drop the session and sleep this many milliseconds.
    Backoff { millis: u64 },
    /// Leave the loop.
    Exit,
}

/// The transition table. The stop signal ends the loop at any step. A
/// failure anywhere (connect, topic creation, a publish that errs or times
/// out) drops the session, and after the backoff the loop connects again.
/// Otherwise the session is set up in order, then each sample is preceded
/// by a clock sync.
pub open spec fn publisher_next(last: PublisherAction, stop: bool, ok: bool) -> PublisherAction {
    if stop || last == PublisherAction::Exit {
        PublisherAction::Exit
    } else if last is Backoff {
        PublisherAction::Connect
    } else if !ok {
        PublisherAction::Backoff { millis: RECONNECT_BACKOFF_MS }
    } else {
        match last {
            PublisherAction::Connect => PublisherAction::CreateStreamTopic,
            PublisherAction::CreateStreamTopic => PublisherAction::AnnounceStream,
            PublisherAction::AnnounceStream => PublisherAction::CreatePoseTopic,
            PublisherAction::CreatePoseTopic => PublisherAction::SyncClock,
            PublisherAction::SyncClock => PublisherAction::AwaitSample,
            PublisherAction::AwaitSample => PublisherAction::PublishSample { timeout_ms: PUBLISH_TIMEOUT_MS },
            _ => PublisherAction::SyncClock,
        }
    }
}

/// Decides what to do after `last`, which worked when `ok` holds, with the
/// stop signal as just read. The loop begins with `Connect`.
pub fn step(last: PublisherAction, stop: bool, ok: bool) -> (r: PublisherAction)
    ensures
        r == publisher_next(last, stop, ok),
{
    if stop {
        return PublisherAction::Exit;
    }
    match last {
        PublisherAction::Exit => PublisherAction::Exit,
        PublisherAction::Backoff { .. } => PublisherAction::Connect,
        _ => {
            if !ok {
                PublisherAction::Backoff { millis: RECONNECT_BACKOFF_MS }
            } else {
                match last {
                    PublisherAction::Connect => PublisherAction::CreateStreamTopic,
                    PublisherAction::CreateStreamTopic => PublisherAction::AnnounceStream,
                    PublisherAction::AnnounceStream => PublisherAction::CreatePoseTopic,
                    PublisherAction::CreatePoseTopic => PublisherAction::SyncClock,
                    PublisherAction::SyncClock => PublisherAction::AwaitSample,
                    PublisherAction::AwaitSample => PublisherAction::PublishSample {
                        timeout_ms: PUBLISH_TIMEOUT_MS,
                    },
                    _ => PublisherAction::SyncClock,
                }
            }
        },
    }
}

/// With the stop signal down, no failure ends the loop: it backs off, then
/// connects again.
pub proof fn lemma_failure_reconnects(last: PublisherAction)
    requires
        last != PublisherAction::Exit,
        !(last is Backoff),
    ensures
        publisher_next(last, false, false) == (PublisherAction::Backoff { millis: RECONNECT_BACKOFF_MS }),
        publisher_next(publisher_next(last, false, false), false, true) == PublisherAction::Connect,
        publisher_next(publisher_next(last, false, false), false, false) == PublisherAction::Connect,
{
}

/// `/CameraPublisher/<camera_name>/streams`
pub open spec fn streams_topic_spec(camera_name: Seq<char>) -> Seq<char> {
    "/CameraPublisher/"@ + camera_name + "/streams"@
}

/// `/watson/<camera_name>`
pub open spec fn pose_topic_spec(camera_name: Seq<char>) -> Seq<char> {
    "/watson/"@ + camera_name
}

/// `mjpeg:http://<host>:<port>/test.mjpeg`
pub open spec fn stream_url_spec(host: Seq<char>, port: nat) -> Seq<char> {
    "mjpeg:http://"@ + host + ":"@ + decimal(port) + "/test.mjpeg"@
}

/// The name of the topic that announces the camera's preview stream.
pub fn streams_topic(camera_name: &str) -> (r: String)
    ensures
        r@ == streams_topic_spec(camera_name@),
{
    let mut r = String::from_str("/CameraPublisher/");
    r.append(camera_name);
    r.append("/streams");
    r
}

/// The name of the topic that carries the camera's pose samples.
pub fn pose_topic(camera_name: &str) -> (r: String)
    ensures
        r@ == pose_topic_spec(camera_name@),
{
    let mut r = String::from_str("/watson/");
    r.append(camera_name);
    r
}

/// The preview stream's address, as announced on the streams topic.
pub fn stream_url(host: &str, port: u64) -> (r: String)
    ensures
        r@ == stream_url_spec(host@, port as nat),
{
    let mut r = String::from_str("mjpeg:http://");
    r.append(host);
    r.append(":");
    append_decimal(&mut r, port);
    r.append("/test.mjpeg");
    r
}

} // verus!
