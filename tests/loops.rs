use watson_vision::publisher::{self, PublisherAction, PUBLISH_TIMEOUT_MS, RECONNECT_BACKOFF_MS};
use watson_vision::supervisor::{self, SupervisorAction, SupervisorOutcome, SupervisorState, ACQUIRE_RETRY_MS};

#[test]
fn supervisor_runs_a_frame_cycle() {
    let (s, a) = supervisor::step(SupervisorState::Idle, false, SupervisorOutcome::Started);
    assert_eq!((s, a), (SupervisorState::Idle, SupervisorAction::OpenSession));
    let (s, a) = supervisor::step(s, false, SupervisorOutcome::Opened);
    assert_eq!((s, a), (SupervisorState::Running, SupervisorAction::AcquireFrame));
    let (s, a) = supervisor::step(s, false, SupervisorOutcome::FrameRead);
    assert_eq!((s, a), (SupervisorState::Running, SupervisorAction::ProcessFrame));
    let (s, a) = supervisor::step(s, false, SupervisorOutcome::Processed);
    assert_eq!((s, a), (SupervisorState::Running, SupervisorAction::AcquireFrame));
}

#[test]
fn failed_read_retries_after_pause_in_same_session() {
    let (s, a) = supervisor::step(SupervisorState::Running, false, SupervisorOutcome::NoFrame);
    assert_eq!((s, a), (SupervisorState::Running, SupervisorAction::Wait { millis: ACQUIRE_RETRY_MS }));
    assert_eq!(ACQUIRE_RETRY_MS, 100);
    let (s, a) = supervisor::step(s, false, SupervisorOutcome::Waited);
    assert_eq!((s, a), (SupervisorState::Running, SupervisorAction::AcquireFrame));
}

#[test]
fn fault_releases_device_and_starts_new_session() {
    let stop = false;
    let (s, a) = supervisor::step(SupervisorState::Running, stop, SupervisorOutcome::Fault);
    assert_eq!((s, a), (SupervisorState::Idle, SupervisorAction::ReleaseSession));
    let (s, a) = supervisor::step(s, stop, SupervisorOutcome::Released);
    assert_eq!((s, a), (SupervisorState::Idle, SupervisorAction::OpenSession));
    assert!(!stop);
}

#[test]
fn failed_setup_is_tried_again() {
    let (s, a) = supervisor::step(SupervisorState::Idle, false, SupervisorOutcome::OpenFailed);
    assert_eq!((s, a), (SupervisorState::Idle, SupervisorAction::OpenSession));
}

#[test]
fn stop_releases_then_exits() {
    let (s, a) = supervisor::step(SupervisorState::Running, true, SupervisorOutcome::Processed);
    assert_eq!((s, a), (SupervisorState::Idle, SupervisorAction::ReleaseSession));
    let (s, a) = supervisor::step(s, true, SupervisorOutcome::Released);
    assert_eq!((s, a), (SupervisorState::Stopped, SupervisorAction::Exit));
    let (s, a) = supervisor::step(s, false, SupervisorOutcome::Started);
    assert_eq!((s, a), (SupervisorState::Stopped, SupervisorAction::Exit));
}

#[test]
fn stop_while_idle_exits_at_once() {
    let (s, a) = supervisor::step(SupervisorState::Idle, true, SupervisorOutcome::OpenFailed);
    assert_eq!((s, a), (SupervisorState::Stopped, SupervisorAction::Exit));
}

#[test]
fn publisher_sets_up_session_in_order() {
    let mut last = PublisherAction::Connect;
    let expected = [
        PublisherAction::CreateStreamTopic,
        PublisherAction::AnnounceStream,
        PublisherAction::CreatePoseTopic,
        PublisherAction::SyncClock,
        PublisherAction::AwaitSample,
        PublisherAction::PublishSample { timeout_ms: PUBLISH_TIMEOUT_MS },
        PublisherAction::SyncClock,
        PublisherAction::AwaitSample,
    ];
    for e in expected {
        last = publisher::step(last, false, true);
        assert_eq!(last, e);
    }
    assert_eq!(PUBLISH_TIMEOUT_MS, 1000);
}

#[test]
fn publisher_failure_backs_off_and_reconnects() {
    let a = publisher::step(PublisherAction::PublishSample { timeout_ms: PUBLISH_TIMEOUT_MS }, false, false);
    assert_eq!(a, PublisherAction::Backoff { millis: RECONNECT_BACKOFF_MS });
    assert_eq!(RECONNECT_BACKOFF_MS, 500);
    assert_eq!(publisher::step(a, false, true), PublisherAction::Connect);
    assert_eq!(
        publisher::step(PublisherAction::Connect, false, false),
        PublisherAction::Backoff { millis: 500 }
    );
}

#[test]
fn publisher_stops_on_signal() {
    assert_eq!(publisher::step(PublisherAction::AwaitSample, true, true), PublisherAction::Exit);
    assert_eq!(publisher::step(PublisherAction::Exit, false, true), PublisherAction::Exit);
}

#[test]
fn topic_names() {
    assert_eq!(publisher::streams_topic("front"), "/CameraPublisher/front/streams");
    assert_eq!(publisher::pose_topic("front"), "/watson/front");
}

#[test]
fn stream_url_renders_port() {
    assert_eq!(publisher::stream_url("10.0.0.2", 1181), "mjpeg:http://10.0.0.2:1181/test.mjpeg");
    assert_eq!(publisher::stream_url("h", 0), "mjpeg:http://h:0/test.mjpeg");
    assert_eq!(
        publisher::stream_url("h", u64::MAX),
        "mjpeg:http://h:18446744073709551615/test.mjpeg"
    );
}
