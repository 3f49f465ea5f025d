//! The decisions of the frame pipeline supervisor. The caller runs the loop:
//! it reads the stop signal, asks `step` what to do, does it (open the
//! capture session, read a frame, process it, wait, release the session)
//! and reports how it went as the next outcome.
use vstd::prelude::*;

verus! {

/// How long to wait after a frame could not be read before reading again.
pub const ACQUIRE_RETRY_MS: u64 = 100;

/// Where the supervisor stands.
#[derive(Clone, Copy, PartialEq, Eq, Structural, Debug)]
pub enum SupervisorState {
    /// No capture session is open.
    Idle,
    /// A capture session (device, detector, resolver) is open.
    Running,
    /// The supervisor has exited; nothing is open.
    Stopped,
}

/// How the last action went.
#[derive(Clone, Copy, PartialEq, Eq, Structural, Debug)]
pub enum SupervisorOutcome {
    /// Nothing has been done yet.
    Started,
    /// The session was set up.
    Opened,
    /// Setting the session up failed.
    OpenFailed,
    /// A frame was read.
    FrameRead,
    /// No frame could be read.
    NoFrame,
    /// The frame went through detection, resolution and hand-off.
    Processed,
    /// The wait is over.
    Waited,
    /// Something unexpected failed inside the running session.
    Fault,
    /// The session was released.
    Released,
}

/// What to do next.
#[derive(Clone, Copy, PartialEq, Eq, Structural, Debug)]
pub enum SupervisorAction {
    /// Open the capture device and build the detector and the resolver.
    OpenSession,
    /// Read a frame from the capture device.
    AcquireFrame,
    /// Detect, resolve, encode and hand off the frame just read.
    ProcessFrame,
    /// Sleep this many milliseconds.
    Wait { millis: u64 },
    /// Release the capture device and drop the session.
    ReleaseSession,
    /// Leave the loop.
    Exit,
}

/// The transition table. The stop signal wins at every boundary: an open
/// session is released first, then the loop exits. Otherwise a fault drops
/// the session and a fresh one is opened, a failed read is retried after
/// a pause within the same session, and a failed setup is tried again.
pub open spec fn supervisor_next(
    state: SupervisorState,
    stop: bool,
    outcome: SupervisorOutcome,
) -> (SupervisorState, SupervisorAction) {
    match state {
        SupervisorState::Stopped => (SupervisorState::Stopped, SupervisorAction::Exit),
        SupervisorState::Idle => {
            if stop {
                (SupervisorState::Stopped, SupervisorAction::Exit)
            } else if outcome == SupervisorOutcome::Opened {
                (SupervisorState::Running, SupervisorAction::AcquireFrame)
            } else {
                (SupervisorState::Idle, SupervisorAction::OpenSession)
            }
        },
        SupervisorState::Running => {
            if stop || outcome == SupervisorOutcome::Fault {
                (SupervisorState::Idle, SupervisorAction::ReleaseSession)
            } else if outcome == SupervisorOutcome::FrameRead {
                (SupervisorState::Running, SupervisorAction::ProcessFrame)
            } else if outcome == SupervisorOutcome::NoFrame {
                (SupervisorState::Running, SupervisorAction::Wait { millis: ACQUIRE_RETRY_MS })
            } else {
                (SupervisorState::Running, SupervisorAction::AcquireFrame)
            }
        },
    }
}

/// Decides the next state and action from the current state, the stop
/// signal as just read, and the outcome of the last action.
pub fn step(state: SupervisorState, stop: bool, outcome: SupervisorOutcome) -> (r: (
    SupervisorState,
    SupervisorAction,
))
    ensures
        r == supervisor_next(state, stop, outcome),
{
    match state {
        SupervisorState::Stopped => (SupervisorState::Stopped, SupervisorAction::Exit),
        SupervisorState::Idle => {
            if stop {
                (SupervisorState::Stopped, SupervisorAction::Exit)
            } else if outcome == SupervisorOutcome::Opened {
                (SupervisorState::Running, SupervisorAction::AcquireFrame)
            } else {
                (SupervisorState::Idle, SupervisorAction::OpenSession)
            }
        },
        SupervisorState::Running => {
            if stop || outcome == SupervisorOutcome::Fault {
                (SupervisorState::Idle, SupervisorAction::ReleaseSession)
            } else if outcome == SupervisorOutcome::FrameRead {
                (SupervisorState::Running, SupervisorAction::ProcessFrame)
            } else if outcome == SupervisorOutcome::NoFrame {
                (SupervisorState::Running, SupervisorAction::Wait { millis: ACQUIRE_RETRY_MS })
            } else {
                (SupervisorState::Running, SupervisorAction::AcquireFrame)
            }
        },
    }
}

/// A fault inside a running session, with the stop signal down, releases
/// the session and then opens a fresh one; while the stop signal stays down
/// the supervisor never exits, whatever happens.
pub proof fn lemma_fault_restarts_session(outcome: SupervisorOutcome)
    ensures
        supervisor_next(SupervisorState::Running, false, SupervisorOutcome::Fault) == (
            SupervisorState::Idle,
            SupervisorAction::ReleaseSession,
        ),
        supervisor_next(SupervisorState::Idle, false, SupervisorOutcome::Released) == (
            SupervisorState::Idle,
            SupervisorAction::OpenSession,
        ),
        forall|s: SupervisorState, o: SupervisorOutcome|
            s != SupervisorState::Stopped ==> {
                let (n, a) = #[trigger] supervisor_next(s, false, o);
                n != SupervisorState::Stopped && a != SupervisorAction::Exit
            },
{
}

/// Once the stop signal is up, the supervisor exits within two steps,
/// whatever the outcomes; an open session is released before it exits, and
/// it exits only with no session open.
pub proof fn lemma_stop_exits(state: SupervisorState, first: SupervisorOutcome, second: SupervisorOutcome)
    ensures
        ({
            let (n1, a1) = supervisor_next(state, true, first);
            let (n2, a2) = supervisor_next(n1, true, second);
            &&& a1 == SupervisorAction::Exit ==> n1 == SupervisorState::Stopped && state != SupervisorState::Running
            &&& a1 != SupervisorAction::Exit ==> a1 == SupervisorAction::ReleaseSession && state == SupervisorState::Running
                && n2 == SupervisorState::Stopped && a2 == SupervisorAction::Exit
        }),
        forall|s: SupervisorState, stop: bool, o: SupervisorOutcome|
            (#[trigger] supervisor_next(s, stop, o)).1 == SupervisorAction::Exit ==> s != SupervisorState::Running,
{
}

} // verus!
