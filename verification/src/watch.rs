//! The decisions of the serve loop: build once, then rebuild on every
//! settled burst of changes, and keep going when a rebuild fails.

use vstd::prelude::*;

verus! {

/// How long a burst of change notifications must be quiet before it counts
/// as one change, in seconds.
pub const DEBOUNCE_SECONDS: u64 = 2;

/// Where the serve loop stands.
#[derive(Clone, Copy, Debug, PartialEq, Eq, Structural)]
pub enum WatchState {
    /// The first build is running; nothing is watched yet.
    InitialBuild,
    /// The content is watched and no build is running.
    Idle,
    /// A rebuild is running.
    Rebuilding,
    /// The first build failed; the loop never started.
    Stopped,
}

/// What happened since the last action.
#[derive(Clone, Copy, Debug, PartialEq, Eq, Structural)]
pub enum WatchEvent {
    /// The build that was asked for has finished.
    BuildSucceeded,
    /// The build that was asked for has failed.
    BuildFailed,
    /// A burst of changes has settled.
    Changed,
    /// The notification channel reported an error.
    WatchError,
}

/// What the serve loop does next.
#[derive(Clone, Copy, Debug, PartialEq, Eq, Structural)]
pub enum WatchAction {
    /// Subscribe to changes, start serving, and wait.
    Subscribe,
    /// Run a full build.
    Build,
    /// Wait for the next event.
    Await,
    /// Tell the operator that the rebuild failed, and wait.
    ReportBuildError,
    /// Tell the operator that watching failed, and wait.
    ReportWatchError,
    /// Give up and hand the build error to the caller.
    Abort,
}

/// Whether the loop is past its first build and has not been stopped.
pub open spec fn is_serving(state: WatchState) -> bool {
    state == WatchState::Idle || state == WatchState::Rebuilding
}

/// The state after an event, and the action it calls for. An event that
/// cannot occur in a state changes nothing.
pub open spec fn transition(state: WatchState, event: WatchEvent) -> (WatchState, WatchAction) {
    match (state, event) {
        (WatchState::InitialBuild, WatchEvent::BuildSucceeded) => (
            WatchState::Idle,
            WatchAction::Subscribe,
        ),
        (WatchState::InitialBuild, WatchEvent::BuildFailed) => (
            WatchState::Stopped,
            WatchAction::Abort,
        ),
        (WatchState::Idle, WatchEvent::Changed) => (WatchState::Rebuilding, WatchAction::Build),
        (WatchState::Idle, WatchEvent::WatchError) => (
            WatchState::Idle,
            WatchAction::ReportWatchError,
        ),
        (WatchState::Rebuilding, WatchEvent::BuildSucceeded) => (
            WatchState::Idle,
            WatchAction::Await,
        ),
        (WatchState::Rebuilding, WatchEvent::BuildFailed) => (
            WatchState::Idle,
            WatchAction::ReportBuildError,
        ),
        (WatchState::Stopped, _) => (WatchState::Stopped, WatchAction::Abort),
        _ => (state, WatchAction::Await),
    }
}

/// The state in which the serve loop starts. Its first action is a build.
pub fn start() -> (first: (WatchState, WatchAction))
    ensures
        first == (WatchState::InitialBuild, WatchAction::Build),
{
    (WatchState::InitialBuild, WatchAction::Build)
}

/// Takes one event and says where the loop stands and what it does next.
pub fn next(state: WatchState, event: WatchEvent) -> (step: (WatchState, WatchAction))
    ensures
        step == transition(state, event),
{
    match state {
        WatchState::InitialBuild => match event {
            WatchEvent::BuildSucceeded => (WatchState::Idle, WatchAction::Subscribe),
            WatchEvent::BuildFailed => (WatchState::Stopped, WatchAction::Abort),
            _ => (state, WatchAction::Await),
        },
        WatchState::Idle => match event {
            WatchEvent::Changed => (WatchState::Rebuilding, WatchAction::Build),
            WatchEvent::WatchError => (WatchState::Idle, WatchAction::ReportWatchError),
            _ => (state, WatchAction::Await),
        },
        WatchState::Rebuilding => match event {
            WatchEvent::BuildSucceeded => (WatchState::Idle, WatchAction::Await),
            WatchEvent::BuildFailed => (WatchState::Idle, WatchAction::ReportBuildError),
            _ => (state, WatchAction::Await),
        },
        WatchState::Stopped => (WatchState::Stopped, WatchAction::Abort),
    }
}

/// Once the loop serves, no event ends it: a failed rebuild and a failed
/// notification are reported, and the loop goes on.
pub proof fn lemma_serving_never_ends(state: WatchState, event: WatchEvent)
    requires
        is_serving(state),
    ensures
        is_serving(transition(state, event).0),
        transition(state, event).1 != WatchAction::Abort,
{
}

/// A build is started for a settled change while idle, and for nothing
/// else: one rebuild for each.
pub proof fn lemma_one_rebuild_per_change(state: WatchState, event: WatchEvent)
    ensures
        transition(state, event).1 == WatchAction::Build <==> state == WatchState::Idle && event
            == WatchEvent::Changed,
{
}

} // verus!
