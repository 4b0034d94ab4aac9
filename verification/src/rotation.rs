//! The top-level rotation loop as a state machine: acquire, publish,
//! sleep, repeat, until the provider reports permanent exhaustion.

use vstd::prelude::*;

verus! {

/// Where the rotation stands.
#[derive(Clone, Copy, Debug, PartialEq, Eq, Structural)]
pub enum RotationState {
    /// No cycle has started yet.
    Idle,
    /// A cycle is fetching an avatar from the provider.
    Fetching,
    /// A fetched avatar is being published.
    Publishing,
    /// Waiting out the configured inter-cycle duration.
    Sleeping,
    /// The provider is exhausted; the rotation is over for good.
    Terminated,
}

/// What one cycle reported back to the rotation.
#[derive(Clone, Copy, Debug, PartialEq, Eq, Structural)]
pub enum RotationEvent {
    /// The rotation was told to begin its first cycle.
    CycleStart,
    /// The fetch produced an avatar.
    FetchSucceeded,
    /// The provider reported permanent exhaustion.
    FetchExhausted,
    /// The fetch failed even after its whole retry budget.
    FetchFailed,
    /// The publish protocol succeeded.
    PublishSucceeded,
    /// The publish protocol gave the cycle up as fatal.
    PublishFailed,
    /// The inter-cycle sleep has elapsed.
    SleepElapsed,
}

/// The rotation's transition relation. A failed fetch or a failed
/// publish only skips the cycle: the rotation sleeps and goes on.
/// Exhaustion alone terminates it, cleanly, and termination is final.
/// An event that does not belong to the current state changes nothing.
pub open spec fn rotation_next(s: RotationState, e: RotationEvent) -> RotationState {
    match (s, e) {
        (RotationState::Idle, RotationEvent::CycleStart) => RotationState::Fetching,
        (RotationState::Fetching, RotationEvent::FetchSucceeded) => RotationState::Publishing,
        (RotationState::Fetching, RotationEvent::FetchExhausted) => RotationState::Terminated,
        (RotationState::Fetching, RotationEvent::FetchFailed) => RotationState::Sleeping,
        (RotationState::Publishing, RotationEvent::PublishSucceeded) => RotationState::Sleeping,
        (RotationState::Publishing, RotationEvent::PublishFailed) => RotationState::Sleeping,
        (RotationState::Sleeping, RotationEvent::SleepElapsed) => RotationState::Fetching,
        (other, _) => other,
    }
}

/// Advances the rotation by one reported event.
pub fn rotation_step(s: RotationState, e: RotationEvent) -> (r: RotationState)
    ensures
        r == rotation_next(s, e),
{
    match (s, e) {
        (RotationState::Idle, RotationEvent::CycleStart) => RotationState::Fetching,
        (RotationState::Fetching, RotationEvent::FetchSucceeded) => RotationState::Publishing,
        (RotationState::Fetching, RotationEvent::FetchExhausted) => RotationState::Terminated,
        (RotationState::Fetching, RotationEvent::FetchFailed) => RotationState::Sleeping,
        (RotationState::Publishing, RotationEvent::PublishSucceeded) => RotationState::Sleeping,
        (RotationState::Publishing, RotationEvent::PublishFailed) => RotationState::Sleeping,
        (RotationState::Sleeping, RotationEvent::SleepElapsed) => RotationState::Fetching,
        (other, _) => other,
    }
}

/// Termination is absorbing: no event ever leaves `Terminated`.
pub proof fn lemma_terminated_absorbing(e: RotationEvent)
    ensures
        rotation_next(RotationState::Terminated, e) == RotationState::Terminated,
{
}

/// Only provider exhaustion ever terminates the rotation: a fetch or
/// publish failure never does.
pub proof fn lemma_only_exhaustion_terminates(s: RotationState, e: RotationEvent)
    ensures
        rotation_next(s, e) == RotationState::Terminated <==> (s == RotationState::Terminated || (
        s == RotationState::Fetching && e == RotationEvent::FetchExhausted)),
{
}

} // verus!
