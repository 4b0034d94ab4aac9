//! The rotation state machine: cycles go on through failures, and only
//! exhaustion terminates the rotation.

use tg_avatar_changer_bot::rotation::{rotation_step, RotationEvent, RotationState};

#[test]
fn rotation_happy_cycle() {
    let s = RotationState::Idle;
    let s = rotation_step(s, RotationEvent::CycleStart);
    assert_eq!(s, RotationState::Fetching);
    let s = rotation_step(s, RotationEvent::FetchSucceeded);
    assert_eq!(s, RotationState::Publishing);
    let s = rotation_step(s, RotationEvent::PublishSucceeded);
    assert_eq!(s, RotationState::Sleeping);
    let s = rotation_step(s, RotationEvent::SleepElapsed);
    assert_eq!(s, RotationState::Fetching);
}

#[test]
fn rotation_failures_only_skip_the_cycle() {
    let s = rotation_step(RotationState::Fetching, RotationEvent::FetchFailed);
    assert_eq!(s, RotationState::Sleeping);
    let s = rotation_step(RotationState::Publishing, RotationEvent::PublishFailed);
    assert_eq!(s, RotationState::Sleeping);
    let s = rotation_step(s, RotationEvent::SleepElapsed);
    assert_eq!(s, RotationState::Fetching);
}

#[test]
fn rotation_exhaustion_terminates() {
    let s = rotation_step(RotationState::Fetching, RotationEvent::FetchExhausted);
    assert_eq!(s, RotationState::Terminated);
}

#[test]
fn rotation_terminated_is_absorbing() {
    let events = vec![
        RotationEvent::CycleStart,
        RotationEvent::FetchSucceeded,
        RotationEvent::FetchExhausted,
        RotationEvent::FetchFailed,
        RotationEvent::PublishSucceeded,
        RotationEvent::PublishFailed,
        RotationEvent::SleepElapsed,
    ];
    for e in events {
        assert_eq!(rotation_step(RotationState::Terminated, e), RotationState::Terminated);
    }
}

#[test]
fn rotation_ignores_events_out_of_turn() {
    assert_eq!(
        rotation_step(RotationState::Idle, RotationEvent::SleepElapsed),
        RotationState::Idle
    );
    assert_eq!(
        rotation_step(RotationState::Sleeping, RotationEvent::FetchSucceeded),
        RotationState::Sleeping
    );
}
