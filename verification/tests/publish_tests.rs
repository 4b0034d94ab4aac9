//! The publish protocol: rate limits retried with the directed wait,
//! everything else fatal, and the scratch file gone on every exit path.

use tg_avatar_changer_bot::avatar_provider::FetchError;
use tg_avatar_changer_bot::publish::{
    publish_decision, PublishAction, PublishCycle, PublishEvent, PublishResult, PublishStep,
    ServiceError,
};

fn rate_limited(message: &str) -> ServiceError {
    ServiceError { code: 429, message: message.to_string() }
}

#[test]
fn decision_waits_one_second_longer_than_directed() {
    let step = publish_decision(&rate_limited("Too Many Requests: retry after 294"));
    assert_eq!(step, PublishStep::RetryAfter(295));
}

#[test]
fn decision_unparseable_rate_limit_is_fatal() {
    let step = publish_decision(&rate_limited("Too Many Requests"));
    assert_eq!(step, PublishStep::Fatal);
}

#[test]
fn decision_other_codes_are_fatal() {
    let err = ServiceError { code: 400, message: "retry after 5".to_string() };
    assert_eq!(publish_decision(&err), PublishStep::Fatal);
    let err = ServiceError { code: 500, message: "boom".to_string() };
    assert_eq!(publish_decision(&err), PublishStep::Fatal);
}

#[test]
fn publish_retries_after_rate_limit_then_succeeds() {
    let (cycle, first) = PublishCycle::begin();
    assert_eq!(first, PublishAction::WriteScratch);
    assert!(cycle.scratch_live);

    let (cycle, action) = cycle.step(PublishEvent::Persisted);
    assert_eq!(action, PublishAction::CallService);

    // first call: rate limited with a directed wait of 294 seconds
    let (cycle, action) = cycle.step(PublishEvent::CallFailed(rate_limited(
        "Too Many Requests: retry after 294",
    )));
    let waited = match action {
        PublishAction::Sleep { secs } => secs,
        other => panic!("expected a sleep, got {:?}", other),
    };
    assert!(waited >= 294);
    assert_eq!(waited, 295);
    assert!(cycle.scratch_live);

    // the identical call is repeated after the cooldown and succeeds
    let (cycle, action) = cycle.step(PublishEvent::CooldownElapsed);
    assert_eq!(action, PublishAction::CallService);
    let (cycle, action) = cycle.step(PublishEvent::CallSucceeded);
    assert_eq!(action, PublishAction::ReleaseScratch);
    let (cycle, action) = cycle.step(PublishEvent::ScratchReleased);
    assert_eq!(action, PublishAction::Finished);

    assert!(!cycle.scratch_live);
    assert_eq!(cycle.result(), Some(PublishResult::Published));
}

#[test]
fn publish_unparseable_rate_limit_fails_without_retrying() {
    let (cycle, _) = PublishCycle::begin();
    let (cycle, action) = cycle.step(PublishEvent::Persisted);
    assert_eq!(action, PublishAction::CallService);

    // no parseable number: fatal immediately, no sleep
    let (cycle, action) = cycle.step(PublishEvent::CallFailed(rate_limited("Too Many Requests")));
    assert_eq!(action, PublishAction::ReleaseScratch);
    let (cycle, action) = cycle.step(PublishEvent::ScratchReleased);
    assert_eq!(action, PublishAction::Finished);

    assert!(!cycle.scratch_live);
    assert_eq!(
        cycle.result(),
        Some(PublishResult::ServiceFatal { code: 429, message: "Too Many Requests".to_string() })
    );
}

#[test]
fn publish_fatal_error_releases_scratch() {
    let (cycle, _) = PublishCycle::begin();
    let (cycle, action) = cycle.step(PublishEvent::Persisted);
    assert_eq!(action, PublishAction::CallService);
    let err = ServiceError { code: 500, message: "internal".to_string() };
    let (cycle, action) = cycle.step(PublishEvent::CallFailed(err));
    assert_eq!(action, PublishAction::ReleaseScratch);
    let (cycle, action) = cycle.step(PublishEvent::ScratchReleased);
    assert_eq!(action, PublishAction::Finished);
    assert!(!cycle.scratch_live);
    assert_eq!(
        cycle.result(),
        Some(PublishResult::ServiceFatal { code: 500, message: "internal".to_string() })
    );
}

#[test]
fn publish_persist_failure_releases_scratch() {
    let (cycle, _) = PublishCycle::begin();
    let (cycle, action) = cycle.step(PublishEvent::PersistFailed(FetchError::ImageError));
    assert_eq!(action, PublishAction::ReleaseScratch);
    let (cycle, action) = cycle.step(PublishEvent::ScratchReleased);
    assert_eq!(action, PublishAction::Finished);
    assert!(!cycle.scratch_live);
    assert_eq!(
        cycle.result(),
        Some(PublishResult::PersistError(FetchError::ImageError))
    );
}
