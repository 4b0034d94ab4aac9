//! The rate-limit-aware publish protocol: persist the avatar to scratch
//! storage, call the identity service, retry for as long as the service
//! only rate-limits, and release the scratch file on every exit path.

use vstd::prelude::*;
use crate::avatar_image::{encode_jpeg, Avatar};
use crate::avatar_provider::FetchError;
use crate::cooldown::spec_retry_time;
use crate::parse_retry_time;

verus! {

/// Re-encodes an avatar into the fixed compressed format the scratch
/// file holds: the compute half of the persist step, whose file write
/// is the caller's. Encoding succeeds for every avatar whose sides the
/// format supports; a value that cannot be re-encoded is a persist
/// failure of the cycle.
pub fn scratch_bytes(av: &Avatar) -> (r: Result<Vec<u8>, FetchError>)
    ensures
        (1 <= av.width() <= 65535 && 1 <= av.height() <= 65535) ==> r is Ok,
        r matches Err(e) ==> e == FetchError::ImageError,
{
    encode_jpeg(av)
}

/// The HTTP status the identity service uses for rate limiting.
pub const RATE_LIMITED_CODE: i32 = 429;

/// An error the identity service answered a mutation call with.
#[derive(Debug)]
pub struct ServiceError {
    pub code: i32,
    pub message: String,
}

/// What to do about one service error.
#[derive(Clone, Copy, Debug, PartialEq, Eq, Structural)]
pub enum PublishStep {
    /// Sleep this many seconds, then repeat the identical call.
    RetryAfter(u64),
    /// Give the error up as fatal; the cycle is abandoned.
    Fatal,
}

/// The reaction the protocol owes one service error: only a rate limit
/// whose message carries a parseable cooldown is retried, after waiting
/// one second longer than directed; everything else is fatal. A wait
/// that would not fit a `u64` is clamped to its largest value.
pub open spec fn spec_publish_step(code: int, message: Seq<char>) -> PublishStep {
    if code != RATE_LIMITED_CODE as int {
        PublishStep::Fatal
    } else {
        match spec_retry_time(message) {
            Some(v) => if 0 <= v < u64::MAX as int {
                PublishStep::RetryAfter((v + 1) as u64)
            } else if v == u64::MAX as int {
                PublishStep::RetryAfter(u64::MAX)
            } else {
                PublishStep::Fatal
            },
            None => PublishStep::Fatal,
        }
    }
}

/// Decides what one service error means for the publish loop. A rate
/// limit with an unparseable message degrades to a fatal error: the
/// protocol never guesses a wait duration.
pub fn publish_decision(err: &ServiceError) -> (s: PublishStep)
    ensures
        s == spec_publish_step(err.code as int, err.message@),
{
    if err.code != RATE_LIMITED_CODE {
        return PublishStep::Fatal;
    }
    match parse_retry_time(err.message.as_str()) {
        Some(v) => {
            if v < u64::MAX {
                PublishStep::RetryAfter(v + 1)
            } else {
                PublishStep::RetryAfter(u64::MAX)
            }
        },
        None => PublishStep::Fatal,
    }
}

/// How one publish cycle ended.
#[derive(Debug, PartialEq, Eq)]
pub enum PublishResult {
    /// The service accepted the avatar.
    Published,
    /// The avatar could not be re-encoded or written to scratch storage.
    PersistError(FetchError),
    /// The service answered with an error that is not a parseable rate
    /// limit: its status code and its message text, kept for the caller
    /// and its log.
    ServiceFatal { code: i32, message: String },
}

/// Where one publish cycle stands.
#[derive(Debug, PartialEq, Eq)]
pub enum PublishPhase {
    /// The avatar is being re-encoded and written to the scratch file.
    Persisting,
    /// The mutation call is in flight.
    Calling,
    /// A rate limit was answered; waiting out the directed cooldown.
    CoolingDown { wait_secs: u64 },
    /// The outcome is settled; the scratch file is being deleted.
    Releasing { result: PublishResult },
    /// The cycle is over and the scratch file is gone.
    Done { result: PublishResult },
}

/// What the world reported back to the cycle.
#[derive(Debug)]
pub enum PublishEvent {
    /// The avatar was written to the scratch file.
    Persisted,
    /// Re-encoding or writing the avatar failed.
    PersistFailed(FetchError),
    /// The mutation call succeeded.
    CallSucceeded,
    /// The mutation call failed with this error.
    CallFailed(ServiceError),
    /// The directed cooldown has elapsed.
    CooldownElapsed,
    /// The scratch file was deleted.
    ScratchReleased,
}

/// What the cycle asks to be done next.
#[derive(Clone, Copy, Debug, PartialEq, Eq, Structural)]
pub enum PublishAction {
    /// Re-encode the avatar and write it to the scratch file.
    WriteScratch,
    /// Call the identity service's mutation.
    CallService,
    /// Sleep this many seconds.
    Sleep { secs: u64 },
    /// Delete the scratch file.
    ReleaseScratch,
    /// Nothing is left to do.
    Finished,
}

/// Which events a phase can answer.
pub open spec fn event_fits(phase: PublishPhase, event: PublishEvent) -> bool {
    match phase {
        PublishPhase::Persisting => event is Persisted || event is PersistFailed,
        PublishPhase::Calling => event is CallSucceeded || event is CallFailed,
        PublishPhase::CoolingDown { .. } => event is CooldownElapsed,
        PublishPhase::Releasing { .. } => event is ScratchReleased,
        PublishPhase::Done { .. } => false,
    }
}

/// One publish cycle: a scratch file exists from the moment the cycle
/// begins until the moment its outcome is settled and it is released.
///
/// The well-formedness invariant is the scratch-file law: the scratch
/// file lives exactly as long as the cycle is not done. In particular it
/// is never deleted while a call or a cooldown is pending, and it no
/// longer exists once the cycle reports either outcome.
#[derive(Debug, PartialEq, Eq)]
pub struct PublishCycle {
    pub phase: PublishPhase,
    pub scratch_live: bool,
}

impl PublishCycle {
    /// The scratch file lives exactly while the cycle is unfinished.
    pub open spec fn wf(&self) -> bool {
        self.scratch_live <==> !(self.phase is Done)
    }

    /// Starts a cycle: the scratch file has just been created, and the
    /// first thing owed is to write the avatar into it.
    pub fn begin() -> (out: (Self, PublishAction))
        ensures
            out.0.wf(),
            out.0.phase is Persisting,
            out.0.scratch_live,
            out.1 == PublishAction::WriteScratch,
    {
        (
            PublishCycle { phase: PublishPhase::Persisting, scratch_live: true },
            PublishAction::WriteScratch,
        )
    }

    /// The settled outcome, once the cycle is done.
    pub fn result(self) -> (r: Option<PublishResult>)
        ensures
            match r {
                Some(res) => self.phase == (PublishPhase::Done { result: res }),
                None => !(self.phase is Done),
            },
    {
        match self.phase {
            PublishPhase::Done { result } => Some(result),
            _ => None,
        }
    }

    /// Answers one event with the next cycle state and the next thing to
    /// do. The reaction to a service error is exactly what
    /// `publish_decision` says: a directed cooldown is slept out and the
    /// identical call repeated; anything else settles the outcome, and
    /// the scratch file is released before the cycle reports it.
    pub fn step(self, event: PublishEvent) -> (out: (Self, PublishAction))
        requires
            self.wf(),
            event_fits(self.phase, event),
        ensures
            out.0.wf(),
            out.0.scratch_live == !(out.0.phase is Done),
            (self.phase is Persisting && event is Persisted) ==> out.0.phase is Calling && out.1
                == PublishAction::CallService,
            self.phase is Persisting ==> (event matches PublishEvent::PersistFailed(e)
                ==> out.0.phase == (PublishPhase::Releasing {
                result: PublishResult::PersistError(e),
            }) && out.1 == PublishAction::ReleaseScratch),
            (self.phase is Calling && event is CallSucceeded) ==> out.0.phase == (
            PublishPhase::Releasing { result: PublishResult::Published })
                && out.1 == PublishAction::ReleaseScratch,
            self.phase is Calling ==> (event matches PublishEvent::CallFailed(err) ==> match
                spec_publish_step(err.code as int, err.message@) {
                PublishStep::RetryAfter(d) => out.0.phase == (PublishPhase::CoolingDown {
                    wait_secs: d,
                }) && out.1 == (PublishAction::Sleep { secs: d }),
                PublishStep::Fatal => out.0.phase == (PublishPhase::Releasing {
                    result: PublishResult::ServiceFatal { code: err.code, message: err.message },
                }) && out.1 == PublishAction::ReleaseScratch,
            }),
            (self.phase is CoolingDown && event is CooldownElapsed)
                ==> out.0.phase is Calling && out.1 == PublishAction::CallService,
            event is ScratchReleased ==> (self.phase matches PublishPhase::Releasing {
                result,
            } ==> out.0.phase == (PublishPhase::Done { result })
                && !out.0.scratch_live && out.1 == PublishAction::Finished),
    {
        let PublishCycle { phase, scratch_live } = self;
        match (phase, event) {
            (PublishPhase::Persisting, PublishEvent::Persisted) => (
                PublishCycle { phase: PublishPhase::Calling, scratch_live },
                PublishAction::CallService,
            ),
            (PublishPhase::Persisting, PublishEvent::PersistFailed(e)) => (
                PublishCycle {
                    phase: PublishPhase::Releasing { result: PublishResult::PersistError(e) },
                    scratch_live,
                },
                PublishAction::ReleaseScratch,
            ),
            (PublishPhase::Calling, PublishEvent::CallSucceeded) => (
                PublishCycle {
                    phase: PublishPhase::Releasing { result: PublishResult::Published },
                    scratch_live,
                },
                PublishAction::ReleaseScratch,
            ),
            (PublishPhase::Calling, PublishEvent::CallFailed(err)) => {
                match publish_decision(&err) {
                    PublishStep::RetryAfter(d) => (
                        PublishCycle {
                            phase: PublishPhase::CoolingDown { wait_secs: d },
                            scratch_live,
                        },
                        PublishAction::Sleep { secs: d },
                    ),
                    PublishStep::Fatal => (
                        PublishCycle {
                            phase: PublishPhase::Releasing {
                                result: PublishResult::ServiceFatal {
                                    code: err.code,
                                    message: err.message,
                                },
                            },
                            scratch_live,
                        },
                        PublishAction::ReleaseScratch,
                    ),
                }
            },
            (PublishPhase::CoolingDown { .. }, PublishEvent::CooldownElapsed) => (
                PublishCycle { phase: PublishPhase::Calling, scratch_live },
                PublishAction::CallService,
            ),
            (PublishPhase::Releasing { result }, PublishEvent::ScratchReleased) => (
                PublishCycle { phase: PublishPhase::Done { result }, scratch_live: false },
                PublishAction::Finished,
            ),
            _ => {
                // ruled out by the precondition
                proof {
                    assert(false);
                }
                (
                    PublishCycle { phase: PublishPhase::Persisting, scratch_live: false },
                    PublishAction::Finished,
                )
            },
        }
    }
}

/// The scratch-file law: however a publish cycle ends, with the service
/// having accepted the avatar or with a fatal error, the scratch file no
/// longer exists once the cycle is done; and it still exists while a
/// call or a cooldown is pending, so it is never deleted before the
/// final successful call completes.
pub proof fn lemma_scratch_lifecycle(c: &PublishCycle)
    requires
        c.wf(),
    ensures
        c.phase is Done ==> !c.scratch_live,
        (c.phase is Calling || c.phase is CoolingDown || c.phase is Persisting)
            ==> c.scratch_live,
{
}

} // verus!
