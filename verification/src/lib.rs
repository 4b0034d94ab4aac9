//! Rotating-avatar engine: image providers, a bounded fetch-retry
//! controller, a rate-limit-aware publish protocol and the rotation
//! state machine that drives one fetch -> persist -> publish -> sleep
//! cycle after another.

pub mod avatar_image;
pub mod avatar_provider;
pub mod cooldown;
pub mod publish;
pub mod rotation;
pub mod transform;

pub use cooldown::parse_retry_time;

use vstd::prelude::*;
use crate::avatar_image::Avatar;
use crate::avatar_provider::{AvatarProvider, FetchError};

verus! {

/// The bounded retry budget of one rotation cycle: how many times a
/// fetch is attempted before the cycle is given up.
pub const MAX_AVATAR_FETCH_ATTEMPTS: u8 = 5;

/// The kind of outcome one fetch attempt had.
#[derive(Clone, Copy, Debug, PartialEq, Eq, Structural)]
pub enum OutcomeKind {
    /// The provider handed an avatar back.
    Success,
    /// The provider's backing set is used up.
    Exhausted,
    /// A transient failure: the attempt may be retried.
    Transient,
}

/// The kind of one fetch result.
pub open spec fn outcome_kind(r: Result<Avatar, FetchError>) -> OutcomeKind {
    match r {
        Ok(_) => OutcomeKind::Success,
        Err(FetchError::NoMoreAvatars) => OutcomeKind::Exhausted,
        Err(_) => OutcomeKind::Transient,
    }
}

/// The shape of a run of the bounded retry controller: `trace` has one
/// entry per attempt, oldest first, and `r` is what the controller
/// returned. (That the entries are the provider's actual answers is
/// said by `valid_retry_run`, which relates the trace to the provider
/// states the run walked through.)
///
/// Every attempt but the last failed transiently. A success or an
/// exhaustion ends the run at once; so a provider that fails `k` times
/// and then succeeds, with `k` below the budget, costs exactly `k + 1`
/// attempts. Only a full budget of transient failures makes the
/// controller give up, surfacing the last error after exactly
/// `MAX_AVATAR_FETCH_ATTEMPTS` attempts.
pub open spec fn valid_retry_trace(trace: Seq<OutcomeKind>, r: Result<Avatar, FetchError>) -> bool {
    &&& 1 <= trace.len() <= MAX_AVATAR_FETCH_ATTEMPTS
    &&& forall|i: int| 0 <= i < trace.len() - 1 ==> trace[i] is Transient
    &&& trace.last() == outcome_kind(r)
    &&& r matches Err(e) ==> (e.is_transient() ==> trace.len() == MAX_AVATAR_FETCH_ATTEMPTS)
}

/// One controller attempt that failed transiently: the provider moved
/// from `pre` to `post` answering some transient error, as its own
/// fetch contract describes.
pub open spec fn transient_step<P: AvatarProvider>(pre: P, post: P) -> bool {
    exists|e: FetchError|
        e.is_transient() && #[trigger] P::fetch_post(pre, post, Err::<Avatar, FetchError>(e))
}

/// The provider's side of a controller run: `states` are the provider
/// values the run walked through, one more than the attempts in
/// `trace`. Each attempt but the last was answered with a transient
/// error, and the last was answered with exactly what the controller
/// returned — every entry of the trace is an answer the provider
/// actually gave, in order.
pub open spec fn valid_retry_run<P: AvatarProvider>(
    states: Seq<P>,
    trace: Seq<OutcomeKind>,
    r: Result<Avatar, FetchError>,
) -> bool {
    &&& states.len() == trace.len() + 1
    &&& trace.len() >= 1
    &&& forall|i: int|
        0 <= i < trace.len() - 1 ==> transient_step::<P>(#[trigger] states[i], states[i + 1])
    &&& P::fetch_post(states[trace.len() - 1], states[trace.len() as int], r)
    &&& forall|i: int| 0 <= i < states.len() ==> (#[trigger] states[i]).wf()
}

/// Whether the bounded retry controller tries again after this attempt:
/// only while budget is left, and only for a transient failure. Success
/// ends the cycle, and so does exhaustion, at once.
pub fn should_retry_fetch(attempt: u8, r: &Result<Avatar, FetchError>) -> (b: bool)
    ensures
        b == (attempt < MAX_AVATAR_FETCH_ATTEMPTS && (match r {
            Ok(_) => false,
            Err(e) => e.is_transient(),
        })),
{
    attempt < MAX_AVATAR_FETCH_ATTEMPTS && (match r {
        Ok(_) => false,
        Err(e) => !matches!(e, FetchError::NoMoreAvatars),
    })
}

/// Rotates one avatar for one identity: fetches from its provider with
/// a bounded retry budget, and hands what it fetched on to be published
/// every `change_duration` seconds.
#[derive(Debug)]
pub struct AvatarChanger<P> {
    pub provider: P,
    pub client_id: i32,
    pub change_duration: u64,
}

impl<P: AvatarProvider> AvatarChanger<P> {
    pub fn new(provider: P, client_id: i32, change_duration: u64) -> (r: Self)
        ensures
            r.provider == provider,
            r.client_id == client_id,
            r.change_duration == change_duration,
    {
        AvatarChanger { provider, client_id, change_duration }
    }

    /// One cycle's fetch: asks the provider for an avatar up to
    /// `MAX_AVATAR_FETCH_ATTEMPTS` times. Exhaustion is terminal and is
    /// surfaced at once without consuming further budget; transient
    /// failures are retried until the budget is gone, and then the last
    /// error is surfaced. The returned trace records the attempts made,
    /// and the run witness binds each of its entries to an answer the
    /// provider actually gave.
    pub fn fetch_avatar_with_retry(&mut self) -> (out: (
        Result<Avatar, FetchError>,
        Ghost<Seq<OutcomeKind>>,
    ))
        requires
            old(self).provider.wf(),
        ensures
            final(self).provider.wf(),
            final(self).client_id == old(self).client_id,
            final(self).change_duration == old(self).change_duration,
            valid_retry_trace(out.1@, out.0),
            exists|states: Seq<P>|
                #[trigger] valid_retry_run::<P>(states, out.1@, out.0) && states.first() == old(
                    self,
                ).provider && states.last() == final(self).provider,
            old(self).provider.is_exhausted() ==> out.0 == Err::<Avatar, FetchError>(
                FetchError::NoMoreAvatars,
            ) && out.1@.len() == 1,
            out.0 == Err::<Avatar, FetchError>(FetchError::NoMoreAvatars)
                ==> final(self).provider.is_exhausted(),
    {
        let mut attempt: u8 = 1;
        let ghost mut trace: Seq<OutcomeKind> = Seq::empty();
        let ghost mut states: Seq<P> = seq![old(self).provider];
        loop
            invariant
                1 <= attempt <= MAX_AVATAR_FETCH_ATTEMPTS,
                trace.len() == attempt - 1,
                forall|i: int| 0 <= i < trace.len() ==> trace[i] is Transient,
                states.len() == trace.len() + 1,
                states.first() == old(self).provider,
                states.last() == self.provider,
                forall|i: int|
                    0 <= i < trace.len() ==> transient_step::<P>(
                        #[trigger] states[i],
                        states[i + 1],
                    ),
                forall|i: int| 0 <= i < states.len() ==> (#[trigger] states[i]).wf(),
                self.provider.wf(),
                !old(self).provider.is_exhausted() || trace.len() == 0,
                self.client_id == old(self).client_id,
                self.change_duration == old(self).change_duration,
            decreases MAX_AVATAR_FETCH_ATTEMPTS - attempt,
        {
            let ghost pre = self.provider;
            let r = self.provider.fetch_avatar();
            proof {
                states = states.push(self.provider);
            }
            match r {
                Ok(avatar) => {
                    proof {
                        trace = trace.push(OutcomeKind::Success);
                        assert(valid_retry_run::<P>(states, trace, Ok(avatar)));
                    }
                    return (Ok(avatar), Ghost(trace));
                },
                Err(FetchError::NoMoreAvatars) => {
                    proof {
                        trace = trace.push(OutcomeKind::Exhausted);
                        assert(valid_retry_run::<P>(
                            states,
                            trace,
                            Err::<Avatar, FetchError>(FetchError::NoMoreAvatars),
                        ));
                    }
                    return (Err(FetchError::NoMoreAvatars), Ghost(trace));
                },
                Err(err) => {
                    proof {
                        trace = trace.push(OutcomeKind::Transient);
                        assert(P::fetch_post(pre, self.provider, Err::<Avatar, FetchError>(err)));
                        assert(transient_step::<P>(pre, self.provider));
                    }
                    if attempt >= MAX_AVATAR_FETCH_ATTEMPTS {
                        proof {
                            assert(valid_retry_run::<P>(
                                states,
                                trace,
                                Err::<Avatar, FetchError>(err),
                            ));
                        }
                        return (Err(err), Ghost(trace));
                    }
                    attempt += 1;
                },
            }
        }
    }

    /// The provider's own report of how many fetches are still backed.
    pub fn how_much_is_left(&self) -> (r: Option<usize>)
        requires
            self.provider.wf(),
        ensures
            match r {
                Some(n) => self.provider.left() == Some(n as nat),
                None => self.provider.left() is None,
            },
    {
        self.provider.how_much_is_left()
    }
}

} // verus!
