//! Providers for exercising the orchestration layer without network or
//! filesystem dependencies: one that always succeeds with a random solid
//! square, and one that follows a script of outcomes.

use vstd::prelude::*;
use crate::avatar_image::{fits_in_memory, random_color, solid_avatar, Avatar};
use crate::avatar_provider::{AvatarProvider, FetchError};
use crate::{transient_step, valid_retry_run, valid_retry_trace, MAX_AVATAR_FETCH_ATTEMPTS};

verus! {

/// A provider that immediately returns a synthetically generated square
/// of the configured size. It has no failure mode and never exhausts.
#[derive(Clone, Copy, Debug)]
pub struct MockAvatarProvider(pub u32);

impl MockAvatarProvider {
    pub fn new(size: u32) -> (r: Self)
        requires
            fits_in_memory(size, size),
        ensures
            r.0 == size,
    {
        MockAvatarProvider(size)
    }
}

impl Default for MockAvatarProvider {
    /// A 512-pixel square.
    fn default() -> (r: Self)
        ensures
            r.0 == 512,
    {
        MockAvatarProvider(512)
    }
}

impl AvatarProvider for MockAvatarProvider {
    open spec fn wf(&self) -> bool {
        fits_in_memory(self.0, self.0)
    }

    open spec fn is_exhausted(&self) -> bool {
        false
    }

    open spec fn left(&self) -> Option<nat> {
        None
    }

    open spec fn fetch_post(pre: Self, post: Self, r: Result<Avatar, FetchError>) -> bool {
        &&& post == pre
        &&& r matches Ok(av) && av.width() == pre.0 && av.height() == pre.0
    }

    fn fetch_avatar(&mut self) -> (r: Result<Avatar, FetchError>) {
        let color = random_color();
        Ok(solid_avatar(self.0, &color))
    }

    fn how_much_is_left(&self) -> (r: Option<usize>) {
        None
    }
}

/// One planned reaction of a scripted provider.
#[derive(Clone, Copy, Debug, PartialEq, Eq, Structural)]
pub enum ScriptedOutcome {
    /// Hand back an avatar.
    Succeed,
    /// Fail with a transient network error.
    FailTransient,
    /// Report the backing set as used up.
    Exhaust,
}

/// A provider that reacts to successive fetches as its script says, and
/// exhausts for good once the script says so or runs out.
#[derive(Debug)]
pub struct ScriptedProvider {
    script: Vec<ScriptedOutcome>,
    next: usize,
    exhausted: bool,
}

impl ScriptedProvider {
    /// The outcomes not yet played.
    pub closed spec fn remaining_script(&self) -> Seq<ScriptedOutcome> {
        self.script@.subrange(self.next as int, self.script@.len() as int)
    }

    pub fn new(script: Vec<ScriptedOutcome>) -> (r: Self)
        ensures
            r.wf(),
            !r.is_exhausted(),
            r.remaining_script() == script@,
    {
        let r = ScriptedProvider { script, next: 0, exhausted: false };
        proof {
            assert(r.remaining_script() =~= r.script@);
        }
        r
    }
}

impl AvatarProvider for ScriptedProvider {
    closed spec fn wf(&self) -> bool {
        self.next <= self.script@.len()
    }

    closed spec fn is_exhausted(&self) -> bool {
        self.exhausted
    }

    closed spec fn left(&self) -> Option<nat> {
        None
    }

    open spec fn fetch_post(pre: Self, post: Self, r: Result<Avatar, FetchError>) -> bool {
        if pre.is_exhausted() {
            post == pre && r == Err::<Avatar, FetchError>(FetchError::NoMoreAvatars)
        } else if pre.remaining_script().len() == 0 {
            &&& post.is_exhausted()
            &&& post.remaining_script() == pre.remaining_script()
            &&& r == Err::<Avatar, FetchError>(FetchError::NoMoreAvatars)
        } else {
            match pre.remaining_script()[0] {
                ScriptedOutcome::Succeed => {
                    &&& r is Ok
                    &&& !post.is_exhausted()
                    &&& post.remaining_script() == pre.remaining_script().drop_first()
                },
                ScriptedOutcome::FailTransient => {
                    &&& r == Err::<Avatar, FetchError>(FetchError::NetworkError)
                    &&& !post.is_exhausted()
                    &&& post.remaining_script() == pre.remaining_script().drop_first()
                },
                ScriptedOutcome::Exhaust => {
                    &&& r == Err::<Avatar, FetchError>(FetchError::NoMoreAvatars)
                    &&& post.is_exhausted()
                    &&& post.remaining_script() == pre.remaining_script()
                },
            }
        }
    }

    fn fetch_avatar(&mut self) -> (r: Result<Avatar, FetchError>) {
        if self.exhausted {
            return Err(FetchError::NoMoreAvatars);
        }
        if self.next >= self.script.len() {
            self.exhausted = true;
            proof {
                assert(self.remaining_script() =~= old(self).remaining_script());
            }
            return Err(FetchError::NoMoreAvatars);
        }
        let outcome = self.script[self.next];
        match outcome {
            ScriptedOutcome::Succeed => {
                self.next = self.next + 1;
                proof {
                    assert(self.remaining_script() =~= old(
                        self,
                    ).remaining_script().drop_first());
                }
                let color = random_color();
                Ok(solid_avatar(1, &color))
            },
            ScriptedOutcome::FailTransient => {
                self.next = self.next + 1;
                proof {
                    assert(self.remaining_script() =~= old(
                        self,
                    ).remaining_script().drop_first());
                }
                Err(FetchError::NetworkError)
            },
            ScriptedOutcome::Exhaust => {
                self.exhausted = true;
                proof {
                    assert(self.remaining_script() =~= old(self).remaining_script());
                }
                Err(FetchError::NoMoreAvatars)
            },
        }
    }

    fn how_much_is_left(&self) -> (r: Option<usize>) {
        None
    }
}

/// Walks the transient prefix of a controller run against a scripted
/// provider: after `j` transiently-failed attempts, the provider has
/// played exactly its first `j` outcomes and is still not exhausted.
proof fn lemma_script_prefix(
    states: Seq<ScriptedProvider>,
    trace: Seq<crate::OutcomeKind>,
    r: Result<Avatar, FetchError>,
    j: int,
)
    requires
        valid_retry_run::<ScriptedProvider>(states, trace, r),
        !states.first().is_exhausted(),
        0 <= j <= trace.len() - 1,
        j <= states.first().remaining_script().len(),
        forall|i: int|
            0 <= i < j ==> states.first().remaining_script()[i]
                == ScriptedOutcome::FailTransient,
    ensures
        states[j].remaining_script() == states.first().remaining_script().skip(j),
        !states[j].is_exhausted(),
    decreases j,
{
    if j == 0 {
        assert(states[0].remaining_script().skip(0) =~= states[0].remaining_script());
    } else {
        lemma_script_prefix(states, trace, r, j - 1);
        assert(transient_step::<ScriptedProvider>(states[j - 1], states[j]));
        let e = choose|e: FetchError|
            e.is_transient() && ScriptedProvider::fetch_post(
                states[j - 1],
                states[j],
                Err::<Avatar, FetchError>(e),
            );
        let rem = states.first().remaining_script().skip(j - 1);
        assert(rem[0] == states.first().remaining_script()[j - 1]);
        assert(states[j].remaining_script() == rem.drop_first());
        assert(rem.drop_first() =~= states.first().remaining_script().skip(j));
    }
}

/// The bounded retry law on success: a controller run against a script
/// of `k` transient failures followed by a success, with `k` within the
/// budget, returned that success on attempt `k + 1` — the provider was
/// asked exactly `k + 1` times and never again.
pub proof fn lemma_run_succeeds_after_k_failures(
    states: Seq<ScriptedProvider>,
    trace: Seq<crate::OutcomeKind>,
    r: Result<Avatar, FetchError>,
    k: int,
)
    requires
        valid_retry_trace(trace, r),
        valid_retry_run::<ScriptedProvider>(states, trace, r),
        !states.first().is_exhausted(),
        0 <= k < MAX_AVATAR_FETCH_ATTEMPTS as int,
        k < states.first().remaining_script().len(),
        forall|i: int|
            0 <= i < k ==> states.first().remaining_script()[i]
                == ScriptedOutcome::FailTransient,
        states.first().remaining_script()[k] == ScriptedOutcome::Succeed,
    ensures
        r is Ok,
        trace.len() == k + 1,
{
    let m = trace.len() - 1;
    if m > k {
        // a step at position k would have to fail transiently, but the
        // script answers it with a success
        lemma_script_prefix(states, trace, r, k);
        assert(transient_step::<ScriptedProvider>(states[k], states[k + 1]));
        let e = choose|e: FetchError|
            e.is_transient() && ScriptedProvider::fetch_post(
                states[k],
                states[k + 1],
                Err::<Avatar, FetchError>(e),
            );
        assert(states[k].remaining_script()[0] == ScriptedOutcome::Succeed);
        assert(false);
    }
    lemma_script_prefix(states, trace, r, m);
    if m < k {
        // the script still says fail, so the last answer is the network
        // error; a surfaced transient error spends the whole budget,
        // which contradicts stopping before `k`
        assert(states[m].remaining_script()[0] == ScriptedOutcome::FailTransient);
        assert(r == Err::<Avatar, FetchError>(FetchError::NetworkError));
        assert(trace.len() == MAX_AVATAR_FETCH_ATTEMPTS as int);
        assert(false);
    }
    assert(states[m].remaining_script()[0] == ScriptedOutcome::Succeed);
}

/// The bounded retry law on give-up: against a script of nothing but
/// transient failures, the controller made exactly its budget of
/// attempts and surfaced the last error.
pub proof fn lemma_run_stops_at_budget(
    states: Seq<ScriptedProvider>,
    trace: Seq<crate::OutcomeKind>,
    r: Result<Avatar, FetchError>,
)
    requires
        valid_retry_trace(trace, r),
        valid_retry_run::<ScriptedProvider>(states, trace, r),
        !states.first().is_exhausted(),
        states.first().remaining_script().len() >= MAX_AVATAR_FETCH_ATTEMPTS as int,
        forall|i: int|
            0 <= i < MAX_AVATAR_FETCH_ATTEMPTS as int ==> states.first().remaining_script()[i]
                == ScriptedOutcome::FailTransient,
    ensures
        r == Err::<Avatar, FetchError>(FetchError::NetworkError),
        trace.len() == MAX_AVATAR_FETCH_ATTEMPTS as int,
{
    let m = trace.len() - 1;
    lemma_script_prefix(states, trace, r, m);
    assert(states[m].remaining_script()[0] == ScriptedOutcome::FailTransient);
    assert(r == Err::<Avatar, FetchError>(FetchError::NetworkError));
}

/// The exhaustion law: against a script of `k` transient failures and
/// then an exhaustion, the controller surfaced the exhaustion at once,
/// on attempt `k + 1`, consuming no further budget.
pub proof fn lemma_run_aborts_on_exhaustion(
    states: Seq<ScriptedProvider>,
    trace: Seq<crate::OutcomeKind>,
    r: Result<Avatar, FetchError>,
    k: int,
)
    requires
        valid_retry_trace(trace, r),
        valid_retry_run::<ScriptedProvider>(states, trace, r),
        !states.first().is_exhausted(),
        0 <= k < MAX_AVATAR_FETCH_ATTEMPTS as int,
        k < states.first().remaining_script().len(),
        forall|i: int|
            0 <= i < k ==> states.first().remaining_script()[i]
                == ScriptedOutcome::FailTransient,
        states.first().remaining_script()[k] == ScriptedOutcome::Exhaust,
    ensures
        r == Err::<Avatar, FetchError>(FetchError::NoMoreAvatars),
        trace.len() == k + 1,
{
    let m = trace.len() - 1;
    if m > k {
        // a step at position k would have to fail transiently, but the
        // script answers it with the terminal exhaustion
        lemma_script_prefix(states, trace, r, k);
        assert(transient_step::<ScriptedProvider>(states[k], states[k + 1]));
        let e = choose|e: FetchError|
            e.is_transient() && ScriptedProvider::fetch_post(
                states[k],
                states[k + 1],
                Err::<Avatar, FetchError>(e),
            );
        assert(states[k].remaining_script()[0] == ScriptedOutcome::Exhaust);
        assert(false);
    }
    lemma_script_prefix(states, trace, r, m);
    if m < k {
        assert(states[m].remaining_script()[0] == ScriptedOutcome::FailTransient);
        assert(r == Err::<Avatar, FetchError>(FetchError::NetworkError));
        assert(trace.len() == MAX_AVATAR_FETCH_ATTEMPTS as int);
        assert(false);
    }
    assert(states[m].remaining_script()[0] == ScriptedOutcome::Exhaust);
}

} // verus!
