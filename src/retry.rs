//! The bounded retry of an execution: a fixed number of attempts, no delay,
//! stopping at the first success.
use vstd::prelude::*;

verus! {

/// How many times an execution is attempted at most.
pub const MAX_ATTEMPTS: u32 = 3;

/// The progress of the retries.
#[derive(Clone, Copy, Debug, PartialEq, Eq, Structural)]
pub struct Retry {
    /// The attempts made so far.
    pub attempts: u32,
    /// Whether the last attempt succeeded.
    pub succeeded: bool,
}

/// What to do next.
#[derive(Clone, Copy, Debug, PartialEq, Eq, Structural)]
pub enum RetryAction {
    /// Make the attempt with this index, counted from zero.
    Attempt(u32),
    /// Stop; whether an attempt succeeded.
    Stop(bool),
}

impl Retry {
    /// No more attempts than allowed were made.
    pub open spec fn wf(self) -> bool {
        self.attempts <= MAX_ATTEMPTS
    }

    /// Whether the retries are over.
    pub open spec fn done(self) -> bool {
        self.succeeded || self.attempts >= MAX_ATTEMPTS
    }

    /// The state after one more attempt with the given outcome.
    pub open spec fn after(self, ok: bool) -> Retry {
        Retry { attempts: (self.attempts + 1) as u32, succeeded: ok }
    }

    /// Before the first attempt.
    pub fn new() -> (r: Retry)
        ensures
            r == (Retry { attempts: 0, succeeded: false }),
            r.wf(),
    {
        Retry { attempts: 0, succeeded: false }
    }

    /// The next action: stop after a success or after the last allowed
    /// attempt, else attempt again.
    pub fn next_action(&self) -> (r: RetryAction)
        requires
            self.wf(),
        ensures
            self.done() ==> r == RetryAction::Stop(self.succeeded),
            !self.done() ==> r == RetryAction::Attempt(self.attempts),
    {
        if self.succeeded || self.attempts >= MAX_ATTEMPTS {
            RetryAction::Stop(self.succeeded)
        } else {
            RetryAction::Attempt(self.attempts)
        }
    }

    /// Records the outcome of the attempt that [`Retry::next_action`] asked for.
    pub fn record(&mut self, ok: bool)
        requires
            old(self).wf(),
            !old(self).done(),
        ensures
            *final(self) == old(self).after(ok),
            final(self).wf(),
    {
        self.attempts = self.attempts + 1;
        self.succeeded = ok;
    }
}

/// The outcome of the attempt with index `i`: as `outcomes` gives it, and a
/// failure beyond its end.
pub open spec fn outcome(outcomes: Seq<bool>, i: int) -> bool {
    0 <= i < outcomes.len() && outcomes[i]
}

/// The number of attempts made from `s` on, where `outcomes` gives the outcome
/// of each attempt by its index.
pub open spec fn attempts_made(s: Retry, outcomes: Seq<bool>) -> nat
    decreases MAX_ATTEMPTS - s.attempts,
{
    if s.done() {
        s.attempts as nat
    } else {
        attempts_made(s.after(outcome(outcomes, s.attempts as int)), outcomes)
    }
}

/// An execution that always fails is attempted exactly as often as allowed,
/// and no more.
pub proof fn lemma_failing_attempts_bounded(outcomes: Seq<bool>)
    requires
        forall|i: int| 0 <= i < outcomes.len() ==> !outcomes[i],
    ensures
        attempts_made(Retry { attempts: 0, succeeded: false }, outcomes) == MAX_ATTEMPTS,
{
    let s0 = Retry { attempts: 0, succeeded: false };
    let s1 = s0.after(false);
    let s2 = s1.after(false);
    let s3 = s2.after(false);
    assert(!outcome(outcomes, 0));
    assert(!outcome(outcomes, 1));
    assert(!outcome(outcomes, 2));
    assert(attempts_made(s3, outcomes) == 3);
    assert(attempts_made(s2, outcomes) == attempts_made(s3, outcomes));
    assert(attempts_made(s1, outcomes) == attempts_made(s2, outcomes));
    assert(attempts_made(s0, outcomes) == attempts_made(s1, outcomes));
}

/// Whatever the outcomes, no attempt is made beyond the allowed number.
pub proof fn lemma_attempts_at_most(s: Retry, outcomes: Seq<bool>)
    requires
        s.wf(),
    ensures
        attempts_made(s, outcomes) <= MAX_ATTEMPTS,
    decreases MAX_ATTEMPTS - s.attempts,
{
    if !s.done() {
        lemma_attempts_at_most(s.after(outcome(outcomes, s.attempts as int)), outcomes);
    }
}

/// From a state before the first success, at or before attempt `k`, the
/// retries end right after attempt `k` when it is the first to succeed.
proof fn lemma_stops_at_success_from(s: Retry, outcomes: Seq<bool>, k: int)
    requires
        s.attempts <= k < MAX_ATTEMPTS,
        !s.succeeded,
        k < outcomes.len(),
        outcomes[k],
        forall|i: int| 0 <= i < k ==> !outcomes[i],
    ensures
        attempts_made(s, outcomes) == k + 1,
    decreases MAX_ATTEMPTS - s.attempts,
{
    let next = s.after(outcome(outcomes, s.attempts as int));
    if s.attempts < k {
        lemma_stops_at_success_from(next, outcomes, k);
    } else {
        assert(attempts_made(next, outcomes) == k + 1);
    }
}

/// The retries stop at the first success: where the attempt with index `k`
/// is the first to succeed, `k + 1` attempts are made.
pub proof fn lemma_stops_at_first_success(outcomes: Seq<bool>, k: int)
    requires
        0 <= k < MAX_ATTEMPTS,
        k < outcomes.len(),
        outcomes[k],
        forall|i: int| 0 <= i < k ==> !outcomes[i],
    ensures
        attempts_made(Retry { attempts: 0, succeeded: false }, outcomes) == k + 1,
{
    lemma_stops_at_success_from(Retry { attempts: 0, succeeded: false }, outcomes, k);
}

} // verus!
