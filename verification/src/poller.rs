//! Polling SPDK from an async executor.
//!
//! SPDK completions are delivered while an SPDK thread is polled. A poller
//! task polls, and when a poll found no work it yields once so that the
//! executor's other tasks can run. This module holds the decisions of that
//! task: when to yield, how many polls a limited poller may make, and the
//! two-step future that yields exactly once.

use vstd::prelude::*;

verus! {

/// A future that yields once, then completes: the first poll reports
/// "pending" (after waking its task), every later poll reports "ready".
#[derive(Debug)]
pub struct YieldNow {
    yielded: bool,
}

impl YieldNow {
    /// Whether the future has already yielded once.
    pub closed spec fn has_yielded(&self) -> bool {
        self.yielded
    }

    /// One poll of the future: `true` means ready, `false` means pending
    /// (the caller then wakes the task).
    pub fn poll_once(&mut self) -> (ready: bool)
        ensures
            (ready, final(self).has_yielded()) == yield_step(old(self).has_yielded()),
    {
        if self.yielded {
            true
        } else {
            self.yielded = true;
            false
        }
    }
}

/// Yield to other tasks in the executor: a future that has not yet yielded.
pub fn yield_now() -> (f: YieldNow)
    ensures
        !f.has_yielded(),
{
    YieldNow { yielded: false }
}

/// One poll of the yield future, as a function of whether it has yielded:
/// whether it is ready, and whether it has yielded afterwards.
pub open spec fn yield_step(yielded: bool) -> (bool, bool) {
    (yielded, true)
}

/// Law: a fresh yield future is pending on its first poll and ready on its
/// second and every later poll.
pub proof fn lemma_yield_now_yields_once(k: nat)
    ensures
        yield_step(false).0 == false,
        yield_step(yield_step(false).1).0 == true,
        k > 0 ==> yield_iter(k).0 == true,
{
    reveal_with_fuel(yield_iter, 2);
}

/// The outcome of poll number `k` of a fresh yield future, counting from
/// zero.
pub open spec fn yield_iter(k: nat) -> (bool, bool)
    decreases k,
{
    if k == 0 {
        yield_step(false)
    } else {
        yield_step(yield_iter((k - 1) as nat).1)
    }
}

/// A poller yields after a poll that found no work, and polls again at once
/// after one that did.
pub fn should_yield(work_done: i32) -> (y: bool)
    ensures
        y == (work_done == 0),
{
    work_done == 0
}

/// How many more polls a poller may make.
#[derive(Debug, Clone, Copy)]
pub struct PollBudget {
    remaining: u64,
    unlimited: bool,
}

impl PollBudget {
    pub closed spec fn spec_remaining(&self) -> u64 {
        self.remaining
    }

    pub closed spec fn spec_unlimited(&self) -> bool {
        self.unlimited
    }

    /// The budget of a poller limited to `max_iters` polls; zero means no
    /// limit, as for the unlimited poller.
    pub fn new(max_iters: u64) -> (b: PollBudget)
        ensures
            b.spec_unlimited() == (max_iters == 0),
            b.spec_remaining() == max_iters,
    {
        PollBudget { remaining: max_iters, unlimited: max_iters == 0 }
    }

    /// Whether the poller may poll once more, using up one poll of the
    /// budget when it may.
    pub fn take_poll(&mut self) -> (granted: bool)
        ensures
            (granted, final(self).spec_remaining()) == budget_step(
                old(self).spec_unlimited(),
                old(self).spec_remaining(),
            ),
            final(self).spec_unlimited() == old(self).spec_unlimited(),
    {
        if self.unlimited {
            true
        } else if self.remaining > 0 {
            self.remaining = self.remaining - 1;
            true
        } else {
            false
        }
    }
}

/// One step of a poll budget, given whether it is unlimited and how many
/// polls it has left: whether a poll is granted, and the polls left after it.
pub open spec fn budget_step(unlimited: bool, remaining: u64) -> (bool, u64) {
    if unlimited {
        (true, remaining)
    } else if remaining > 0 {
        (true, (remaining - 1) as u64)
    } else {
        (false, remaining)
    }
}

/// The number of polls granted over `k` successive requests to a budget.
pub open spec fn granted_over(unlimited: bool, remaining: u64, k: nat) -> nat
    decreases k,
{
    if k == 0 {
        0
    } else {
        let (g, next) = budget_step(unlimited, remaining);
        (if g {
            1nat
        } else {
            0nat
        }) + granted_over(unlimited, next, (k - 1) as nat)
    }
}

/// Law: a poller limited to `max_iters` polls (more than zero) is granted
/// exactly that many polls, however many times it asks beyond that; one with
/// a zero limit is unlimited and granted every poll it asks for.
pub proof fn lemma_budget_grants_exactly(max_iters: u64, k: nat)
    ensures
        max_iters > 0 && k >= max_iters ==> granted_over(false, max_iters, k) == max_iters,
        granted_over(true, max_iters, k) == k,
    decreases k,
{
    if k > 0 {
        lemma_budget_grants_exactly(max_iters, (k - 1) as nat);
        if max_iters > 1 {
            lemma_budget_grants_exactly((max_iters - 1) as u64, (k - 1) as nat);
        } else if max_iters == 1 {
            lemma_exhausted_budget_grants_nothing((k - 1) as nat);
        }
    }
}

/// An exhausted limited budget grants no more polls.
proof fn lemma_exhausted_budget_grants_nothing(k: nat)
    ensures
        granted_over(false, 0, k) == 0,
    decreases k,
{
    if k > 0 {
        lemma_exhausted_budget_grants_nothing((k - 1) as nat);
    }
}

} // verus!
