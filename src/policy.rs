//! The rule that decides, after each completed attempt, whether a combinator
//! stops or starts another attempt.
use vstd::prelude::*;

verus! {

/// How many attempts a combinator may make, and when it stops early.
#[derive(Clone, Copy, Debug, PartialEq, Eq, Structural)]
pub enum Policy {
    /// Run the operation exactly this many times; the last value is the result.
    FixedRepeat(usize),
    /// Run the operation until it gives a non-negative value, with at most this
    /// many attempts after the first.
    RetryUntilSuccess(usize),
}

/// A policy that allows at least one attempt.
pub open spec fn policy_valid(policy: Policy) -> bool {
    match policy {
        Policy::FixedRepeat(n) => n > 0,
        Policy::RetryUntilSuccess(_) => true,
    }
}

/// `negs[k]` tells whether attempt `k` gave a negative value. Under a retry
/// budget a complete run has at least one attempt and at most `budget + 1`,
/// every attempt but the last was negative, and the last one is non-negative
/// or used up the budget.
pub open spec fn retry_run(budget: nat, negs: Seq<bool>) -> bool {
    &&& 1 <= negs.len() <= budget + 1
    &&& forall|k: int| 0 <= k < negs.len() - 1 ==> #[trigger] negs[k]
    &&& (!negs.last() || negs.len() == budget + 1)
}

/// The outcomes `negs` are exactly the attempts of one complete run under `policy`.
pub open spec fn is_run(policy: Policy, negs: Seq<bool>) -> bool {
    match policy {
        Policy::FixedRepeat(n) => n > 0 && negs.len() == n,
        Policy::RetryUntilSuccess(b) => retry_run(b as nat, negs),
    }
}

/// The outcomes `negs` are the attempts made so far by a run that must go on.
pub open spec fn in_progress(policy: Policy, negs: Seq<bool>) -> bool {
    match policy {
        Policy::FixedRepeat(n) => negs.len() < n,
        Policy::RetryUntilSuccess(b) => {
            &&& negs.len() <= b
            &&& forall|k: int| 0 <= k < negs.len() ==> #[trigger] negs[k]
        },
    }
}

/// The most attempts that a run under `policy` can make.
pub open spec fn max_attempts(policy: Policy) -> nat {
    match policy {
        Policy::FixedRepeat(n) => n as nat,
        Policy::RetryUntilSuccess(b) => (b + 1) as nat,
    }
}

/// Under a retry budget, let `ops[k]` tell whether the operation gives a
/// negative value on attempt `k`. When the first non-negative value comes on
/// attempt `i` (counted from one) and `i <= budget + 1`, a run that takes the
/// outcomes in order stops after exactly `i` attempts, on that value.
pub proof fn lemma_retry_stops_at_first_success(budget: nat, ops: Seq<bool>, negs: Seq<bool>, i: nat)
    requires
        1 <= i <= budget + 1,
        i <= ops.len(),
        forall|j: int| 0 <= j < i - 1 ==> #[trigger] ops[j],
        !ops[i - 1],
        retry_run(budget, negs),
        negs.len() <= ops.len(),
        negs == ops.take(negs.len() as int),
    ensures
        negs.len() == i,
        !negs.last(),
{
    if negs.len() < i {
        assert(negs.last() == ops[negs.len() - 1]);
    } else if negs.len() > i {
        assert(negs[i - 1] == ops[i - 1]);
    }
}

/// Under a retry budget, when every attempt gives a negative value, the run
/// makes exactly `budget + 1` attempts and ends on a negative value.
pub proof fn lemma_retry_exhausts_budget(budget: nat, negs: Seq<bool>)
    requires
        retry_run(budget, negs),
        forall|k: int| 0 <= k < negs.len() ==> #[trigger] negs[k],
    ensures
        negs.len() == budget + 1,
        negs.last(),
{
    assert(negs[negs.len() - 1]);
}

/// For a given order of outcomes at most one prefix is a complete run: two
/// drivers that follow the same policy and see the same outcomes stop after
/// the same attempt.
pub proof fn lemma_run_is_unique(policy: Policy, ops: Seq<bool>, i: nat, j: nat)
    requires
        i <= ops.len(),
        j <= ops.len(),
        is_run(policy, ops.take(i as int)),
        is_run(policy, ops.take(j as int)),
    ensures
        i == j,
{
    if let Policy::RetryUntilSuccess(b) = policy {
        if i < j {
            assert(ops.take(j as int)[i - 1] == ops[i - 1]);
            assert(ops.take(i as int).last() == ops[i - 1]);
        } else if j < i {
            assert(ops.take(i as int)[j - 1] == ops[j - 1]);
            assert(ops.take(j as int).last() == ops[j - 1]);
        }
    }
}

/// The attempt counter of one combinator: which policy it follows and what
/// each completed attempt gave.
pub struct Schedule {
    policy: Policy,
    /// Attempts still allowed after the current one under a retry budget, or
    /// attempts still to run, the current one included, under a fixed count.
    remaining: usize,
    outcomes: Ghost<Seq<bool>>,
}

impl Schedule {
    /// The policy that this counter follows.
    pub closed spec fn policy(&self) -> Policy {
        self.policy
    }

    /// Whether each completed attempt, in order, gave a negative value.
    pub closed spec fn outcomes(&self) -> Seq<bool> {
        self.outcomes@
    }

    /// The run has not stopped, and the counter agrees with the outcomes.
    pub closed spec fn wf(&self) -> bool {
        &&& in_progress(self.policy, self.outcomes@)
        &&& match self.policy {
            Policy::FixedRepeat(n) => self.remaining == n - self.outcomes@.len(),
            Policy::RetryUntilSuccess(b) => self.remaining == b - self.outcomes@.len(),
        }
    }

    /// A counter before the first attempt.
    pub fn new(policy: Policy) -> (s: Self)
        requires
            policy_valid(policy),
        ensures
            s.wf(),
            s.policy() == policy,
            s.outcomes() == Seq::<bool>::empty(),
            in_progress(policy, s.outcomes()),
    {
        let remaining = match policy {
            Policy::FixedRepeat(n) => n,
            Policy::RetryUntilSuccess(b) => b,
        };
        Schedule { policy, remaining, outcomes: Ghost(Seq::empty()) }
    }

    /// Records that an attempt completed, with `negative` telling whether its
    /// value was negative, and says whether the run stops there.
    pub fn record(&mut self, negative: bool) -> (stop: bool)
        requires
            old(self).wf(),
        ensures
            final(self).policy() == old(self).policy(),
            final(self).outcomes() == old(self).outcomes().push(negative),
            stop == is_run(old(self).policy(), final(self).outcomes()),
            !stop ==> final(self).wf(),
            !stop ==> in_progress(old(self).policy(), final(self).outcomes()),
    {
        let ghost prev = self.outcomes@;
        self.outcomes = Ghost(prev.push(negative));
        let ghost negs = self.outcomes@;
        assert(forall|k: int| 0 <= k < prev.len() ==> negs[k] == prev[k]);
        match self.policy {
            Policy::FixedRepeat(_) => {
                self.remaining = self.remaining - 1;
                self.remaining == 0
            },
            Policy::RetryUntilSuccess(_) => {
                if !negative || self.remaining == 0 {
                    true
                } else {
                    self.remaining = self.remaining - 1;
                    false
                }
            },
        }
    }
}

} // verus!
