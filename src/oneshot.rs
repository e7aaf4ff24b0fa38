//! Blocking combinators: they call the operation in a loop and return the
//! value of the last attempt.
use vstd::prelude::*;
use vstd::pervasive::cloned;
use crate::policy::{Policy, Schedule, is_run, in_progress, max_attempts, retry_run};
use crate::tryable::{Tryable, negatives};

verus! {

/// Every value in `outs` is one that `op` may return when called with no arguments.
pub open spec fn yields_all<F: FnMut() -> O, O>(op: F, outs: Seq<O>) -> bool {
    forall|k: int| 0 <= k < outs.len() ==> call_ensures(op, (), #[trigger] outs[k])
}

/// Attempt `k` called `op` on `ins[k]`, a clone of `args`, and got `outs[k]`.
pub open spec fn fed_clones<F: FnMut(A) -> O, A: Clone, O>(
    op: F,
    args: A,
    ins: Seq<A>,
    outs: Seq<O>,
) -> bool {
    &&& ins.len() == outs.len()
    &&& forall|k: int|
        0 <= k < outs.len() ==> cloned(args, #[trigger] ins[k]) && call_ensures(
            op,
            (ins[k],),
            outs[k],
        )
}

/// Calls `op` until it returns a non-negative value, at most `budget` times
/// after the first call, and returns the last value: the first non-negative
/// one, or the last negative one once the budget is used up.
pub fn retry_oneshot<F, O>(op: &mut F, budget: usize) -> (r: O) where F: FnMut() -> O, O: Tryable
    requires
        call_requires(*old(op), ()),
    ensures
        exists|outs: Seq<O>|
            #[trigger] retry_run(budget as nat, negatives(outs)) && yields_all(*old(op), outs)
                && r == outs.last(),
{
    let policy = Policy::RetryUntilSuccess(budget);
    let mut schedule = Schedule::new(policy);
    let ghost mut outs: Seq<O> = Seq::empty();
    loop
        invariant
            *op == *old(op),
            call_requires(*op, ()),
            schedule.wf(),
            schedule.policy() == policy,
            policy == Policy::RetryUntilSuccess(budget),
            in_progress(policy, schedule.outcomes()),
            schedule.outcomes() == negatives(outs),
            yields_all(*old(op), outs),
        decreases max_attempts(policy) - schedule.outcomes().len(),
    {
        let res = op();
        let negative = res.negative();
        let stop = schedule.record(negative);
        proof {
            outs = outs.push(res);
            assert(schedule.outcomes() =~= negatives(outs));
        }
        if stop {
            return res;
        }
    }
}

/// Calls `op` exactly `count` times and returns the value of the last call.
pub fn repeat_oneshot<F, O>(op: &mut F, count: usize) -> (r: O) where F: FnMut() -> O
    requires
        count > 0,
        call_requires(*old(op), ()),
    ensures
        exists|outs: Seq<O>|
            #[trigger] outs.len() == count && yields_all(*old(op), outs) && r == outs.last(),
{
    let policy = Policy::FixedRepeat(count);
    let mut schedule = Schedule::new(policy);
    let ghost mut outs: Seq<O> = Seq::empty();
    loop
        invariant
            *op == *old(op),
            call_requires(*op, ()),
            schedule.wf(),
            schedule.policy() == policy,
            policy == Policy::FixedRepeat(count),
            in_progress(policy, schedule.outcomes()),
            schedule.outcomes().len() == outs.len(),
            yields_all(*old(op), outs),
        decreases max_attempts(policy) - schedule.outcomes().len(),
    {
        let res = op();
        let stop = schedule.record(false);
        proof {
            outs = outs.push(res);
        }
        if stop {
            assert(outs.len() == count);
            return res;
        }
    }
}

/// `retry_oneshot` for an operation that takes an argument: each call gets
/// its own clone of `args`.
pub fn retry_with<F, A, O>(op: &mut F, budget: usize, args: &A) -> (r: O) where
    F: FnMut(A) -> O,
    A: Clone,
    O: Tryable,

    requires
        forall|a: A| cloned(*args, a) ==> call_requires(*old(op), (a,)),
    ensures
        exists|ins: Seq<A>, outs: Seq<O>|
            retry_run(budget as nat, negatives(outs)) && #[trigger] fed_clones(
                *old(op),
                *args,
                ins,
                outs,
            ) && r == outs.last(),
{
    let policy = Policy::RetryUntilSuccess(budget);
    let mut schedule = Schedule::new(policy);
    let ghost mut ins: Seq<A> = Seq::empty();
    let ghost mut outs: Seq<O> = Seq::empty();
    loop
        invariant
            *op == *old(op),
            forall|a: A| cloned(*args, a) ==> call_requires(*op, (a,)),
            schedule.wf(),
            schedule.policy() == policy,
            policy == Policy::RetryUntilSuccess(budget),
            in_progress(policy, schedule.outcomes()),
            schedule.outcomes() == negatives(outs),
            fed_clones(*old(op), *args, ins, outs),
        decreases max_attempts(policy) - schedule.outcomes().len(),
    {
        let a = args.clone();
        assert(cloned(*args, a));
        let ghost fed = a;
        let res = op(a);
        let negative = res.negative();
        let stop = schedule.record(negative);
        proof {
            ins = ins.push(fed);
            outs = outs.push(res);
            assert(schedule.outcomes() =~= negatives(outs));
        }
        if stop {
            assert(fed_clones(*old(op), *args, ins, outs));
            return res;
        }
    }
}

/// `repeat_oneshot` for an operation that takes an argument: each call gets
/// its own clone of `args`.
pub fn repeat_with<F, A, O>(op: &mut F, count: usize, args: &A) -> (r: O) where
    F: FnMut(A) -> O,
    A: Clone,

    requires
        count > 0,
        forall|a: A| cloned(*args, a) ==> call_requires(*old(op), (a,)),
    ensures
        exists|ins: Seq<A>, outs: Seq<O>|
            #[trigger] fed_clones(*old(op), *args, ins, outs) && outs.len() == count && r
                == outs.last(),
{
    let policy = Policy::FixedRepeat(count);
    let mut schedule = Schedule::new(policy);
    let ghost mut ins: Seq<A> = Seq::empty();
    let ghost mut outs: Seq<O> = Seq::empty();
    loop
        invariant
            *op == *old(op),
            forall|a: A| cloned(*args, a) ==> call_requires(*op, (a,)),
            schedule.wf(),
            schedule.policy() == policy,
            policy == Policy::FixedRepeat(count),
            in_progress(policy, schedule.outcomes()),
            schedule.outcomes().len() == outs.len(),
            fed_clones(*old(op), *args, ins, outs),
        decreases max_attempts(policy) - schedule.outcomes().len(),
    {
        let a = args.clone();
        assert(cloned(*args, a));
        let ghost fed = a;
        let res = op(a);
        let stop = schedule.record(false);
        proof {
            ins = ins.push(fed);
            outs = outs.push(res);
        }
        if stop {
            assert(fed_clones(*old(op), *args, ins, outs));
            return res;
        }
    }
}

/// `retry::<N>()` on any operation with no arguments: calls it until it
/// returns a non-negative value, at most `N` times after the first call.
pub trait RetryOneshot0<Output: Tryable>: Sized + FnMut() -> Output {
    fn retry<const N: usize>(self) -> (r: Output)
        requires
            call_requires(self, ()),
        ensures
            exists|outs: Seq<Output>|
                #[trigger] retry_run(N as nat, negatives(outs)) && yields_all(self, outs) && r
                    == outs.last(),
    ;
}

impl<F, Output> RetryOneshot0<Output> for F where F: FnMut() -> Output, Output: Tryable {
    fn retry<const N: usize>(self) -> (r: Output) {
        let mut op = self;
        retry_oneshot(&mut op, N)
    }
}

/// `repeat::<N>()` on any operation with no arguments: calls it exactly `N`
/// times and returns the value of the last call.
pub trait RepeatOneshot0<Output>: Sized + FnMut() -> Output {
    fn repeat<const N: usize>(&mut self) -> (r: Output)
        requires
            N > 0,
            call_requires(*old(self), ()),
        ensures
            exists|outs: Seq<Output>|
                #[trigger] outs.len() == N && yields_all(*old(self), outs) && r == outs.last(),
    ;
}

impl<F, Output> RepeatOneshot0<Output> for F where F: FnMut() -> Output {
    fn repeat<const N: usize>(&mut self) -> (r: Output) {
        repeat_oneshot(self, N)
    }
}

} // verus!
