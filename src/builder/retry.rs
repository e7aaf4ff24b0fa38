use vstd::prelude::*;
use vstd::pervasive::cloned;
use super::run::{Run0, Run1};
use crate::oneshot::{fed_clones, retry_oneshot, retry_with, yields_all};
use crate::policy::retry_run;
use crate::tryable::{Tryable, negatives};

verus! {

/// An operation with the number of attempts that `run` may make after the first.
#[must_use]
#[derive(Debug, Clone)]
pub struct Retrier<T> {
    pub(crate) retry: usize,
    pub(crate) func: T,
}

impl<T> Retrier<T> {
    /// How many attempts `run` may make after the first.
    pub closed spec fn times(&self) -> usize {
        self.retry
    }

    /// The operation that `run` calls.
    pub closed spec fn op(&self) -> T {
        self.func
    }
}

/// `f.retry(times)`: keeps `f` for `run`, which calls it until it gives a
/// non-negative value, at most `times` times after the first call.
pub trait Retry<Args, Output>: Sized {
    fn retry(self, times: usize) -> (r: Retrier<Self>)
        ensures
            r.times() == times,
            r.op() == self,
    ;
}

impl<F, Output> Retry<(), Output> for F where F: FnMut() -> Output {
    fn retry(self, times: usize) -> (r: Retrier<Self>) {
        Retrier { retry: times, func: self }
    }
}

impl<F, A, Output> Retry<(A,), Output> for F where F: FnMut(A) -> Output {
    fn retry(self, times: usize) -> (r: Retrier<Self>) {
        Retrier { retry: times, func: self }
    }
}

impl<F, Output> Run0<Output> for Retrier<F> where F: FnMut() -> Output, Output: Tryable {
    open spec fn can_run(&self) -> bool {
        call_requires(self.op(), ())
    }

    open spec fn ran(&self, r: Output) -> bool {
        exists|outs: Seq<Output>|
            #[trigger] retry_run(self.times() as nat, negatives(outs)) && yields_all(self.op(), outs)
                && r == outs.last()
    }

    fn run(&mut self) -> (r: Output) {
        let ghost pre = *self;
        let r = retry_oneshot(&mut self.func, self.retry);
        proof {
            let outs = choose|outs: Seq<Output>|
                #[trigger] retry_run(pre.retry as nat, negatives(outs)) && yields_all(pre.func, outs)
                    && r == outs.last();
            assert(retry_run(pre.times() as nat, negatives(outs)));
        }
        r
    }
}


impl<F, A, Output> Run1<A, Output> for Retrier<F> where F: FnMut(A) -> Output, A: Clone, Output: Tryable {
    open spec fn can_run_with(&self, a: A) -> bool {
        forall|c: A| cloned(a, c) ==> call_requires(self.op(), (c,))
    }

    open spec fn ran_with(&self, a: A, r: Output) -> bool {
        exists|ins: Seq<A>, outs: Seq<Output>|
            retry_run(self.times() as nat, negatives(outs)) && #[trigger] fed_clones(
                self.op(),
                a,
                ins,
                outs,
            ) && r == outs.last()
    }

    fn run(&mut self, a: A) -> (r: Output) {
        let ghost pre = *self;
        let r = retry_with(&mut self.func, self.retry, &a);
        proof {
            let (ins, outs) = choose|ins: Seq<A>, outs: Seq<Output>|
                retry_run(pre.retry as nat, negatives(outs)) && #[trigger] fed_clones(
                    pre.func,
                    a,
                    ins,
                    outs,
                ) && r == outs.last();
            assert(retry_run(pre.times() as nat, negatives(outs)));
            assert(fed_clones(pre.op(), a, ins, outs));
        }
        r
    }
}

} // verus!
