use vstd::prelude::*;
use vstd::pervasive::cloned;
use super::run::{Run0, Run1};
use crate::oneshot::{fed_clones, repeat_oneshot, repeat_with, yields_all};

verus! {

/// An operation with the number of times that `run` calls it.
#[must_use]
#[derive(Debug, Clone)]
pub struct Repeater<T> {
    pub(crate) repeat: usize,
    pub(crate) func: T,
}

impl<T> Repeater<T> {
    /// How many times `run` calls the operation.
    pub closed spec fn times(&self) -> usize {
        self.repeat
    }

    /// The operation that `run` calls.
    pub closed spec fn op(&self) -> T {
        self.func
    }
}

/// `f.repeat(times)`: keeps `f` to be called `times` times by `run`.
pub trait Repeat<Args, Output>: Sized {
    fn repeat(self, times: usize) -> (r: Repeater<Self>)
        ensures
            r.times() == times,
            r.op() == self,
    ;
}

impl<F, Output> Repeat<(), Output> for F where F: FnMut() -> Output {
    fn repeat(self, times: usize) -> (r: Repeater<Self>) {
        Repeater { repeat: times, func: self }
    }
}

impl<F, A, Output> Repeat<(A,), Output> for F where F: FnMut(A) -> Output {
    fn repeat(self, times: usize) -> (r: Repeater<Self>) {
        Repeater { repeat: times, func: self }
    }
}

impl<F, Output> Run0<Output> for Repeater<F> where F: FnMut() -> Output {
    open spec fn can_run(&self) -> bool {
        self.times() > 0 && call_requires(self.op(), ())
    }

    open spec fn ran(&self, r: Output) -> bool {
        exists|outs: Seq<Output>|
            #[trigger] outs.len() == self.times() && yields_all(self.op(), outs) && r == outs.last()
    }

    fn run(&mut self) -> (r: Output) {
        repeat_oneshot(&mut self.func, self.repeat)
    }
}


impl<F, A, Output> Run1<A, Output> for Repeater<F> where F: FnMut(A) -> Output, A: Clone {
    open spec fn can_run_with(&self, a: A) -> bool {
        &&& self.times() > 0
        &&& forall|c: A| cloned(a, c) ==> call_requires(self.op(), (c,))
    }

    open spec fn ran_with(&self, a: A, r: Output) -> bool {
        exists|ins: Seq<A>, outs: Seq<Output>|
            #[trigger] fed_clones(self.op(), a, ins, outs) && outs.len() == self.times() && r
                == outs.last()
    }

    fn run(&mut self, a: A) -> (r: Output) {
        let ghost pre = *self;
        let r = repeat_with(&mut self.func, self.repeat, &a);
        proof {
            let (ins, outs) = choose|ins: Seq<A>, outs: Seq<Output>|
                #[trigger] fed_clones(pre.func, a, ins, outs) && outs.len() == pre.repeat && r
                    == outs.last();
            assert(fed_clones(pre.op(), a, ins, outs));
        }
        r
    }
}

} // verus!
