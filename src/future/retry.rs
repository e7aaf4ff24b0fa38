//! Runs an asynchronous operation until it gives a non-negative value, within
//! an attempt budget, one attempt after the other.
use vstd::prelude::*;
use vstd::pervasive::cloned;
use crate::future::{Operation, Progress, Step};
use crate::policy::{Policy, Schedule, is_run};
use crate::tryable::Tryable;

verus! {

/// Where a retrying combinator stands in its current attempt.
pub enum RetryState<F> {
    /// No computation in flight: the next poll starts an attempt.
    Pending,
    /// The computation of the current attempt, started and not finished.
    Ready(F),
}

/// A future-like combinator that runs `f` on clones of `args` until it gives
/// a non-negative value, with at most `retry` attempts after the first.
/// Nothing runs until it is driven; dropping it drops the computation in
/// flight and starts no attempt.
#[must_use]
pub struct Retrier<F, Args, Fut> {
    f: F,
    state: RetryState<Fut>,
    schedule: Schedule,
    args: Args,
}

impl<F, Args, Fut> Retrier<F, Args, Fut> {
    /// The operation that each attempt invokes.
    pub closed spec fn op(&self) -> F {
        self.f
    }

    /// The arguments captured at construction; each attempt gets a clone.
    pub closed spec fn args(&self) -> Args {
        self.args
    }

    /// Whether a computation is in flight, and which.
    pub closed spec fn lifecycle(&self) -> RetryState<Fut> {
        self.state
    }

    /// The policy that decides when the combinator stops.
    pub closed spec fn policy(&self) -> Policy {
        self.schedule.policy()
    }

    /// Whether each completed attempt gave a negative value.
    pub closed spec fn outcomes(&self) -> Seq<bool> {
        self.schedule.outcomes()
    }

    /// The combinator has not finished and counts its attempts correctly.
    pub closed spec fn wf(&self) -> bool {
        &&& self.schedule.wf()
        &&& self.schedule.policy() is RetryUntilSuccess
    }

    /// A combinator that will run `f` on clones of `args`, at most `retry`
    /// times after the first attempt.
    pub fn new(f: F, retry: usize, args: Args) -> (r: Self)
        ensures
            r.wf(),
            r.op() == f,
            r.args() == args,
            r.lifecycle() is Pending,
            r.policy() == Policy::RetryUntilSuccess(retry),
            r.outcomes() == Seq::<bool>::empty(),
    {
        Retrier {
            f,
            state: RetryState::Pending,
            schedule: Schedule::new(Policy::RetryUntilSuccess(retry)),
            args,
        }
    }

    /// Whether no computation is in flight.
    pub fn is_idle(&self) -> (r: bool)
        ensures
            r == (self.lifecycle() is Pending),
    {
        match self.state {
            RetryState::Pending => true,
            RetryState::Ready(_) => false,
        }
    }

    /// The computation in flight, for the poller to poll.
    pub fn in_flight(&mut self) -> (fut: &mut Fut)
        requires
            old(self).lifecycle() is Ready,
        ensures
            *fut == old(self).lifecycle()->Ready_0,
            final(self).lifecycle() == RetryState::Ready(*final(fut)),
            final(self).op() == old(self).op(),
            final(self).args() == old(self).args(),
            final(self).policy() == old(self).policy(),
            final(self).outcomes() == old(self).outcomes(),
            final(self).wf() == old(self).wf(),
    {
        match &mut self.state {
            RetryState::Ready(fut) => fut,
            RetryState::Pending => vstd::pervasive::unreached(),
        }
    }
}

impl<F, Args, Fut> Retrier<F, Args, Fut> where
    F: Operation<Args, Fut>,
    Args: Clone,
    Fut: core::future::Future,
    Fut::Output: Tryable,
 {
    /// Starts an attempt: invokes the operation on a fresh clone of the
    /// arguments and keeps the computation it returns.
    pub fn start(&mut self) -> (s: Step<Fut::Output>)
        requires
            old(self).wf(),
            old(self).lifecycle() is Pending,
            forall|a: Args| cloned(old(self).args(), a) ==> old(self).op().ready(a),
        ensures
            s is Requeue,
            final(self).wf(),
            final(self).lifecycle() is Ready,
            exists|a: Args|
                cloned(old(self).args(), a) && #[trigger] old(self).op().yields(
                    a,
                    final(self).lifecycle()->Ready_0,
                ),
            final(self).op() == old(self).op(),
            final(self).args() == old(self).args(),
            final(self).policy() == old(self).policy(),
            final(self).outcomes() == old(self).outcomes(),
    {
        let ghost pre = *self;
        let a = self.args.clone();
        assert(cloned(pre.args(), a));
        assert(pre.op().ready(a));
        let fut = self.f.invoke(a);
        let ghost started = fut;
        self.state = RetryState::Ready(fut);
        assert(self.lifecycle()->Ready_0 == started);
        assert(pre.op().yields(a, self.lifecycle()->Ready_0));
        Step::Requeue
    }

    /// Takes what polling the computation in flight gave. A suspension is
    /// passed on as it is. A value ends the attempt: it is the result when it
    /// is non-negative or the budget is used up, and otherwise the next poll
    /// starts a new attempt.
    pub fn settle(&mut self, progress: Progress<Fut::Output>) -> (s: Step<Fut::Output>)
        requires
            old(self).wf(),
            old(self).lifecycle() is Ready,
        ensures
            final(self).op() == old(self).op(),
            final(self).args() == old(self).args(),
            final(self).policy() == old(self).policy(),
            progress is Suspended ==> s is Wait && *final(self) == *old(self),
            progress is Resolved ==> {
                &&& final(self).outcomes() == old(self).outcomes().push(progress->Resolved_0.is_negative())
                &&& final(self).lifecycle() is Pending
                &&& if is_run(old(self).policy(), final(self).outcomes()) {
                    s == Step::Done(progress->Resolved_0)
                } else {
                    s is Requeue && final(self).wf()
                }
            },
    {
        match progress {
            Progress::Suspended => Step::Wait,
            Progress::Resolved(v) => {
                self.state = RetryState::Pending;
                let negative = v.negative();
                if self.schedule.record(negative) {
                    Step::Done(v)
                } else {
                    Step::Requeue
                }
            },
        }
    }
}

/// `retry::<N>()` on an operation without arguments that returns a future.
pub trait AsyncRetry0<Fut>: Sized {
    fn retry<const N: usize>(self) -> (r: Retrier<Self, (), Fut>)
        ensures
            r.wf(),
            r.op() == self,
            r.lifecycle() is Pending,
            r.policy() == Policy::RetryUntilSuccess(N),
            r.outcomes() == Seq::<bool>::empty(),
    ;
}

impl<F, Fut, Out> AsyncRetry0<Fut> for F where
    F: Fn() -> Fut,
    Fut: core::future::Future<Output = Out>,
    Out: Tryable,
 {
    fn retry<const N: usize>(self) -> (r: Retrier<Self, (), Fut>) {
        Retrier::new(self, N, ())
    }
}

} // verus!
