//! Runs an asynchronous operation a fixed number of times, one attempt after
//! the other, and gives the value of the last attempt.
use vstd::prelude::*;
use vstd::pervasive::cloned;
use crate::future::{Operation, Progress, Step};
use crate::policy::{Policy, Schedule, is_run};

verus! {

/// Where a combinator stands in its current attempt.
pub enum RepeaterStates<F> {
    /// No computation in flight: the next poll starts an attempt.
    Pending,
    /// The computation of the current attempt, started and not finished.
    Ready(F),
}

/// A future-like combinator that runs `f` on clones of `args` a fixed number
/// of times. Nothing runs until it is driven; dropping it drops the
/// computation in flight and starts no attempt.
#[must_use]
pub struct Repeater<F, Args, Fut> {
    f: F,
    state: RepeaterStates<Fut>,
    schedule: Schedule,
    args: Args,
}

impl<F, Args, Fut> Repeater<F, Args, Fut> {
    /// The operation that each attempt invokes.
    pub closed spec fn op(&self) -> F {
        self.f
    }

    /// The arguments captured at construction; each attempt gets a clone.
    pub closed spec fn args(&self) -> Args {
        self.args
    }

    /// Whether a computation is in flight, and which.
    pub closed spec fn lifecycle(&self) -> RepeaterStates<Fut> {
        self.state
    }

    /// The policy that decides when the combinator stops.
    pub closed spec fn policy(&self) -> Policy {
        self.schedule.policy()
    }

    /// Whether each completed attempt gave a negative value; under a fixed
    /// count every attempt is recorded as non-negative.
    pub closed spec fn outcomes(&self) -> Seq<bool> {
        self.schedule.outcomes()
    }

    /// The combinator has not finished and counts its attempts correctly.
    pub closed spec fn wf(&self) -> bool {
        &&& self.schedule.wf()
        &&& self.schedule.policy() is FixedRepeat
    }

    /// A combinator that will run `f` `repeat` times on clones of `args`.
    pub fn new(f: F, repeat: usize, args: Args) -> (r: Self)
        requires
            repeat > 0,
        ensures
            r.wf(),
            r.op() == f,
            r.args() == args,
            r.lifecycle() is Pending,
            r.policy() == Policy::FixedRepeat(repeat),
            r.outcomes() == Seq::<bool>::empty(),
    {
        Repeater {
            f,
            state: RepeaterStates::Pending,
            schedule: Schedule::new(Policy::FixedRepeat(repeat)),
            args,
        }
    }

    /// Whether no computation is in flight.
    pub fn is_idle(&self) -> (r: bool)
        ensures
            r == (self.lifecycle() is Pending),
    {
        match self.state {
            RepeaterStates::Pending => true,
            RepeaterStates::Ready(_) => false,
        }
    }

    /// The computation in flight, for the poller to poll.
    pub fn in_flight(&mut self) -> (fut: &mut Fut)
        requires
            old(self).lifecycle() is Ready,
        ensures
            *fut == old(self).lifecycle()->Ready_0,
            final(self).lifecycle() == RepeaterStates::Ready(*final(fut)),
            final(self).op() == old(self).op(),
            final(self).args() == old(self).args(),
            final(self).policy() == old(self).policy(),
            final(self).outcomes() == old(self).outcomes(),
            final(self).wf() == old(self).wf(),
    {
        match &mut self.state {
            RepeaterStates::Ready(fut) => fut,
            RepeaterStates::Pending => vstd::pervasive::unreached(),
        }
    }
}

impl<F, Args, Fut> Repeater<F, Args, Fut> where
    F: Operation<Args, Fut>,
    Args: Clone,
    Fut: core::future::Future,
 {
    /// Starts an attempt: invokes the operation on a fresh clone of the
    /// arguments and keeps the computation it returns.
    pub fn start(&mut self) -> (s: Step<Fut::Output>)
        requires
            old(self).wf(),
            old(self).lifecycle() is Pending,
            forall|a: Args| cloned(old(self).args(), a) ==> old(self).op().ready(a),
        ensures
            s is Requeue,
            final(self).wf(),
            final(self).lifecycle() is Ready,
            exists|a: Args|
                cloned(old(self).args(), a) && #[trigger] old(self).op().yields(
                    a,
                    final(self).lifecycle()->Ready_0,
                ),
            final(self).op() == old(self).op(),
            final(self).args() == old(self).args(),
            final(self).policy() == old(self).policy(),
            final(self).outcomes() == old(self).outcomes(),
    {
        let ghost pre = *self;
        let a = self.args.clone();
        assert(cloned(pre.args(), a));
        assert(pre.op().ready(a));
        let fut = self.f.invoke(a);
        let ghost started = fut;
        self.state = RepeaterStates::Ready(fut);
        assert(self.lifecycle()->Ready_0 == started);
        assert(pre.op().yields(a, self.lifecycle()->Ready_0));
        Step::Requeue
    }

    /// Takes what polling the computation in flight gave. A suspension is
    /// passed on as it is. A value ends the attempt: it is the result when the
    /// count is reached, and otherwise the next poll starts a new attempt.
    pub fn settle(&mut self, progress: Progress<Fut::Output>) -> (s: Step<Fut::Output>)
        requires
            old(self).wf(),
            old(self).lifecycle() is Ready,
        ensures
            final(self).op() == old(self).op(),
            final(self).args() == old(self).args(),
            final(self).policy() == old(self).policy(),
            progress is Suspended ==> s is Wait && *final(self) == *old(self),
            progress is Resolved ==> {
                &&& final(self).outcomes() == old(self).outcomes().push(false)
                &&& final(self).lifecycle() is Pending
                &&& if is_run(old(self).policy(), final(self).outcomes()) {
                    s == Step::Done(progress->Resolved_0)
                } else {
                    s is Requeue && final(self).wf()
                }
            },
    {
        match progress {
            Progress::Suspended => Step::Wait,
            Progress::Resolved(v) => {
                self.state = RepeaterStates::Pending;
                if self.schedule.record(false) {
                    Step::Done(v)
                } else {
                    Step::Requeue
                }
            },
        }
    }
}

/// `repeat::<N>()` on an operation without arguments that returns a future.
pub trait AsyncRepeat0<Fut>: Sized {
    fn repeat<const N: usize>(self) -> (r: Repeater<Self, (), Fut>)
        requires
            N > 0,
        ensures
            r.wf(),
            r.op() == self,
            r.lifecycle() is Pending,
            r.policy() == Policy::FixedRepeat(N),
            r.outcomes() == Seq::<bool>::empty(),
    ;
}

impl<F, Fut, Out> AsyncRepeat0<Fut> for F where F: Fn() -> Fut, Fut: core::future::Future<Output = Out> {
    fn repeat<const N: usize>(self) -> (r: Repeater<Self, (), Fut>) {
        Repeater::new(self, N, ())
    }
}

} // verus!
