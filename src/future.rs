//! Combinators over operations that return a fresh suspendable computation
//! (a future) on every attempt. Each combinator here holds its operation, the
//! arguments it captured, its attempt counter and the computation in flight;
//! the code that polls decides nothing: it reports what polling the computation
//! in flight gave, and does what the returned `Step` says.
use vstd::prelude::*;
use crate::tryable::Tryable;

pub mod repeat;
pub mod retry;

verus! {

/// An operation that the combinators can invoke with the arguments they hold:
/// `()` for an operation without arguments, `(a,)` for one that takes `a`
/// (several arguments travel as one tuple).
pub trait Operation<Args, Out> {
    /// The operation may be invoked on `args`.
    spec fn ready(&self, args: Args) -> bool;

    /// `out` is a value that the operation may return on `args`.
    spec fn yields(&self, args: Args, out: Out) -> bool;

    fn invoke(&self, args: Args) -> (out: Out)
        requires
            self.ready(args),
        ensures
            self.yields(args, out),
    ;
}

impl<F, Out> Operation<(), Out> for F where F: Fn() -> Out {
    open spec fn ready(&self, args: ()) -> bool {
        call_requires(*self, ())
    }

    open spec fn yields(&self, args: (), out: Out) -> bool {
        call_ensures(*self, (), out)
    }

    fn invoke(&self, args: ()) -> (out: Out) {
        (self)()
    }
}

impl<F, A, Out> Operation<(A,), Out> for F where F: Fn(A) -> Out {
    open spec fn ready(&self, args: (A,)) -> bool {
        call_requires(*self, args)
    }

    open spec fn yields(&self, args: (A,), out: Out) -> bool {
        call_ensures(*self, args, out)
    }

    fn invoke(&self, args: (A,)) -> (out: Out) {
        (self)(args.0)
    }
}

/// An operation without arguments that returns a new future on each call.
pub trait AsyncFn<F>: Sized + FnMut() -> F {
    fn call(&mut self) -> (r: F)
        requires
            call_requires(*old(self), ()),
        ensures
            call_ensures(*old(self), (), r),
    ;
}

impl<F, Fut, Out> AsyncFn<Fut> for F where F: FnMut() -> Fut, Fut: core::future::Future<Output = Out> {
    fn call(&mut self) -> (r: Fut) {
        self()
    }
}

/// An operation without arguments whose futures end in a `Result` or an `Option`.
pub trait TryAsyncFn<F>: Sized + FnMut() -> F {
    fn call(&mut self) -> (r: F)
        requires
            call_requires(*old(self), ()),
        ensures
            call_ensures(*old(self), (), r),
    ;
}

impl<F, Fut, Out> TryAsyncFn<Fut> for F where
    F: FnMut() -> Fut,
    Fut: core::future::Future<Output = Out>,
    Out: Tryable,
 {
    fn call(&mut self) -> (r: Fut) {
        self()
    }
}

/// What polling the computation in flight gave.
pub enum Progress<T> {
    /// It is waiting on an event of its own.
    Suspended,
    /// It finished with this value.
    Resolved(T),
}

/// What the poller does after a step of a combinator.
pub enum Step<T> {
    /// Report "not ready" and ask to be polled again at once: the step was a
    /// change of attempt, which no outside event will announce.
    Requeue,
    /// Report "not ready" and wait: the computation in flight registered its
    /// own wake-up.
    Wait,
    /// Report this value as the combinator's result.
    Done(T),
}

} // verus!
