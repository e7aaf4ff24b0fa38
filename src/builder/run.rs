use vstd::prelude::*;

verus! {

/// Drives a builder of an operation without arguments to its result.
pub trait Run0<Output>: Sized {
    /// The builder may be run.
    spec fn can_run(&self) -> bool;

    /// `r` is a result that running the builder may give.
    spec fn ran(&self, r: Output) -> bool;

    fn run(&mut self) -> (r: Output)
        requires
            old(self).can_run(),
        ensures
            old(self).ran(r),
    ;
}

/// Drives a builder of an operation that takes an argument: each call gets
/// its own clone of `a` (several arguments travel as one tuple).
pub trait Run1<A, Output>: Sized {
    /// The builder may be run on `a`.
    spec fn can_run_with(&self, a: A) -> bool;

    /// `r` is a result that running the builder on `a` may give.
    spec fn ran_with(&self, a: A, r: Output) -> bool;

    fn run(&mut self, a: A) -> (r: Output)
        requires
            old(self).can_run_with(a),
        ensures
            old(self).ran_with(a, r),
    ;
}

} // verus!
