//! Classification of an operation's value as negative (a failure) or not.
use vstd::prelude::*;

mod seal;

verus! {

/// A value that is either a success or a failure. Only `Result` and `Option`
/// have it: an `Err` and a `None` are negative.
pub trait Tryable: seal::Sealed {
    /// What a success carries.
    type Value;

    /// What a failure carries.
    type Error;

    /// Whether the value stands for a failure.
    spec fn is_negative(&self) -> bool;

    fn negative(&self) -> (r: bool)
        ensures
            r == self.is_negative(),
    ;
}

impl<T, E> Tryable for Result<T, E> {
    type Value = T;

    type Error = E;

    open spec fn is_negative(&self) -> bool {
        self is Err
    }

    fn negative(&self) -> (r: bool) {
        self.is_err()
    }
}

impl<T> Tryable for Option<T> {
    type Value = T;

    type Error = ();

    open spec fn is_negative(&self) -> bool {
        self is None
    }

    fn negative(&self) -> (r: bool) {
        self.is_none()
    }
}

/// Whether each of `outs`, in order, is negative.
pub open spec fn negatives<O: Tryable>(outs: Seq<O>) -> Seq<bool> {
    outs.map_values(|o: O| o.is_negative())
}

} // verus!
