use vstd::prelude::*;

verus! {

/// Held only by the outcome shapes that this crate classifies.
pub trait Sealed {}

impl<T> Sealed for Option<T> {}

impl<T, E> Sealed for Result<T, E> {}

} // verus!
