//! Retry and repeat combinators for synchronous operations and for operations
//! that produce a fresh suspendable computation on every attempt.
pub mod policy;
pub mod tryable;
pub mod oneshot;
pub mod future;
pub mod builder;
pub mod prelude;
