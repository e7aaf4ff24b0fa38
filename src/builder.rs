//! Builders: `f.repeat(n)` and `f.retry(n)` keep the operation and the count,
//! and `run` drives it in a blocking loop.
pub mod repeat;
pub mod retry;
pub mod run;
