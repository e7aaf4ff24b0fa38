//! The blocking combinators, for `use retry::prelude::*`.
pub use crate::oneshot::{RepeatOneshot0, RetryOneshot0};
pub use crate::oneshot::{repeat_oneshot, repeat_with, retry_oneshot, retry_with};
