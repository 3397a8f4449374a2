//! The names a firmware wants in scope.

pub use crate::backoff::{Backoff, RETRY_FOREVER};
