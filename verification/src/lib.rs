//! Exponential backoff with jitter.
//!
//! A [`Backoff`] context answers one question per call: how long to wait
//! before the next attempt, and whether another attempt is allowed at all.
//! The caller supplies the random value; the library has no clock and no
//! entropy source of its own.
//!
//! The behaviour is specified over [`BackoffState`], the mathematical view of
//! a context, and the laws that hold across calls are proved in [`laws`].

pub mod backoff;
pub mod core_error;
pub mod laws;
pub mod prelude;

pub use backoff::{Backoff, BackoffState, RETRY_FOREVER};
