//! A retry executor: it runs a fallible operation until it succeeds, its
//! error is not retryable, or the backoff has no pause left, threading a
//! caller-owned context through every attempt.

use vstd::prelude::*;

pub mod backoff;
pub mod policy;
pub mod sleep;
pub mod blocking_retry;
pub mod blocking_retry_with_context;
pub mod laws;

verus! {

} // verus!
