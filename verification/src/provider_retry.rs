//! The retry policy a host asks of a provider call, and the retry budget it
//! implies.

use vstd::prelude::*;

verus! {

pub const DEFAULT_MAX_RETRIES: usize = 3;

pub const DEFAULT_INITIAL_RETRY_INTERVAL_MS: u64 = 1000;

pub const DEFAULT_MAX_RETRY_INTERVAL_MS: u64 = 30_000;

/// How often a provider call may be attempted, whether transient failures
/// are retried, and an optional timeout.
#[derive(Clone, Copy, Debug, PartialEq, Eq)]
pub struct ProviderRetryPolicy {
    pub max_attempts: u32,
    pub retry_transient_errors: bool,
    pub timeout_seconds: Option<u64>,
}

impl Default for ProviderRetryPolicy {
    /// One attempt, transient failures retried, no timeout.
    fn default() -> (p: Self)
        ensures
            p.max_attempts == 1,
            p.retry_transient_errors,
            p.timeout_seconds is None,
    {
        ProviderRetryPolicy { max_attempts: 1, retry_transient_errors: true, timeout_seconds: None }
    }
}

impl ProviderRetryPolicy {
    /// The retry budget this policy gives a provider: the number of retries
    /// after the first attempt, and whether only transient failures are
    /// retried.
    pub fn retry_budget(&self) -> (r: (usize, bool))
        ensures
            r.0 == (if self.max_attempts >= 1 { self.max_attempts - 1 } else { 0 }),
            r.1 == self.retry_transient_errors,
    {
        (self.max_attempts.saturating_sub(1) as usize, self.retry_transient_errors)
    }
}

} // verus!
