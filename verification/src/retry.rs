//! When a failed open is tried again.
//!
//! The backend's listener may be away for a moment after the last connection
//! on the same endpoint was closed. A call therefore polls the open at a short
//! fixed interval until its budget is spent; the event bridge, which has no
//! budget, waits a fixed delay and tries for ever.

use vstd::prelude::*;

verus! {

/// Milliseconds between two attempts of a call to open the channel.
pub const OPEN_POLL_MS: u64 = 80;

/// Milliseconds that a call may spend on opening the channel.
pub const CALL_OPEN_BUDGET_MS: u64 = 10_000;

/// Milliseconds that the event bridge waits before it opens again.
pub const RECONNECT_DELAY_MS: u64 = 1000;

/// What to do after an open has failed.
#[derive(Clone, Copy, Debug, PartialEq, Eq)]
pub enum OpenRetry {
    /// The budget is spent: the call fails with the error of this attempt.
    GiveUp,
    /// Sleep for so many milliseconds, then open again.
    RetryAfter(u64),
}

/// What an open that failed `elapsed_ms` after the first attempt leads to,
/// under a budget of `timeout_ms`.
pub open spec fn retry_decision(elapsed_ms: u64, timeout_ms: u64) -> OpenRetry {
    if elapsed_ms >= timeout_ms {
        OpenRetry::GiveUp
    } else {
        OpenRetry::RetryAfter(OPEN_POLL_MS)
    }
}

/// Decides what follows an open that failed `elapsed_ms` milliseconds after
/// the first attempt: another attempt after the poll interval while the
/// budget lasts, the end of the call once it is spent.
pub fn after_failed_open(elapsed_ms: u64, timeout_ms: u64) -> (decision: OpenRetry)
    ensures
        decision == retry_decision(elapsed_ms, timeout_ms),
{
    if elapsed_ms >= timeout_ms {
        OpenRetry::GiveUp
    } else {
        OpenRetry::RetryAfter(OPEN_POLL_MS)
    }
}

/// While the budget lasts no failed open ends the call: a backend that
/// comes back within the budget is reached without the caller seeing an
/// error.
pub proof fn law_retry_within_budget(elapsed_ms: u64, timeout_ms: u64)
    requires
        elapsed_ms < timeout_ms,
    ensures
        retry_decision(elapsed_ms, timeout_ms) == OpenRetry::RetryAfter(OPEN_POLL_MS),
        retry_decision(elapsed_ms, timeout_ms) != OpenRetry::GiveUp,
{
}

} // verus!
