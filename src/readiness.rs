//! Readiness polling: probe the service's port until it accepts a
//! connection or the deadline has passed.

use vstd::prelude::*;

verus! {

/// How long one connection attempt may take, in milliseconds.
pub const PROBE_TIMEOUT_MS: u64 = 200;

/// Pause between two attempts, in milliseconds.
pub const POLL_INTERVAL_MS: u64 = 200;

/// How long the service has to become reachable after launch, in milliseconds.
pub const READY_DEADLINE_MS: u64 = 20000;

/// What the poller does next.
#[derive(Clone, Copy, Debug, PartialEq, Eq, Structural)]
pub enum Poll {
    /// Try one connection.
    Probe,
    /// The port accepted a connection.
    Ready,
    /// Pause for `POLL_INTERVAL_MS`, then ask again.
    Sleep,
    /// The deadline has passed.
    TimedOut,
}

pub open spec fn poll_after(elapsed_ms: u64, deadline_ms: u64, last_probe: Option<bool>) -> Poll {
    match last_probe {
        Some(true) => Poll::Ready,
        Some(false) => Poll::Sleep,
        None => if elapsed_ms < deadline_ms {
            Poll::Probe
        } else {
            Poll::TimedOut
        },
    }
}

/// The next move, `elapsed_ms` after polling began, with a deadline of
/// `deadline_ms`; `last_probe` is the result of the attempt just made, if
/// the previous move was `Probe`. The deadline is checked before each
/// attempt.
pub fn poll_next(elapsed_ms: u64, deadline_ms: u64, last_probe: Option<bool>) -> (r: Poll)
    ensures
        r == poll_after(elapsed_ms, deadline_ms, last_probe),
{
    match last_probe {
        Some(true) => Poll::Ready,
        Some(false) => Poll::Sleep,
        None => if elapsed_ms < deadline_ms {
            Poll::Probe
        } else {
            Poll::TimedOut
        },
    }
}

/// With a zero deadline polling times out at once: no connection is tried.
pub proof fn lemma_zero_deadline(elapsed_ms: u64)
    ensures
        poll_after(elapsed_ms, 0, None) == Poll::TimedOut,
{
}

} // verus!
