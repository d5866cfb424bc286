//! The reconnect loop's reaction to a finished session.
//!
//! The loop itself runs outside this crate: it resolves connection
//! parameters, runs one session, and then asks [`next_directive`] what to
//! do with the session's outcome. The decision carries no retry counter
//! and no backoff state: every non-cancellation outcome is treated as
//! transient and leads to one fixed-length delay followed by a fresh
//! session, so the loop runs indefinitely unless cancelled.

use vstd::prelude::*;
use crate::outcome::SessionOutcome;

verus! {

/// Seconds the loop waits between one session's end and the next attempt.
pub const RETRY_DELAY_SECS: u64 = 5;

/// What the reconnect loop does after one session has ended.
#[derive(Clone, Copy, Debug, PartialEq, Eq, Structural)]
pub enum LoopDirective {
    /// Terminate the whole process at once, with a success status.
    ExitProcess,
    /// Sleep for `delay_secs` seconds, then start a fresh session.
    DelayThenRetry { delay_secs: u64 },
}

/// The reconnect decision: only cancellation stops the loop; every other
/// outcome leads to the same fixed delay and a new attempt.
pub open spec fn spec_next_directive(o: SessionOutcome) -> LoopDirective {
    if o is Cancelled {
        LoopDirective::ExitProcess
    } else {
        LoopDirective::DelayThenRetry { delay_secs: RETRY_DELAY_SECS }
    }
}

/// Decides how the loop reacts to `o`; pure, and total over all outcomes.
pub fn next_directive(o: &SessionOutcome) -> (r: LoopDirective)
    ensures
        r == spec_next_directive(*o),
{
    match o {
        SessionOutcome::Cancelled => LoopDirective::ExitProcess,
        _ => LoopDirective::DelayThenRetry { delay_secs: RETRY_DELAY_SECS },
    }
}

/// Law: cancellation always terminates the process and never reaches the
/// retry delay, whatever phase of the session produced it.
pub proof fn lemma_cancellation_exits(o: SessionOutcome)
    requires
        o is Cancelled,
    ensures
        spec_next_directive(o) is ExitProcess,
{
}

/// Law: every non-cancellation outcome yields exactly one fixed-length
/// delay before the next session; the directive depends on nothing but
/// the outcome, so no retry ceiling ever appears.
pub proof fn lemma_noncancellation_retries(o: SessionOutcome)
    requires
        !(o is Cancelled),
    ensures
        spec_next_directive(o) == (LoopDirective::DelayThenRetry { delay_secs: RETRY_DELAY_SECS }),
{
}

} // verus!
