use vstd::prelude::*;

verus! {

/// Attempts after which an e-mail is moved to the failed queue.
pub const MAX_RETRIES: i32 = 3;

/// Seconds an e-mail may stay in processing before it counts as stuck.
pub const PROCESSING_TIMEOUT: i64 = 300;

/// What happens to an e-mail after a failed or stuck delivery attempt.
#[derive(Debug, Clone, Copy, PartialEq, Eq, Structural)]
pub enum RetryStep {
    /// Move to the failed queue with the new retry count.
    Fail { retries: i32 },
    /// Queue again with the new retry count, not before `next_attempt`.
    Requeue { retries: i32, next_attempt: i64 },
}

/// The backoff before the attempt after `retries` failures: `60 * 2^retries` seconds.
pub open spec fn backoff_secs(retries: int) -> int
    decreases retries,
{
    if retries <= 0 {
        60
    } else {
        2 * backoff_secs(retries - 1)
    }
}

/// The step after a failed attempt of an e-mail that had failed `retries` times
/// before: fail at `MAX_RETRIES` failures, else requeue with exponential backoff.
pub open spec fn retry_step_of(retries: i32, now: i64) -> RetryStep {
    if retries + 1 >= MAX_RETRIES {
        RetryStep::Fail { retries: (retries + 1) as i32 }
    } else {
        RetryStep::Requeue {
            retries: (retries + 1) as i32,
            next_attempt: (now + backoff_secs(retries + 1)) as i64,
        }
    }
}

/// Decides what to do with an e-mail whose delivery failed or got stuck.
pub fn after_failed_attempt(retries: i32, now: i64) -> (r: RetryStep)
    requires
        0 <= retries < i32::MAX,
        now <= i64::MAX - 240,
    ensures
        r == retry_step_of(retries, now),
{
    let next = retries + 1;
    if next >= MAX_RETRIES {
        RetryStep::Fail { retries: next }
    } else {
        let delay: i64 = if next == 1 {
            120
        } else {
            240
        };
        assert(delay == backoff_secs(next as int)) by {
            reveal_with_fuel(backoff_secs, 3);
        }
        RetryStep::Requeue { retries: next, next_attempt: now + delay }
    }
}

/// E-mails that entered processing at or before this time are stuck.
pub fn stuck_cutoff(now: i64) -> (r: i64)
    requires
        now >= i64::MIN + PROCESSING_TIMEOUT,
    ensures
        r == now - PROCESSING_TIMEOUT,
{
    now - PROCESSING_TIMEOUT
}

} // verus!
