//! The message streams the workers publish to: how long each keeps its
//! messages, and how often making their producers is tried.
use vstd::prelude::*;

verus! {

/// How much a stream keeps: at most `max_length_gb` gigabytes, each message
/// for at most `max_age_secs` seconds.
#[derive(Clone, Copy, Debug, PartialEq, Eq, Structural)]
pub struct StreamRetention {
    pub max_length_gb: u64,
    pub max_age_secs: u64,
}

/// The market data stream keeps 5 GB for a week.
pub fn feed_stream_retention() -> (r: StreamRetention)
    ensures
        r.max_length_gb == 5,
        r.max_age_secs == 3600 * 24 * 7,
{
    StreamRetention { max_length_gb: 5, max_age_secs: 3600 * 24 * 7 }
}

/// The subscription stream keeps 2 GB for three days.
pub fn subscribe_stream_retention() -> (r: StreamRetention)
    ensures
        r.max_length_gb == 2,
        r.max_age_secs == 3600 * 24 * 3,
{
    StreamRetention { max_length_gb: 2, max_age_secs: 3600 * 24 * 3 }
}

/// How many times making the producers is tried.
pub const MAX_PRODUCER_ATTEMPTS: u32 = 5;

/// The wait between two tries, in seconds.
pub const RETRY_DELAY_SECS: u64 = 5;

/// What follows a failed try to make the producers.
#[derive(Clone, Copy, Debug, PartialEq, Eq, Structural)]
pub enum ProducerRetry {
    /// Wait `delay_secs`, then make try number `next_attempt`.
    Retry { next_attempt: u32, delay_secs: u64 },
    /// Report the failure.
    GiveUp,
}

pub open spec fn after_failed_attempt_spec(attempt: u32) -> ProducerRetry {
    if attempt >= MAX_PRODUCER_ATTEMPTS {
        ProducerRetry::GiveUp
    } else {
        ProducerRetry::Retry { next_attempt: (attempt + 1) as u32, delay_secs: RETRY_DELAY_SECS }
    }
}

/// After try number `attempt` (counted from 1) failed: the next try after
/// the delay, or giving up after the last.
pub fn after_failed_attempt(attempt: u32) -> (r: ProducerRetry)
    requires
        1 <= attempt <= MAX_PRODUCER_ATTEMPTS,
    ensures
        r == after_failed_attempt_spec(attempt),
{
    if attempt == MAX_PRODUCER_ATTEMPTS {
        ProducerRetry::GiveUp
    } else {
        ProducerRetry::Retry { next_attempt: attempt + 1, delay_secs: RETRY_DELAY_SECS }
    }
}

/// The tries that failures lead through, from try `attempt` on.
pub open spec fn tries_from(attempt: u32) -> nat
    decreases MAX_PRODUCER_ATTEMPTS - attempt,
{
    if attempt < 1 || attempt >= MAX_PRODUCER_ATTEMPTS {
        1
    } else {
        1 + tries_from((attempt + 1) as u32)
    }
}

/// Failing every time, the tries that start at the first number exactly
/// the maximum before giving up: each failure before the last leads to the
/// next try.
pub proof fn lemma_producer_tries_bounded(attempt: u32)
    requires
        1 <= attempt <= MAX_PRODUCER_ATTEMPTS,
    ensures
        tries_from(attempt) == MAX_PRODUCER_ATTEMPTS - attempt + 1,
        attempt < MAX_PRODUCER_ATTEMPTS ==> (after_failed_attempt_spec(attempt)
            == (ProducerRetry::Retry { next_attempt: (attempt + 1) as u32, delay_secs: 5 })),
        attempt == MAX_PRODUCER_ATTEMPTS ==> (after_failed_attempt_spec(attempt)
            == ProducerRetry::GiveUp),
    decreases MAX_PRODUCER_ATTEMPTS - attempt,
{
    if attempt < MAX_PRODUCER_ATTEMPTS {
        lemma_producer_tries_bounded((attempt + 1) as u32);
    }
}

} // verus!
