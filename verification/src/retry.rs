//! When a failed attempt is made again, and after how long.

use vstd::prelude::*;

use crate::clock::read_clock;
use crate::error::{InnerErrorCode, MeowError};
use crate::transfer_status::ChunkOutcome;

verus! {

/// The first delay, in milliseconds.
pub const CHUNK_RETRY_BASE_DELAY_MS: u64 = 200;

/// The longest delay before jitter, in milliseconds.
pub const CHUNK_RETRY_MAX_DELAY_MS: u64 = 5000;

/// Delays vary by this many percent in either direction.
pub const CHUNK_RETRY_JITTER_PERCENT: u64 = 20;

/// Whether an HTTP status says that the same request may succeed later:
/// request timeout, too many requests, and the server errors.
pub open spec fn transient_status(status: u16) -> bool {
    status == 408 || status == 429 || 500 <= status <= 599
}

/// Whether a failed chunk may be tried again: transport failures, and response
/// errors unless their status is known and not transient.
pub open spec fn retryable(error: MeowError) -> bool {
    match error.code {
        InnerErrorCode::HttpError => true,
        InnerErrorCode::ResponseStatusError => match error.http_status {
            Some(status) => transient_status(status),
            None => true,
        },
        _ => false,
    }
}

pub fn is_transport_retryable(error: &MeowError) -> (result: bool)
    ensures
        result == retryable(*error),
{
    match error.code {
        InnerErrorCode::HttpError => true,
        InnerErrorCode::ResponseStatusError => match error.http_status {
            Some(status) => status == 408 || status == 429 || (500 <= status && status <= 599),
            None => true,
        },
        _ => false,
    }
}

/// Whether preparing may be tried again: only failures of the connection
/// itself, never a response of the other side.
pub fn is_connection_layer_retryable(error: &MeowError) -> (result: bool)
    ensures
        result == (error.code == InnerErrorCode::HttpError),
{
    match error.code {
        InnerErrorCode::HttpError => true,
        _ => false,
    }
}

/// The delay before the retry that follows failed attempt `attempt` (counted
/// from zero), without jitter: it doubles with every attempt up to a limit.
pub open spec fn backoff_ms(attempt: nat) -> nat {
    let exponential = CHUNK_RETRY_BASE_DELAY_MS as nat * vstd::arithmetic::power2::pow2(
        if attempt <= 20 {
            attempt
        } else {
            20
        },
    );
    if exponential <= CHUNK_RETRY_MAX_DELAY_MS {
        exponential
    } else {
        CHUNK_RETRY_MAX_DELAY_MS as nat
    }
}

/// The jitter percentage that a random number stands for: 80 to 120.
pub open spec fn jitter_percent(random: nat) -> nat {
    (100 - CHUNK_RETRY_JITTER_PERCENT) as nat + random % (2 * CHUNK_RETRY_JITTER_PERCENT + 1) as nat
}

fn backoff_without_jitter_ms(attempt: u32) -> (delay: u64)
    ensures
        delay == backoff_ms(attempt as nat),
        delay <= CHUNK_RETRY_MAX_DELAY_MS,
{
    proof {
        vstd::arithmetic::power2::lemma2_to64();
        if attempt > 5 {
            let exponent: nat = if attempt <= 20 {
                attempt as nat
            } else {
                20
            };
            vstd::arithmetic::power2::lemma_pow2_strictly_increases(5, exponent);
        }
    }
    match attempt {
        0 => 200,
        1 => 400,
        2 => 800,
        3 => 1600,
        4 => 3200,
        _ => CHUNK_RETRY_MAX_DELAY_MS,
    }
}

/// The delay before the next attempt, with the jitter that `random` stands
/// for.
pub fn backoff_with_jitter_ms(attempt: u32, random: u64) -> (delay: u64)
    ensures
        delay == backoff_ms(attempt as nat) * jitter_percent(random as nat) / 100,
{
    let capped: u64 = backoff_without_jitter_ms(attempt);
    let ratio: u64 = 100 - CHUNK_RETRY_JITTER_PERCENT + random % (2 * CHUNK_RETRY_JITTER_PERCENT
        + 1);
    assert(capped * ratio <= 5000 * 120) by (nonlinear_arith)
        requires
            capped <= 5000,
            ratio <= 120,
    ;
    assert(0 <= capped * ratio) by (nonlinear_arith)
        requires
            capped >= 0,
            ratio >= 0,
    ;
    capped * ratio / 100
}

/// The delay before the next attempt, with jitter taken from the clock.
pub fn calc_backoff_with_jitter_ms(attempt: u32) -> (delay: u64)
    ensures
        exists|random: u64|
            delay == backoff_ms(attempt as nat) * #[trigger] jitter_percent(random as nat) / 100,
{
    let random: u64 = match read_clock() {
        Ok(reading) => reading.nanos as u64,
        Err(_) => 0,
    };
    backoff_with_jitter_ms(attempt, random)
}

/// Delays stay between 160 and 6000 milliseconds, whatever the jitter, and
/// before jitter a later retry never waits less than an earlier one.
pub proof fn law_backoff_is_bounded(attempt: nat, later: nat, random: nat)
    requires
        attempt <= later,
    ensures
        160 <= backoff_ms(attempt) * jitter_percent(random) / 100 <= 6000,
        backoff_ms(attempt) <= backoff_ms(later),
{
    vstd::arithmetic::power2::lemma2_to64();
    let a: nat = if attempt <= 20 {
        attempt
    } else {
        20
    };
    let b: nat = if later <= 20 {
        later
    } else {
        20
    };
    if 0 < a {
        vstd::arithmetic::power2::lemma_pow2_strictly_increases(0, a);
    }
    if a < b {
        vstd::arithmetic::power2::lemma_pow2_strictly_increases(a, b);
    }
    let d = backoff_ms(attempt);
    let p = jitter_percent(random);
    assert(200 <= d <= 5000);
    assert(80 <= p <= 120);
    assert(16000 <= d * p <= 600000) by (nonlinear_arith)
        requires
            200 <= d <= 5000,
            80 <= p <= 120,
    ;
}

/// How the transfer of one chunk ended.
pub enum ChunkRetryResult {
    Done(ChunkOutcome),
    Cancelled,
    Failed(MeowError),
}

/// Whether the chunk is transferred as a step of a serial transfer, which may
/// complete it, or as one part of several, which never does.
#[derive(Debug, Clone, Copy, PartialEq, Eq, Structural)]
pub enum ChunkTransferMode {
    Whole,
    Part,
}

/// What follows an attempt.
pub enum RetryDecision {
    Finish(ChunkRetryResult),
    /// Wait for the delay of failed attempt `attempt`, then try again.
    Backoff { attempt: u32 },
}

/// The attempts at one chunk.
#[derive(Debug, Clone, Copy, PartialEq, Eq, Structural)]
pub struct ChunkRetry {
    /// Retries made so far.
    pub attempt: u32,
    /// Retries allowed after the first attempt.
    pub max_retries: u32,
}

/// What follows an attempt: success ends it; after a failure, a cancel goes
/// before everything else, and a retry needs a retryable error and a retry
/// left.
pub open spec fn decide_retry(
    retry: ChunkRetry,
    result: Result<ChunkOutcome, MeowError>,
    cancelled: bool,
) -> RetryDecision {
    match result {
        Ok(outcome) => RetryDecision::Finish(ChunkRetryResult::Done(outcome)),
        Err(error) => if cancelled {
            RetryDecision::Finish(ChunkRetryResult::Cancelled)
        } else if !retryable(error) || retry.attempt >= retry.max_retries {
            RetryDecision::Finish(ChunkRetryResult::Failed(error))
        } else {
            RetryDecision::Backoff { attempt: retry.attempt }
        },
    }
}

impl ChunkRetry {
    pub fn new(max_retries: u32) -> (retry: ChunkRetry)
        ensures
            retry == (ChunkRetry { attempt: 0, max_retries }),
    {
        ChunkRetry { attempt: 0, max_retries }
    }

    /// Before an attempt, and when a wait ends: a cancel stops everything,
    /// otherwise the attempt is made.
    pub fn before_attempt(&self, cancelled: bool) -> (stop: Option<ChunkRetryResult>)
        ensures
            stop == if cancelled {
                Some(ChunkRetryResult::Cancelled)
            } else {
                None
            },
    {
        if cancelled {
            Some(ChunkRetryResult::Cancelled)
        } else {
            None
        }
    }

    /// After an attempt. A decision to try again counts the retry.
    pub fn after_attempt(
        &mut self,
        result: Result<ChunkOutcome, MeowError>,
        cancelled: bool,
    ) -> (decision: RetryDecision)
        ensures
            decision == decide_retry(*old(self), result, cancelled),
            decision is Finish ==> *final(self) == *old(self),
            decision is Backoff ==> old(self).attempt < old(self).max_retries && *final(self) == (
            ChunkRetry { attempt: (old(self).attempt + 1) as u32, ..*old(self) }),
    {
        match result {
            Ok(outcome) => RetryDecision::Finish(ChunkRetryResult::Done(outcome)),
            Err(error) => {
                if cancelled {
                    return RetryDecision::Finish(ChunkRetryResult::Cancelled);
                }
                if !is_transport_retryable(&error) || self.attempt >= self.max_retries {
                    return RetryDecision::Finish(ChunkRetryResult::Failed(error));
                }
                let attempt: u32 = self.attempt;
                self.attempt = attempt + 1;
                RetryDecision::Backoff { attempt }
            },
        }
    }
}

/// How many attempts are made when these results come back in this order,
/// until one of them ends the transfer of the chunk.
pub open spec fn attempts_made(
    retry: ChunkRetry,
    results: Seq<Result<ChunkOutcome, MeowError>>,
) -> nat
    decreases results.len(),
{
    if results.len() == 0 {
        0
    } else if decide_retry(retry, results[0], false) is Backoff {
        1 + attempts_made(
            ChunkRetry { attempt: (retry.attempt + 1) as u32, ..retry },
            results.drop_first(),
        )
    } else {
        1
    }
}

/// Whatever comes back, a chunk is attempted at most once more than the retries
/// allow; where only retryable failures come back, exactly that often.
pub proof fn law_attempts_are_bounded(
    retry: ChunkRetry,
    results: Seq<Result<ChunkOutcome, MeowError>>,
)
    requires
        retry.attempt <= retry.max_retries,
    ensures
        attempts_made(retry, results) <= retry.max_retries - retry.attempt + 1,
        results.len() > retry.max_retries - retry.attempt && (forall|i: int|
            0 <= i < results.len() ==> (#[trigger] results[i]) is Err && retryable(
                results[i]->Err_0,
            )) ==> attempts_made(retry, results) == retry.max_retries - retry.attempt + 1,
    decreases results.len(),
{
    if results.len() > 0 && decide_retry(retry, results[0], false) is Backoff {
        let rest = results.drop_first();
        law_attempts_are_bounded(
            ChunkRetry { attempt: (retry.attempt + 1) as u32, ..retry },
            rest,
        );
        if forall|i: int|
            0 <= i < results.len() ==> (#[trigger] results[i]) is Err && retryable(
                results[i]->Err_0,
            ) {
            assert forall|i: int| 0 <= i < rest.len() implies (#[trigger] rest[i]) is Err
                && retryable(rest[i]->Err_0) by {
                assert(rest[i] == results[i + 1]);
            }
        }
    }
}

} // verus!
