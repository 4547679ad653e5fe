//! What is logged of workers: how they begin and end, what failed, every retry,
//! and signed URLs that could not be renewed.

use vstd::prelude::*;
use vstd::string::*;

use crate::direction;
use crate::direction::{KeyView, UniqueId};
use crate::error::MeowError;
use crate::ids::TaskId;
use crate::log;
use crate::log::{Log, LogLevel, LogView};
use crate::log_lines::{and_error, and_flag, and_number, and_task, entry, error_fields, error_text, error_words, flag_words, key_text, key_words, line, line_of, with_error};
use crate::presigned::range_download;
use crate::presigned::range_download::RefreshOutcome;
use crate::presigned::range_download_plan::PresignedRangeDownloadPlan;
use crate::retry;
use crate::retry::{is_transport_retryable, ChunkRetry};
use crate::text;
use crate::text::push_decimal;
use crate::transfer_status::ChunkOutcome;

verus! {

// ---------------------------------------------------------------------------
// The life of a worker
// ---------------------------------------------------------------------------

/// A checkpoint in the life of a worker.
#[derive(Debug, Clone, Copy, PartialEq, Eq, Structural)]
pub enum WorkerNote {
    Begin { start_offset: u64 },
    Prepared { next_offset: u64, total: u64 },
    /// A cancel was noticed before a chunk.
    CancelObserved { offset: u64 },
    /// A cancel was noticed during a chunk.
    ChunkInterrupted { offset: u64 },
    Completed { final_offset: u64, total: u64 },
    ParallelBegin { start_offset: u64, total: u64, max_parts: u64 },
    ParallelCanceled { watermark: u64 },
    ParallelCompleted { total: u64 },
}

/// The tag and the first words of a checkpoint.
pub open spec fn note_head(note: WorkerNote) -> (Seq<char>, Seq<char>) {
    match note {
        WorkerNote::Begin { .. } => ("run_group"@, "run_group begin: key="@),
        WorkerNote::Prepared { .. } => ("run_group"@, "prepared: key="@),
        WorkerNote::CancelObserved { .. } => ("run_group"@, "cancellation observed: key="@),
        WorkerNote::ChunkInterrupted { .. } => (
            "run_group"@,
            "chunk retry interrupted by cancellation: key="@,
        ),
        WorkerNote::Completed { .. } => ("run_group"@, "run_group completed: key="@),
        WorkerNote::ParallelBegin { .. } => ("run_group_parallel"@, "begin: key="@),
        WorkerNote::ParallelCanceled { .. } => (
            "run_group_parallel"@,
            "canceled after drain: key="@,
        ),
        WorkerNote::ParallelCompleted { .. } => ("run_group_parallel"@, "completed: key="@),
    }
}

/// What a checkpoint says behind its head.
pub open spec fn note_words(head: Seq<char>, note: WorkerNote) -> Seq<char> {
    match note {
        WorkerNote::Begin { start_offset } => head + " start_offset="@ + text::decimal(
            start_offset as nat,
        ),
        WorkerNote::Prepared { next_offset, total } => head + " next_offset="@ + text::decimal(
            next_offset as nat,
        ) + " total="@ + text::decimal(total as nat),
        WorkerNote::CancelObserved { offset } => head + " offset="@ + text::decimal(offset as nat),
        WorkerNote::ChunkInterrupted { offset } => head + " offset="@ + text::decimal(
            offset as nat,
        ),
        WorkerNote::Completed { final_offset, total } => head + " final_offset="@ + text::decimal(
            final_offset as nat,
        ) + " total="@ + text::decimal(total as nat),
        WorkerNote::ParallelBegin { start_offset, total, max_parts } => head + " start_offset="@
            + text::decimal(start_offset as nat) + " total="@ + text::decimal(total as nat)
            + " max_parts="@ + text::decimal(max_parts as nat),
        WorkerNote::ParallelCanceled { watermark } => head + " watermark="@ + text::decimal(
            watermark as nat,
        ),
        WorkerNote::ParallelCompleted { total } => head + " total="@ + text::decimal(total as nat),
    }
}

/// A worker came to a checkpoint.
pub fn worker_entry(key: &UniqueId, task_id: TaskId, note: WorkerNote) -> (log: Log)
    ensures
        line_of(log@) == line(
            LogLevel::Key,
            note_head(note).0,
            note_words(
                note_head(note).1 + key_words(direction::key_view(*key)) + " task_id="@
                    + task_id.spec_text(),
                note,
            ),
        ),
{
    let (tag, what): (&'static str, &'static str) = match note {
        WorkerNote::Begin { .. } => ("run_group", "run_group begin: key="),
        WorkerNote::Prepared { .. } => ("run_group", "prepared: key="),
        WorkerNote::CancelObserved { .. } => ("run_group", "cancellation observed: key="),
        WorkerNote::ChunkInterrupted { .. } => (
            "run_group",
            "chunk retry interrupted by cancellation: key=",
        ),
        WorkerNote::Completed { .. } => ("run_group", "run_group completed: key="),
        WorkerNote::ParallelBegin { .. } => ("run_group_parallel", "begin: key="),
        WorkerNote::ParallelCanceled { .. } => ("run_group_parallel", "canceled after drain: key="),
        WorkerNote::ParallelCompleted { .. } => ("run_group_parallel", "completed: key="),
    };
    let head = and_task(key_text(what, key), " task_id=", task_id);
    let message = match note {
        WorkerNote::Begin { start_offset } => and_number(head, " start_offset=", start_offset),
        WorkerNote::Prepared { next_offset, total } => and_number(
            and_number(head, " next_offset=", next_offset),
            " total=",
            total,
        ),
        WorkerNote::CancelObserved { offset } => and_number(head, " offset=", offset),
        WorkerNote::ChunkInterrupted { offset } => and_number(head, " offset=", offset),
        WorkerNote::Completed { final_offset, total } => and_number(
            and_number(head, " final_offset=", final_offset),
            " total=",
            total,
        ),
        WorkerNote::ParallelBegin { start_offset, total, max_parts } => and_number(
            and_number(and_number(head, " start_offset=", start_offset), " total=", total),
            " max_parts=",
            max_parts,
        ),
        WorkerNote::ParallelCanceled { watermark } => and_number(head, " watermark=", watermark),
        WorkerNote::ParallelCompleted { total } => and_number(head, " total=", total),
    };
    entry(LogLevel::Key, tag, message)
}

/// Preparing failed and is tried again after a delay; attempts are counted from
/// zero, retries from one.
pub fn prepare_retry_entry(
    key: &UniqueId,
    task_id: TaskId,
    attempt: u32,
    delay_ms: u64,
    e: &MeowError,
) -> (log: Log)
    ensures
        line_of(log@) == line(
            LogLevel::Warn,
            "run_group"@,
            "prepare retry scheduled: key="@ + key_words(direction::key_view(*key)) + " task_id="@
                + task_id.spec_text() + " attempt="@ + text::decimal((attempt + 1) as nat)
                + " delay_ms="@ + text::decimal(delay_ms as nat) + " err="@ + error_words(*e),
        ),
{
    let head = and_task(key_text("prepare retry scheduled: key=", key), " task_id=", task_id);
    let counted = and_number(head, " attempt=", attempt as u64 + 1);
    let message = and_error(and_number(counted, " delay_ms=", delay_ms), " err=", e);
    entry(LogLevel::Warn, "run_group", message)
}

/// What a worker was about when it failed.
#[derive(Debug, Clone, Copy, PartialEq, Eq, Structural)]
pub enum FailedStep {
    Prepare { start_offset: u64, attempt: u32, max_retries: u32 },
    Chunk { offset: u64, chunk_size: u64 },
    /// A download was all there and could not be completed.
    FinalizeAtTotal,
    PartPanic,
    /// Parts failed, and all others have settled.
    Drained,
    /// Everything settled and something is missing.
    Incomplete,
    Complete,
    /// The worker itself panicked.
    Panic,
}

/// The tag and the first words of a failure.
pub open spec fn step_head(step: FailedStep) -> (Seq<char>, Seq<char>) {
    match step {
        FailedStep::Prepare { .. } => ("run_group"@, "prepare failed: key="@),
        FailedStep::Chunk { .. } => (
            "run_group"@,
            "chunk retry exhausted or non-retryable: key="@,
        ),
        FailedStep::FinalizeAtTotal => (
            "run_group_parallel"@,
            "download finalize at total failed: key="@,
        ),
        FailedStep::PartPanic => ("run_group_parallel"@, "part task panicked: key="@),
        FailedStep::Drained => ("run_group_parallel"@, "failed after drain: key="@),
        FailedStep::Incomplete => (
            "run_group_parallel"@,
            "invariant violation before complete: key="@,
        ),
        FailedStep::Complete => ("run_group_parallel"@, "complete call failed: key="@),
        FailedStep::Panic => ("run_group"@, "run_group task panicked: key="@),
    }
}

/// What a failure says.
pub open spec fn step_words(step: FailedStep, k: KeyView, e: MeowError) -> Seq<char> {
    match step {
        FailedStep::Chunk { offset, .. } => step_head(step).1 + key_words(k) + " offset="@
            + text::decimal(offset as nat) + " err="@ + error_words(e),
        _ => step_head(step).1 + key_words(k) + " err="@ + error_words(e),
    }
}

/// A line with what is known of the task and of the step that failed.
pub open spec fn step_fields(entry: LogView, step: FailedStep, task_id: TaskId) -> LogView {
    let named = LogView { task_id: Some(task_id.spec_text()), ..entry };
    match step {
        FailedStep::Prepare { start_offset, attempt, max_retries } => LogView {
            offset: Some(start_offset),
            attempt: Some(attempt),
            max_retries: Some(max_retries),
            ..named
        },
        FailedStep::Chunk { offset, chunk_size } => LogView {
            offset: Some(offset),
            byte_len: Some(chunk_size),
            ..named
        },
        FailedStep::Panic => entry,
        _ => named,
    }
}

/// A worker failed.
pub fn failure_entry(key: &UniqueId, task_id: TaskId, step: FailedStep, e: &MeowError) -> (log: Log)
    ensures
        line_of(log@) == error_fields(
            step_fields(
                line(
                    LogLevel::Error,
                    step_head(step).0,
                    step_words(step, direction::key_view(*key), *e),
                ),
                step,
                task_id,
            ),
            *e,
        ),
{
    let (tag, what): (&'static str, &'static str) = match step {
        FailedStep::Prepare { .. } => ("run_group", "prepare failed: key="),
        FailedStep::Chunk { .. } => ("run_group", "chunk retry exhausted or non-retryable: key="),
        FailedStep::FinalizeAtTotal => (
            "run_group_parallel",
            "download finalize at total failed: key=",
        ),
        FailedStep::PartPanic => ("run_group_parallel", "part task panicked: key="),
        FailedStep::Drained => ("run_group_parallel", "failed after drain: key="),
        FailedStep::Incomplete => (
            "run_group_parallel",
            "invariant violation before complete: key=",
        ),
        FailedStep::Complete => ("run_group_parallel", "complete call failed: key="),
        FailedStep::Panic => ("run_group", "run_group task panicked: key="),
    };
    let named = key_text(what, key);
    let placed = match step {
        FailedStep::Chunk { offset, .. } => and_number(named, " offset=", offset),
        _ => named,
    };
    let log = entry(LogLevel::Error, tag, and_error(placed, " err=", e));
    let filled = match step {
        FailedStep::Prepare { start_offset, attempt, max_retries } => log.with_task_id(
            task_id.text(),
        ).with_offset(start_offset).with_attempt(attempt).with_max_retries(max_retries),
        FailedStep::Chunk { offset, chunk_size } => log.with_task_id(task_id.text()).with_range(
            offset,
            chunk_size,
        ),
        FailedStep::Panic => log,
        _ => log.with_task_id(task_id.text()),
    };
    with_error(filled, e)
}

/// What is there of a failed download could not be written down either.
pub fn unsettled_entry(e: &MeowError) -> (log: Log)
    ensures
        line_of(log@) == line(
            LogLevel::Warn,
            "run_group_parallel"@,
            "checkpoint while settling failed download also failed: "@ + error_words(*e),
        ),
{
    entry(
        LogLevel::Warn,
        "run_group_parallel",
        error_text("checkpoint while settling failed download also failed: ", e),
    )
}

// ---------------------------------------------------------------------------
// Retries
// ---------------------------------------------------------------------------

/// A line about an attempt at a chunk, with the retries made and allowed.
pub open spec fn retry_line(message: Seq<char>, offset: u64, counts: ChunkRetry) -> LogView {
    LogView {
        offset: Some(offset),
        attempt: Some(counts.attempt),
        max_retries: Some(counts.max_retries),
        ..line(LogLevel::Trace, "chunk_retry"@, message)
    }
}

/// What an attempt at a chunk is called: the chunk and a count.
pub open spec fn attempt_words(
    what: Seq<char>,
    k: KeyView,
    offset: u64,
    label: Seq<char>,
    count: nat,
) -> Seq<char> {
    what + key_words(k) + " offset="@ + text::decimal(offset as nat) + label + text::decimal(count)
}

/// What is logged of an attempt that was made: that a retry helped, that a cancel
/// came in between, that there is no further one, or when the next one follows.
/// A first attempt that succeeds is not worth a line.
pub open spec fn attempt_line(
    k: KeyView,
    offset: u64,
    counts: ChunkRetry,
    result: Result<ChunkOutcome, MeowError>,
    cancelled: bool,
    delay_ms: u64,
) -> Option<LogView> {
    match result {
        Ok(outcome) => if counts.attempt == 0 {
            None
        } else {
            Some(
                retry_line(
                    attempt_words(
                        "retry recovered: key="@,
                        k,
                        offset,
                        " attempts_used="@,
                        counts.attempt as nat,
                    ) + " next_offset="@ + text::decimal(outcome.next_offset as nat),
                    offset,
                    counts,
                ),
            )
        },
        Err(e) => Some(
            error_fields(
                retry_line(
                    if cancelled {
                        attempt_words(
                            "cancel after chunk error: key="@,
                            k,
                            offset,
                            " attempt="@,
                            counts.attempt as nat,
                        ) + " err="@ + error_words(e)
                    } else if !retry::retryable(e) || counts.attempt >= counts.max_retries {
                        attempt_words(
                            "give up: key="@,
                            k,
                            offset,
                            " attempt="@,
                            counts.attempt as nat,
                        ) + " max_retries="@ + text::decimal(counts.max_retries as nat)
                            + " retryable="@ + flag_words(retry::retryable(e)) + " err="@
                            + error_words(e)
                    } else {
                        attempt_words(
                            "retry scheduled: key="@,
                            k,
                            offset,
                            " attempt="@,
                            (counts.attempt + 1) as nat,
                        ) + " next_delay_ms="@ + text::decimal(delay_ms as nat) + " err="@
                            + error_words(e)
                    },
                    offset,
                    counts,
                ),
                e,
            ),
        ),
    }
}

fn attempt_text(what: &str, key: &UniqueId, offset: u64, label: &str, count: u64) -> (text: String)
    ensures
        text@ == attempt_words(
            what@,
            direction::key_view(*key),
            offset,
            label@,
            count as nat,
        ),
{
    and_number(and_number(key_text(what, key), " offset=", offset), label, count)
}

fn retry_entry(message: String, offset: u64, counts: ChunkRetry) -> (log: Log)
    ensures
        line_of(log@) == retry_line(message@, offset, counts),
{
    entry(LogLevel::Trace, "chunk_retry", message).with_offset(offset).with_attempt(
        counts.attempt,
    ).with_max_retries(counts.max_retries)
}

/// The entry of an attempt, with the counts that it was made under and the delay
/// before a next one; see [`attempt_line`].
pub fn attempt_entry(
    key: &UniqueId,
    offset: u64,
    counts: ChunkRetry,
    result: &Result<ChunkOutcome, MeowError>,
    cancelled: bool,
    delay_ms: u64,
) -> (log: Option<Log>)
    ensures
        match attempt_line(
            direction::key_view(*key),
            offset,
            counts,
            *result,
            cancelled,
            delay_ms,
        ) {
            Some(line) => log matches Some(log) && line_of(log@) == line,
            None => log is None,
        },
{
    let attempt: u64 = counts.attempt as u64;
    match result {
        Ok(outcome) => {
            if counts.attempt == 0 {
                return None;
            }
            let message = and_number(
                attempt_text("retry recovered: key=", key, offset, " attempts_used=", attempt),
                " next_offset=",
                outcome.next_offset,
            );
            Some(retry_entry(message, offset, counts))
        },
        Err(e) => {
            let may = is_transport_retryable(e);
            let told = if cancelled {
                attempt_text("cancel after chunk error: key=", key, offset, " attempt=", attempt)
            } else if !may || counts.attempt >= counts.max_retries {
                let limit = and_number(
                    attempt_text("give up: key=", key, offset, " attempt=", attempt),
                    " max_retries=",
                    counts.max_retries as u64,
                );
                and_flag(limit, " retryable=", may)
            } else {
                and_number(
                    attempt_text(
                        "retry scheduled: key=",
                        key,
                        offset,
                        " attempt=",
                        attempt + 1,
                    ),
                    " next_delay_ms=",
                    delay_ms,
                )
            };
            let message = and_error(told, " err=", e);
            Some(with_error(retry_entry(message, offset, counts), e))
        },
    }
}

/// A cancel was noticed where no attempt was under way: before one, or while
/// waiting for the next one.
pub fn canceled_attempt_entry(
    key: &UniqueId,
    offset: u64,
    counts: ChunkRetry,
    waiting: bool,
) -> (log: Log)
    ensures
        line_of(log@) == retry_line(
            attempt_words(
                if waiting {
                    "cancel during backoff wait: key="@
                } else {
                    "cancel before transfer: key="@
                },
                direction::key_view(*key),
                offset,
                " attempt="@,
                counts.attempt as nat,
            ),
            offset,
            counts,
        ),
{
    let what = if waiting {
        "cancel during backoff wait: key="
    } else {
        "cancel before transfer: key="
    };
    let message = attempt_text(what, key, offset, " attempt=", counts.attempt as u64);
    retry_entry(message, offset, counts)
}

/// No entry about a retry is of a level that is meant to be kept, and each says
/// where the chunk is and how many retries were made of how many.
pub proof fn law_retries_are_traced(
    k: KeyView,
    offset: u64,
    counts: ChunkRetry,
    result: Result<ChunkOutcome, MeowError>,
    cancelled: bool,
    delay_ms: u64,
)
    ensures
        attempt_line(k, offset, counts, result, cancelled, delay_ms) matches Some(line) ==> {
            &&& line.level == LogLevel::Trace
            &&& line.offset == Some(offset)
            &&& line.attempt == Some(counts.attempt)
            &&& line.max_retries == Some(counts.max_retries)
        },
        result is Err ==> attempt_line(k, offset, counts, result, cancelled, delay_ms) is Some,
{
}

// ---------------------------------------------------------------------------
// Signed URLs
// ---------------------------------------------------------------------------

/// A line about a signed URL, which gets in without its secrets.
pub open spec fn signed_line(level: LogLevel, message: Seq<char>, url: Seq<char>) -> LogView {
    LogView { url: Some(log::sanitized(url)), ..line(level, "range_get"@, message) }
}

/// What is logged of a renewal: that the refresher refused it, or gave a plan for
/// an object of another size.
pub open spec fn renewal_line(
    plan: PresignedRangeDownloadPlan,
    outcome: RefreshOutcome,
) -> Option<LogView> {
    match outcome {
        RefreshOutcome::Panicked => None,
        RefreshOutcome::Failed(e) => Some(
            signed_line(
                LogLevel::Error,
                "presigned range URL refresh/re-sign failed: "@ + error_words(e),
                plan.range_url@,
            ),
        ),
        RefreshOutcome::Refreshed(fresh) => if range_download::sizes_differ(plan, fresh) {
            Some(
                signed_line(
                    LogLevel::Error,
                    range_download::size_mismatch_text(
                        plan.total_size->Some_0,
                        fresh.total_size->Some_0,
                    ),
                    plan.range_url@,
                ),
            )
        } else {
            None
        },
    }
}

/// The entry of a renewal, from the plan that was to be renewed; see
/// [`renewal_line`].
pub fn renewal_entry(plan: &PresignedRangeDownloadPlan, outcome: &RefreshOutcome) -> (log: Option<
    Log,
>)
    ensures
        match renewal_line(*plan, *outcome) {
            Some(line) => log matches Some(log) && line_of(log@) == line,
            None => log is None,
        },
{
    let message = match outcome {
        RefreshOutcome::Panicked => {
            return None;
        },
        RefreshOutcome::Failed(e) => error_text("presigned range URL refresh/re-sign failed: ", e),
        RefreshOutcome::Refreshed(fresh) => match (plan.total_size, fresh.total_size) {
            (Some(old_size), Some(new_size)) => {
                if old_size == new_size {
                    return None;
                }
                let mut message = "refreshed range total_size mismatch: old=".to_owned();
                push_decimal(&mut message, old_size as u128);
                and_number(message, " new=", new_size)
            },
            _ => {
                return None;
            },
        },
    };
    let log = entry(LogLevel::Error, "range_get", message);
    Some(log.with_url(plan.range_url.as_str()))
}

/// What is logged of a plan that cannot be used: that its URL expired and nobody
/// can renew it. A clock that fails is not worth a line.
pub open spec fn unusable_line(plan: PresignedRangeDownloadPlan, e: MeowError) -> Option<LogView> {
    if e.msg@ == "presigned range URL expired and no refresher is configured"@ {
        Some(signed_line(LogLevel::Error, e.msg@, plan.range_url@))
    } else {
        None
    }
}

/// The entry of a plan that cannot be used; see [`unusable_line`].
pub fn unusable_entry(plan: &PresignedRangeDownloadPlan, e: &MeowError) -> (log: Option<Log>)
    ensures
        match unusable_line(*plan, *e) {
            Some(line) => log matches Some(log) && line_of(log@) == line,
            None => log is None,
        },
{
    let expired = "presigned range URL expired and no refresher is configured".to_owned();
    if e.msg != expired {
        return None;
    }
    let log = entry(LogLevel::Error, "range_get", expired);
    Some(log.with_url(plan.range_url.as_str()))
}

/// A range cannot be asked for.
pub fn bad_range_entry(e: &MeowError) -> (log: Log)
    ensures
        line_of(log@) == line(LogLevel::Warn, "range_get"@, error_words(*e)),
{
    let message = log::redact_secrets(e.msg.as_str());
    entry(LogLevel::Warn, "range_get", message)
}

} // verus!
