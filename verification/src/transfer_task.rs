//! Tasks as a running transfer sees them, and the rules by which downloaded
//! bytes become progress that survives a crash.
//!
//! Bytes are written to the locked target, synced, and only then recorded in
//! the checkpoint. A download counts as complete only once its checkpoint is
//! committed, its length is right, its content was validated and every part is
//! recorded.

use vstd::prelude::*;
use vstd::string::*;

use reqwest::header::{HeaderMap, HeaderValue};

use crate::direction::Direction;
use crate::error;
use crate::error::{InnerErrorCode, IoErrorKind, IoFailure, MeowError};
use crate::headers;
use crate::headers::header_map_clone;
use crate::inner_task::InnerTask;
use crate::lifecycle::TransferLifecycle;
use crate::pounce_task::{BreakpointDownloadHttpConfig, LocalPath};
use crate::text;
use crate::text::push_decimal;

verus! {

/// The error of a completed download whose content cannot be validated.
pub open spec fn validation_failure_code(failure: IoFailure) -> InnerErrorCode {
    match failure.kind {
        IoErrorKind::NotFound | IoErrorKind::UnexpectedEof => InnerErrorCode::LocalFileRemoved,
        IoErrorKind::InvalidData => InnerErrorCode::ChecksumMismatch,
        _ => failure.spec_code(),
    }
}

/// The text of that error.
pub open spec fn validation_failure_text(failure: IoFailure) -> Seq<char> {
    match failure.kind {
        IoErrorKind::NotFound | IoErrorKind::UnexpectedEof =>
            "completed download disappeared or was truncated"@,
        IoErrorKind::InvalidData => "validate completed download content failed"@,
        _ => "read completed download for validation failed"@,
    }
}

/// A target that vanished or shrank is gone; one with other content fails its
/// checksum; everything else is an ordinary local failure.
pub fn map_download_validation_error(failure: &IoFailure) -> (e: MeowError)
    ensures
        error::is_error(
            e,
            validation_failure_code(*failure),
            validation_failure_text(*failure),
        ),
{
    match failure.kind {
        IoErrorKind::NotFound | IoErrorKind::UnexpectedEof => MeowError::from_code_str(
            InnerErrorCode::LocalFileRemoved,
            "completed download disappeared or was truncated",
        ),
        IoErrorKind::InvalidData => MeowError::from_code_str(
            InnerErrorCode::ChecksumMismatch,
            "validate completed download content failed",
        ),
        _ => MeowError::from_io(
            "read completed download for validation failed".to_owned(),
            failure,
        ),
    }
}

/// A target that someone else holds is a conflict between tasks; every other
/// failure to take it is an ordinary local failure.
pub fn map_download_target_lock_error(message: String, failure: &IoFailure) -> (e: MeowError)
    ensures
        error::is_error(
            e,
            if failure.kind == IoErrorKind::WouldBlock {
                InnerErrorCode::InvalidTaskState
            } else {
                failure.spec_code()
            },
            message@,
        ),
{
    match failure.kind {
        IoErrorKind::WouldBlock => MeowError::from_code(InnerErrorCode::InvalidTaskState, message),
        _ => MeowError::from_io(message, failure),
    }
}

/// What is done to own a download target, and to give it up again.
#[derive(Debug, Clone, Copy, PartialEq, Eq, Structural)]
pub enum TargetStage {
    /// Own the target's path, against every other task.
    AcquireLease,
    /// Open and lock the target itself.
    Lock,
    /// Look at the length of a target that was just locked.
    StatNewlyLocked,
    /// Look at the length of a target that is held already.
    StatLocked,
    /// Sync the target before it is given up.
    Sync,
    /// Unlock the target.
    Unlock,
}

/// The text of a target that cannot be owned or given up.
pub open spec fn target_failure_text(stage: TargetStage, path: Seq<char>) -> Seq<char> {
    match stage {
        TargetStage::AcquireLease => "acquire download target lease failed: "@ + path,
        TargetStage::Lock => "lock actual download target failed: "@ + path,
        TargetStage::StatNewlyLocked => "stat newly locked download target failed: "@ + path,
        TargetStage::StatLocked => "stat locked download target failed: "@ + path,
        TargetStage::Sync => "sync locked download target failed: "@ + path,
        TargetStage::Unlock => "unlock download target failed"@,
    }
}

/// The error of a target that cannot be owned or given up: someone else who
/// holds it is a conflict, everything else an ordinary local failure.
pub fn target_error(stage: TargetStage, path: &str, failure: &IoFailure) -> (e: MeowError)
    ensures
        error::is_error(
            e,
            if (stage is AcquireLease || stage is Lock) && failure.kind == IoErrorKind::WouldBlock {
                InnerErrorCode::InvalidTaskState
            } else {
                failure.spec_code()
            },
            target_failure_text(stage, path@),
        ),
{
    let mut text = match stage {
        TargetStage::AcquireLease => "acquire download target lease failed: ".to_owned(),
        TargetStage::Lock => "lock actual download target failed: ".to_owned(),
        TargetStage::StatNewlyLocked => "stat newly locked download target failed: ".to_owned(),
        TargetStage::StatLocked => "stat locked download target failed: ".to_owned(),
        TargetStage::Sync => "sync locked download target failed: ".to_owned(),
        TargetStage::Unlock => {
            return MeowError::from_io("unlock download target failed".to_owned(), failure);
        },
    };
    text.append(path);
    match stage {
        TargetStage::AcquireLease | TargetStage::Lock => map_download_target_lock_error(
            text,
            failure,
        ),
        _ => MeowError::from_io(text, failure),
    }
}

// ---------------------------------------------------------------------------
// Checkpoints
// ---------------------------------------------------------------------------

/// What makes a checkpoint due.
#[derive(Debug, Clone, Copy, PartialEq, Eq, Structural)]
pub enum CheckpointCause {
    /// Enough parts were staged, or the transfer ends.
    Batch,
    /// A part was staged a while ago.
    Timer,
}

/// What a checkpoint does next.
#[derive(Debug, Clone, Copy, PartialEq, Eq, Structural)]
pub enum CheckpointStep {
    /// Ask the progress record whether anything is staged.
    Begin,
    /// Sync the data of the target.
    SyncData,
    /// Record the staged parts.
    Commit,
    Done,
}

/// A checkpoint in progress.
#[derive(Debug)]
pub struct Checkpoint {
    pub cause: CheckpointCause,
    pub step: CheckpointStep,
}

/// Why a checkpoint failed.
#[derive(Debug)]
pub enum CheckpointFailure {
    /// What the transfer fails with.
    Error(MeowError),
    /// The I/O failure itself: the timer only takes note of it.
    Io(IoFailure),
    /// The target was closed when the timer went off.
    TargetGone,
}

/// Whether a checkpoint failed with an I/O failure: one that the transfer waits
/// for says what was tried, the timer hands the failure on.
pub open spec fn fails_by_io(
    cause: CheckpointCause,
    text: Seq<char>,
    failure: IoFailure,
    result: Result<(), CheckpointFailure>,
) -> bool {
    match cause {
        CheckpointCause::Batch => result matches Err(CheckpointFailure::Error(e))
            && error::is_error(e, failure.spec_code(), text),
        CheckpointCause::Timer => result == Err::<(), CheckpointFailure>(
            CheckpointFailure::Io(failure),
        ),
    }
}

/// Whether a checkpoint failed because the target is closed.
pub open spec fn fails_by_target(
    cause: CheckpointCause,
    result: Result<(), CheckpointFailure>,
) -> bool {
    match cause {
        CheckpointCause::Batch => result matches Err(CheckpointFailure::Error(e))
            && error::is_error(
            e,
            InnerErrorCode::InvalidTaskState,
            "locked download target missing during checkpoint"@,
        ),
        CheckpointCause::Timer => result == Err::<(), CheckpointFailure>(
            CheckpointFailure::TargetGone,
        ),
    }
}

impl CheckpointFailure {
    fn by_io(cause: CheckpointCause, text: &str, failure: IoFailure) -> (result: Result<
        (),
        CheckpointFailure,
    >)
        ensures
            fails_by_io(cause, text@, failure, result),
    {
        match cause {
            CheckpointCause::Batch => Err(
                CheckpointFailure::Error(MeowError::from_io(text.to_owned(), &failure)),
            ),
            CheckpointCause::Timer => Err(CheckpointFailure::Io(failure)),
        }
    }
}

impl Checkpoint {
    pub fn new(cause: CheckpointCause) -> (checkpoint: Checkpoint)
        ensures
            checkpoint == (Checkpoint { cause, step: CheckpointStep::Begin }),
    {
        Checkpoint { cause, step: CheckpointStep::Begin }
    }

    /// Whether anything is staged; `None` where there is no progress record.
    pub fn on_begin(&mut self, due: Option<Result<bool, IoFailure>>) -> (result: Result<
        (),
        CheckpointFailure,
    >)
        requires
            old(self).step is Begin,
        ensures
            final(self).cause == old(self).cause,
            match due {
                None => result is Ok && final(self).step is Done,
                Some(Ok(due)) => result is Ok && final(self).step == if due {
                    CheckpointStep::SyncData
                } else {
                    CheckpointStep::Done
                },
                Some(Err(failure)) => final(self).step is Done && fails_by_io(
                    old(self).cause,
                    "begin .rcdl checkpoint failed"@,
                    failure,
                    result,
                ),
            },
    {
        self.step = CheckpointStep::Done;
        match due {
            None => Ok(()),
            Some(Ok(due)) => {
                if due {
                    self.step = CheckpointStep::SyncData;
                }
                Ok(())
            },
            Some(Err(failure)) => CheckpointFailure::by_io(
                self.cause,
                "begin .rcdl checkpoint failed",
                failure,
            ),
        }
    }

    /// The data was synced, or could not be; `None` where the target is closed.
    pub fn on_sync(&mut self, synced: Option<Result<(), IoFailure>>) -> (result: Result<
        (),
        CheckpointFailure,
    >)
        requires
            old(self).step is SyncData,
        ensures
            final(self).cause == old(self).cause,
            match synced {
                None => final(self).step is Done && fails_by_target(old(self).cause, result),
                Some(Ok(())) => result is Ok && final(self).step is Commit,
                Some(Err(failure)) => final(self).step is Done && fails_by_io(
                    old(self).cause,
                    "sync download checkpoint data failed"@,
                    failure,
                    result,
                ),
            },
    {
        self.step = CheckpointStep::Done;
        match synced {
            None => match self.cause {
                CheckpointCause::Batch => Err(
                    CheckpointFailure::Error(
                        MeowError::from_code_str(
                            InnerErrorCode::InvalidTaskState,
                            "locked download target missing during checkpoint",
                        ),
                    ),
                ),
                CheckpointCause::Timer => Err(CheckpointFailure::TargetGone),
            },
            Some(Ok(())) => {
                self.step = CheckpointStep::Commit;
                Ok(())
            },
            Some(Err(failure)) => CheckpointFailure::by_io(
                self.cause,
                "sync download checkpoint data failed",
                failure,
            ),
        }
    }

    /// The staged parts were recorded, or could not be; `None` where the
    /// progress record is gone by now.
    pub fn on_commit(&mut self, committed: Option<Result<(), IoFailure>>) -> (result: Result<
        (),
        CheckpointFailure,
    >)
        requires
            old(self).step is Commit,
        ensures
            final(self).cause == old(self).cause,
            final(self).step is Done,
            match committed {
                None | Some(Ok(())) => result is Ok,
                Some(Err(failure)) => fails_by_io(
                    old(self).cause,
                    "commit .rcdl checkpoint failed"@,
                    failure,
                    result,
                ),
            },
    {
        self.step = CheckpointStep::Done;
        match committed {
            None | Some(Ok(())) => Ok(()),
            Some(Err(failure)) => CheckpointFailure::by_io(
                self.cause,
                "commit .rcdl checkpoint failed",
                failure,
            ),
        }
    }
}

/// What staging a part asks for.
#[derive(Debug, Clone, Copy, PartialEq, Eq, Structural)]
pub struct StageOutcome {
    pub checkpoint_due: bool,
    pub arm_timer: bool,
}

/// What follows once a part was staged.
#[derive(Debug, Clone, Copy, PartialEq, Eq, Structural)]
pub enum AfterStaging {
    Checkpoint,
    ArmTimer,
    Continue,
}

/// A due checkpoint is made at once; otherwise a timer sees to it that the part
/// does not stay unrecorded. `None` where there is no progress record.
pub fn after_staging(
    outcome: Option<Result<StageOutcome, IoFailure>>,
    arm_timer: bool,
) -> (result: Result<AfterStaging, MeowError>)
    ensures
        match outcome {
            None => error::fails_with(
                result,
                InnerErrorCode::InvalidTaskState,
                "download checkpoint state missing"@,
            ),
            Some(Err(failure)) => error::fails_with(
                result,
                failure.spec_code(),
                "stage .rcdl checkpoint failed"@,
            ),
            Some(Ok(outcome)) => result is Ok && result->Ok_0 == if outcome.checkpoint_due {
                AfterStaging::Checkpoint
            } else if outcome.arm_timer && arm_timer {
                AfterStaging::ArmTimer
            } else {
                AfterStaging::Continue
            },
        },
{
    match outcome {
        None => Err(
            MeowError::from_code_str(
                InnerErrorCode::InvalidTaskState,
                "download checkpoint state missing",
            ),
        ),
        Some(Err(failure)) => Err(
            MeowError::from_io("stage .rcdl checkpoint failed".to_owned(), &failure),
        ),
        Some(Ok(outcome)) => {
            if outcome.checkpoint_due {
                Ok(AfterStaging::Checkpoint)
            } else if outcome.arm_timer && arm_timer {
                Ok(AfterStaging::ArmTimer)
            } else {
                Ok(AfterStaging::Continue)
            }
        },
    }
}

// ---------------------------------------------------------------------------
// Positioned writes
// ---------------------------------------------------------------------------

/// Where a part that is to be written ends.
pub fn download_part_end(offset: u64, body_len: usize) -> (result: Result<u64, MeowError>)
    ensures
        offset + body_len <= u64::MAX ==> result is Ok && result->Ok_0 == offset + body_len,
        offset + body_len > u64::MAX ==> error::fails_with(
            result,
            InnerErrorCode::InvalidRange,
            "parallel download part end overflow"@,
        ),
{
    match offset.checked_add(body_len as u64) {
        Some(end) => Ok(end),
        None => Err(
            MeowError::from_code_str(
                InnerErrorCode::InvalidRange,
                "parallel download part end overflow",
            ),
        ),
    }
}

/// Whether a part may be written: the target has to be open and at least as
/// long as the end of the part. `file_len` is `None` where the target is
/// closed.
pub fn check_positioned_write(
    path: &str,
    part_end: u64,
    file_len: Option<Result<u64, IoFailure>>,
) -> (result: Result<(), MeowError>)
    ensures
        match file_len {
            None => error::fails_with(
                result,
                InnerErrorCode::InvalidTaskState,
                "locked download target missing during positioned write"@,
            ),
            Some(Err(failure)) => error::fails_with(
                result,
                failure.spec_code(),
                "stat locked download target failed: "@ + path@,
            ),
            Some(Ok(len)) => if len >= part_end {
                result is Ok
            } else {
                error::fails_with(
                    result,
                    InnerErrorCode::LocalFileRemoved,
                    "download target was truncated before positioned write: len="@ + text::decimal(
                        len as nat,
                    ) + " need>="@ + text::decimal(part_end as nat),
                )
            },
        },
{
    match file_len {
        None => Err(
            MeowError::from_code_str(
                InnerErrorCode::InvalidTaskState,
                "locked download target missing during positioned write",
            ),
        ),
        Some(Err(failure)) => {
            let mut text = "stat locked download target failed: ".to_owned();
            text.append(path);
            Err(MeowError::from_io(text, &failure))
        },
        Some(Ok(len)) => {
            if len < part_end {
                let mut text =
                    "download target was truncated before positioned write: len=".to_owned();
                push_decimal(&mut text, len as u128);
                text.append(" need>=");
                push_decimal(&mut text, part_end as u128);
                return Err(MeowError::from_code(InnerErrorCode::LocalFileRemoved, text));
            }
            Ok(())
        },
    }
}

/// What a write to the target does.
#[derive(Debug, Clone, Copy, PartialEq, Eq, Structural)]
pub enum WriteStage {
    Seek,
    Write,
    Flush,
}

/// The error of a write that failed.
pub fn positioned_write_error(stage: WriteStage, offset: u64, failure: &IoFailure) -> (e: MeowError)
    ensures
        error::is_error(
            e,
            failure.spec_code(),
            match stage {
                WriteStage::Seek => "seek"@,
                WriteStage::Write => "write"@,
                WriteStage::Flush => "flush"@,
            } + " locked download target failed: offset="@ + text::decimal(offset as nat),
        ),
{
    let mut text = match stage {
        WriteStage::Seek => "seek".to_owned(),
        WriteStage::Write => "write".to_owned(),
        WriteStage::Flush => "flush".to_owned(),
    };
    text.append(" locked download target failed: offset=");
    push_decimal(&mut text, offset as u128);
    MeowError::from_io(text, failure)
}

// ---------------------------------------------------------------------------
// Serial compaction
// ---------------------------------------------------------------------------

/// What a compaction does next.
#[derive(Debug, Clone, Copy, PartialEq, Eq, Structural)]
pub enum CompactionStep {
    /// Ask the progress record for the end of its unbroken prefix.
    Watermark,
    /// Cut the target to that length.
    Truncate,
    /// Sync the target.
    Sync,
    /// Drop what is recorded beyond the prefix.
    Persist,
    Done,
}

/// Makes a target fit to be continued serially: it then holds exactly the
/// longest unbroken prefix that is recorded, and nothing is recorded beyond.
#[derive(Debug)]
pub struct SerialCompaction {
    pub step: CompactionStep,
    pub watermark: u64,
}

/// The error of a compaction without a progress record.
pub open spec fn compaction_state_missing<T>(result: Result<T, MeowError>) -> bool {
    error::fails_with(
        result,
        InnerErrorCode::InvalidTaskState,
        "download checkpoint state missing during serial compaction"@,
    )
}

impl SerialCompaction {
    pub fn new() -> (compaction: SerialCompaction)
        ensures
            compaction.step is Watermark,
    {
        SerialCompaction { step: CompactionStep::Watermark, watermark: 0 }
    }

    /// The end of the prefix; `None` where there is no progress record.
    pub fn on_watermark(&mut self, watermark: Option<u64>) -> (result: Result<(), MeowError>)
        requires
            old(self).step is Watermark,
        ensures
            match watermark {
                Some(watermark) => result is Ok && *final(self) == (SerialCompaction {
                    step: CompactionStep::Truncate,
                    watermark,
                }),
                None => final(self).step is Done && compaction_state_missing(result),
            },
    {
        match watermark {
            Some(watermark) => {
                self.step = CompactionStep::Truncate;
                self.watermark = watermark;
                Ok(())
            },
            None => {
                self.step = CompactionStep::Done;
                Err(
                    MeowError::from_code_str(
                        InnerErrorCode::InvalidTaskState,
                        "download checkpoint state missing during serial compaction",
                    ),
                )
            },
        }
    }

    /// The target was cut to the watermark, or could not be; `None` where it is
    /// closed.
    pub fn on_truncated(
        &mut self,
        path: &str,
        truncated: Option<Result<(), IoFailure>>,
    ) -> (result: Result<(), MeowError>)
        requires
            old(self).step is Truncate,
        ensures
            final(self).watermark == old(self).watermark,
            match truncated {
                None => final(self).step is Done && error::fails_with(
                    result,
                    InnerErrorCode::InvalidTaskState,
                    "locked download target missing during serial compaction"@,
                ),
                Some(Ok(())) => result is Ok && final(self).step is Sync,
                Some(Err(failure)) => final(self).step is Done && error::fails_with(
                    result,
                    failure.spec_code(),
                    "truncate serial download to verified prefix failed: "@ + path@,
                ),
            },
    {
        self.step = CompactionStep::Done;
        match truncated {
            None => Err(
                MeowError::from_code_str(
                    InnerErrorCode::InvalidTaskState,
                    "locked download target missing during serial compaction",
                ),
            ),
            Some(Ok(())) => {
                self.step = CompactionStep::Sync;
                Ok(())
            },
            Some(Err(failure)) => {
                let mut text = "truncate serial download to verified prefix failed: ".to_owned();
                text.append(path);
                Err(MeowError::from_io(text, &failure))
            },
        }
    }

    /// The target was synced, or could not be.
    pub fn on_synced(&mut self, synced: Result<(), IoFailure>) -> (result: Result<(), MeowError>)
        requires
            old(self).step is Sync,
        ensures
            final(self).watermark == old(self).watermark,
            match synced {
                Ok(()) => result is Ok && final(self).step is Persist,
                Err(failure) => final(self).step is Done && error::fails_with(
                    result,
                    failure.spec_code(),
                    "sync serial verified prefix failed"@,
                ),
            },
    {
        self.step = CompactionStep::Done;
        match synced {
            Ok(()) => {
                self.step = CompactionStep::Persist;
                Ok(())
            },
            Err(failure) => Err(
                MeowError::from_io("sync serial verified prefix failed".to_owned(), &failure),
            ),
        }
    }

    /// What is recorded beyond the prefix was dropped, or could not be; `None`
    /// where the progress record is gone by now. The prefix must not have moved
    /// meanwhile. On success its end is handed back.
    pub fn on_persisted(&mut self, persisted: Option<Result<u64, IoFailure>>) -> (result: Result<
        u64,
        MeowError,
    >)
        requires
            old(self).step is Persist,
        ensures
            final(self).watermark == old(self).watermark,
            final(self).step is Done,
            match persisted {
                None => compaction_state_missing(result),
                Some(Err(failure)) => error::fails_with(
                    result,
                    failure.spec_code(),
                    "persist compacted serial checkpoint failed"@,
                ),
                Some(Ok(persisted)) => if persisted == old(self).watermark {
                    result is Ok && result->Ok_0 == persisted
                } else {
                    error::fails_with(
                        result,
                        InnerErrorCode::InvalidTaskState,
                        "serial checkpoint watermark changed during compaction: expected="@
                            + text::decimal(old(self).watermark as nat) + " actual="@
                            + text::decimal(persisted as nat),
                    )
                },
            },
    {
        self.step = CompactionStep::Done;
        match persisted {
            None => Err(
                MeowError::from_code_str(
                    InnerErrorCode::InvalidTaskState,
                    "download checkpoint state missing during serial compaction",
                ),
            ),
            Some(Err(failure)) => Err(
                MeowError::from_io(
                    "persist compacted serial checkpoint failed".to_owned(),
                    &failure,
                ),
            ),
            Some(Ok(persisted)) => {
                if persisted != self.watermark {
                    let mut text =
                        "serial checkpoint watermark changed during compaction: expected=".to_owned();
                    push_decimal(&mut text, self.watermark as u128);
                    text.append(" actual=");
                    push_decimal(&mut text, persisted as u128);
                    return Err(MeowError::from_code(InnerErrorCode::InvalidTaskState, text));
                }
                Ok(persisted)
            },
        }
    }
}

// ---------------------------------------------------------------------------
// Completion
// ---------------------------------------------------------------------------

/// What a progress record says at the end.
#[derive(Debug, Clone, Copy, PartialEq, Eq, Structural)]
pub struct RecordedProgress {
    pub total: u64,
    pub all_done: bool,
}

/// What the completion of a download does next.
#[derive(Debug, Clone, Copy, PartialEq, Eq, Structural)]
pub enum FinalizeStep {
    /// Make a last checkpoint.
    Checkpoint,
    /// Look at the length of the file at the path.
    Stat,
    /// Validate the recorded content and take the progress record.
    Validate,
    /// Delete the progress record, then release the target.
    DeleteAndRelease,
    /// Release the target.
    Release,
}

/// The completion of a download. Whatever happens the target is released, and
/// the first failure is the one that is reported.
#[derive(Debug)]
pub struct Finalization {
    pub expected_total: u64,
    pub step: FinalizeStep,
    pub failure: Option<MeowError>,
}

/// How the length of a completed download is refused, if it is.
pub open spec fn length_refusal(
    path: Seq<char>,
    expected_total: u64,
    len: Result<u64, IoFailure>,
) -> Option<(InnerErrorCode, Seq<char>)> {
    match len {
        Err(failure) => Some((failure.spec_code(), "stat completed download failed: "@ + path)),
        Ok(len) => if len == expected_total {
            None
        } else {
            Some(
                (
                    InnerErrorCode::LocalFileRemoved,
                    "download length changed before complete: expected="@ + text::decimal(
                        expected_total as nat,
                    ) + " actual="@ + text::decimal(len as nat),
                ),
            )
        },
    }
}

/// How the progress record of a completed download is refused, if it is.
pub open spec fn progress_refusal(
    expected_total: u64,
    progress: Result<Option<RecordedProgress>, IoFailure>,
) -> Option<(InnerErrorCode, Seq<char>)> {
    match progress {
        Err(failure) => Some(
            (validation_failure_code(failure), validation_failure_text(failure)),
        ),
        Ok(None) => Some(
            (
                InnerErrorCode::InvalidTaskState,
                "download progress missing during final validation"@,
            ),
        ),
        Ok(Some(progress)) => if progress.total != expected_total {
            Some(
                (
                    InnerErrorCode::InvalidRange,
                    "download progress total mismatch: expected="@ + text::decimal(
                        expected_total as nat,
                    ) + " progress="@ + text::decimal(progress.total as nat),
                ),
            )
        } else if !progress.all_done {
            Some(
                (
                    InnerErrorCode::InvalidRange,
                    "download complete called before all parts recorded done"@,
                ),
            )
        } else {
            None
        },
    }
}

/// Whether a step ended as its refusal says.
pub open spec fn steps_to(
    before: Finalization,
    after: Finalization,
    refusal: Option<(InnerErrorCode, Seq<char>)>,
    next: FinalizeStep,
) -> bool {
    &&& after.expected_total == before.expected_total
    &&& match refusal {
        None => after.step == next && after.failure is None,
        Some((code, text)) => after.step is Release && (after.failure matches Some(e)
            && error::is_error(e, code, text)),
    }
}

impl Finalization {
    pub open spec fn wf(self) -> bool {
        self.failure is Some ==> self.step is Release
    }

    pub fn new(expected_total: u64) -> (finalization: Finalization)
        ensures
            finalization.wf(),
            finalization.expected_total == expected_total,
            finalization.step is Checkpoint,
            finalization.failure is None,
    {
        Finalization { expected_total, step: FinalizeStep::Checkpoint, failure: None }
    }

    /// The last checkpoint was made, or failed.
    pub fn on_checkpoint(&mut self, checkpoint: Result<(), MeowError>)
        requires
            old(self).wf(),
            old(self).step is Checkpoint,
        ensures
            final(self).wf(),
            final(self).expected_total == old(self).expected_total,
            match checkpoint {
                Ok(()) => final(self).step is Stat && final(self).failure is None,
                Err(e) => final(self).step is Release && final(self).failure == Some(e),
            },
    {
        match checkpoint {
            Ok(()) => {
                self.step = FinalizeStep::Stat;
            },
            Err(e) => {
                self.step = FinalizeStep::Release;
                self.failure = Some(e);
            },
        }
    }

    /// The length of the file at the path came in.
    pub fn on_visible_len(&mut self, path: &str, len: Result<u64, IoFailure>)
        requires
            old(self).wf(),
            old(self).step is Stat,
        ensures
            final(self).wf(),
            steps_to(
                *old(self),
                *final(self),
                length_refusal(path@, old(self).expected_total, len),
                FinalizeStep::Validate,
            ),
    {
        match len {
            Ok(len) => {
                if len == self.expected_total {
                    self.step = FinalizeStep::Validate;
                } else {
                    let mut text =
                        "download length changed before complete: expected=".to_owned();
                    push_decimal(&mut text, self.expected_total as u128);
                    text.append(" actual=");
                    push_decimal(&mut text, len as u128);
                    self.step = FinalizeStep::Release;
                    self.failure = Some(
                        MeowError::from_code(InnerErrorCode::LocalFileRemoved, text),
                    );
                }
            },
            Err(failure) => {
                let mut text = "stat completed download failed: ".to_owned();
                text.append(path);
                self.step = FinalizeStep::Release;
                self.failure = Some(MeowError::from_io(text, &failure));
            },
        }
    }

    /// The content was validated and the progress record taken, or the
    /// validation failed; `Ok(None)` where there was no record.
    pub fn on_progress(&mut self, progress: Result<Option<RecordedProgress>, IoFailure>)
        requires
            old(self).wf(),
            old(self).step is Validate,
        ensures
            final(self).wf(),
            steps_to(
                *old(self),
                *final(self),
                progress_refusal(old(self).expected_total, progress),
                FinalizeStep::DeleteAndRelease,
            ),
    {
        let refusal = match progress {
            Err(failure) => Some(map_download_validation_error(&failure)),
            Ok(None) => Some(
                MeowError::from_code_str(
                    InnerErrorCode::InvalidTaskState,
                    "download progress missing during final validation",
                ),
            ),
            Ok(Some(progress)) => {
                if progress.total != self.expected_total {
                    let mut text = "download progress total mismatch: expected=".to_owned();
                    push_decimal(&mut text, self.expected_total as u128);
                    text.append(" progress=");
                    push_decimal(&mut text, progress.total as u128);
                    Some(MeowError::from_code(InnerErrorCode::InvalidRange, text))
                } else if !progress.all_done {
                    Some(
                        MeowError::from_code_str(
                            InnerErrorCode::InvalidRange,
                            "download complete called before all parts recorded done",
                        ),
                    )
                } else {
                    None
                }
            },
        };
        match refusal {
            None => {
                self.step = FinalizeStep::DeleteAndRelease;
            },
            Some(e) => {
                self.step = FinalizeStep::Release;
                self.failure = Some(e);
            },
        }
    }

    /// The target was released. A failure to do so never hides the failure that
    /// made completion unsafe.
    pub fn on_released(
        self,
        file_release: Result<(), MeowError>,
        lease_release: Result<(), MeowError>,
    ) -> (result: Result<(), MeowError>)
        requires
            self.wf(),
            self.step is Release || self.step is DeleteAndRelease,
        ensures
            result == match (self.failure, file_release, lease_release) {
                (Some(e), _, _) => Err::<(), MeowError>(e),
                (None, Err(e), _) => Err(e),
                (None, Ok(()), Err(e)) => Err(e),
                (None, Ok(()), Ok(())) => Ok(()),
            },
    {
        match self.failure {
            Some(e) => Err(e),
            None => match file_release {
                Err(e) => Err(e),
                Ok(()) => match lease_release {
                    Err(e) => Err(e),
                    Ok(()) => Ok(()),
                },
            },
        }
    }
}

/// A download completes only with the length that was expected and with every
/// part recorded over content that was validated.
pub proof fn law_completion_is_earned(
    path: Seq<char>,
    expected_total: u64,
    len: Result<u64, IoFailure>,
    progress: Result<Option<RecordedProgress>, IoFailure>,
)
    ensures
        length_refusal(path, expected_total, len) is None <==> len == Ok::<u64, IoFailure>(
            expected_total,
        ),
        progress_refusal(expected_total, progress) is None <==> progress == Ok::<
            Option<RecordedProgress>,
            IoFailure,
        >(Some(RecordedProgress { total: expected_total, all_done: true })),
{
}

// ---------------------------------------------------------------------------
// The view of a running transfer
// ---------------------------------------------------------------------------

/// A task as protocol implementations see it.
pub struct TransferTask {
    file_sign: String,
    file_name: String,
    file_path: LocalPath,
    direction: Direction,
    total_size: u64,
    chunk_size: u64,
    url: String,
    method: String,
    headers: HeaderMap<HeaderValue>,
    breakpoint_download_http: BreakpointDownloadHttpConfig,
    max_parts_in_flight: usize,
    max_upload_prepare_retries: u32,
}

/// What a task shows to protocol implementations.
#[verifier::ext_equal]
pub struct TransferTaskView {
    pub file_sign: Seq<char>,
    pub file_name: Seq<char>,
    pub file_path: Seq<u8>,
    pub direction: Direction,
    pub total_size: u64,
    pub chunk_size: u64,
    pub url: Seq<char>,
    pub method: Seq<char>,
    pub headers: Map<Seq<char>, Seq<Seq<u8>>>,
    pub range_accept: Seq<char>,
    pub max_parts_in_flight: usize,
    pub max_upload_prepare_retries: u32,
}

impl View for TransferTask {
    type V = TransferTaskView;

    closed spec fn view(&self) -> TransferTaskView {
        TransferTaskView {
            file_sign: self.file_sign@,
            file_name: self.file_name@,
            file_path: self.file_path.bytes@,
            direction: self.direction,
            total_size: self.total_size,
            chunk_size: self.chunk_size,
            url: self.url@,
            method: self.method@,
            headers: headers::header_contents(self.headers),
            range_accept: self.breakpoint_download_http.range_accept@,
            max_parts_in_flight: self.max_parts_in_flight,
            max_upload_prepare_retries: self.max_upload_prepare_retries,
        }
    }
}

/// What the view of a task shows.
pub open spec fn shown(task: InnerTask) -> TransferTaskView {
    TransferTaskView {
        file_sign: task.file_sign@,
        file_name: task.file_name@,
        file_path: task.file_path.bytes@,
        direction: task.direction,
        total_size: task.total_size,
        chunk_size: task.chunk_size,
        url: task.url@,
        method: task.method@,
        headers: headers::header_contents(task.headers),
        range_accept: task.breakpoint_download_http.range_accept@,
        max_parts_in_flight: task.max_parts_in_flight,
        max_upload_prepare_retries: task.max_upload_prepare_retries,
    }
}

impl TransferTask {
    pub fn from_inner(inner: &InnerTask) -> (task: TransferTask)
        ensures
            task@ == shown(*inner),
    {
        TransferTask {
            file_sign: inner.file_sign.clone(),
            file_name: inner.file_name.clone(),
            file_path: inner.file_path.clone(),
            direction: inner.direction,
            total_size: inner.total_size,
            chunk_size: inner.chunk_size,
            url: inner.url.clone(),
            method: inner.method.clone(),
            headers: header_map_clone(&inner.headers),
            breakpoint_download_http: BreakpointDownloadHttpConfig {
                range_accept: inner.breakpoint_download_http.range_accept.clone(),
            },
            max_parts_in_flight: inner.max_parts_in_flight,
            max_upload_prepare_retries: inner.max_upload_prepare_retries,
        }
    }

    pub fn direction(&self) -> (direction: Direction)
        ensures
            direction == self@.direction,
    {
        self.direction
    }

    pub fn total_size(&self) -> (total_size: u64)
        ensures
            total_size == self@.total_size,
    {
        self.total_size
    }

    pub fn chunk_size(&self) -> (chunk_size: u64)
        ensures
            chunk_size == self@.chunk_size,
    {
        self.chunk_size
    }

    pub fn file_sign(&self) -> (file_sign: &str)
        ensures
            file_sign@ == self@.file_sign,
    {
        self.file_sign.as_str()
    }

    pub fn file_name(&self) -> (file_name: &str)
        ensures
            file_name@ == self@.file_name,
    {
        self.file_name.as_str()
    }

    pub fn file_path(&self) -> (file_path: &LocalPath)
        ensures
            file_path.bytes@ == self@.file_path,
    {
        &self.file_path
    }

    pub fn url(&self) -> (url: &str)
        ensures
            url@ == self@.url,
    {
        self.url.as_str()
    }

    pub fn method(&self) -> (method: &str)
        ensures
            method@ == self@.method,
    {
        self.method.as_str()
    }

    pub fn headers(&self) -> (headers: &HeaderMap<HeaderValue>)
        ensures
            headers::header_contents(*headers) == self@.headers,
    {
        &self.headers
    }

    /// How range requests are made.
    pub fn breakpoint_download_http(&self) -> (config: Option<&BreakpointDownloadHttpConfig>)
        ensures
            config matches Some(config) && config.range_accept@ == self@.range_accept,
    {
        Some(&self.breakpoint_download_http)
    }

    pub fn max_parts_in_flight(&self) -> (parts: usize)
        ensures
            parts == self@.max_parts_in_flight,
    {
        self.max_parts_in_flight
    }

    pub fn max_upload_prepare_retries(&self) -> (retries: u32)
        ensures
            retries == self@.max_upload_prepare_retries,
    {
        self.max_upload_prepare_retries
    }

    /// Marks that the provider has to be told to abort; only uploads leave
    /// anything behind there.
    pub fn require_upload_abort(&self, lifecycle: &mut TransferLifecycle)
        ensures
            *final(lifecycle) == if self@.direction == Direction::Upload {
                TransferLifecycle { abort_required: true, ..*old(lifecycle) }
            } else {
                *old(lifecycle)
            },
    {
        match self.direction {
            Direction::Upload => lifecycle.require_abort(),
            Direction::Download => {},
        }
    }

    pub fn upload_abort_required(&self, lifecycle: &TransferLifecycle) -> (required: bool)
        ensures
            required == (self@.direction == Direction::Upload && lifecycle.abort_required),
    {
        match self.direction {
            Direction::Upload => lifecycle.abort_required(),
            Direction::Download => false,
        }
    }
}

} // verus!
