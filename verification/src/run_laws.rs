//! What holds of the runs of calls by which clients, their callbacks and the
//! files of their transfers are worked with.

use vstd::prelude::*;

use reqwest::header::{HeaderMap, HeaderValue};

use crate::callbacks;
use crate::callbacks::{CallbackQueue, CbJob, JobKind, Recipient, Submitted, TaskCallbacks};
use crate::clock::ClockReading;
use crate::direction::{Direction, UniqueId};
use crate::error::{InnerErrorCode, IoErrorKind, IoFailure, MeowError};
use crate::ids::{GlobalProgressListenerId, TaskId};
use crate::inner_task::{DefaultProtocols, InnerTask};
use crate::lifecycle::{DeferredStop, StopRequestDisposition, TransferLifecycle};
use crate::memory_budget;
use crate::memory_budget::ParallelMemoryBudget;
use crate::meow_client;
use crate::meow_client::{MeowClient, Terminal, TerminalOnce};
use crate::meow_config::{MeowConfig, MeowConfigBuilder, TimeSpan};
use crate::pounce_task::{BreakpointDownloadHttpConfig, DownloadPounceBuilder, LocalPath, PounceTask, ProtocolId, UploadPounceBuilder, UploadSource};
use crate::text;
use crate::transfer_status::{FileTransferRecord, TransferStatus};
use crate::transfer_task;
use crate::transfer_task::{AfterStaging, Checkpoint, CheckpointCause, CheckpointFailure, Finalization, RecordedProgress, SerialCompaction, StageOutcome, TargetStage, TransferTask, WriteStage};
use crate::upload_file::UploadFileSnapshot;

verus! {

// ---------------------------------------------------------------------------
// Checkpoints of a download
// ---------------------------------------------------------------------------

/// A checkpoint is committed only after its data reached the disk, and only
/// where one is due; whatever fails on the way ends it with an error.
pub proof fn law_checkpoints_commit_after_syncing(
    cause: CheckpointCause,
    made: Checkpoint,
    begun: &mut Checkpoint,
    due: Option<Result<bool, IoFailure>>,
    began: Result<(), CheckpointFailure>,
    synced: &mut Checkpoint,
    sync: Option<Result<(), IoFailure>>,
    after_sync: Result<(), CheckpointFailure>,
    committed: &mut Checkpoint,
    commit: Option<Result<(), IoFailure>>,
    after_commit: Result<(), CheckpointFailure>,
)
    requires
        call_ensures(Checkpoint::new, (cause,), made),
        *old(begun) == made,
        call_ensures(Checkpoint::on_begin, (begun, due), began),
        *old(synced) == *final(begun),
        call_ensures(Checkpoint::on_sync, (synced, sync), after_sync),
        *old(committed) == *final(synced),
        call_ensures(Checkpoint::on_commit, (committed, commit), after_commit),
    ensures
        made.step is Begin,
        final(begun).step is SyncData <==> due == Some(Ok::<bool, IoFailure>(true)),
        final(begun).step is SyncData || final(begun).step is Done,
        began is Ok <==> !(due matches Some(Err(_))),
        final(synced).step is Commit <==> (sync matches Some(Ok(_))),
        final(synced).step is Commit || final(synced).step is Done,
        after_sync is Ok <==> final(synced).step is Commit,
        final(committed).step is Done,
        after_commit is Ok <==> !(commit matches Some(Err(_))),
        final(committed).cause == cause,
        cause is Timer ==> (began matches Err(e) ==> due matches Some(Err(failure)) && e
            == CheckpointFailure::Io(failure)),
        cause is Timer && sync is None ==> after_sync is Err && after_sync->Err_0 is TargetGone,
        cause is Timer ==> (sync matches Some(Err(failure)) ==> after_sync is Err
            && after_sync->Err_0 == CheckpointFailure::Io(failure)),
        cause is Timer ==> (commit matches Some(Err(failure)) ==> after_commit is Err
            && after_commit->Err_0 == CheckpointFailure::Io(failure)),
        cause is Batch ==> (due matches Some(Err(failure)) ==> (began matches Err(
            CheckpointFailure::Error(e),
        ) && e.msg@ == "begin .rcdl checkpoint failed"@ && e.code == failure.spec_code())),
        cause is Batch && sync is None ==> (after_sync matches Err(CheckpointFailure::Error(e))
            && e.msg@ == "locked download target missing during checkpoint"@ && e.code
            == InnerErrorCode::InvalidTaskState),
        cause is Batch ==> (sync matches Some(Err(failure)) ==> (after_sync matches Err(
            CheckpointFailure::Error(e),
        ) && e.msg@ == "sync download checkpoint data failed"@ && e.code == failure.spec_code())),
        cause is Batch ==> (commit matches Some(Err(failure)) ==> (after_commit matches Err(
            CheckpointFailure::Error(e),
        ) && e.msg@ == "commit .rcdl checkpoint failed"@ && e.code == failure.spec_code())),
{
}

/// A staged part leads to a checkpoint where one is due, else to the timer
/// where it is to be armed and may be; a failed staging is an error.
pub proof fn law_staged_parts_are_followed_up(
    outcome: Option<Result<StageOutcome, IoFailure>>,
    arm_timer: bool,
    result: Result<AfterStaging, MeowError>,
)
    requires
        call_ensures(transfer_task::after_staging, (outcome, arm_timer), result),
    ensures
        result is Ok <==> (outcome matches Some(Ok(_))),
        outcome matches Some(Ok(outcome)) ==> {
            let next = result->Ok_0;
            &&& next is Checkpoint <==> outcome.checkpoint_due
            &&& next is ArmTimer <==> !outcome.checkpoint_due && outcome.arm_timer && arm_timer
            &&& next is Continue <==> !outcome.checkpoint_due && !(outcome.arm_timer && arm_timer)
        },
        outcome is None ==> result->Err_0.code == InnerErrorCode::InvalidTaskState
            && result->Err_0.msg@ == "download checkpoint state missing"@,
        outcome matches Some(Err(failure)) ==> result->Err_0.code == failure.spec_code()
            && result->Err_0.msg@ == "stage .rcdl checkpoint failed"@,
{
}

/// A part is written only where it ends within what offsets can express and
/// where the target still reaches to its end.
pub proof fn law_parts_are_written_into_the_target(
    offset: u64,
    body_len: usize,
    end: Result<u64, MeowError>,
    path: &str,
    file_len: Option<Result<u64, IoFailure>>,
    may_write: Result<(), MeowError>,
)
    requires
        call_ensures(transfer_task::download_part_end, (offset, body_len), end),
        end is Ok ==> call_ensures(
            transfer_task::check_positioned_write,
            (path, end->Ok_0, file_len),
            may_write,
        ),
    ensures
        end is Ok <==> offset + body_len <= u64::MAX,
        end is Ok ==> end->Ok_0 - offset == body_len,
        end matches Err(e) ==> e.code == InnerErrorCode::InvalidRange && e.msg@
            == "parallel download part end overflow"@,
        end is Ok ==> (may_write is Ok <==> (file_len matches Some(Ok(len)) && len >= offset
            + body_len)),
        end is Ok ==> (file_len matches Some(Ok(len)) ==> (may_write matches Err(e) ==> e.code
            == InnerErrorCode::LocalFileRemoved && e.msg@
            == "download target was truncated before positioned write: len="@ + text::decimal(
            len as nat,
        ) + " need>="@ + text::decimal(end->Ok_0 as nat))),
        end is Ok && file_len is None ==> may_write->Err_0.code == InnerErrorCode::InvalidTaskState,
        end is Ok ==> (file_len matches Some(Err(failure)) ==> may_write->Err_0.code
            == failure.spec_code() && may_write->Err_0.msg@
            == "stat locked download target failed: "@ + path@),
{
}

/// Failures of the target and of writing into it say what was tried and where;
/// a target that another holds is no local failure.
pub proof fn law_target_errors_say_what_was_tried(
    path: &str,
    failure: &IoFailure,
    lease: MeowError,
    lock: MeowError,
    sync: MeowError,
    offset: u64,
    seek: MeowError,
    write: MeowError,
    flush: MeowError,
)
    requires
        call_ensures(transfer_task::target_error, (TargetStage::AcquireLease, path, failure), lease),
        call_ensures(transfer_task::target_error, (TargetStage::Lock, path, failure), lock),
        call_ensures(transfer_task::target_error, (TargetStage::Sync, path, failure), sync),
        call_ensures(
            transfer_task::positioned_write_error,
            (WriteStage::Seek, offset, failure),
            seek,
        ),
        call_ensures(
            transfer_task::positioned_write_error,
            (WriteStage::Write, offset, failure),
            write,
        ),
        call_ensures(
            transfer_task::positioned_write_error,
            (WriteStage::Flush, offset, failure),
            flush,
        ),
    ensures
        failure.kind is WouldBlock ==> lease.code == InnerErrorCode::InvalidTaskState && lock.code
            == InnerErrorCode::InvalidTaskState,
        !(failure.kind is WouldBlock) ==> lease.code == failure.spec_code() && lock.code
            == failure.spec_code(),
        sync.code == failure.spec_code(),
        seek.code == failure.spec_code(),
        write.code == failure.spec_code(),
        flush.code == failure.spec_code(),
        lease.msg@ == "acquire download target lease failed: "@ + path@,
        lock.msg@ == "lock actual download target failed: "@ + path@,
        sync.msg@ == "sync locked download target failed: "@ + path@,
        seek.msg@ == "seek"@ + " locked download target failed: offset="@ + text::decimal(
            offset as nat,
        ),
        write.msg@ == "write"@ + " locked download target failed: offset="@ + text::decimal(
            offset as nat,
        ),
        flush.msg@ == "flush"@ + " locked download target failed: offset="@ + text::decimal(
            offset as nat,
        ),
{
}

/// A serial download is cut to the end of its verified prefix: the record is
/// written only after the file was truncated and synced, and the offset that
/// comes out is the one that was read at the start.
pub proof fn law_compaction_keeps_the_verified_prefix(
    made: SerialCompaction,
    read: &mut SerialCompaction,
    watermark: Option<u64>,
    after_read: Result<(), MeowError>,
    cut: &mut SerialCompaction,
    path: &str,
    truncated: Option<Result<(), IoFailure>>,
    after_cut: Result<(), MeowError>,
    synced: &mut SerialCompaction,
    sync: Result<(), IoFailure>,
    after_sync: Result<(), MeowError>,
    persisted: &mut SerialCompaction,
    persist: Option<Result<u64, IoFailure>>,
    result: Result<u64, MeowError>,
)
    requires
        call_ensures(SerialCompaction::new, (), made),
        *old(read) == made,
        call_ensures(SerialCompaction::on_watermark, (read, watermark), after_read),
        *old(cut) == *final(read),
        call_ensures(SerialCompaction::on_truncated, (cut, path, truncated), after_cut),
        *old(synced) == *final(cut),
        call_ensures(SerialCompaction::on_synced, (synced, sync), after_sync),
        *old(persisted) == *final(synced),
        call_ensures(SerialCompaction::on_persisted, (persisted, persist), result),
    ensures
        made.step is Watermark,
        final(read).step is Truncate <==> watermark is Some,
        watermark is Some ==> final(read).watermark == watermark->Some_0,
        after_read is Ok <==> watermark is Some,
        final(cut).step is Sync <==> (truncated matches Some(Ok(_))),
        after_cut is Ok <==> final(cut).step is Sync,
        final(synced).step is Persist <==> sync is Ok,
        after_sync is Ok <==> sync is Ok,
        final(persisted).step is Done,
        watermark is Some ==> (result is Ok <==> (persist matches Some(Ok(at)) && at
            == watermark->Some_0)),
        watermark is Some && result is Ok ==> result->Ok_0 == watermark->Some_0,
        truncated matches Some(Err(failure)) ==> final(cut).step is Done && after_cut->Err_0.code
            == failure.spec_code() && after_cut->Err_0.msg@
            == "truncate serial download to verified prefix failed: "@ + path@,
        sync matches Err(failure) ==> final(synced).step is Done && after_sync->Err_0.code
            == failure.spec_code() && after_sync->Err_0.msg@
            == "sync serial verified prefix failed"@,
        persist matches Some(Err(failure)) ==> result->Err_0.code == failure.spec_code()
            && result->Err_0.msg@ == "persist compacted serial checkpoint failed"@,
        watermark is Some ==> (persist matches Some(Ok(at)) ==> at != watermark->Some_0
            ==> result->Err_0.msg@
            == "serial checkpoint watermark changed during compaction: expected="@ + text::decimal(
            watermark->Some_0 as nat,
        ) + " actual="@ + text::decimal(at as nat)),
{
}

/// A download is complete exactly where the last checkpoint was made, the file
/// has the length that was expected, its record is of that length with every
/// part done, and file and lease were given up; its record is deleted only
/// where the first four hold. Otherwise the first thing that went wrong is what
/// the caller gets to know.
pub proof fn law_downloads_are_completed_when_all_is_there(
    expected_total: u64,
    made: Finalization,
    checked: &mut Finalization,
    checkpoint: Result<(), MeowError>,
    measured: &mut Finalization,
    path: &str,
    len: Result<u64, IoFailure>,
    validated: &mut Finalization,
    progress: Result<Option<RecordedProgress>, IoFailure>,
    file_release: Result<(), MeowError>,
    lease_release: Result<(), MeowError>,
    result: Result<(), MeowError>,
)
    requires
        call_ensures(Finalization::new, (expected_total,), made),
        *old(checked) == made,
        call_ensures(Finalization::on_checkpoint, (checked, checkpoint), ()),
        *old(measured) == *final(checked),
        checkpoint is Ok ==> call_ensures(
            Finalization::on_visible_len,
            (measured, path, len),
            (),
        ),
        checkpoint is Err ==> *final(measured) == *old(measured),
        *old(validated) == *final(measured),
        final(measured).step is Validate ==> call_ensures(
            Finalization::on_progress,
            (validated, progress),
            (),
        ),
        !(final(measured).step is Validate) ==> *final(validated) == *old(validated),
        call_ensures(
            Finalization::on_released,
            (*final(validated), file_release, lease_release),
            result,
        ),
    ensures
        ({
            let whole = checkpoint is Ok && (len matches Ok(len) && len == expected_total) && (
            progress matches Ok(Some(recorded)) && recorded.total == expected_total
                && recorded.all_done);
            &&& made.step is Checkpoint
            &&& final(checked).step is Stat <==> checkpoint is Ok
            &&& final(validated).step is DeleteAndRelease <==> whole
            &&& final(validated).step is Release <==> !whole
            &&& result is Ok <==> whole && file_release is Ok && lease_release is Ok
            &&& checkpoint matches Err(e) ==> result == Err::<(), MeowError>(e)
            &&& whole ==> (file_release matches Err(e) ==> result == Err::<(), MeowError>(e))
            &&& whole && file_release is Ok ==> (lease_release matches Err(e) ==> result == Err::<
                (),
                MeowError,
            >(e))
            &&& checkpoint is Ok ==> (len matches Err(failure) ==> result->Err_0.code
                == failure.spec_code() && result->Err_0.msg@
                == "stat completed download failed: "@ + path@)
            &&& checkpoint is Ok ==> (len matches Ok(len) ==> len != expected_total
                ==> result->Err_0.code == InnerErrorCode::LocalFileRemoved)
        }),
{
}

// ---------------------------------------------------------------------------
// What a protocol sees of its task
// ---------------------------------------------------------------------------

/// A protocol reads of its task what the task holds.
pub proof fn law_protocols_read_the_task(
    inner: &InnerTask,
    seen: TransferTask,
    direction: Direction,
    total_size: u64,
    chunk_size: u64,
    file_sign: &str,
    file_name: &str,
    file_path: &LocalPath,
    url: &str,
    method: &str,
    parts: usize,
    retries: u32,
)
    requires
        call_ensures(TransferTask::from_inner, (inner,), seen),
        call_ensures(TransferTask::direction, (&seen,), direction),
        call_ensures(TransferTask::total_size, (&seen,), total_size),
        call_ensures(TransferTask::chunk_size, (&seen,), chunk_size),
        call_ensures(TransferTask::file_sign, (&seen,), file_sign),
        call_ensures(TransferTask::file_name, (&seen,), file_name),
        call_ensures(TransferTask::file_path, (&seen,), file_path),
        call_ensures(TransferTask::url, (&seen,), url),
        call_ensures(TransferTask::method, (&seen,), method),
        call_ensures(TransferTask::max_parts_in_flight, (&seen,), parts),
        call_ensures(TransferTask::max_upload_prepare_retries, (&seen,), retries),
    ensures
        direction == inner.direction,
        total_size == inner.total_size,
        chunk_size == inner.chunk_size,
        file_sign@ == inner.file_sign@,
        file_name@ == inner.file_name@,
        file_path.bytes@ == inner.file_path.bytes@,
        url@ == inner.url@,
        method@ == inner.method@,
        parts == inner.max_parts_in_flight,
        retries == inner.max_upload_prepare_retries,
{
}

/// An upload that asks for its abort gets it; a download has nothing to abort.
pub proof fn law_uploads_are_aborted_when_asked(
    inner: &InnerTask,
    seen: TransferTask,
    latch: &mut TransferLifecycle,
    required: bool,
)
    requires
        call_ensures(TransferTask::from_inner, (inner,), seen),
        call_ensures(TransferTask::require_upload_abort, (&seen, latch), ()),
        call_ensures(TransferTask::upload_abort_required, (&seen, final(latch)), required),
    ensures
        required <==> inner.direction == Direction::Upload,
        final(latch).terminal == old(latch).terminal,
        final(latch).abort_started == old(latch).abort_started,
        inner.direction == Direction::Download ==> *final(latch) == *old(latch),
{
}

// ---------------------------------------------------------------------------
// Latches
// ---------------------------------------------------------------------------

/// A completing request is claimed from an open latch and from no other; while
/// it is, a stop waits for it, and is handed over where it did not complete.
pub proof fn law_latches_order_completion_and_stops(
    claimed: &mut TransferLifecycle,
    did: bool,
    stopped: &mut TransferLifecycle,
    cancel: bool,
    disposition: StopRequestDisposition,
    returned: &mut TransferLifecycle,
    deferred: Option<DeferredStop>,
)
    requires
        call_ensures(TransferLifecycle::begin_completion, (claimed,), did),
        *old(stopped) == *final(claimed),
        cancel ==> call_ensures(TransferLifecycle::begin_cancel, (stopped,), disposition),
        !cancel ==> call_ensures(TransferLifecycle::begin_pause, (stopped,), disposition),
        *old(returned) == *final(stopped),
        call_ensures(TransferLifecycle::finish_incomplete_completion, (returned,), deferred),
    ensures
        did <==> old(claimed).terminal is Open,
        !did ==> *final(claimed) == *old(claimed),
        did ==> disposition is DeferredUntilRequestReturns,
        did && cancel ==> deferred == Some(DeferredStop::Cancel) && final(returned).terminal
            is Canceling,
        did && !cancel ==> deferred == Some(DeferredStop::Pause) && final(returned).terminal
            is Pausing,
        old(claimed).terminal is Pausing || old(claimed).terminal is Canceling ==> disposition
            is InterruptNow && deferred is None,
        final(returned).abort_started == old(claimed).abort_started,
        final(returned).abort_required == old(claimed).abort_required,
{
}

/// An abort is begun once; a pause that ended leaves the latch open again, and
/// nothing else does.
pub proof fn law_latches_abort_once_and_reopen(
    first: &mut TransferLifecycle,
    begun: bool,
    second: &mut TransferLifecycle,
    again: bool,
    reset: &mut TransferLifecycle,
)
    requires
        call_ensures(TransferLifecycle::begin_abort, (first,), begun),
        *old(second) == *final(first),
        call_ensures(TransferLifecycle::begin_abort, (second,), again),
        call_ensures(TransferLifecycle::reset_pause, (reset,), ()),
    ensures
        begun <==> !old(first).abort_started,
        !again,
        final(first).terminal == old(first).terminal,
        old(reset).terminal is Pausing ==> final(reset).terminal is Open,
        !(old(reset).terminal is Pausing) ==> final(reset).terminal == old(reset).terminal,
{
}

// ---------------------------------------------------------------------------
// Callbacks
// ---------------------------------------------------------------------------

/// What is submitted to a new queue comes out of it, first what came first.
pub proof fn law_queues_are_first_in_first_out(
    capacity: usize,
    made: CallbackQueue,
    one: &mut CallbackQueue,
    first: CbJob,
    took_first: Submitted,
    two: &mut CallbackQueue,
    second: CbJob,
    took_second: Submitted,
    out: &mut CallbackQueue,
    came: Option<CbJob>,
    out_again: &mut CallbackQueue,
    came_again: Option<CbJob>,
)
    requires
        capacity >= 2,
        call_ensures(CallbackQueue::with_capacity, (capacity,), made),
        *old(one) == made,
        call_ensures(CallbackQueue::submit, (one, first), took_first),
        *old(two) == *final(one),
        call_ensures(CallbackQueue::submit, (two, second), took_second),
        *old(out) == *final(two),
        call_ensures(CallbackQueue::take, (out,), came),
        *old(out_again) == *final(out),
        call_ensures(CallbackQueue::take, (out_again,), came_again),
    ensures
        took_first is Queued,
        took_second is Queued,
        came == Some(first),
        came_again == Some(second),
        final(out_again).waiting().len() == 0,
{
}

/// A full queue drops a sample of progress and holds up anything else, giving
/// it back to its submitter; a closed one takes nothing and still hands out
/// what it holds, and is finished once it is empty.
pub proof fn law_full_and_closed_queues(
    full: &mut CallbackQueue,
    job: CbJob,
    submitted: Submitted,
    closing: &mut CallbackQueue,
    late: &mut CallbackQueue,
    refused: Submitted,
    finished: bool,
)
    requires
        call_ensures(CallbackQueue::submit, (full, job), submitted),
        call_ensures(CallbackQueue::close, (closing,), ()),
        *old(late) == *final(closing),
        call_ensures(CallbackQueue::submit, (late, job), refused),
        call_ensures(CallbackQueue::is_finished, (final(late),), finished),
    ensures
        !old(full).is_closed() && old(full).waiting().len() >= old(full).spec_capacity() ==> {
            let sample = job matches CbJob::Progress { record, .. } && record.status
                is Transmission;
            &&& final(full).waiting() == old(full).waiting()
            &&& sample ==> submitted is Dropped
            &&& !sample ==> submitted == Submitted::Wait(job)
        },
        !old(full).is_closed() && old(full).waiting().len() < old(full).spec_capacity()
            ==> submitted is Queued && final(full).waiting() == old(full).waiting().push(job),
        final(closing).waiting() == old(closing).waiting(),
        refused is Undelivered,
        final(late).waiting() == old(closing).waiting(),
        finished <==> old(closing).waiting().len() == 0,
{
}

/// A report goes to the task's own callback first, where it has one, and to
/// every listener once, each time with the same record.
pub proof fn law_reports_are_fanned_out(
    own: Option<TaskId>,
    listeners: &[GlobalProgressListenerId],
    record: &FileTransferRecord,
    jobs: Vec<CbJob>,
    i: int,
)
    requires
        call_ensures(callbacks::fan_out, (own, listeners, record), jobs),
        0 <= i < listeners@.len(),
    ensures
        own is None ==> jobs@.len() == listeners@.len() && jobs@[i] == (CbJob::Progress {
            recipient: Recipient::Global(listeners@[i]),
            record: *record,
        }),
        own matches Some(task_id) ==> jobs@.len() == listeners@.len() + 1 && jobs@[0] == (
        CbJob::Progress { recipient: Recipient::Task(task_id), record: *record }) && jobs@[i + 1]
            == (CbJob::Progress { recipient: Recipient::Global(listeners@[i]), record: *record }),
{
}

/// A callback runs on the client's own dispatcher exactly where the thread is
/// that client's.
pub proof fn law_own_threads_are_recognized(current: Option<u64>, owner: u64, own: bool)
    requires
        call_ensures(callbacks::is_callback_dispatcher_thread_for, (current, owner), own),
    ensures
        own <==> current is Some && current->Some_0 == owner,
{
}

// ---------------------------------------------------------------------------
// Memory
// ---------------------------------------------------------------------------

/// A budget is what was asked for, up to what a permit count can express; it
/// permits exactly what fits into it, byte for byte.
pub proof fn law_budgets_permit_what_fits(
    limit: u64,
    budget: ParallelMemoryBudget,
    bytes: u64,
    permits: Result<u32, MeowError>,
    width: u32,
    by_width: u64,
)
    requires
        call_ensures(ParallelMemoryBudget::with_limit, (limit,), budget),
        call_ensures(ParallelMemoryBudget::permits_for, (&budget, bytes), permits),
        call_ensures(memory_budget::memory_limit_for_pointer_width, (width,), by_width),
    ensures
        budget.limit_bytes <= limit,
        limit <= u32::MAX / 8 ==> budget.limit_bytes == limit,
        permits is Ok <==> bytes <= budget.limit_bytes,
        permits is Ok ==> permits->Ok_0 == bytes,
        permits matches Err(e) ==> e.code == InnerErrorCode::IoError && e.msg@
            == "parallel part memory exceeds client limit: requested="@ + text::decimal(
            bytes as nat,
        ) + " limit="@ + text::decimal(budget.limit_bytes as nat),
        width <= 32 ==> by_width == 64 * 1024 * 1024,
        width > 32 ==> by_width == 512 * 1024 * 1024,
{
    assert(usize::MAX / 8 >= u32::MAX / 8);
}

/// A part is charged its own bytes and those of the block it is verified by: at
/// most a chunk, no more than is left of the file.
pub proof fn law_parts_are_charged(
    offset: u64,
    chunk: u64,
    total: u64,
    verify_block: u64,
    bytes: u64,
)
    requires
        call_ensures(memory_budget::part_memory_bytes, (offset, chunk, total, verify_block), bytes),
        verify_block <= u64::MAX - chunk,
    ensures
        bytes >= verify_block,
        bytes <= chunk + verify_block,
        offset >= total ==> bytes == verify_block,
        offset < total && total - offset >= chunk ==> bytes == chunk + verify_block,
        offset < total && total - offset < chunk ==> bytes == total - offset + verify_block,
{
}

// ---------------------------------------------------------------------------
// Clients
// ---------------------------------------------------------------------------

/// A client takes submissions until it is closed, and closes once, not from
/// within one of its own callbacks; a close that failed leaves it open.
pub proof fn law_clients_close_once<L>(
    config: MeowConfig,
    made: MeowClient<L>,
    closed: &mut MeowClient<L>,
    own_thread: bool,
    began: Result<(), MeowError>,
    finished: &mut MeowClient<L>,
    outcome: Result<(), MeowError>,
    result: Result<(), MeowError>,
    open: Result<(), MeowError>,
    again: &mut MeowClient<L>,
    second: Result<(), MeowError>,
)
    requires
        call_ensures(MeowClient::<L>::new, (config,), made),
        *old(closed) == made,
        call_ensures(MeowClient::<L>::begin_close, (closed, own_thread), began),
        *old(again) == *final(closed),
        call_ensures(MeowClient::<L>::begin_close, (again, own_thread), second),
        *old(finished) == *final(closed),
        call_ensures(MeowClient::<L>::finish_close, (finished, outcome), result),
        call_ensures(MeowClient::<L>::ensure_open, (final(finished),), open),
    ensures
        !made.spec_closed(),
        made.spec_listeners().len() == 0,
        made.spec_config() == config,
        began is Ok <==> !own_thread,
        began matches Err(e) ==> e.code == InnerErrorCode::InvalidTaskState && e.msg@
            == "close cannot be called from a transfer callback of the same client"@,
        !own_thread ==> second is Err && second->Err_0.code == InnerErrorCode::ClientClosed
            && second->Err_0.msg@ == "meow client is already closed"@,
        result == outcome,
        open is Err <==> !own_thread && outcome is Ok,
        open matches Err(e) ==> e.code == InnerErrorCode::ClientClosed,
{
}

/// A submission is taken by an open client where the task says enough, and
/// refused otherwise: a closed client before an incomplete task.
pub proof fn law_submissions_are_checked<L>(
    client: &MeowClient<L>,
    task: &PounceTask,
    result: Result<(), MeowError>,
)
    requires
        call_ensures(MeowClient::<L>::check_submission, (client, task), result),
    ensures
        client.spec_closed() ==> result is Err && result->Err_0.code
            == InnerErrorCode::ClientClosed,
        !client.spec_closed() && (task.file_name@.len() == 0 || task.url@.len() == 0) ==> result
            is Err && result->Err_0.code == InnerErrorCode::ParameterEmpty,
        !client.spec_closed() && task.direction == Direction::Upload && (task.total_size == 0
            || task.upload_source is None) ==> result is Err,
        !client.spec_closed() && task.direction == Direction::Download
            && task.file_path.bytes@.len() == 0 ==> result is Err,
        !client.spec_closed() && task.file_name@.len() > 0 && task.url@.len() > 0 && (
        task.direction == Direction::Upload ==> task.total_size > 0 && task.upload_source is Some)
            && (task.direction == Direction::Download ==> task.file_path.bytes@.len() > 0)
            ==> result is Ok,
{
}

/// A registered listener comes behind the others, and taking it away again
/// leaves just them.
pub proof fn law_listeners_come_and_go<L>(
    client: &mut MeowClient<L>,
    id: GlobalProgressListenerId,
    listener: L,
    without: &mut MeowClient<L>,
    removed: bool,
    cleared: &mut MeowClient<L>,
    i: int,
)
    requires
        forall|j: int|
            0 <= j < old(client).spec_listeners().len() ==> (
            #[trigger] old(client).spec_listeners()[j]).0 != id,
        call_ensures(
            MeowClient::<L>::register_global_progress_listener,
            (client, id, listener),
            (),
        ),
        *old(without) == *final(client),
        call_ensures(
            MeowClient::<L>::unregister_global_progress_listener,
            (without, id),
            removed,
        ),
        call_ensures(MeowClient::<L>::clear_global_listener, (cleared,), ()),
    ensures
        final(client).spec_listeners().len() == old(client).spec_listeners().len() + 1,
        final(client).spec_listeners().last() == (id, listener),
        final(client).spec_closed() == old(client).spec_closed(),
        removed,
        final(without).spec_listeners() == old(client).spec_listeners(),
        0 <= i < old(client).spec_listeners().len() ==> final(client).spec_listeners()[i]
            == old(client).spec_listeners()[i],
        final(cleared).spec_listeners().len() == 0,
        final(cleared).spec_closed() == old(cleared).spec_closed(),
{
    let list = final(client).spec_listeners();
    let last = list.len() - 1;
    assert(list[last].0 == id);
    assert forall|j: int| 0 <= j < last implies (#[trigger] list[j]).0 != id by {
        assert(list[j] == old(client).spec_listeners()[j]);
    }
    assert(old(without).spec_listeners()[last].0 == id);
    let at = choose|at: int| #[trigger]
        meow_client::first_listener(list, id, at) && final(without).spec_listeners()
            == meow_client::without(list, at);
    assert(at == last) by {
        if at < last {
            assert(list[at].0 != id);
        }
    }
    assert(final(without).spec_listeners() =~= old(client).spec_listeners());
}

/// A wait ends once: with the outcome where the transfer completed, with its
/// error where it failed, with a cancel where it was canceled, and not by any
/// other report.
pub proof fn law_waits_end_once(
    made: TerminalOnce,
    reported: &mut TerminalOnce,
    record: &FileTransferRecord,
    end: Option<Terminal>,
    completed: &mut TerminalOnce,
    task_id: TaskId,
    payload: Option<String>,
    after: Option<Terminal>,
    waited: Terminal,
)
    requires
        call_ensures(TerminalOnce::new, (), made),
        *old(reported) == made,
        call_ensures(TerminalOnce::on_record, (reported, record), end),
        *old(completed) == *final(reported),
        call_ensures(TerminalOnce::on_complete, (completed, task_id, payload), after),
        call_ensures(meow_client::waited_result, (after,), waited),
    ensures
        end is Some <==> record.status is Failed || record.status is Canceled,
        after is Some <==> end is None,
        record.status matches TransferStatus::Failed(e) ==> end == Some(
            Err::<crate::transfer_status::TaskOutcome, MeowError>(e),
        ),
        record.status is Canceled ==> (end matches Some(Err(e)) && e.code
            == InnerErrorCode::TaskCanceled && e.msg@ == "task was canceled"@),
        after matches Some(told) ==> {
            &&& told matches Ok(outcome)
            &&& outcome.task_id == task_id
            &&& outcome.payload == payload
            &&& waited == told
        },
        after is None ==> waited is Err && waited->Err_0.code
            == InnerErrorCode::CommandResponseFailed,
{
}

// ---------------------------------------------------------------------------
// Settings and tasks
// ---------------------------------------------------------------------------

/// Settings that can be worked with become those of the client; each one that
/// cannot is named.
pub proof fn law_settings_become_the_config(
    settings: MeowConfigBuilder,
    result: Result<MeowConfig, MeowError>,
)
    requires
        call_ensures(MeowConfigBuilder::build, (settings,), result),
    ensures
        result is Ok <==> settings.max_upload_concurrency > 0 && settings.max_download_concurrency
            > 0 && settings.command_queue_capacity > 0 && settings.worker_event_queue_capacity > 0
            && (settings.http_timeout.secs > 0 || settings.http_timeout.nanos > 0) && (
        settings.tcp_keepalive.secs > 0 || settings.tcp_keepalive.nanos > 0),
        result matches Ok(config) ==> config.settings() == settings,
        result matches Err(e) ==> e.code == InnerErrorCode::ParameterEmpty,
        settings.max_upload_concurrency == 0 ==> result->Err_0.msg@ == "max_upload_concurrency"@
            + " must be >= 1"@,
        settings.max_upload_concurrency > 0 && settings.max_download_concurrency == 0
            ==> result->Err_0.msg@ == "max_download_concurrency"@ + " must be >= 1"@,
{
}

/// What an upload's builder was given is what its task has; its size is that
/// of its bytes, or of the file that was looked at.
pub proof fn law_built_uploads_are_as_given(
    builder: UploadPounceBuilder,
    url: String,
    with_url: UploadPounceBuilder,
    parts: usize,
    with_parts: UploadPounceBuilder,
    file_len: u64,
    task: PounceTask,
)
    requires
        call_ensures(UploadPounceBuilder::with_url, (builder, url), with_url),
        call_ensures(UploadPounceBuilder::with_max_parts_in_flight, (with_url, parts), with_parts),
        call_ensures(UploadPounceBuilder::build, (with_parts, file_len), task),
    ensures
        task.direction == Direction::Upload,
        task.url == url,
        parts > 0 ==> task.max_parts_in_flight == parts,
        parts == 0 ==> task.max_parts_in_flight == 1,
        task.file_name == builder.file_name,
        task.chunk_size == builder.chunk_size,
        task.method == builder.method,
        task.headers == builder.headers,
        task.breakpoint_upload == builder.breakpoint_upload,
        task.max_chunk_retries == builder.max_chunk_retries,
        task.max_upload_prepare_retries == builder.max_upload_prepare_retries,
        task.upload_source == Some(builder.source),
        builder.source matches UploadSource::Bytes(bytes) ==> task.total_size == bytes@.len(),
        builder.source matches UploadSource::File(path) ==> task.total_size == file_len
            && task.file_path.bytes@ == path.bytes@,
{
}

/// What a download's builder was given is what its task has.
pub proof fn law_built_downloads_are_as_given(
    file_name: String,
    file_path: LocalPath,
    chunk_size: u64,
    url: String,
    made: DownloadPounceBuilder,
    sign: String,
    signed: DownloadPounceBuilder,
    size: u64,
    sized: DownloadPounceBuilder,
    task: PounceTask,
)
    requires
        call_ensures(DownloadPounceBuilder::new, (file_name, file_path, chunk_size, url), made),
        call_ensures(DownloadPounceBuilder::with_client_file_sign, (made, sign), signed),
        call_ensures(DownloadPounceBuilder::with_total_size, (signed, size), sized),
        call_ensures(DownloadPounceBuilder::build, (sized,), task),
    ensures
        task.direction == Direction::Download,
        task.file_name == file_name,
        task.file_path == file_path,
        task.url == url,
        task.method@ == "GET"@,
        task.client_file_sign == Some(sign),
        task.total_size == size,
        task.upload_source is None,
        chunk_size == 0 ==> task.chunk_size == 1024 * 1024,
        chunk_size > 0 ==> task.chunk_size == chunk_size,
        task.max_parts_in_flight == 1,
        task.max_chunk_retries == 3,
{
}

/// An upload of a file is known by the digest of what was read of it, has to be
/// read before it runs, and is refused with the error of a failed reading; any
/// other task needs no reading.
pub proof fn law_tasks_are_resolved(
    task_id: TaskId,
    pounce: PounceTask,
    default_download_http: BreakpointDownloadHttpConfig,
    default_protocols: DefaultProtocols,
    hashed: Option<Result<UploadFileSnapshot, MeowError>>,
    result: Result<(InnerTask, Option<UploadFileSnapshot>), MeowError>,
)
    requires
        pounce.chunk_size <= usize::MAX,
        call_ensures(
            InnerTask::from_pounce,
            (task_id, pounce, default_download_http, default_protocols, hashed),
            result,
        ),
    ensures
        ({
            let reads = pounce.direction == Direction::Upload && !(pounce.upload_source matches Some(
                UploadSource::Bytes(_),
            ));
            &&& result is Err <==> reads && (hashed matches Some(Err(_)))
            &&& reads ==> (hashed matches Some(Err(e)) ==> result->Err_0 == e)
            &&& result matches Ok((task, snapshot)) ==> {
                &&& task.task_id == task_id
                &&& task.direction == pounce.direction
                &&& task.url == pounce.url
                &&& task.total_size == pounce.total_size
                &&& task.chunk_size == pounce.chunk_size
                &&& task.unread <==> reads && hashed is None
                &&& reads ==> (hashed matches Some(Ok(read)) ==> snapshot == Some(read)
                    && task.file_sign@ == read.sign@)
                &&& !reads ==> snapshot is None
                &&& pounce.direction == Direction::Download ==> (
                pounce.client_file_sign matches Some(sign) ==> task.file_sign@ == sign@)
                &&& pounce.breakpoint_upload is None ==> task.breakpoint_upload
                    == default_protocols.upload
                &&& pounce.breakpoint_download is None ==> task.breakpoint_download
                    == default_protocols.download
            }
        }),
{
}

/// Tasks have the same key exactly where they are downloads of one URL, or
/// uploads of one content where both were read.
pub proof fn law_keys_tell_tasks_apart(a: &InnerTask, b: &InnerTask, x: UniqueId, y: UniqueId)
    requires
        call_ensures(InnerTask::dedupe_key, (a,), x),
        call_ensures(InnerTask::dedupe_key, (b,), y),
    ensures
        x.0 == a.direction,
        a.direction == Direction::Download ==> x.1@ == a.url@,
        a.direction == Direction::Upload && !a.unread ==> x.1@ == a.file_sign@,
        a.direction == Direction::Upload && b.direction == Direction::Upload && !a.unread
            && !b.unread ==> (x.1@ == y.1@ <==> a.file_sign@ == b.file_sign@),
        a.direction == Direction::Download && b.direction == Direction::Download ==> (x.1@ == y.1@
            <==> a.url@ == b.url@),
{
}

/// Each setting that is changed has the value it was given, and the client reads
/// it back; nothing else changes.
pub proof fn law_settings_are_read_back(
    made: MeowConfigBuilder,
    uploads: usize,
    a: MeowConfigBuilder,
    downloads: usize,
    b: MeowConfigBuilder,
    timeout: TimeSpan,
    c: MeowConfigBuilder,
    keepalive: TimeSpan,
    d: MeowConfigBuilder,
    commands: usize,
    e: MeowConfigBuilder,
    events: usize,
    f: MeowConfigBuilder,
    http: BreakpointDownloadHttpConfig,
    g: MeowConfigBuilder,
)
    requires
        call_ensures(MeowConfig::builder, (), made),
        call_ensures(MeowConfigBuilder::max_upload_concurrency, (made, uploads), a),
        call_ensures(MeowConfigBuilder::max_download_concurrency, (a, downloads), b),
        call_ensures(MeowConfigBuilder::http_timeout, (b, timeout), c),
        call_ensures(MeowConfigBuilder::tcp_keepalive, (c, keepalive), d),
        call_ensures(MeowConfigBuilder::command_queue_capacity, (d, commands), e),
        call_ensures(MeowConfigBuilder::worker_event_queue_capacity, (e, events), f),
        call_ensures(MeowConfigBuilder::breakpoint_download_http, (f, http), g),
    ensures
        made.max_upload_concurrency == 2,
        made.max_download_concurrency == 2,
        made.http_timeout.secs == 5,
        made.tcp_keepalive.secs == 30,
        made.command_queue_capacity == 128,
        made.worker_event_queue_capacity == 256,
        made.breakpoint_download_http.range_accept@ == "application/octet-stream"@,
        a.max_download_concurrency == made.max_download_concurrency,
        b.http_timeout == made.http_timeout,
        g.max_upload_concurrency == uploads,
        g.max_download_concurrency == downloads,
        g.http_timeout == timeout,
        g.tcp_keepalive == keepalive,
        g.command_queue_capacity == commands,
        g.worker_event_queue_capacity == events,
        g.breakpoint_download_http == http,
{
}

/// What a client reads of its settings is what they are.
pub proof fn law_configs_tell_their_settings(
    config: &MeowConfig,
    uploads: usize,
    downloads: usize,
    timeout: TimeSpan,
    keepalive: TimeSpan,
    commands: usize,
    events: usize,
    http: &BreakpointDownloadHttpConfig,
)
    requires
        call_ensures(MeowConfig::max_upload_concurrency, (config,), uploads),
        call_ensures(MeowConfig::max_download_concurrency, (config,), downloads),
        call_ensures(MeowConfig::http_timeout, (config,), timeout),
        call_ensures(MeowConfig::tcp_keepalive, (config,), keepalive),
        call_ensures(MeowConfig::command_queue_capacity, (config,), commands),
        call_ensures(MeowConfig::worker_event_queue_capacity, (config,), events),
        call_ensures(MeowConfig::breakpoint_download_http, (config,), http),
    ensures
        config.settings() == (MeowConfigBuilder {
            max_upload_concurrency: uploads,
            max_download_concurrency: downloads,
            breakpoint_download_http: *http,
            http_timeout: timeout,
            tcp_keepalive: keepalive,
            command_queue_capacity: commands,
            worker_event_queue_capacity: events,
        }),
        uploads >= 1 && downloads >= 1 && commands >= 1 && events >= 1,
        timeout.secs > 0 || timeout.nanos > 0,
        keepalive.secs > 0 || keepalive.nanos > 0,
{
}

/// Each thing that an upload's builder is given is what it has; the last source
/// counts, and nothing else changes.
pub proof fn law_upload_builders_take_what_they_are_given(
    file_name: String,
    path: LocalPath,
    chunk_size: u64,
    made: UploadPounceBuilder,
    bytes: Vec<u8>,
    a: UploadPounceBuilder,
    method: String,
    b: UploadPounceBuilder,
    headers: HeaderMap<HeaderValue>,
    c: UploadPounceBuilder,
    protocol: ProtocolId,
    d: UploadPounceBuilder,
    retries: u32,
    e: UploadPounceBuilder,
    prepare_retries: u32,
    f: UploadPounceBuilder,
    other: LocalPath,
    g: UploadPounceBuilder,
)
    requires
        call_ensures(UploadPounceBuilder::new, (file_name, path, chunk_size), made),
        call_ensures(UploadPounceBuilder::with_bytes, (made, bytes), a),
        call_ensures(UploadPounceBuilder::with_method, (a, method), b),
        call_ensures(UploadPounceBuilder::with_headers, (b, headers), c),
        call_ensures(UploadPounceBuilder::with_breakpoint_upload, (c, protocol), d),
        call_ensures(UploadPounceBuilder::with_max_chunk_retries, (d, retries), e),
        call_ensures(UploadPounceBuilder::with_max_upload_prepare_retries, (e, prepare_retries), f),
        call_ensures(UploadPounceBuilder::with_file_path, (f, other), g),
    ensures
        made.file_name == file_name,
        made.source == UploadSource::File(path),
        chunk_size > 0 ==> made.chunk_size == chunk_size,
        chunk_size == 0 ==> made.chunk_size == 1024 * 1024,
        made.method@ == "POST"@,
        made.max_chunk_retries == 3,
        made.max_upload_prepare_retries == 3,
        made.max_parts_in_flight == 1,
        f.source == UploadSource::Bytes(bytes),
        g.source == UploadSource::File(other),
        g.method == method,
        g.headers == headers,
        g.breakpoint_upload == Some(protocol),
        g.max_chunk_retries == retries,
        g.max_upload_prepare_retries == prepare_retries,
        g.file_name == file_name,
        g.chunk_size == made.chunk_size,
        g.url == made.url,
        g.max_parts_in_flight == made.max_parts_in_flight,
{
}

/// Each thing that a download's builder is given is what it has, and nothing
/// else changes.
pub proof fn law_download_builders_take_what_they_are_given(
    made: DownloadPounceBuilder,
    url: String,
    a: DownloadPounceBuilder,
    path: LocalPath,
    b: DownloadPounceBuilder,
    headers: HeaderMap<HeaderValue>,
    c: DownloadPounceBuilder,
    protocol: ProtocolId,
    d: DownloadPounceBuilder,
    http: BreakpointDownloadHttpConfig,
    e: DownloadPounceBuilder,
    retries: u32,
    f: DownloadPounceBuilder,
    parts: usize,
    g: DownloadPounceBuilder,
)
    requires
        call_ensures(DownloadPounceBuilder::with_url, (made, url), a),
        call_ensures(DownloadPounceBuilder::with_file_path, (a, path), b),
        call_ensures(DownloadPounceBuilder::with_headers, (b, headers), c),
        call_ensures(DownloadPounceBuilder::with_breakpoint_download, (c, protocol), d),
        call_ensures(DownloadPounceBuilder::with_breakpoint_download_http, (d, http), e),
        call_ensures(DownloadPounceBuilder::with_max_chunk_retries, (e, retries), f),
        call_ensures(DownloadPounceBuilder::with_max_parts_in_flight, (f, parts), g),
    ensures
        g.url == url,
        g.file_path == path,
        g.headers == headers,
        g.breakpoint_download == Some(protocol),
        g.breakpoint_download_http == Some(http),
        g.max_chunk_retries == retries,
        parts > 0 ==> g.max_parts_in_flight == parts,
        parts == 0 ==> g.max_parts_in_flight == 1,
        g.file_name == made.file_name,
        g.chunk_size == made.chunk_size,
        g.client_file_sign == made.client_file_sign,
        g.total_size == made.total_size,
{
}

/// The file that has to be read before an upload runs is the one that it names;
/// bytes and downloads need no reading.
pub proof fn law_files_to_read_are_named(
    pounce: &PounceTask,
    result: Result<Option<LocalPath>, MeowError>,
)
    requires
        call_ensures(InnerTask::file_to_hash, (pounce,), result),
    ensures
        pounce.direction == Direction::Download ==> result is Ok && result->Ok_0 is None,
        pounce.direction == Direction::Upload ==> (pounce.upload_source matches Some(
            UploadSource::Bytes(_),
        ) ==> result is Ok && result->Ok_0 is None),
        pounce.direction == Direction::Upload && pounce.chunk_size <= usize::MAX ==> (
        pounce.upload_source matches Some(UploadSource::File(path)) ==> (result matches Ok(
            Some(found),
        ) && found.bytes@ == path.bytes@)),
        pounce.direction == Direction::Upload && pounce.upload_source is None && pounce.chunk_size
            <= usize::MAX ==> (result matches Ok(Some(found)) && found.bytes@
            == pounce.file_path.bytes@),
        result matches Err(e) ==> e.code == InnerErrorCode::IoError && pounce.chunk_size
            > usize::MAX && e.msg@ == "upload chunk size does not fit this target architecture"@,
{
}

/// The listeners of a client are told in the order in which they came.
pub proof fn law_listeners_are_told_in_order<L>(
    client: &MeowClient<L>,
    ids: Vec<GlobalProgressListenerId>,
    config: &MeowConfig,
    closed: bool,
    i: int,
)
    requires
        call_ensures(MeowClient::<L>::listener_ids, (client,), ids),
        call_ensures(MeowClient::<L>::config, (client,), config),
        call_ensures(MeowClient::<L>::is_closed, (client,), closed),
        0 <= i < client.spec_listeners().len(),
    ensures
        ids@.len() == client.spec_listeners().len(),
        ids@[i] == client.spec_listeners()[i].0,
        *config == client.spec_config(),
        closed == client.spec_closed(),
{
    assert(client.spec_listeners()[i] == client.spec_listeners()[i]);
}

/// A listener that is found has the number that was asked for.
pub proof fn law_found_listeners_have_their_number<L>(
    client: &MeowClient<L>,
    id: GlobalProgressListenerId,
    found: Option<&L>,
)
    requires
        call_ensures(MeowClient::<L>::listener, (client, id), found),
    ensures
        found matches Some(found) ==> exists|at: int|
            0 <= at < client.spec_listeners().len() && (#[trigger] client.spec_listeners()[at]).0
                == id && client.spec_listeners()[at].1 == *found,
{
    if let Some(listener) = found {
        let at = choose|at: int| #[trigger]
            meow_client::first_listener(client.spec_listeners(), id, at)
                && client.spec_listeners()[at].1 == *listener;
        assert(client.spec_listeners()[at].0 == id);
    }
}

/// What an error tells is what it was made with, and its numbers.
pub proof fn law_errors_tell_what_they_were_made_with(
    code: InnerErrorCode,
    text: String,
    made: MeowError,
    status: u16,
    with_status: MeowError,
    told_code: InnerErrorCode,
    told_text: &str,
    told_status: Option<u16>,
    bare: MeowError,
)
    requires
        call_ensures(MeowError::from_code, (code, text), made),
        call_ensures(MeowError::with_http_status, (made, status), with_status),
        call_ensures(MeowError::code, (&with_status,), told_code),
        call_ensures(MeowError::msg, (&with_status,), told_text),
        call_ensures(MeowError::http_status, (&with_status,), told_status),
        call_ensures(MeowError::from_code1, (code,), bare),
    ensures
        made.http_status is None,
        told_code == code,
        told_text@ == text@,
        told_status == Some(status),
        bare.code == code,
        bare.msg@.len() == 0,
        bare.http_status is None,
{
}

/// Statuses have the numbers that callers know them by.
pub proof fn law_statuses_have_their_numbers(status: &TransferStatus, number: i32)
    requires
        call_ensures(TransferStatus::as_i32, (status,), number),
    ensures
        status is Unset <==> number == -1,
        status is Pending <==> number == 0,
        status is Transmission <==> number == 1,
        status is Paused <==> number == 2,
        status is Complete <==> number == 3,
        status is Failed <==> number == 4,
        status is Canceled <==> number == 5,
{
}

/// The callbacks of a task are those it was given.
pub proof fn law_tasks_keep_their_callbacks<P, C>(
    progress: Option<P>,
    complete: Option<C>,
    made: TaskCallbacks<P, C>,
    on_progress: &Option<P>,
    on_complete: &Option<C>,
    none: TaskCallbacks<P, C>,
)
    requires
        call_ensures(TaskCallbacks::<P, C>::new, (progress, complete), made),
        call_ensures(TaskCallbacks::<P, C>::progress_cb, (&made,), on_progress),
        call_ensures(TaskCallbacks::<P, C>::complete_cb, (&made,), on_complete),
        call_ensures(TaskCallbacks::<P, C>::empty, (), none),
    ensures
        *on_progress == progress,
        *on_complete == complete,
        none.spec_progress_cb() is None,
        none.spec_complete_cb() is None,
{
}

/// The budget of a process goes by the width of its pointers.
pub proof fn law_budgets_go_by_the_target(
    budget: ParallelMemoryBudget,
    limit: u64,
    current: u64,
)
    requires
        call_ensures(ParallelMemoryBudget::for_current_target, (), budget),
        call_ensures(ParallelMemoryBudget::limit_bytes, (&budget,), limit),
        call_ensures(memory_budget::current_memory_limit_bytes, (), current),
    ensures
        limit == budget.limit_bytes,
        limit == current,
        usize::BITS <= 32 ==> limit == 64 * 1024 * 1024,
        usize::BITS > 32 ==> limit == 512 * 1024 * 1024,
{
}

/// An upload of bytes reads those bytes and has the settings that every upload
/// begins with.
pub proof fn law_uploads_of_bytes(
    file_name: String,
    bytes: Vec<u8>,
    chunk_size: u64,
    made: UploadPounceBuilder,
    task: PounceTask,
)
    requires
        call_ensures(UploadPounceBuilder::from_bytes, (file_name, bytes, chunk_size), made),
        call_ensures(UploadPounceBuilder::build, (made, 0), task),
    ensures
        task.upload_source == Some(UploadSource::Bytes(bytes)),
        task.total_size == bytes@.len(),
        task.file_name == file_name,
        chunk_size > 0 ==> task.chunk_size == chunk_size,
        chunk_size == 0 ==> task.chunk_size == 1024 * 1024,
        task.method@ == "POST"@,
        task.max_parts_in_flight == 1,
        task.max_chunk_retries == 3,
        task.max_upload_prepare_retries == 3,
{
}

/// Numbers of sizes and counts are taken as they are unless they are zero and
/// may not be.
pub proof fn law_numbers_are_normalized(
    chunk_size: u64,
    chunk: u64,
    parts: usize,
    in_flight: usize,
    retries: u32,
    kept: u32,
    prepared: u32,
)
    requires
        call_ensures(PounceTask::normalized_chunk_size, (chunk_size,), chunk),
        call_ensures(PounceTask::normalized_max_parts_in_flight, (parts,), in_flight),
        call_ensures(PounceTask::normalized_max_chunk_retries, (retries,), kept),
        call_ensures(PounceTask::normalized_max_upload_prepare_retries, (retries,), prepared),
    ensures
        chunk_size > 0 ==> chunk == chunk_size,
        chunk_size == 0 ==> chunk == 1024 * 1024,
        parts > 0 ==> in_flight == parts,
        parts == 0 ==> in_flight == 1,
        kept == retries,
        prepared == retries,
{
}

/// Reasons that have a number have the number that callers know.
pub proof fn law_reasons_have_their_numbers(code: InnerErrorCode, number: Option<i32>)
    requires
        call_ensures(InnerErrorCode::number, (code,), number),
    ensures
        code is ParameterEmpty <==> number == Some(102i32),
        code is DuplicateTaskError <==> number == Some(103i32),
        code is ClientClosed <==> number == Some(107i32),
        code is TaskNotFound <==> number == Some(108i32),
        code is CommandSendFailed <==> number == Some(111i32),
        code is ChecksumMismatch <==> number == Some(116i32),
        code is InvalidTaskState <==> number == Some(117i32),
        code is TaskCanceled <==> number == Some(120i32),
        code is DiskFull <==> number == Some(121i32),
        code is LocalFileRemoved <==> number == Some(122i32),
        code is BinaryTaskQueueFull <==> number == Some(123i32),
        code is BinaryBodyTooLarge <==> number == Some(124i32),
{
}

/// A local failure is told by what the system says: a file that is gone, a full
/// disk, or any other failure.
pub proof fn law_local_failures_are_classified(
    failure: &IoFailure,
    code: InnerErrorCode,
    context: String,
    e: MeowError,
    kind: IoErrorKind,
    made: IoFailure,
)
    requires
        call_ensures(IoFailure::code, (failure,), code),
        call_ensures(MeowError::from_io, (context, failure), e),
        call_ensures(IoFailure::new, (kind,), made),
    ensures
        failure.kind is NotFound <==> code is LocalFileRemoved,
        !(failure.kind is NotFound) ==> (code is DiskFull <==> failure.kind is StorageFull
            || failure.raw_os_error == Some(28i32)),
        code is LocalFileRemoved || code is DiskFull || code is IoError,
        e.code == code,
        e.msg@ == context@,
        e.http_status is None,
        made.kind == kind,
        made.raw_os_error is None,
{
}

/// A completed download that cannot be read again, and a target that cannot be
/// locked, are told apart by what the system says.
pub proof fn law_target_failures_are_classified(
    failure: &IoFailure,
    validation: MeowError,
    message: String,
    lock: MeowError,
)
    requires
        call_ensures(transfer_task::map_download_validation_error, (failure,), validation),
        call_ensures(transfer_task::map_download_target_lock_error, (message, failure), lock),
    ensures
        failure.kind is NotFound || failure.kind is UnexpectedEof ==> validation.code
            == InnerErrorCode::LocalFileRemoved && validation.msg@
            == "completed download disappeared or was truncated"@,
        failure.kind is InvalidData ==> validation.code == InnerErrorCode::ChecksumMismatch
            && validation.msg@ == "validate completed download content failed"@,
        !(failure.kind is NotFound) && !(failure.kind is UnexpectedEof) && !(failure.kind
            is InvalidData) ==> validation.code == failure.spec_code() && validation.msg@
            == "read completed download for validation failed"@,
        lock.msg@ == message@,
        failure.kind is WouldBlock ==> lock.code == InnerErrorCode::InvalidTaskState,
        !(failure.kind is WouldBlock) ==> lock.code == failure.spec_code(),
{
}

/// A new latch is open; an abort that is asked for stays asked for, and a
/// completion that is acknowledged counts as one under way.
pub proof fn law_latches_keep_what_was_asked(
    made: TransferLifecycle,
    asked: &mut TransferLifecycle,
    required: bool,
    acknowledged: &mut TransferLifecycle,
)
    requires
        call_ensures(TransferLifecycle::new, (), made),
        call_ensures(TransferLifecycle::require_abort, (asked,), ()),
        call_ensures(TransferLifecycle::abort_required, (final(asked),), required),
        call_ensures(TransferLifecycle::acknowledge_completion, (acknowledged,), ()),
    ensures
        made.terminal is Open,
        !made.abort_started,
        !made.abort_required,
        required,
        final(asked).terminal == old(asked).terminal,
        final(asked).abort_started == old(asked).abort_started,
        final(acknowledged).terminal is Completing,
        final(acknowledged).abort_required == old(acknowledged).abort_required,
{
}

/// A new queue of callbacks is open, empty and bounded; its jobs are of one of
/// three kinds.
pub proof fn law_new_queues_are_bounded(queue: CallbackQueue, job: &CbJob, kind: JobKind)
    requires
        call_ensures(CallbackQueue::new, (), queue),
        call_ensures(CbJob::kind, (job,), kind),
    ensures
        queue.waiting().len() == 0,
        queue.spec_capacity() == 2048,
        !queue.is_closed(),
        kind is Completion <==> job is Complete,
        kind is Sample <==> (job matches CbJob::Progress { record, .. } && record.status
            is Transmission),
{
}

/// Paths are the same exactly where their bytes are, and tasks have the number
/// they were given, shown in decimal notation.
pub proof fn law_paths_and_numbers_are_kept(
    a: &LocalPath,
    b: &LocalPath,
    same: bool,
    empty: bool,
    value: u64,
    id: TaskId,
    shown: String,
)
    requires
        call_ensures(LocalPath::same, (a, b), same),
        call_ensures(LocalPath::is_empty, (a,), empty),
        call_ensures(TaskId::new, (value,), id),
        call_ensures(TaskId::text, (&id,), shown),
    ensures
        same <==> a.bytes@ == b.bytes@,
        empty <==> a.bytes@.len() == 0,
        id.value == value,
        shown@ == text::decimal(value as nat),
{
}

/// The milliseconds of a reading lie within its second.
pub proof fn law_milliseconds_lie_within_their_second(reading: &ClockReading, millis: u64)
    requires
        reading.secs <= 1_000_000_000_000,
        reading.nanos < 1_000_000_000,
        call_ensures(ClockReading::millis, (reading,), millis),
    ensures
        millis / 1000 == reading.secs,
        (millis % 1000) * 1_000_000 <= reading.nanos < (millis % 1000 + 1) * 1_000_000,
{
}

/// What settings and statuses are before anything is set.
pub proof fn law_defaults(
    config: MeowConfig,
    settings: MeowConfigBuilder,
    http: BreakpointDownloadHttpConfig,
    status: TransferStatus,
)
    requires
        call_ensures(MeowConfig::default, (), config),
        call_ensures(MeowConfigBuilder::default, (), settings),
        call_ensures(BreakpointDownloadHttpConfig::default, (), http),
        call_ensures(TransferStatus::default, (), status),
    ensures
        config.settings().max_upload_concurrency == 2,
        config.settings().max_download_concurrency == 2,
        config.settings().http_timeout.secs == 5,
        config.settings().tcp_keepalive.secs == 30,
        settings.command_queue_capacity == 128,
        settings.worker_event_queue_capacity == 256,
        http.range_accept@ == "application/octet-stream"@,
        status is Unset,
{
}

} // verus!
