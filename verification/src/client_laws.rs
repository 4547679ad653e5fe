//! What holds of clients, their tasks and their callbacks, told by what they are
//! handed and what they give back.

use vstd::prelude::*;

use crate::callbacks;
use crate::callbacks::{CallbackQueue, CbJob, JobKind, Recipient, Submitted};
use crate::digest;
use crate::direction::Direction;
use crate::error;
use crate::error::{InnerErrorCode, IoFailure, MeowError};
use crate::headers;
use crate::ids::{GlobalProgressListenerId, TaskId};
use crate::inner_task;
use crate::inner_task::{DefaultProtocols, InnerTask};
use crate::lifecycle::{TerminalState, TransferLifecycle};
use crate::memory_budget;
use crate::meow_client;
use crate::meow_client::Terminal;
use crate::meow_config::MeowConfigBuilder;
use crate::pounce_task::{BreakpointDownloadHttpConfig, PounceTask, UploadPounceBuilder, UploadSource, DEFAULT_CHUNK_SIZE};
use crate::transfer_status::{FileTransferRecord, TaskOutcome, TransferStatus};

verus! {

// ---------------------------------------------------------------------------
// Errors
// ---------------------------------------------------------------------------

/// A result that fails with a reason and a text is an error with just that
/// reason and that text, and without an HTTP status.
pub proof fn law_failures_carry_reason_and_text<T>(
    result: Result<T, MeowError>,
    code: InnerErrorCode,
    msg: Seq<char>,
    status: u16,
)
    ensures
        error::fails_with(result, code, msg) <==> (result matches Err(e) && e.code == code
            && e.msg@ == msg && e.http_status is None),
        error::fails_with_status(result, msg, status) <==> (result matches Err(e) && e.code
            == InnerErrorCode::ResponseStatusError && e.msg@ == msg && e.http_status == Some(
            status,
        )),
{
}

/// A local failure is told apart by what went wrong: a path that is gone, a
/// disk that is full, by its kind or by the system's number, and anything else.
pub proof fn law_local_failures_are_told_apart(failure: IoFailure)
    ensures
        failure.kind is NotFound <==> failure.spec_code() is LocalFileRemoved,
        failure.spec_code() is DiskFull <==> !(failure.kind is NotFound) && (failure.kind
            is StorageFull || failure.raw_os_error == Some(28i32)),
        failure.spec_code() is LocalFileRemoved || failure.spec_code() is DiskFull
            || failure.spec_code() is IoError,
{
}

/// The statuses have distinct numbers, from zero on in the order of a
/// transfer's life, and minus one where nothing was reported.
pub proof fn law_status_numbers(status: TransferStatus)
    ensures
        status is Unset ==> status.spec_number() == -1,
        status is Pending ==> status.spec_number() == 0,
        status is Transmission ==> status.spec_number() == 1,
        status is Paused ==> status.spec_number() == 2,
        status is Complete ==> status.spec_number() == 3,
        status is Failed ==> status.spec_number() == 4,
        status is Canceled ==> status.spec_number() == 5,
{
}

/// No two reasons share a number.
pub proof fn law_error_numbers_are_distinct(a: InnerErrorCode, b: InnerErrorCode)
    requires
        a.spec_number() is Some,
        a.spec_number() == b.spec_number(),
    ensures
        a == b,
        102 <= a.spec_number()->Some_0 <= 124,
{
}

// ---------------------------------------------------------------------------
// Callbacks
// ---------------------------------------------------------------------------

/// A report goes to the task's own callback first, where it has one, and then
/// to each listener once, in the order of registration; all get the record as
/// it is, and nobody else gets it.
pub proof fn law_reports_reach_everyone(
    own: Option<TaskId>,
    listeners: Seq<GlobalProgressListenerId>,
    record: FileTransferRecord,
    i: int,
)
    ensures
        ({
            let jobs = callbacks::fanned_out(own, listeners, record);
            let first = if own is Some {
                1int
            } else {
                0int
            };
            &&& jobs.len() == first + listeners.len()
            &&& own matches Some(task_id) ==> jobs[0] == (CbJob::Progress {
                recipient: Recipient::Task(task_id),
                record,
            })
            &&& 0 <= i < listeners.len() ==> jobs[first + i] == (CbJob::Progress {
                recipient: Recipient::Global(listeners[i]),
                record,
            })
        }),
{
}

/// Only a report of ongoing transmission is a sample; completions and all other
/// reports are not.
pub proof fn law_samples_are_transmission_reports(job: CbJob)
    ensures
        match job {
            CbJob::Complete { .. } => !job.is_sample() && job.spec_kind() is Completion,
            CbJob::Progress { record, .. } => {
                &&& job.is_sample() <==> record.status is Transmission
                &&& job.spec_kind() == if record.status is Transmission {
                    JobKind::Sample
                } else {
                    JobKind::Report
                }
            },
        },
{
}

/// A job is queued behind the others exactly where the queue is open and has
/// room. A closed queue takes nothing; a full one drops a transmission report
/// and hands everything else back, unchanged, to be handed in again. What waits
/// already stays.
pub proof fn law_jobs_are_queued_where_there_is_room(queue: CallbackQueue, job: CbJob)
    ensures
        ({
            let (submitted, waiting) = queue.submit_step(job);
            let room = queue.waiting().len() < queue.spec_capacity();
            let sample = job is Progress && job->record.status is Transmission;
            &&& submitted is Queued <==> !queue.is_closed() && room
            &&& submitted is Queued ==> waiting == queue.waiting().push(job)
            &&& !(submitted is Queued) ==> waiting == queue.waiting()
            &&& submitted is Undelivered <==> queue.is_closed()
            &&& submitted is Dropped <==> !queue.is_closed() && !room && sample
            &&& !queue.is_closed() && !room && !sample ==> submitted == Submitted::Wait(job)
        }),
{
}

// ---------------------------------------------------------------------------
// Memory
// ---------------------------------------------------------------------------

/// A part is charged the bytes that it has, at most a chunk and never any
/// beyond the end of the file, and for an upload the block that it is verified
/// with.
pub proof fn law_parts_are_charged_their_bytes(
    offset: nat,
    chunk: nat,
    total: nat,
    verify_block: nat,
)
    ensures
        ({
            let charge = memory_budget::part_charge(offset, chunk, total, verify_block);
            &&& verify_block <= charge <= chunk + verify_block
            &&& offset + chunk <= total ==> charge == chunk + verify_block
            &&& offset <= total < offset + chunk ==> charge == total - offset + verify_block
            &&& offset > total ==> charge == verify_block
        }),
        memory_budget::MEMORY_LIMIT_64_BIT == 512 * 1024 * 1024,
        memory_budget::MEMORY_LIMIT_32_BIT * 8 == memory_budget::MEMORY_LIMIT_64_BIT,
{
}

// ---------------------------------------------------------------------------
// Clients
// ---------------------------------------------------------------------------

/// What a closed client answers.
pub proof fn law_closed_clients_say_so<T>(result: Result<T, MeowError>)
    requires
        meow_client::refused_closed(result),
    ensures
        result is Err,
        result->Err_0.code == InnerErrorCode::ClientClosed,
        result->Err_0.msg@ == "meow client is already closed"@,
        result->Err_0.http_status is None,
{
}

/// Removing a listener takes out that entry alone; the others stay as they are
/// and in their order.
pub proof fn law_removing_keeps_the_other_listeners<T>(list: Seq<T>, at: int, i: int)
    requires
        0 <= at < list.len(),
        0 <= i < list.len() - 1,
    ensures
        meow_client::without(list, at).len() == list.len() - 1,
        i < at ==> meow_client::without(list, at)[i] == list[i],
        i >= at ==> meow_client::without(list, at)[i] == list[i + 1],
{
}

/// Whoever waits for a task is told of a failure with its very error, of a
/// cancel as one, and of nothing else by a report: progress, a pause and even
/// the report of a completion end no wait.
pub proof fn law_waits_end_with_failures_and_cancels(status: TransferStatus, end: Option<Terminal>)
    requires
        meow_client::reported_end(status, end),
    ensures
        end is Some <==> status is Failed || status is Canceled,
        end is Some ==> end->Some_0 is Err,
        status matches TransferStatus::Failed(e) ==> end == Some(Err::<TaskOutcome, MeowError>(e)),
        status is Canceled ==> end->Some_0->Err_0.code == InnerErrorCode::TaskCanceled
            && end->Some_0->Err_0.msg@ == "task was canceled"@,
{
}

/// Settings are accepted exactly where every limit and capacity is at least one
/// and no time span is zero. The refusal names the first setting at fault.
pub proof fn law_settings_are_checked(settings: MeowConfigBuilder)
    ensures
        settings.refusal() is None <==> {
            &&& settings.max_upload_concurrency >= 1
            &&& settings.max_download_concurrency >= 1
            &&& settings.command_queue_capacity >= 1
            &&& settings.worker_event_queue_capacity >= 1
            &&& settings.http_timeout.secs > 0 || settings.http_timeout.nanos > 0
            &&& settings.tcp_keepalive.secs > 0 || settings.tcp_keepalive.nanos > 0
        },
        settings.max_upload_concurrency == 0 ==> settings.refusal() == Some(
            "max_upload_concurrency"@ + " must be >= 1"@,
        ),
        settings.max_upload_concurrency >= 1 && settings.max_download_concurrency == 0
            ==> settings.refusal() == Some("max_download_concurrency"@ + " must be >= 1"@),
{
}

/// The settings of a client that chooses none: two transfers each way, five
/// seconds for a request, and room for 128 commands and 256 events.
pub proof fn law_default_settings(settings: MeowConfigBuilder)
    requires
        settings.has_defaults(),
    ensures
        settings.max_upload_concurrency == 2,
        settings.max_download_concurrency == 2,
        settings.http_timeout.secs == 5,
        settings.http_timeout.nanos == 0,
        settings.tcp_keepalive.secs == 30,
        settings.tcp_keepalive.nanos == 0,
        settings.command_queue_capacity == 128,
        settings.worker_event_queue_capacity == 256,
        settings.breakpoint_download_http.range_accept@ == "application/octet-stream"@,
{
}

// ---------------------------------------------------------------------------
// Tasks
// ---------------------------------------------------------------------------

/// A task lacks something exactly where it has no file name or no URL, an
/// upload no bytes or no source, or a download no path.
pub proof fn law_incomplete_tasks_are_seen(task: PounceTask)
    ensures
        task.spec_is_empty() <==> {
            ||| task.file_name@.len() == 0
            ||| task.url@.len() == 0
            ||| task.direction == Direction::Upload && task.total_size == 0
            ||| task.direction == Direction::Upload && task.upload_source is None
            ||| task.direction == Direction::Download && task.file_path.bytes@.len() == 0
        },
{
}

/// What an upload is that says nothing else: a `POST` without headers, with
/// three retries of each kind, of one part at a time.
pub proof fn law_default_uploads(builder: UploadPounceBuilder)
    requires
        builder.has_defaults(),
    ensures
        builder.method@ == "POST"@,
        builder.url@.len() == 0,
        builder.max_chunk_retries == 3,
        builder.max_upload_prepare_retries == 3,
        builder.max_parts_in_flight == 1,
        builder.breakpoint_upload is None,
        headers::header_contents(builder.headers) == Map::<Seq<char>, Seq<Seq<u8>>>::empty(),
        DEFAULT_CHUNK_SIZE == 1024 * 1024,
{
}

/// The file that is hashed is the one that an upload reads: its source, or the
/// file at its path where it names none. Neither bytes in memory nor a download
/// are hashed from a file.
pub proof fn law_uploads_hash_what_they_read(pounce: PounceTask)
    ensures
        pounce.direction == Direction::Download ==> inner_task::hashed_file(pounce) is None,
        pounce.direction == Direction::Upload ==> {
            &&& pounce.upload_source matches Some(UploadSource::File(path))
                ==> inner_task::hashed_file(pounce) == Some(path.bytes@)
            &&& pounce.upload_source matches Some(UploadSource::Bytes(_))
                ==> inner_task::hashed_file(pounce) is None
            &&& pounce.upload_source is None ==> inner_task::hashed_file(pounce) == Some(
                pounce.file_path.bytes@,
            )
        },
        pounce.direction == Direction::Upload ==> (pounce.upload_source matches Some(
            UploadSource::Bytes(bytes),
        ) ==> inner_task::unhashed_sign(pounce) == digest::hex(digest::md5_digest(bytes@))),
        pounce.direction == Direction::Download ==> {
            &&& pounce.client_file_sign matches Some(sign) ==> inner_task::unhashed_sign(pounce)
                == sign@
            &&& pounce.client_file_sign is None ==> inner_task::unhashed_sign(pounce).len() == 0
        },
{
}

/// A task takes over everything that its description says, and gets from the
/// client what it leaves open.
pub proof fn law_tasks_keep_their_description(
    task: InnerTask,
    pounce: PounceTask,
    task_id: TaskId,
    http: BreakpointDownloadHttpConfig,
    protocols: DefaultProtocols,
)
    requires
        inner_task::resolves(task, pounce, task_id, http, protocols),
    ensures
        task.task_id == task_id,
        task.direction == pounce.direction,
        task.file_name@ == pounce.file_name@,
        task.file_path.bytes@ == pounce.file_path.bytes@,
        task.total_size == pounce.total_size,
        task.chunk_size == pounce.chunk_size,
        task.url@ == pounce.url@,
        task.method@ == pounce.method@,
        headers::header_contents(task.headers) == headers::header_contents(pounce.headers),
        task.max_chunk_retries == pounce.max_chunk_retries,
        task.max_upload_prepare_retries == pounce.max_upload_prepare_retries,
        task.max_parts_in_flight == pounce.max_parts_in_flight,
        pounce.upload_source is Some ==> task.upload_source == pounce.upload_source,
        pounce.upload_source is None && pounce.direction == Direction::Download
            ==> task.upload_source is None,
        pounce.upload_source is None && pounce.direction == Direction::Upload
            ==> task.upload_source is Some && task.upload_source->Some_0 is File
            && task.source_path() == pounce.file_path.bytes@,
        pounce.breakpoint_upload matches Some(own) ==> task.breakpoint_upload == own,
        pounce.breakpoint_upload is None ==> task.breakpoint_upload == protocols.upload,
        pounce.breakpoint_download matches Some(own) ==> task.breakpoint_download == own,
        pounce.breakpoint_download is None ==> task.breakpoint_download == protocols.download,
        pounce.breakpoint_download_http matches Some(own) ==> task.breakpoint_download_http == own,
        pounce.breakpoint_download_http is None ==> task.breakpoint_download_http == http,
{
}

/// Two uploads whose files were read are the same transfer exactly where they
/// have the same signature; one whose file is still to be read goes by its
/// path, and is the same as another such one exactly where the paths are.
pub proof fn law_uploads_are_keyed_by_content(a: InnerTask, b: InnerTask)
    requires
        a.direction == Direction::Upload,
        b.direction == Direction::Upload,
        a.unread == b.unread,
    ensures
        !a.unread ==> (a.spec_dedupe_key() == b.spec_dedupe_key() <==> a.file_sign@
            == b.file_sign@),
        a.unread ==> (a.spec_dedupe_key() == b.spec_dedupe_key() <==> a.source_path()
            == b.source_path()),
{
    if a.unread {
        let x = a.source_path();
        let y = b.source_path();
        let hx = digest::hex(x);
        let hy = digest::hex(y);
        if a.spec_dedupe_key() == b.spec_dedupe_key() {
            let mark = "unread:"@;
            assert((mark + hx).skip(mark.len() as int) =~= hx);
            assert((mark + hy).skip(mark.len() as int) =~= hy);
            assert(hx == hy);
            law_hex_is_faithful(x, y);
        }
    }
}

/// Hexadecimal notation takes two characters per byte and tells all byte
/// strings apart.
pub proof fn law_hex_is_faithful(x: Seq<u8>, y: Seq<u8>)
    ensures
        digest::hex(x).len() == 2 * x.len(),
        digest::hex(x) == digest::hex(y) ==> x == y,
{
    let hx = digest::hex(x);
    let hy = digest::hex(y);
    if hx == hy {
        assert(hx.len() == hy.len());
        assert forall|i: int| 0 <= i < x.len() implies x[i] == y[i] by {
            assert(hx[2 * i] == digest::hex_digit(x[i] as int / 16));
            assert(hy[2 * i] == digest::hex_digit(y[i] as int / 16));
            assert(hx[2 * i + 1] == digest::hex_digit(x[i] as int % 16));
            assert(hy[2 * i + 1] == digest::hex_digit(y[i] as int % 16));
        }
        assert(x =~= y);
    }
}

/// Which file an upload reads, and whether it reads one; two uploads are taken
/// for repetitions of each other unseen where both read the same path and one
/// of them was not read yet.
pub proof fn law_unread_files_may_repeat(a: InnerTask, b: InnerTask)
    ensures
        a.reads_file() <==> a.direction == Direction::Upload && a.upload_source is Some
            && a.upload_source->Some_0 is File,
        a.upload_source matches Some(UploadSource::File(path)) ==> a.source_path() == path.bytes@,
        a.may_repeat(b) <==> a.reads_file() && b.reads_file() && a.source_path() == b.source_path()
            && (a.unread || b.unread),
        a.may_repeat(b) <==> b.may_repeat(a),
{
}

// ---------------------------------------------------------------------------
// Latches
// ---------------------------------------------------------------------------

/// A new latch is open and holds no abort.
pub proof fn law_new_latches_are_open()
    ensures
        TransferLifecycle::spec_new().terminal is Open,
        !TransferLifecycle::spec_new().abort_started,
        !TransferLifecycle::spec_new().abort_required,
{
}

/// What a pause and a cancel do to a latch: an open one takes either, a cancel
/// also takes a paused one, and while a completing request is under way they
/// are noted, a cancel over a pause. A worker is interrupted exactly where none
/// is under way.
pub proof fn law_latches_take_stops(state: TerminalState)
    ensures
        state is Open ==> state.paused() is Pausing && state.canceled() is Canceling,
        state is Pausing ==> state.paused() is Pausing && state.canceled() is Canceling,
        state is Canceling ==> state.paused() is Canceling && state.canceled() is Canceling,
        state is Completing ==> state.paused() is CompletingPausePending && state.canceled()
            is CompletingCancelPending,
        state is CompletingPausePending ==> state.paused() is CompletingPausePending
            && state.canceled() is CompletingCancelPending,
        state is CompletingCancelPending ==> state.paused() is CompletingCancelPending
            && state.canceled() is CompletingCancelPending,
        state.stop_disposition() is InterruptNow <==> state is Open || state is Pausing || state
            is Canceling,
        state.pause_reset() == if state is Pausing {
            TerminalState::Open
        } else {
            state
        },
{
}

} // verus!
