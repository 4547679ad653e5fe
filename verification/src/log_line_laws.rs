//! What holds of the lines of the log, told by what they are about.

use vstd::prelude::*;

use crate::callbacks::JobKind;
use crate::client_log;
use crate::client_log::{ClientStep, ListenerChange};
use crate::direction;
use crate::direction::{Direction, KeyView, UniqueId};
use crate::effect::Effect;
use crate::error::MeowError;
use crate::executor::{CommandKind, TransferCmd};
use crate::ids::TaskId;
use crate::inner_task::InnerTask;
use crate::log;
use crate::log::{LogLevel, LogView};
use crate::log_lines;
use crate::pounce_task::{PounceTask, UploadSource};
use crate::presigned::range_download::RefreshOutcome;
use crate::presigned::range_download_plan::PresignedRangeDownloadPlan;
use crate::retry::ChunkRetry;
use crate::scheduler;
use crate::scheduler_log;
use crate::scheduler_log::Control;
use crate::scheduler_state::SchedulerView;
use crate::text;
use crate::transfer_status::{ChunkOutcome, TransferStatus};
use crate::worker_event::WorkerEvent;
use crate::worker_log;
use crate::worker_log::{FailedStep, WorkerNote};

verus! {

// ---------------------------------------------------------------------------
// Lines
// ---------------------------------------------------------------------------

/// A line holds everything that its entry holds but the time.
pub proof fn law_lines_leave_out_the_time_alone(entry: LogView)
    ensures
        ({
            let line = log_lines::line_of(entry);
            &&& line.level == entry.level
            &&& line.tag == entry.tag
            &&& line.message == entry.message
            &&& line.task_id == entry.task_id
            &&& line.object_key == entry.object_key
            &&& line.part_index == entry.part_index
            &&& line.offset == entry.offset
            &&& line.byte_len == entry.byte_len
            &&& line.http_status == entry.http_status
            &&& line.attempt == entry.attempt
            &&& line.max_retries == entry.max_retries
            &&& line.error_code == entry.error_code
            &&& line.url == entry.url
        }),
{
}

/// A bare entry has its time, level, tag and message, and nothing else; one
/// about a task has the task's number in addition.
pub proof fn law_bare_entries_have_no_fields(
    timestamp_ms: u64,
    level: LogLevel,
    tag: Seq<char>,
    message: Seq<char>,
    task_id: TaskId,
)
    ensures
        ({
            let bare = log::bare_entry(timestamp_ms, level, tag, message);
            let told = log_lines::task_line(level, tag, message, task_id);
            &&& bare.timestamp_ms == timestamp_ms
            &&& bare.level == level && told.level == level
            &&& bare.tag == tag && told.tag == tag
            &&& bare.message == message && told.message == message
            &&& bare.task_id is None && told.task_id == Some(text::decimal(task_id.value as nat))
            &&& bare.object_key is None && told.object_key is None
            &&& bare.part_index is None && told.part_index is None
            &&& bare.offset is None && told.offset is None
            &&& bare.byte_len is None && told.byte_len is None
            &&& bare.http_status is None && told.http_status is None
            &&& bare.attempt is None && told.attempt is None
            &&& bare.max_retries is None && told.max_retries is None
            &&& bare.error_code is None && told.error_code is None
            &&& bare.url is None && told.url is None
        }),
{
}

/// A line about an error has its number and its HTTP status, where it has them,
/// and is otherwise what it was. The text of an error gets in without secrets.
pub proof fn law_error_lines_carry_the_error(entry: LogView, e: MeowError)
    ensures
        ({
            let told = log_lines::error_fields(entry, e);
            &&& e.code.spec_number() is Some ==> told.error_code == e.code.spec_number()
            &&& e.code.spec_number() is None ==> told.error_code == entry.error_code
            &&& e.http_status is Some ==> told.http_status == e.http_status
            &&& e.http_status is None ==> told.http_status == entry.http_status
            &&& told.message == entry.message
            &&& told.level == entry.level
            &&& told.tag == entry.tag
            &&& told.task_id == entry.task_id
            &&& told.offset == entry.offset
            &&& told.attempt == entry.attempt
        }),
        log_lines::error_words(e) == log::redacted(e.msg@, 0),
{
}

/// A key is shown with its direction, and a URL in it without its secrets.
pub proof fn law_keys_are_shown_without_secrets(k: KeyView)
    ensures
        k.0 == Direction::Upload ==> log_lines::key_words(k) == "("@ + "Upload"@ + ", "@
            + log::sanitized(k.1) + ")"@,
        k.0 == Direction::Download ==> log_lines::key_words(k) == "("@ + "Download"@ + ", "@
            + log::sanitized(k.1) + ")"@,
{
}

/// An entry without fields reads as its time, level, tag and message; each
/// field that it has is named behind that.
pub proof fn law_entries_name_their_fields(entry: LogView)
    ensures
        ({
            let head = "["@ + text::decimal(entry.timestamp_ms as nat) + "] "@
                + entry.level.spec_label() + " ["@ + entry.tag + "] "@ + entry.message;
            let bare = log::bare_entry(
                entry.timestamp_ms,
                entry.level,
                entry.tag,
                entry.message,
            );
            &&& log::entry_text(bare) == head
            &&& entry.task_id matches Some(task_id) ==> log::entry_text(
                LogView { task_id: Some(task_id), ..bare },
            ) == head + " task_id="@ + task_id
            &&& entry.object_key matches Some(key) ==> log::entry_text(
                LogView { object_key: Some(key), ..bare },
            ) == head + " key="@ + key
            &&& entry.offset matches Some(offset) ==> log::entry_text(
                LogView { offset: Some(offset), ..bare },
            ) == head + " offset="@ + text::decimal(offset as nat)
            &&& entry.byte_len matches Some(len) ==> log::entry_text(
                LogView { byte_len: Some(len), ..bare },
            ) == head + " len="@ + text::decimal(len as nat)
            &&& entry.http_status matches Some(status) ==> log::entry_text(
                LogView { http_status: Some(status), ..bare },
            ) == head + " http_status="@ + text::decimal(status as nat)
            &&& entry.url matches Some(url) ==> log::entry_text(LogView { url: Some(url), ..bare })
                == head + " url="@ + url
        }),
{
    let head = "["@ + text::decimal(entry.timestamp_ms as nat) + "] "@ + entry.level.spec_label()
        + " ["@ + entry.tag + "] "@ + entry.message;
    let bare = log::bare_entry(entry.timestamp_ms, entry.level, entry.tag, entry.message);
    assert(log::entry_text(bare) =~= head);
    if let Some(task_id) = entry.task_id {
        assert(log::entry_text(LogView { task_id: Some(task_id), ..bare }) =~= head + " task_id="@
            + task_id);
    }
    if let Some(key) = entry.object_key {
        assert(log::entry_text(LogView { object_key: Some(key), ..bare }) =~= head + " key="@
            + key);
    }
    if let Some(offset) = entry.offset {
        assert(log::entry_text(LogView { offset: Some(offset), ..bare }) =~= head + " offset="@
            + text::decimal(offset as nat));
    }
    if let Some(len) = entry.byte_len {
        assert(log::entry_text(LogView { byte_len: Some(len), ..bare }) =~= head + " len="@
            + text::decimal(len as nat));
    }
    if let Some(status) = entry.http_status {
        assert(log::entry_text(LogView { http_status: Some(status), ..bare }) =~= head
            + " http_status="@ + text::decimal(status as nat));
    }
    if let Some(url) = entry.url {
        assert(log::entry_text(LogView { url: Some(url), ..bare }) =~= head + " url="@ + url);
    }
}

// ---------------------------------------------------------------------------
// The scheduler
// ---------------------------------------------------------------------------

/// A command on a task is logged when it comes in, with the task's number, and
/// when it is answered: as a checkpoint where it is accepted, and as a warning
/// where nobody knows the task or a resume is refused.
pub proof fn law_answers_are_logged(v: SchedulerView, control: Control, task_id: TaskId)
    ensures
        ({
            let lines = scheduler_log::control_lines(v, control, task_id);
            let number = text::decimal(task_id.value as nat);
            let name = match control {
                Control::Pause => "pause"@,
                Control::Resume => "resume"@,
                Control::Cancel => "cancel"@,
            };
            let known = v.task_keys.contains_key(task_id.value);
            let refused = !known || (control is Resume && scheduler::resume_refusal(
                v,
                v.task_keys[task_id.value],
            ) is Some);
            &&& lines.len() >= 2
            &&& lines[0].level is Key
            &&& lines[0].message == name + " requested: task_id="@ + number
            &&& lines.last().level == if refused {
                LogLevel::Warn
            } else {
                LogLevel::Key
            }
            &&& !known ==> lines.last().message == name + " failed task not found: task_id="@
                + number
            &&& !refused ==> lines.last().message == name + " accepted: task_id="@ + number
                + " key="@ + log_lines::key_words(v.task_keys[task_id.value])
        }),
{
}

/// A submission is logged when it comes in, and as a warning where it repeats
/// a transfer; only one that is put in the queue or registered is logged as
/// such.
pub proof fn law_submissions_are_logged(v: SchedulerView, task: InnerTask)
    ensures
        ({
            let k = task.spec_dedupe_key();
            let repeats = exists|k: KeyView| #[trigger] scheduler::repeats(v, task, k);
            let queued = scheduler_log::enqueue_lines(v, task);
            let paused = scheduler_log::import_lines(v, task);
            &&& queued.len() >= 1 && paused.len() == 2
            &&& queued[0].level is Key && paused[0].level is Key
            &&& queued[0].message == "received enqueue: task_id="@ + text::decimal(
                task.task_id.value as nat,
            ) + " key="@ + log_lines::key_words(k) + " chunk_size="@ + text::decimal(
                task.chunk_size as nat,
            )
            &&& queued.last().level is Warn <==> repeats
            &&& paused.last().level is Warn <==> repeats
            &&& repeats ==> queued.last().message == "duplicate key rejected: key="@
                + log_lines::key_words(k) && paused.last().message == queued.last().message
            &&& !repeats && !v.active.contains_key(k) && !v.queued.contains(k)
                ==> queued.last().message == "queued new key: key="@ + log_lines::key_words(k)
                + " queued_len="@ + text::decimal(v.queued.len() + 1)
            &&& !repeats ==> paused.last().message == "task registered as paused: key="@
                + log_lines::key_words(k)
        }),
{
}

/// Every command but the reading of a file is logged, as its own kind.
pub proof fn law_commands_are_logged(v: SchedulerView, cmd: TransferCmd)
    ensures
        ({
            let lines = scheduler_log::command_lines(v, cmd);
            &&& cmd is Identify <==> lines.len() == 0
            &&& cmd is Pause ==> lines[0].tag == "cmd_pause"@
            &&& cmd is Resume ==> lines[0].tag == "cmd_resume"@
            &&& cmd is Cancel ==> lines[0].tag == "cmd_cancel"@
            &&& cmd is Enqueue ==> lines[0].tag == "cmd_enqueue"@
            &&& cmd is EnqueuePaused ==> lines[0].tag == "cmd_enqueue_paused"@
            &&& cmd is Snapshot ==> lines[0].tag == "cmd_snapshot"@
            &&& cmd is Close ==> lines[0].tag == "cmd_close"@ && lines[0].level is Key
        }),
{
}

/// An event of a transfer that is not registered is logged as a warning, and
/// one of a registered transfer never is; a failure is logged with its error
/// and where the transfer stood.
pub proof fn law_stray_events_are_warned_of(v: SchedulerView, event: WorkerEvent)
    requires
        !v.paused.contains(event.key()) || v.groups.contains_key(event.key()),
    ensures
        ({
            let k = event.key();
            let lines = scheduler_log::event_lines(v, event);
            let known = v.groups.contains_key(k);
            let offset = if v.offsets.contains_key(k) {
                v.offsets[k]
            } else {
                0
            };
            &&& lines.len() >= 1
            &&& lines.last().level is Warn <==> !known
            &&& event matches WorkerEvent::Failed { error, .. } ==> {
                &&& known ==> lines.len() == 1 && lines[0].level is Error && lines[0].offset
                    == Some(offset) && lines[0].message == "task failed: "@
                    + log_lines::error_words(error) && lines[0].object_key == Some(
                    log::sanitized(k.1),
                )
                &&& error.code.spec_number() is Some ==> lines[0].error_code
                    == error.code.spec_number()
            }
            &&& event is Progress ==> lines[0].level is Trace
            &&& event is Completed || event is Canceled ==> lines[0].level is Key
        }),
{
}

/// Starting is logged with what waits and why: one line for each transfer that
/// is left waiting, between how it began and how it ended, none of them of a
/// level that is meant to be kept.
pub proof fn law_waiting_is_logged(v: SchedulerView, started: nat, i: int)
    ensures
        ({
            let lines = scheduler_log::start_lines(v, started);
            &&& lines.len() == v.queued.len() + 3
            &&& 0 <= i < lines.len() ==> lines[i].level is Debug || lines[i].level is Trace
            &&& 0 <= i < v.queued.len() ==> {
                let k = v.queued[i];
                lines[i + 1].message == if v.paused.contains(k) {
                    "skip key paused (requeue): key="@ + log_lines::key_words(k)
                } else if v.active.contains_key(k) {
                    "skip key already active: key="@ + log_lines::key_words(k)
                } else {
                    "direction concurrency full, requeue key="@ + log_lines::key_words(k)
                        + " dir="@ + direction::direction_label(k.0)
                }
            }
            &&& lines.last().message == "try_start_next end: started_count="@ + text::decimal(
                started,
            )
        }),
{
}

/// Every report is logged twice, for its task and for the listeners, and every
/// start of a known task once, as a checkpoint; other effects are not.
pub proof fn law_effects_are_logged(v: SchedulerView, effect: Effect, listeners: nat)
    ensures
        ({
            let lines = scheduler_log::effect_lines(v, effect, listeners);
            &&& effect is Status <==> lines.len() == 2
            &&& effect matches Effect::Status { record, .. } ==> {
                &&& lines[0].level is Trace && lines[1].level is Trace
                &&& lines[0].message == "status emit start: task_id="@ + text::decimal(
                    record.task_id.value as nat,
                ) + " status="@ + scheduler_log::status_words(record.status) + " transferred="@
                    + text::decimal(record.transferred as nat) + " total="@ + text::decimal(
                    record.total_size as nat,
                )
                &&& lines[1].message == "broadcast start: listener_count="@ + text::decimal(
                    listeners,
                ) + " task_id="@ + text::decimal(record.task_id.value as nat)
            }
            &&& lines.len() == 1 ==> effect is Start && lines[0].level is Key
            &&& effect matches Effect::Start { task_id, start_offset } ==> (
            v.task_keys.contains_key(task_id.value) && v.groups.contains_key(
                v.task_keys[task_id.value],
            ) ==> lines.len() == 1 && lines[0].message == "start key="@ + log_lines::key_words(
                v.task_keys[task_id.value],
            ) + " from offset="@ + text::decimal(start_offset as nat) + " chunk_size="@
                + text::decimal(v.groups[v.task_keys[task_id.value]].task.chunk_size as nat))
        }),
{
}

/// A status reads as its name, and a failure shows its error without secrets.
pub proof fn law_statuses_read_as_their_names(status: TransferStatus)
    ensures
        status is Unset ==> scheduler_log::status_words(status) == "Unset"@,
        status is Pending ==> scheduler_log::status_words(status) == "Pending"@,
        status is Transmission ==> scheduler_log::status_words(status) == "Transmission"@,
        status is Paused ==> scheduler_log::status_words(status) == "Paused"@,
        status is Complete ==> scheduler_log::status_words(status) == "Complete"@,
        status is Canceled ==> scheduler_log::status_words(status) == "Canceled"@,
        status matches TransferStatus::Failed(e) ==> scheduler_log::status_words(status)
            == "Failed("@ + log::redacted(e.msg@, 0) + ")"@,
{
}

// ---------------------------------------------------------------------------
// Workers
// ---------------------------------------------------------------------------

/// A checkpoint of a worker says where the worker stands: the numbers that it
/// was made with, in order, behind what was said of the worker already.
pub proof fn law_checkpoints_say_where_a_worker_stands(head: Seq<char>, note: WorkerNote)
    ensures
        ({
            let words = worker_log::note_words(head, note);
            match note {
                WorkerNote::Begin { start_offset } => words == head + " start_offset="@
                    + text::decimal(start_offset as nat),
                WorkerNote::Prepared { next_offset, total } => words == head + " next_offset="@
                    + text::decimal(next_offset as nat) + " total="@ + text::decimal(
                    total as nat,
                ),
                WorkerNote::CancelObserved { offset } => words == head + " offset="@
                    + text::decimal(offset as nat),
                WorkerNote::ChunkInterrupted { offset } => words == head + " offset="@
                    + text::decimal(offset as nat),
                WorkerNote::Completed { final_offset, total } => words == head
                    + " final_offset="@ + text::decimal(final_offset as nat) + " total="@
                    + text::decimal(total as nat),
                WorkerNote::ParallelBegin { start_offset, total, max_parts } => words == head
                    + " start_offset="@ + text::decimal(start_offset as nat) + " total="@
                    + text::decimal(total as nat) + " max_parts="@ + text::decimal(
                    max_parts as nat,
                ),
                WorkerNote::ParallelCanceled { watermark } => words == head + " watermark="@
                    + text::decimal(watermark as nat),
                WorkerNote::ParallelCompleted { total } => words == head + " total="@
                    + text::decimal(total as nat),
            }
        }),
        note is ParallelBegin || note is ParallelCanceled || note is ParallelCompleted
            <==> worker_log::note_head(note).0 == "run_group_parallel"@,
{
    reveal_strlit("run_group");
    reveal_strlit("run_group_parallel");
    assert("run_group"@.len() != "run_group_parallel"@.len());
}

/// A failure of a worker says in which transfer and with what error, and
/// carries the task and, of a prepare and a chunk, where they were.
pub proof fn law_failures_say_where_a_worker_was(
    step: FailedStep,
    k: KeyView,
    e: MeowError,
    entry: LogView,
    task_id: TaskId,
)
    ensures
        ({
            let head = worker_log::step_head(step).1 + log_lines::key_words(k);
            let words = worker_log::step_words(step, k, e);
            let fields = worker_log::step_fields(entry, step, task_id);
            &&& step matches FailedStep::Chunk { offset, chunk_size } ==> {
                &&& words == head + " offset="@ + text::decimal(offset as nat) + " err="@
                    + log_lines::error_words(e)
                &&& fields.offset == Some(offset)
                &&& fields.byte_len == Some(chunk_size)
            }
            &&& !(step is Chunk) ==> words == head + " err="@ + log_lines::error_words(e)
            &&& step matches FailedStep::Prepare { start_offset, attempt, max_retries } ==> {
                &&& fields.offset == Some(start_offset)
                &&& fields.attempt == Some(attempt)
                &&& fields.max_retries == Some(max_retries)
            }
            &&& !(step is Panic) ==> fields.task_id == Some(text::decimal(task_id.value as nat))
            &&& step is Panic ==> fields == entry
            &&& fields.message == entry.message && fields.level == entry.level && fields.tag
                == entry.tag
        }),
{
}

/// What is said of an attempt follows what becomes of it: a first success is
/// not logged, a later one is; a failure is told as given up for a cancel, as
/// the last, or with the delay before the next.
pub proof fn law_attempts_are_logged_as_they_end(
    k: KeyView,
    offset: u64,
    counts: ChunkRetry,
    result: Result<ChunkOutcome, MeowError>,
    cancelled: bool,
    delay_ms: u64,
)
    ensures
        ({
            let line = worker_log::attempt_line(k, offset, counts, result, cancelled, delay_ms);
            &&& line is None <==> result is Ok && counts.attempt == 0
            &&& line is Some ==> line->Some_0.tag == "chunk_retry"@
            &&& result matches Err(e) ==> {
                let again = crate::retry::decide_retry(counts, result, cancelled) is Backoff;
                let told = line->Some_0.message;
                let words = log_lines::error_words(e);
                &&& cancelled ==> told == "cancel after chunk error: key="@ + log_lines::key_words(
                    k,
                ) + " offset="@ + text::decimal(offset as nat) + " attempt="@ + text::decimal(
                    counts.attempt as nat,
                ) + " err="@ + words
                &&& again ==> told == "retry scheduled: key="@ + log_lines::key_words(k)
                    + " offset="@ + text::decimal(offset as nat) + " attempt="@ + text::decimal(
                    (counts.attempt + 1) as nat,
                ) + " next_delay_ms="@ + text::decimal(delay_ms as nat) + " err="@ + words
                &&& e.http_status is Some ==> line->Some_0.http_status == e.http_status
            }
        }),
{
}

/// A renewal is logged exactly where it failed or gave another size, as an
/// error, and a plan that cannot be used where it has expired; the URL gets in
/// without its secrets.
pub proof fn law_failed_renewals_are_logged(
    plan: PresignedRangeDownloadPlan,
    outcome: RefreshOutcome,
    e: MeowError,
)
    ensures
        ({
            let line = worker_log::renewal_line(plan, outcome);
            &&& outcome is Panicked ==> line is None
            &&& outcome matches RefreshOutcome::Failed(e) ==> line is Some
                && line->Some_0.message == "presigned range URL refresh/re-sign failed: "@
                + log::redacted(e.msg@, 0)
            &&& outcome matches RefreshOutcome::Refreshed(fresh) ==> (line is Some
                <==> plan.total_size is Some && fresh.total_size is Some
                && plan.total_size->Some_0 != fresh.total_size->Some_0)
            &&& line is Some ==> line->Some_0.level is Error && line->Some_0.url == Some(
                log::sanitized(plan.range_url@),
            )
        }),
        ({
            let line = worker_log::unusable_line(plan, e);
            &&& line is Some <==> e.msg@
                == "presigned range URL expired and no refresher is configured"@
            &&& line is Some ==> line->Some_0.level is Error && line->Some_0.message == e.msg@
                && line->Some_0.url == Some(log::sanitized(plan.range_url@))
        }),
{
}

// ---------------------------------------------------------------------------
// Clients
// ---------------------------------------------------------------------------

/// A task that is begun is logged with its number and with what it is built
/// from; a download that does not say what file it is for is warned of.
pub proof fn law_begun_tasks_are_logged(task_id: TaskId, pounce: PounceTask, path: Seq<char>)
    ensures
        ({
            let lines = client_log::beginning_lines(task_id, pounce, path);
            let number = text::decimal(task_id.value as nat);
            let unnamed = pounce.direction == Direction::Download && pounce.client_file_sign
                is None;
            &&& lines.len() == if unnamed {
                3nat
            } else {
                2nat
            }
            &&& lines[0].message == "from_pounce start: task_id="@ + number
            &&& lines[0].level is Key && lines[1].level is Key
            &&& unnamed ==> lines[2].level is Warn && lines[2].task_id == Some(number)
            &&& pounce.direction == Direction::Download ==> lines[1].message
                == "build download task: task_id="@ + number + " path="@ + path
            &&& pounce.direction == Direction::Upload ==> {
                &&& pounce.upload_source matches Some(UploadSource::Bytes(bytes))
                    ==> lines[1].message == "build upload task from bytes: task_id="@ + number
                    + " len="@ + text::decimal(bytes@.len())
                &&& !(pounce.upload_source matches Some(UploadSource::Bytes(_)))
                    ==> lines[1].message == "build upload task from file: task_id="@ + number
                    + " path="@ + path
            }
        }),
{
}

/// A task that was made is logged with what it came to, and once more with its
/// number and size.
pub proof fn law_made_tasks_are_logged(task: InnerTask)
    ensures
        ({
            let lines = client_log::created_lines(task);
            let number = text::decimal(task.task_id.value as nat);
            &&& lines.len() == 2
            &&& lines[0].level is Key && lines[1].level is Key
            &&& lines[0].message == "from_pounce resolved: task_id="@ + number + " dir="@
                + direction::direction_label(task.direction) + " file="@ + task.file_name@
                + " chunk="@ + text::decimal(task.chunk_size as nat) + " total="@ + text::decimal(
                task.total_size as nat,
            ) + " max_chunk_retries="@ + text::decimal(task.max_chunk_retries as nat)
                + " max_upload_prepare_retries="@ + text::decimal(
                task.max_upload_prepare_retries as nat,
            )
            &&& lines[1].task_id == Some(number)
            &&& lines[1].byte_len == Some(task.total_size)
            &&& lines[1].message == "task created dir="@ + direction::direction_label(
                task.direction,
            )
        }),
        direction::direction_label(Direction::Upload) == "Upload"@,
        direction::direction_label(Direction::Download) == "Download"@,
{
}

/// A description that is handed in is logged with what it asks for; its URL
/// gets in without its secrets.
pub proof fn law_handed_in_tasks_are_logged(pounce: PounceTask)
    ensures
        client_log::submission_words(pounce) == "task dir="@ + direction::direction_label(
            pounce.direction,
        ) + " name=\""@ + pounce.file_name@ + "\" size="@ + text::decimal(
            pounce.total_size as nat,
        ) + " chunk="@ + text::decimal(pounce.chunk_size as nat) + " method="@ + pounce.method@
            + " url="@ + log::sanitized(pounce.url@),
        client_log::submission_tag(true) == "try_enqueue_paused"@,
        client_log::submission_tag(false) == "try_enqueue"@,
{
}

/// What a command is called, at what level it is logged, and what is said of
/// one that is lost: whether it was sent, its task, and why.
pub proof fn law_sent_commands_are_logged(
    kind: CommandKind,
    sent: bool,
    task_id: TaskId,
    key: UniqueId,
    what: Seq<char>,
    reason: Seq<char>,
)
    ensures
        kind is Enqueue ==> client_log::kind_name(kind) == "try_enqueue"@,
        kind is EnqueuePaused ==> client_log::kind_name(kind) == "try_enqueue_paused"@,
        kind is Pause ==> client_log::kind_name(kind) == "pause"@,
        kind is Resume ==> client_log::kind_name(kind) == "resume"@,
        kind is Cancel ==> client_log::kind_name(kind) == "cancel"@,
        kind is Snapshot ==> client_log::kind_name(kind) == "snapshot"@,
        kind is Close ==> client_log::kind_name(kind) == "close"@,
        client_log::sending_level(kind) is Key <==> kind is Close,
        client_log::sending_level(kind) is Trace <==> kind is Snapshot,
        client_log::subject_words(what, None, None) == what,
        client_log::subject_words(what, Some(task_id), None) == what + ": task_id="@
            + text::decimal(task_id.value as nat),
        client_log::subject_words(what, Some(task_id), Some(key)) == what + ": task_id="@
            + text::decimal(task_id.value as nat) + " key="@ + log_lines::key_words(
            direction::key_view(key),
        ),
        sent ==> client_log::lost_words(kind, sent, Some(task_id), reason)
            == client_log::kind_name(kind) + " response await failed"@ + ": task_id="@
            + text::decimal(task_id.value as nat) + " err="@ + reason,
        !sent ==> client_log::lost_words(kind, sent, Some(task_id), reason)
            == client_log::kind_name(kind) + " send failed"@ + ": task_id="@ + text::decimal(
            task_id.value as nat,
        ) + " err="@ + reason,
        sent ==> client_log::lost_words(kind, sent, None, reason) == client_log::kind_name(kind)
            + " response await failed"@ + ": err="@ + reason,
{
}

/// The steps of a client's life are checkpoints; what was asked of a closed
/// client, and what changes nothing, is not.
pub proof fn law_steps_of_a_client_are_checkpoints(step: ClientStep)
    ensures
        client_log::step_words(step).0 is Key || client_log::step_words(step).0 is Debug,
        client_log::step_words(step).0 is Debug <==> step is FoundClosed || step is SnapshotCalled
            || step is CloseRejected || step is ExecutorReused,
{
}

/// Changes of the listeners are checkpoints and name the listener; the removal
/// of one that is not there is not.
pub proof fn law_listener_changes_are_logged(change: ListenerChange)
    ensures
        client_log::listener_words(change).0 is Debug <==> change is Missed,
        client_log::listener_words(change).0 is Key <==> !(change is Missed),
        change matches ListenerChange::Registered(id) ==> client_log::listener_words(change).1
            == "register global listener: id="@ + text::decimal(id.value as nat),
        change matches ListenerChange::Unregistered(id) ==> client_log::listener_words(change).1
            == "unregister global listener success: id="@ + text::decimal(id.value as nat),
        change matches ListenerChange::Missed(id) ==> client_log::listener_words(change).1
            == "unregister global listener missed: id="@ + text::decimal(id.value as nat),
{
}

/// A callback that is not called is warned of, unless it was a mere sample; so
/// is one that panicked, with its task where it told of a completion.
pub proof fn law_lost_callbacks_are_warned_of(kind: JobKind, closed: bool, task_id: TaskId)
    ensures
        client_log::loss_words(kind, closed).0 is Warn <==> !(kind is Sample),
        client_log::loss_words(kind, closed).0 is Trace <==> kind is Sample,
        client_log::loss_words(JobKind::Sample, true).1
            == "transmission frame dropped: dispatcher already shut down"@,
        client_log::loss_words(JobKind::Sample, false).1
            == "transmission frame dropped: callback queue full"@,
        client_log::panic_line(None).level is Warn,
        client_log::panic_line(None).task_id is None,
        client_log::panic_line(Some(task_id)).level is Warn,
        client_log::panic_line(Some(task_id)).task_id == Some(
            text::decimal(task_id.value as nat),
        ),
{
}

/// Between its coming in and its answer a command on a known task is logged
/// with how the transfer stood, and with what was done or why it was not.
pub proof fn law_what_is_done_is_logged(v: SchedulerView, control: Control, task_id: TaskId)
    requires
        v.task_keys.contains_key(task_id.value),
    ensures
        ({
            let lines = scheduler_log::control_lines(v, control, task_id);
            let k = v.task_keys[task_id.value];
            let key = log_lines::key_words(k);
            let name = match control {
                Control::Pause => "pause"@,
                Control::Resume => "resume"@,
                Control::Cancel => "cancel"@,
            };
            let resting = v.paused.contains(k) && !v.active.contains_key(k) && v.groups.contains_key(
                k,
            );
            &&& lines.len() >= 3
            &&& lines[1].level is Debug
            &&& lines[1].message == name + " begin: key="@ + key + " active="@ + (
            if v.active.contains_key(k) {
                "true"@
            } else {
                "false"@
            }) + " queued="@ + (if v.queued.contains(k) {
                "true"@
            } else {
                "false"@
            }) + " paused="@ + (if v.paused.contains(k) {
                "true"@
            } else {
                "false"@
            })
            &&& control is Resume && !resting ==> lines.len() == 4 && lines[2].level is Warn
                && lines[2].message == (if !v.paused.contains(k) {
                "resume rejected not paused: key="@
            } else if v.active.contains_key(k) {
                "resume rejected still stopping: key="@
            } else {
                "resume rejected missing group: key="@
            }) + key
            &&& control is Resume && resting && !v.groups[k].task.unread && !v.queued.contains(k)
                ==> lines.len() == 5 && lines[2].message == "resume requeued key="@ + key
                + " queued_len="@ + text::decimal(v.queued.len() + 1) && lines[3].message
                == "resume success: key="@ + key
            &&& !(control is Resume) && v.groups.contains_key(k) && !v.active.contains_key(k)
                ==> lines.len() == 4 && lines[2].message == name + " status emitted: key="@ + key
                + " offset="@ + text::decimal(v.offset_of(k) as nat)
        }),
{
}

/// The part, the counts and the number of a reason are named like the other
/// fields, a negative number with its sign; fields keep their order.
pub proof fn law_entries_name_their_counts(
    entry: LogView,
    part: u64,
    attempt: u32,
    max_retries: u32,
    code: i32,
    url: Seq<char>,
)
    ensures
        ({
            let bare = log::bare_entry(
                entry.timestamp_ms,
                entry.level,
                entry.tag,
                entry.message,
            );
            let head = log::entry_text(bare);
            let number = if code < 0 {
                "-"@ + text::decimal((-code) as nat)
            } else {
                text::decimal(code as nat)
            };
            &&& log::entry_text(LogView { part_index: Some(part), ..bare }) == head + " part="@
                + text::decimal(part as nat)
            &&& log::entry_text(LogView { attempt: Some(attempt), ..bare }) == head + " attempt="@
                + text::decimal(attempt as nat)
            &&& log::entry_text(LogView { max_retries: Some(max_retries), ..bare }) == head
                + " max_retries="@ + text::decimal(max_retries as nat)
            &&& log::entry_text(LogView { error_code: Some(code), ..bare }) == head
                + " error_code="@ + number
            &&& log::entry_text(
                LogView {
                    attempt: Some(attempt),
                    max_retries: Some(max_retries),
                    error_code: Some(code),
                    url: Some(url),
                    ..bare
                },
            ) == head + " attempt="@ + text::decimal(attempt as nat) + " max_retries="@
                + text::decimal(max_retries as nat) + " error_code="@ + number + " url="@ + url
        }),
{
    reveal_strlit("-");
    assert("-"@ =~= seq!['-']);
    let bare = log::bare_entry(entry.timestamp_ms, entry.level, entry.tag, entry.message);
    let head = log::entry_text(bare);
    let number = if code < 0 {
        "-"@ + text::decimal((-code) as nat)
    } else {
        text::decimal(code as nat)
    };
    assert(log::entry_text(LogView { part_index: Some(part), ..bare }) =~= head + " part="@
        + text::decimal(part as nat));
    assert(log::entry_text(LogView { attempt: Some(attempt), ..bare }) =~= head + " attempt="@
        + text::decimal(attempt as nat));
    assert(log::entry_text(LogView { max_retries: Some(max_retries), ..bare }) =~= head
        + " max_retries="@ + text::decimal(max_retries as nat));
    assert(log::entry_text(LogView { error_code: Some(code), ..bare }) =~= head + " error_code="@
        + number);
    assert(log::entry_text(
        LogView {
            attempt: Some(attempt),
            max_retries: Some(max_retries),
            error_code: Some(code),
            url: Some(url),
            ..bare
        },
    ) =~= head + " attempt="@ + text::decimal(attempt as nat) + " max_retries="@ + text::decimal(
        max_retries as nat,
    ) + " error_code="@ + number + " url="@ + url);
}

/// What is said of an event: what happened to which transfer, and of a transfer
/// that is not there that nothing is done about it. Lines that go by a key show
/// it without secrets.
pub proof fn law_events_say_what_happened(v: SchedulerView, event: WorkerEvent, i: int)
    ensures
        ({
            let k = event.key();
            let key = log_lines::key_words(k);
            let known = v.groups.contains_key(k);
            let lines = scheduler_log::event_lines(v, event);
            &&& 0 <= i < lines.len() ==> lines[i].tag == "worker_event"@
            &&& event matches WorkerEvent::Progress { next_offset, total_size, .. } ==> {
                let numbers = text::decimal(next_offset as nat) + " total_size="@ + text::decimal(
                    total_size as nat,
                );
                &&& lines[0].message =~= "progress: key="@ + key + " next_offset="@ + numbers
                &&& known ==> lines.len() == 1
                &&& !known ==> lines.len() == 2 && lines[1].message
                    =~= "stray Progress for dead group; ignored next_offset="@ + numbers
                    && lines[1].offset == Some(next_offset) && lines[1].object_key == Some(
                    log::sanitized(k.1),
                )
            }
            &&& event matches WorkerEvent::Completed { total_size, .. } ==> {
                &&& lines[0].message == "completed: key="@ + key + " total_size="@
                    + text::decimal(total_size as nat)
                &&& !known ==> lines.len() == 2 && lines[1].message
                    == "Completed for unknown group; nothing to finalize total_size="@
                    + text::decimal(total_size as nat) && lines[1].object_key == Some(
                    log::sanitized(k.1),
                )
            }
            &&& event matches WorkerEvent::Failed { error, .. } ==> !known ==> lines.len() == 1
                && lines[0].message == "Failed for unknown group; nothing to finalize error="@
                + log::redacted(error.msg@, 0) && lines[0].error_code == error.code.spec_number()
            &&& event is Canceled ==> {
                &&& lines[0].message == "canceled: key="@ + key
                &&& v.paused.contains(k) ==> lines.len() == 2 && lines[1].message
                    == "canceled from pause flow; keep group for resume: key="@ + key
                &&& !v.paused.contains(k) && !known ==> lines.len() == 2 && lines[1].message
                    == "Canceled for unknown group; nothing to finalize"@
            }
        }),
{
}

/// What is said of starting: how the tables stood before, that the queue is
/// empty or that nothing more could be started, and all of it by the scheduler.
pub proof fn law_starts_say_how_the_tables_stood(v: SchedulerView, started: nat, i: int)
    requires
        started <= v.active.dom().len(),
    ensures
        ({
            let lines = scheduler_log::start_lines(v, started);
            &&& 0 <= i < lines.len() ==> lines[i].tag == "scheduler"@
            &&& lines[0].message == "try_start_next begin: queued="@ + text::decimal(
                v.queued.len() + started,
            ) + " active="@ + text::decimal((v.active.dom().len() - started) as nat) + " paused="@
                + text::decimal(v.paused.len())
            &&& lines[lines.len() - 2].message == if v.queued.len() == 0 {
                "try_start_next exit: queue empty"@
            } else {
                "try_start_next break: no task scheduled in this round"@
            }
        }),
{
}

} // verus!
