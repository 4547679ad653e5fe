//! What holds of the entries that are made for the log, told by what they are
//! made of.

use vstd::prelude::*;

use crate::callbacks::JobKind;
use crate::client_log;
use crate::client_log::{ClientStep, ListenerChange};
use crate::direction::{Direction, UniqueId};
use crate::effect::Effect;
use crate::error::MeowError;
use crate::executor::{CommandKind, TransferCmd};
use crate::ids::TaskId;
use crate::inner_task::InnerTask;
use crate::log;
use crate::log::{DebugLogListenerError, DebugLogSlot, Log, LogLevel};
use crate::log_laws;
use crate::log_line_laws;
use crate::log_lines;
use crate::pounce_task::PounceTask;
use crate::presigned::range_download::RefreshOutcome;
use crate::presigned::range_download_plan::PresignedRangeDownloadPlan;
use crate::retry::ChunkRetry;
use crate::scheduler_log;
use crate::scheduler_state::SchedulerState;
use crate::text;
use crate::transfer_status::ChunkOutcome;
use crate::worker_event::WorkerEvent;
use crate::worker_log;
use crate::worker_log::{FailedStep, WorkerNote};

verus! {

// ---------------------------------------------------------------------------
// Secrets
// ---------------------------------------------------------------------------

/// A URL without a query is shown as it is, and a shown URL stays as it is when
/// it is shown again.
pub proof fn law_shown_urls_keep_no_secrets(url: &str, safe: String, twice: &str, again: String)
    requires
        call_ensures(log::sanitize_url, (url,), safe),
        twice@ == safe@,
        call_ensures(log::sanitize_url, (twice,), again),
    ensures
        again@ == safe@,
        !url@.contains('?') ==> safe@ == url@,
{
    log_laws::law_sanitizing_twice_is_sanitizing_once(url@);
    if !url@.contains('?') {
        lemma_no_query(url@, 0);
    }
}

/// Nothing is found where nothing is.
proof fn lemma_no_query(s: Seq<char>, from: int)
    requires
        0 <= from <= s.len(),
        !s.contains('?'),
    ensures
        log::find_char(s, '?', from) == s.len(),
    decreases s.len() - from,
{
    if from < s.len() {
        assert(s[from] != '?') by {
            if s[from] == '?' {
                assert(s.contains('?'));
            }
        }
        lemma_no_query(s, from + 1);
    }
}

/// Text is shown without its secrets, and as it is when it is shown again.
pub proof fn law_shown_text_keeps_no_secrets(text: &str, safe: String, twice: &str, again: String)
    requires
        call_ensures(log::redact_secrets, (text,), safe),
        twice@ == safe@,
        call_ensures(log::redact_secrets, (twice,), again),
    ensures
        again@ == safe@,
{
    log_laws::law_redacting_twice_is_redacting_once(text@);
}

// ---------------------------------------------------------------------------
// Entries
// ---------------------------------------------------------------------------

/// An entry has the fields that it was given and no others, and a URL without
/// its secrets.
pub proof fn law_entries_have_what_they_were_given(
    level: LogLevel,
    tag: &'static str,
    message: String,
    made: Log,
    id: String,
    with_id: Log,
    offset: u64,
    byte_len: u64,
    ranged: Log,
    status: u16,
    answered: Log,
    url: &str,
    located: Log,
)
    requires
        call_ensures(Log::new, (level, tag, message), made),
        call_ensures(Log::with_task_id, (made, id), with_id),
        call_ensures(Log::with_range, (with_id, offset, byte_len), ranged),
        call_ensures(Log::with_http_status, (ranged, status), answered),
        call_ensures(Log::with_url, (answered, url), located),
    ensures
        made@.level == level,
        made@.tag == tag@,
        made@.message == message@,
        made@.task_id is None,
        made@.object_key is None,
        made@.part_index is None,
        made@.offset is None,
        made@.byte_len is None,
        made@.http_status is None,
        made@.attempt is None,
        made@.max_retries is None,
        made@.error_code is None,
        made@.url is None,
        located@.level == level,
        located@.tag == tag@,
        located@.message == message@,
        located@.task_id == Some(id@),
        located@.offset == Some(offset),
        located@.byte_len == Some(byte_len),
        located@.http_status == Some(status),
        located@.url == Some(log::sanitized(url@)),
        located@.attempt is None,
{
}

/// The counts and numbers of an entry are those that it was given.
pub proof fn law_entries_have_their_numbers(
    entry: Log,
    key: String,
    keyed: Log,
    part: u64,
    parted: Log,
    attempt: u32,
    tried: Log,
    max_retries: u32,
    limited: Log,
    code: i32,
    coded: Log,
)
    requires
        call_ensures(Log::with_key, (entry, key), keyed),
        call_ensures(Log::with_part, (keyed, part), parted),
        call_ensures(Log::with_attempt, (parted, attempt), tried),
        call_ensures(Log::with_max_retries, (tried, max_retries), limited),
        call_ensures(Log::with_error_code, (limited, code), coded),
    ensures
        coded@.object_key == Some(key@),
        coded@.part_index == Some(part),
        coded@.attempt == Some(attempt),
        coded@.max_retries == Some(max_retries),
        coded@.error_code == Some(code),
        coded@.message == entry@.message,
        coded@.level == entry@.level,
        coded@.timestamp_ms == entry@.timestamp_ms,
        coded@.url == entry@.url,
{
}

/// Entries are to be kept exactly from checkpoints on, and read with the label
/// of their level.
pub proof fn law_levels_are_told_apart(level: LogLevel, keep: bool, label: &'static str)
    requires
        call_ensures(LogLevel::persist_recommended, (level,), keep),
        call_ensures(LogLevel::as_str, (level,), label),
    ensures
        keep <==> level is Key || level is Warn || level is Error,
        level is Trace ==> label@ == "TRACE"@,
        level is Debug ==> label@ == "DEBUG"@,
        level is Info ==> label@ == "INFO"@,
        level is Key ==> label@ == "KEY"@,
        level is Warn ==> label@ == "WARN"@,
        level is Error ==> label@ == "ERROR"@,
{
}

/// A listener can be set where there is none, and is replaced only on purpose.
pub proof fn law_one_listener_at_a_time<L>(
    made: DebugLogSlot<L>,
    first: &mut DebugLogSlot<L>,
    listener: L,
    set: Result<(), DebugLogListenerError>,
    second: &mut DebugLogSlot<L>,
    other: L,
    refused: Result<(), DebugLogListenerError>,
    replaced: &mut DebugLogSlot<L>,
    done: Result<(), DebugLogListenerError>,
    active: bool,
)
    requires
        call_ensures(DebugLogSlot::<L>::new, (), made),
        *old(first) == made,
        call_ensures(log::try_set_debug_log_listener::<L>, (first, listener), set),
        *old(second) == *final(first),
        call_ensures(log::try_set_debug_log_listener::<L>, (second, other), refused),
        *old(replaced) == *final(second),
        call_ensures(log::set_debug_log_listener::<L>, (replaced, Some(other)), done),
        call_ensures(log::debug_log_listener_active::<L>, (final(replaced),), active),
    ensures
        set is Ok,
        final(first).listener == Some(listener),
        refused is Err,
        final(second).listener == Some(listener),
        done is Ok,
        final(replaced).listener == Some(other),
        active,
{
}

// ---------------------------------------------------------------------------
// Clients
// ---------------------------------------------------------------------------

/// What a client is asked to do is a checkpoint with the task it is about; an
/// incomplete task is a warning.
pub proof fn law_calls_are_logged(
    kind: CommandKind,
    task_id: TaskId,
    called: Log,
    paused: bool,
    empty: Log,
    submitted: Log,
    sent: Log,
)
    requires
        call_ensures(client_log::called_entry, (kind, task_id), called),
        call_ensures(client_log::empty_task_entry, (paused,), empty),
        call_ensures(client_log::submitted_entry, (paused, task_id), submitted),
        call_ensures(client_log::sent_entry, (kind, task_id), sent),
    ensures
        ({
            let name = match kind {
                CommandKind::Enqueue => "try_enqueue"@,
                CommandKind::EnqueuePaused => "try_enqueue_paused"@,
                CommandKind::Pause => "pause"@,
                CommandKind::Resume => "resume"@,
                CommandKind::Cancel => "cancel"@,
                CommandKind::Snapshot => "snapshot"@,
                CommandKind::Close => "close"@,
            };
            let how = if paused {
                "try_enqueue_paused"@
            } else {
                "try_enqueue"@
            };
            &&& called@.level is Key
            &&& called@.tag == "client_api"@
            &&& called@.message == name + " called: task_id="@ + text::decimal(task_id.value as nat)
            &&& empty@.level is Warn
            &&& empty@.tag == how
            &&& empty@.message == "reject empty task"@
            &&& submitted@.level is Key
            &&& submitted@.tag == how
            &&& submitted@.message == how + " success: task_id="@ + text::decimal(
                task_id.value as nat,
            )
            &&& sent@.level is Debug
            &&& sent@.tag == "executor_api"@
            &&& sent@.message == name + " send ok: task_id="@ + text::decimal(task_id.value as nat)
        }),
{
    log_line_laws::law_lines_leave_out_the_time_alone(called@);
    log_line_laws::law_lines_leave_out_the_time_alone(empty@);
    log_line_laws::law_lines_leave_out_the_time_alone(submitted@);
    log_line_laws::law_lines_leave_out_the_time_alone(sent@);
}

/// A command that is sent is logged at the level of its kind, and a lost one as
/// a warning that says whether it was lost on its way or on the way back.
pub proof fn law_commands_on_their_way_are_logged(
    kind: CommandKind,
    task_id: TaskId,
    key: Option<UniqueId>,
    sending: Log,
    answered: bool,
    reason: &str,
    lost: Log,
    closing: Log,
)
    requires
        call_ensures(client_log::sending_entry, (kind, Some(task_id), key), sending),
        call_ensures(client_log::lost_entry, (kind, false, None, reason), closing),
        call_ensures(client_log::lost_entry, (kind, answered, Some(task_id), reason), lost),
    ensures
        kind is Close ==> sending@.level is Key,
        kind is Snapshot ==> sending@.level is Trace,
        !(kind is Close) && !(kind is Snapshot) ==> sending@.level is Debug,
        sending@.tag == "executor_api"@,
        lost@.level is Warn,
        lost@.tag == "executor_api"@,
        kind is Cancel && !answered ==> lost@.message == "cancel"@ + " send failed"@
            + ": task_id="@ + text::decimal(task_id.value as nat) + " err="@ + reason@,
        kind is Cancel && answered ==> lost@.message == "cancel"@ + " response await failed"@
            + ": task_id="@ + text::decimal(task_id.value as nat) + " err="@ + reason@,
        kind is Pause && key is None ==> sending@.message == "pause"@ + " send"@ + ": task_id="@
            + text::decimal(task_id.value as nat),
        kind is Enqueue ==> (key matches Some(key) ==> sending@.message == "try_enqueue"@
            + " send"@ + ": task_id="@ + text::decimal(task_id.value as nat) + " key="@
            + log_lines::key_words((key.0, key.1@))),
        kind is Close ==> closing@.message == "close"@ + " send failed"@ + ": err="@ + reason@,
{
    log_line_laws::law_lines_leave_out_the_time_alone(closing@);
    log_line_laws::law_lines_leave_out_the_time_alone(sending@);
    log_line_laws::law_lines_leave_out_the_time_alone(lost@);
}

/// Changes of the list of listeners are told with the listener.
pub proof fn law_listeners_are_logged(change: ListenerChange, entry: Log)
    requires
        call_ensures(client_log::listener_entry, (change,), entry),
    ensures
        entry@.tag == "listener"@,
        change is Missed <==> entry@.level is Debug,
        !(change is Missed) <==> entry@.level is Key,
        change matches ListenerChange::Registered(id) ==> entry@.message
            == "register global listener: id="@ + text::decimal(id.value as nat),
        change matches ListenerChange::Unregistered(id) ==> entry@.message
            == "unregister global listener success: id="@ + text::decimal(id.value as nat),
        change matches ListenerChange::Missed(id) ==> entry@.message
            == "unregister global listener missed: id="@ + text::decimal(id.value as nat),
        change is Cleared ==> entry@.message == "clear all global listeners"@,
{
    log_line_laws::law_lines_leave_out_the_time_alone(entry@);
}

/// A callback that is not called is a warning unless it is a sample, and one
/// that panicked always is.
pub proof fn law_callback_losses_are_logged(
    kind: JobKind,
    closed: bool,
    loss: Log,
    completed: Option<TaskId>,
    panicked: Log,
)
    requires
        call_ensures(client_log::loss_entry, (kind, closed), loss),
        call_ensures(client_log::panic_entry, (completed,), panicked),
    ensures
        loss@.tag == "cb_dispatcher"@,
        kind is Sample <==> loss@.level is Trace,
        !(kind is Sample) <==> loss@.level is Warn,
        kind is Sample && closed ==> loss@.message
            == "transmission frame dropped: dispatcher already shut down"@,
        kind is Sample && !closed ==> loss@.message
            == "transmission frame dropped: callback queue full"@,
        kind is Completion ==> loss@.message
            == "complete callback undelivered: dispatcher gone (sending on a closed channel)"@,
        kind is Report ==> loss@.message
            == "terminal progress frame undelivered: dispatcher gone (sending on a closed channel)"@,
        panicked@.level is Warn,
        panicked@.tag == "cb_dispatcher"@,
        completed is None ==> panicked@.message
            == "progress callback panicked; isolated in dispatcher thread"@,
        completed matches Some(task_id) ==> panicked@.message
            == "complete callback panicked; isolated in dispatcher thread"@ && panicked@.task_id
            == Some(text::decimal(task_id.value as nat)),
{
    log_line_laws::law_lines_leave_out_the_time_alone(loss@);
    log_line_laws::law_lines_leave_out_the_time_alone(panicked@);
}

/// Steps of a client that are about no task.
pub proof fn law_client_steps_are_logged(step: ClientStep, entry: Log, up: usize, down: usize, made: Log)
    requires
        call_ensures(client_log::step_entry, (step,), entry),
        call_ensures(client_log::executor_entry, (up, down), made),
    ensures
        step is FoundClosed || step is SnapshotCalled || step is CloseRejected || step
            is ExecutorReused <==> entry@.level is Debug,
        step is CloseForwarded || step is CloseIdle || step is ThreadStarting || step
            is RuntimeCreated || step is ExecutorStarted <==> entry@.level is Key,
        step is FoundClosed ==> entry@.message == "ensure_open failed: client already closed"@,
        step is CloseRejected ==> entry@.message == "close rejected: already closed"@,
        step is CloseForwarded ==> entry@.message == "close forwarding to executor"@,
        step is CloseIdle ==> entry@.message == "close with no executor initialized"@,
        step is SnapshotCalled ==> entry@.message == "snapshot called"@,
        step is ExecutorReused ==> entry@.message == "reuse existing executor"@,
        step is ThreadStarting ==> entry@.message == "starting scheduler worker thread"@,
        step is RuntimeCreated ==> entry@.message == "runtime created successfully"@,
        step is ExecutorStarted ==> entry@.message == "executor worker started"@,
        step is FoundClosed ==> entry@.tag == "client"@,
        step is SnapshotCalled || step is CloseRejected || step is CloseForwarded || step
            is CloseIdle ==> entry@.tag == "client_api"@,
        step is ExecutorReused || step is ExecutorStarted ==> entry@.tag == "executor"@,
        step is ThreadStarting || step is RuntimeCreated ==> entry@.tag == "worker_loop"@,
        made@.level is Key,
        made@.message == "executor new: max_upload="@ + text::decimal(up as nat)
            + " max_download="@ + text::decimal(down as nat),
{
    log_line_laws::law_lines_leave_out_the_time_alone(entry@);
    log_line_laws::law_lines_leave_out_the_time_alone(made@);
}

/// A task that is begun and made is told at each step, and a source that cannot
/// be read is an error with the task.
pub proof fn law_tasks_are_logged(
    task_id: TaskId,
    pounce: &PounceTask,
    path: &str,
    begun: Vec<Log>,
    task: &InnerTask,
    created: Vec<Log>,
    e: &MeowError,
    unreadable: Log,
)
    requires
        call_ensures(client_log::beginning_log, (task_id, pounce, path), begun),
        call_ensures(client_log::created_log, (task,), created),
        call_ensures(client_log::unreadable_entry, (task_id, path, e), unreadable),
    ensures
        begun@.len() >= 2,
        begun@[0]@.level is Key,
        begun@[0]@.message == "from_pounce start: task_id="@ + text::decimal(task_id.value as nat),
        begun@[1]@.level is Key,
        begun@.len() == 3 <==> pounce.direction == Direction::Download && pounce.client_file_sign
            is None,
        begun@.len() == 3 ==> begun@[2]@.level is Warn && begun@[2]@.message
            == "download task missing client_file_sign; defaulting to empty"@,
        created@.len() == 2,
        created@[1]@.byte_len == Some(task.total_size),
        created@[1]@.task_id == Some(text::decimal(task.task_id.value as nat)),
        unreadable@.level is Error,
        unreadable@.task_id == Some(text::decimal(task_id.value as nat)),
        unreadable@.message == "calculate_sign failed: path="@ + path@ + " err="@ + log::redacted(
            e.msg@,
            0,
        ),
{
    let b = log_lines::lines_of(begun@);
    let c = log_lines::lines_of(created@);
    assert(b.len() == begun@.len());
    assert(c.len() == created@.len());
    assert(b[0] == log_lines::line_of(begun@[0]@));
    assert(b[1] == log_lines::line_of(begun@[1]@));
    assert(c[1] == log_lines::line_of(created@[1]@));
    if begun@.len() == 3 {
        assert(b[2] == log_lines::line_of(begun@[2]@));
        log_line_laws::law_lines_leave_out_the_time_alone(begun@[2]@);
    }
    log_line_laws::law_lines_leave_out_the_time_alone(begun@[0]@);
    log_line_laws::law_lines_leave_out_the_time_alone(begun@[1]@);
    log_line_laws::law_lines_leave_out_the_time_alone(created@[1]@);
    log_line_laws::law_lines_leave_out_the_time_alone(unreadable@);
}

// ---------------------------------------------------------------------------
// Workers and the scheduler
// ---------------------------------------------------------------------------

/// A checkpoint of a worker is kept, and begins with what the worker does, its
/// key and its task.
pub proof fn law_worker_checkpoints_are_logged(
    key: &UniqueId,
    task_id: TaskId,
    note: WorkerNote,
    entry: Log,
)
    requires
        call_ensures(worker_log::worker_entry, (key, task_id, note), entry),
    ensures
        entry@.level is Key,
        ({
            let start = log_lines::key_words((key.0, key.1@));
            let id = text::decimal(task_id.value as nat);
            &&& note matches WorkerNote::Begin { start_offset } ==> entry@.tag == "run_group"@
                && entry@.message == "run_group begin: key="@ + start + " task_id="@ + id
                + " start_offset="@ + text::decimal(start_offset as nat)
            &&& note matches WorkerNote::Prepared { next_offset, total } ==> entry@.message
                == "prepared: key="@ + start + " task_id="@ + id + " next_offset="@
                + text::decimal(next_offset as nat) + " total="@ + text::decimal(total as nat)
            &&& note matches WorkerNote::Completed { final_offset, total } ==> entry@.message
                == "run_group completed: key="@ + start + " task_id="@ + id + " final_offset="@
                + text::decimal(final_offset as nat) + " total="@ + text::decimal(total as nat)
            &&& note matches WorkerNote::ParallelCompleted { total } ==> entry@.tag
                == "run_group_parallel"@ && entry@.message == "completed: key="@ + start
                + " task_id="@ + id + " total="@ + text::decimal(total as nat)
        }),
{
    log_line_laws::law_lines_leave_out_the_time_alone(entry@);
    log_line_laws::law_checkpoints_say_where_a_worker_stands(entry@.message, note);
}

/// A failure of a worker is an error of the log, with the error and the number
/// of its reason.
pub proof fn law_worker_failures_are_logged(
    key: &UniqueId,
    task_id: TaskId,
    step: FailedStep,
    e: &MeowError,
    entry: Log,
)
    requires
        call_ensures(worker_log::failure_entry, (key, task_id, step, e), entry),
    ensures
        entry@.level is Error,
        e.code.spec_number() is Some ==> entry@.error_code == e.code.spec_number(),
        e.http_status is Some ==> entry@.http_status == e.http_status,
        !(step is Panic) ==> entry@.task_id == Some(text::decimal(task_id.value as nat)),
        step matches FailedStep::Chunk { offset, chunk_size } ==> entry@.offset == Some(offset)
            && entry@.byte_len == Some(chunk_size),
        !(step is Chunk) ==> entry@.message == match step {
            FailedStep::Prepare { .. } => "prepare failed: key="@,
            FailedStep::FinalizeAtTotal => "download finalize at total failed: key="@,
            FailedStep::PartPanic => "part task panicked: key="@,
            FailedStep::Drained => "failed after drain: key="@,
            FailedStep::Incomplete => "invariant violation before complete: key="@,
            FailedStep::Complete => "complete call failed: key="@,
            _ => "run_group task panicked: key="@,
        } + log_lines::key_words((key.0, key.1@)) + " err="@ + log::redacted(e.msg@, 0),
        step matches FailedStep::Chunk { offset, .. } ==> entry@.message
            == "chunk retry exhausted or non-retryable: key="@ + log_lines::key_words(
            (key.0, key.1@),
        ) + " offset="@ + text::decimal(offset as nat) + " err="@ + log::redacted(e.msg@, 0),
        step is Prepare || step is Chunk || step is Panic ==> entry@.tag == "run_group"@,
        !(step is Prepare || step is Chunk || step is Panic) ==> entry@.tag
            == "run_group_parallel"@,
{
    log_line_laws::law_lines_leave_out_the_time_alone(entry@);
}

/// An event of a transfer that is not there is a warning and one of a transfer
/// that is there never is; a failure is an error of the log.
pub proof fn law_events_are_logged(state: &SchedulerState, event: &WorkerEvent, logs: Vec<Log>)
    requires
        state@.groups.contains_key(event.key()) || !state@.paused.contains(event.key()),
        call_ensures(scheduler_log::event_log, (state, event), logs),
    ensures
        logs@.len() >= 1,
        logs@.last()@.level is Warn <==> !state@.groups.contains_key(event.key()),
        event is Failed && state@.groups.contains_key(event.key()) ==> logs@[0]@.level is Error,
        event is Completed ==> logs@[0]@.level is Key,
{
    let lines = log_lines::lines_of(logs@);
    log_line_laws::law_stray_events_are_warned_of(state@, *event);
    assert(lines.len() == logs@.len());
    assert(lines[0] == log_lines::line_of(logs@[0]@));
    assert(lines[lines.len() - 1] == log_lines::line_of(logs@[logs@.len() - 1]@));
    log_line_laws::law_lines_leave_out_the_time_alone(logs@[0]@);
    log_line_laws::law_lines_leave_out_the_time_alone(logs@.last()@);
}

/// A report is logged for its task and for the listeners.
pub proof fn law_reports_are_logged(
    state: &SchedulerState,
    effect: &Effect,
    listeners: usize,
    logs: Vec<Log>,
)
    requires
        call_ensures(scheduler_log::effect_log, (state, effect, listeners), logs),
    ensures
        effect is Status <==> logs@.len() == 2,
        effect matches Effect::Status { record, .. } ==> logs@[1]@.level is Trace
            && logs@[1]@.message == "broadcast start: listener_count="@ + text::decimal(
            listeners as nat,
        ) + " task_id="@ + text::decimal(record.task_id.value as nat),
{
    let lines = log_lines::lines_of(logs@);
    log_line_laws::law_effects_are_logged(state@, *effect, listeners as nat);
    assert(lines.len() == logs@.len());
    if logs@.len() == 2 {
        assert(lines[1] == log_lines::line_of(logs@[1]@));
        log_line_laws::law_lines_leave_out_the_time_alone(logs@[1]@);
    }
}

/// What goes wrong in cleaning up and closing is told as what it is.
pub proof fn law_cleanup_failures_are_logged(
    key: &UniqueId,
    had_worker: bool,
    e: &MeowError,
    abort: Log,
    active: usize,
    lost: Log,
    closed: Log,
    received: Log,
)
    requires
        call_ensures(scheduler_log::abort_failure_entry, (key, had_worker, e), abort),
        call_ensures(scheduler_log::lost_workers_entry, (active,), lost),
        call_ensures(scheduler_log::closed_entry, (), closed),
        call_ensures(scheduler_log::received_entry, (), received),
    ensures
        abort@.level is Warn,
        abort@.tag == "cancel_group"@,
        had_worker ==> abort@.message == "protocol abort failed after worker quiesced: key="@
            + log_lines::key_words((key.0, key.1@)) + " err="@ + log::redacted(e.msg@, 0),
        !had_worker ==> abort@.message == "protocol abort failed but continue cleanup: key="@
            + log_lines::key_words((key.0, key.1@)) + " err="@ + log::redacted(e.msg@, 0),
        lost@.level is Error,
        lost@.tag == "cmd_close"@,
        lost@.message == "worker event channel closed with "@ + text::decimal(active as nat)
            + " active groups"@,
        closed@.level is Key,
        closed@.message == "close finished, worker loop exiting"@,
        received@.level is Trace,
        received@.message == "worker event received"@,
{
    log_line_laws::law_lines_leave_out_the_time_alone(abort@);
    log_line_laws::law_lines_leave_out_the_time_alone(lost@);
    log_line_laws::law_lines_leave_out_the_time_alone(closed@);
    log_line_laws::law_lines_leave_out_the_time_alone(received@);
}

/// An entry of each level has that level, its tag and its message, and is told
/// by its fields.
pub proof fn law_entries_of_each_level(
    tag: &'static str,
    message: String,
    trace: Log,
    debug: Log,
    info: Log,
    key: Log,
    warn: Log,
    error: Log,
)
    requires
        call_ensures(Log::trace, (tag, message), trace),
        call_ensures(Log::debug, (tag, message), debug),
        call_ensures(Log::info, (tag, message), info),
        call_ensures(Log::key, (tag, message), key),
        call_ensures(Log::warn, (tag, message), warn),
        call_ensures(Log::error, (tag, message), error),
    ensures
        trace@.level is Trace && trace@.tag == tag@ && trace@.message == message@,
        debug@.level is Debug && debug@.tag == tag@ && debug@.message == message@,
        info@.level is Info && info@.tag == tag@ && info@.message == message@,
        key@.level is Key && key@.tag == tag@ && key@.message == message@,
        warn@.level is Warn && warn@.tag == tag@ && warn@.message == message@,
        error@.level is Error && error@.tag == tag@ && error@.message == message@,
        error@.url is None && error@.task_id is None && error@.error_code is None,
{
}

/// What is read of an entry is what it has.
pub proof fn law_entries_are_read_back(
    entry: &Log,
    time: u64,
    level: LogLevel,
    tag: &'static str,
    message: &str,
    task_id: Option<&str>,
    key: Option<&str>,
    url: Option<&str>,
    part: Option<u64>,
    offset: Option<u64>,
    byte_len: Option<u64>,
    status: Option<u16>,
    attempt: Option<u32>,
    max_retries: Option<u32>,
    code: Option<i32>,
)
    requires
        call_ensures(Log::timestamp_ms, (entry,), time),
        call_ensures(Log::level, (entry,), level),
        call_ensures(Log::tag, (entry,), tag),
        call_ensures(Log::message, (entry,), message),
        call_ensures(Log::task_id, (entry,), task_id),
        call_ensures(Log::object_key, (entry,), key),
        call_ensures(Log::url, (entry,), url),
        call_ensures(Log::part_index, (entry,), part),
        call_ensures(Log::offset, (entry,), offset),
        call_ensures(Log::byte_len, (entry,), byte_len),
        call_ensures(Log::http_status, (entry,), status),
        call_ensures(Log::attempt, (entry,), attempt),
        call_ensures(Log::max_retries, (entry,), max_retries),
        call_ensures(Log::error_code, (entry,), code),
    ensures
        time == entry@.timestamp_ms,
        level == entry@.level,
        tag@ == entry@.tag,
        message@ == entry@.message,
        task_id is Some == entry@.task_id is Some,
        task_id is Some ==> task_id->Some_0@ == entry@.task_id->Some_0,
        key is Some == entry@.object_key is Some,
        key is Some ==> key->Some_0@ == entry@.object_key->Some_0,
        url is Some == entry@.url is Some,
        url is Some ==> url->Some_0@ == entry@.url->Some_0,
        part == entry@.part_index,
        offset == entry@.offset,
        byte_len == entry@.byte_len,
        status == entry@.http_status,
        attempt == entry@.attempt,
        max_retries == entry@.max_retries,
        code == entry@.error_code,
{
}

/// An entry without fields reads as its time, level, tag and message, and one
/// that becomes its message is that alone.
pub proof fn law_entries_are_shown(entry: Log, line: String, message: String)
    requires
        call_ensures(Log::to_text, (&entry,), line),
        call_ensures(Log::into_message, (entry,), message),
        entry@ == log::bare_entry(entry@.timestamp_ms, entry@.level, entry@.tag, entry@.message),
    ensures
        message@ == entry@.message,
        entry@.level is Warn ==> line@ == "["@ + text::decimal(entry@.timestamp_ms as nat) + "] "@
            + "WARN"@ + " ["@ + entry@.tag + "] "@ + entry@.message,
{
    log_line_laws::law_entries_name_their_fields(entry@);
}

/// An entry is made exactly where somebody listens.
pub proof fn law_entries_are_made_for_listeners<L, F: FnOnce() -> Log>(
    slot: &DebugLogSlot<L>,
    make: F,
    made: Option<Log>,
)
    requires
        call_ensures(log::emit_lazy::<L, F>, (slot, make), made),
    ensures
        made is Some <==> slot.listener is Some,
        made matches Some(entry) ==> call_ensures(make, (), entry),
{
}

/// What is said of a retry: when the next attempt at preparing is due, and that
/// a cancel came before an attempt or while waiting for one.
pub proof fn law_retries_are_logged(
    key: &UniqueId,
    task_id: TaskId,
    attempt: u32,
    delay_ms: u64,
    e: &MeowError,
    scheduled: Log,
    offset: u64,
    counts: ChunkRetry,
    waiting: bool,
    canceled: Log,
    unsettled: Log,
    bad_range: Log,
)
    requires
        call_ensures(
            worker_log::prepare_retry_entry,
            (key, task_id, attempt, delay_ms, e),
            scheduled,
        ),
        call_ensures(
            worker_log::canceled_attempt_entry,
            (key, offset, counts, waiting),
            canceled,
        ),
        call_ensures(worker_log::unsettled_entry, (e,), unsettled),
        call_ensures(worker_log::bad_range_entry, (e,), bad_range),
    ensures
        ({
            let words = log_lines::key_words((key.0, key.1@));
            &&& scheduled@.level is Warn
            &&& scheduled@.tag == "run_group"@
            &&& scheduled@.message == "prepare retry scheduled: key="@ + words + " task_id="@
                + text::decimal(task_id.value as nat) + " attempt="@ + text::decimal(
                (attempt + 1) as nat,
            ) + " delay_ms="@ + text::decimal(delay_ms as nat) + " err="@ + log::redacted(
                e.msg@,
                0,
            )
            &&& canceled@.tag == "chunk_retry"@
            &&& canceled@.offset == Some(offset)
            &&& canceled@.attempt == Some(counts.attempt)
            &&& canceled@.max_retries == Some(counts.max_retries)
            &&& canceled@.message == (if waiting {
                "cancel during backoff wait: key="@
            } else {
                "cancel before transfer: key="@
            }) + words + " offset="@ + text::decimal(offset as nat) + " attempt="@ + text::decimal(
                counts.attempt as nat,
            )
            &&& unsettled@.level is Warn
            &&& unsettled@.message
                == "checkpoint while settling failed download also failed: "@ + log::redacted(
                e.msg@,
                0,
            )
            &&& bad_range@.level is Warn
            &&& bad_range@.tag == "range_get"@
            &&& bad_range@.message == log::redacted(e.msg@, 0)
        }),
{
    log_line_laws::law_lines_leave_out_the_time_alone(scheduled@);
    log_line_laws::law_lines_leave_out_the_time_alone(canceled@);
    log_line_laws::law_lines_leave_out_the_time_alone(unsettled@);
    log_line_laws::law_lines_leave_out_the_time_alone(bad_range@);
}

/// An attempt is logged unless it is a first one that succeeds; a renewal only
/// where it failed, without the secrets of the URL; and a plan that cannot be
/// used where it expired.
pub proof fn law_attempts_and_renewals_are_logged(
    key: &UniqueId,
    offset: u64,
    counts: ChunkRetry,
    result: &Result<ChunkOutcome, MeowError>,
    cancelled: bool,
    delay_ms: u64,
    attempt: Option<Log>,
    plan: &PresignedRangeDownloadPlan,
    outcome: &RefreshOutcome,
    renewal: Option<Log>,
    e: &MeowError,
    unusable: Option<Log>,
)
    requires
        call_ensures(
            worker_log::attempt_entry,
            (key, offset, counts, result, cancelled, delay_ms),
            attempt,
        ),
        call_ensures(worker_log::renewal_entry, (plan, outcome), renewal),
        call_ensures(worker_log::unusable_entry, (plan, e), unusable),
    ensures
        attempt is None <==> result is Ok && counts.attempt == 0,
        attempt matches Some(entry) ==> entry@.tag == "chunk_retry"@ && entry@.offset == Some(
            offset,
        ),
        outcome is Panicked ==> renewal is None,
        outcome matches RefreshOutcome::Failed(e) ==> (renewal matches Some(entry)
            && entry@.level is Error && entry@.message
            == "presigned range URL refresh/re-sign failed: "@ + log::redacted(e.msg@, 0)
            && entry@.url == Some(log::sanitized(plan.range_url@))),
        outcome matches RefreshOutcome::Refreshed(fresh) ==> (renewal is Some
            <==> plan.total_size is Some && fresh.total_size is Some && plan.total_size->Some_0
            != fresh.total_size->Some_0),
        unusable is Some <==> e.msg@
            == "presigned range URL expired and no refresher is configured"@,
        renewal matches Some(entry) ==> entry@.tag == "range_get"@,
        unusable matches Some(entry) ==> entry@.level is Error && entry@.tag == "range_get"@
            && entry@.message == "presigned range URL expired and no refresher is configured"@
            && entry@.url == Some(
            log::sanitized(plan.range_url@),
        ),
{
    log_line_laws::law_attempts_are_logged_as_they_end(
        (key.0, key.1@),
        offset,
        counts,
        *result,
        cancelled,
        delay_ms,
    );
    if let Some(entry) = attempt {
        log_line_laws::law_lines_leave_out_the_time_alone(entry@);
    }
    if let Some(entry) = renewal {
        log_line_laws::law_lines_leave_out_the_time_alone(entry@);
    }
    if let Some(entry) = unusable {
        log_line_laws::law_lines_leave_out_the_time_alone(entry@);
    }
}

/// A description that is handed in is logged with its URL without secrets.
pub proof fn law_descriptions_are_logged(paused: bool, pounce: &PounceTask, entry: Log)
    requires
        call_ensures(client_log::submission_entry, (paused, pounce), entry),
    ensures
        entry@.level is Debug,
        paused ==> entry@.tag == "try_enqueue_paused"@,
        !paused ==> entry@.tag == "try_enqueue"@,
        entry@.message == "task dir="@ + (match pounce.direction {
            Direction::Upload => "Upload"@,
            Direction::Download => "Download"@,
        }) + " name=\""@ + pounce.file_name@ + "\" size="@ + text::decimal(
            pounce.total_size as nat,
        ) + " chunk="@ + text::decimal(pounce.chunk_size as nat) + " method="@ + pounce.method@
            + " url="@ + log::sanitized(pounce.url@),
{
    log_line_laws::law_lines_leave_out_the_time_alone(entry@);
}

/// Commands and what is started after them are logged; what waits is looked at
/// after every command that can make room or add to it.
pub proof fn law_commands_and_starts_are_logged(
    state: &SchedulerState,
    task_id: TaskId,
    logs: Vec<Log>,
    may: bool,
    started: usize,
    starts: Vec<Log>,
    snapshot: bool,
)
    requires
        call_ensures(
            scheduler_log::command_log,
            (state, &TransferCmd::Cancel { task_id }),
            logs,
        ),
        call_ensures(
            scheduler_log::may_start,
            (
                state,
                &(if snapshot {
                    TransferCmd::Snapshot
                } else {
                    TransferCmd::Cancel { task_id }
                }),
            ),
            may,
        ),
        call_ensures(scheduler_log::start_log, (state, started), starts),
    ensures
        logs@.len() >= 2,
        logs@[0]@.level is Key,
        logs@[0]@.tag == "cmd_cancel"@,
        logs@[0]@.message == "cancel"@ + " requested: task_id="@ + text::decimal(
            task_id.value as nat,
        ),
        logs@.last()@.level is Key <==> state@.task_keys.contains_key(task_id.value),
        may <==> !snapshot,
        starts@.len() == state@.queued.len() + 3,
        starts@.last()@.message == "try_start_next end: started_count="@ + text::decimal(
            started as nat,
        ),
{
    let lines = log_lines::lines_of(logs@);
    log_line_laws::law_answers_are_logged(state@, scheduler_log::Control::Cancel, task_id);
    log_line_laws::law_commands_are_logged(state@, TransferCmd::Cancel { task_id });
    assert(lines.len() == logs@.len());
    assert(lines[0] == log_lines::line_of(logs@[0]@));
    assert(lines[lines.len() - 1] == log_lines::line_of(logs@[logs@.len() - 1]@));
    log_line_laws::law_lines_leave_out_the_time_alone(logs@[0]@);
    log_line_laws::law_lines_leave_out_the_time_alone(logs@.last()@);
    let told = log_lines::lines_of(starts@);
    log_line_laws::law_waiting_is_logged(state@, started as nat, 0);
    assert(told.len() == starts@.len());
    assert(told[told.len() - 1] == log_lines::line_of(starts@[starts@.len() - 1]@));
    log_line_laws::law_lines_leave_out_the_time_alone(starts@.last()@);
}

/// An entry that is made at a time has that time, and secret names are known by
/// the words in them.
pub proof fn law_entries_have_their_time(
    time: u64,
    level: LogLevel,
    tag: &'static str,
    message: String,
    made: Log,
    name: &[char],
    secret: bool,
    refusal: &DebugLogListenerError,
    words: &'static str,
)
    requires
        call_ensures(Log::at, (time, level, tag, message), made),
        call_ensures(log::is_sensitive_param, (name,), secret),
        call_ensures(DebugLogListenerError::text, (refusal,), words),
    ensures
        made@.timestamp_ms == time,
        made@.level == level,
        made@.tag == tag@,
        made@.message == message@,
        made@.task_id is None,
        secret <==> log::sensitive_name(name@),
        words@ == "debug log listener already set"@,
{
}

} // verus!
