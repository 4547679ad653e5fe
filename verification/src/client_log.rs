//! What is logged of clients: the tasks that they make and submit, the commands
//! that they send, and their listeners.

use vstd::prelude::*;
use vstd::string::*;

use crate::callbacks::JobKind;
use crate::direction;
use crate::direction::{Direction, UniqueId};
use crate::error::MeowError;
use crate::executor::CommandKind;
use crate::ids::{GlobalProgressListenerId, TaskId};
use crate::inner_task::InnerTask;
use crate::log;
use crate::log::{sanitize_url, Log, LogLevel, LogView};
use crate::log_lines::{and_error, and_key, and_number, and_task, and_text, entry, error_words, key_words, line, line_of, lines_of, no_entries, number_text, push_entry, task_line, task_text};
use crate::pounce_task::{PounceTask, UploadSource};
use crate::text;

verus! {

// ---------------------------------------------------------------------------
// Tasks
// ---------------------------------------------------------------------------

/// What a task is built from; `path` is how the path of its file is shown.
pub open spec fn building_words(task_id: TaskId, pounce: PounceTask, path: Seq<char>) -> Seq<char> {
    match (pounce.direction, pounce.upload_source) {
        (Direction::Download, _) => "build download task: task_id="@ + task_id.spec_text()
            + " path="@ + path,
        (Direction::Upload, Some(UploadSource::Bytes(bytes))) =>
            "build upload task from bytes: task_id="@ + task_id.spec_text() + " len="@
            + text::decimal(bytes@.len()),
        (Direction::Upload, _) => "build upload task from file: task_id="@ + task_id.spec_text()
            + " path="@ + path,
    }
}

/// What is logged when a task is begun: that it is, what it is built from, and
/// that a download says nothing of the file it is for.
pub open spec fn beginning_lines(
    task_id: TaskId,
    pounce: PounceTask,
    path: Seq<char>,
) -> Seq<LogView> {
    seq![
        line(
            LogLevel::Key,
            "inner_task"@,
            "from_pounce start: task_id="@ + task_id.spec_text(),
        ),
        line(LogLevel::Key, "inner_task"@, building_words(task_id, pounce, path)),
    ] + if pounce.direction == Direction::Download && pounce.client_file_sign is None {
        seq![
            task_line(
                LogLevel::Warn,
                "inner_task"@,
                "download task missing client_file_sign; defaulting to empty"@,
                task_id,
            ),
        ]
    } else {
        Seq::empty()
    }
}

fn building_text(task_id: TaskId, pounce: &PounceTask, path: &str) -> (text: String)
    ensures
        text@ == building_words(task_id, *pounce, path@),
{
    match pounce.direction {
        Direction::Download => and_text(
            task_text("build download task: task_id=", task_id),
            " path=",
            path,
        ),
        Direction::Upload => match &pounce.upload_source {
            Some(UploadSource::Bytes(bytes)) => and_number(
                task_text("build upload task from bytes: task_id=", task_id),
                " len=",
                bytes.len() as u64,
            ),
            _ => and_text(
                task_text("build upload task from file: task_id=", task_id),
                " path=",
                path,
            ),
        },
    }
}

/// The entries of a task that is begun; see [`beginning_lines`].
pub fn beginning_log(task_id: TaskId, pounce: &PounceTask, path: &str) -> (logs: Vec<Log>)
    ensures
        lines_of(logs@) == beginning_lines(task_id, *pounce, path@),
{
    let mut logs = no_entries();
    let message = task_text("from_pounce start: task_id=", task_id);
    push_entry(&mut logs, entry(LogLevel::Key, "inner_task", message));
    let message = building_text(task_id, pounce, path);
    push_entry(&mut logs, entry(LogLevel::Key, "inner_task", message));
    if pounce.direction == Direction::Download && pounce.client_file_sign.is_none() {
        let message = "download task missing client_file_sign; defaulting to empty".to_owned();
        let log = entry(LogLevel::Warn, "inner_task", message);
        push_entry(&mut logs, log.with_task_id(task_id.text()));
    }
    assert(lines_of(logs@) =~= beginning_lines(task_id, *pounce, path@));
    logs
}

/// The file of an upload could not be hashed; `path` is how its path is shown.
pub fn unreadable_entry(task_id: TaskId, path: &str, e: &MeowError) -> (log: Log)
    ensures
        line_of(log@) == task_line(
            LogLevel::Error,
            "inner_task"@,
            "calculate_sign failed: path="@ + path@ + " err="@ + error_words(*e),
            task_id,
        ),
{
    let mut message = "calculate_sign failed: path=".to_owned();
    message.append(path);
    let log = entry(LogLevel::Error, "inner_task", and_error(message, " err=", e));
    log.with_task_id(task_id.text())
}

/// What is logged of a task that was made: what it came to, and that it is there.
pub open spec fn created_lines(task: InnerTask) -> Seq<LogView> {
    seq![
        line(
            LogLevel::Key,
            "inner_task"@,
            "from_pounce resolved: task_id="@ + task.task_id.spec_text() + " dir="@
                + direction::direction_label(task.direction) + " file="@ + task.file_name@
                + " chunk="@ + text::decimal(task.chunk_size as nat) + " total="@ + text::decimal(
                task.total_size as nat,
            ) + " max_chunk_retries="@ + text::decimal(task.max_chunk_retries as nat)
                + " max_upload_prepare_retries="@ + text::decimal(
                task.max_upload_prepare_retries as nat,
            ),
        ),
        LogView {
            byte_len: Some(task.total_size),
            ..task_line(
                LogLevel::Key,
                "inner_task"@,
                "task created dir="@ + direction::direction_label(task.direction),
                task.task_id,
            )
        },
    ]
}

fn label(direction: Direction) -> (label: &'static str)
    ensures
        label@ == direction::direction_label(direction),
{
    match direction {
        Direction::Upload => "Upload",
        Direction::Download => "Download",
    }
}

/// The entries of a task that was made; see [`created_lines`].
pub fn created_log(task: &InnerTask) -> (logs: Vec<Log>)
    ensures
        lines_of(logs@) == created_lines(*task),
{
    let mut logs = no_entries();
    let named = and_text(
        and_text(
            task_text("from_pounce resolved: task_id=", task.task_id),
            " dir=",
            label(task.direction),
        ),
        " file=",
        task.file_name.as_str(),
    );
    let sized = and_number(
        and_number(named, " chunk=", task.chunk_size),
        " total=",
        task.total_size,
    );
    let message = and_number(
        and_number(sized, " max_chunk_retries=", task.max_chunk_retries as u64),
        " max_upload_prepare_retries=",
        task.max_upload_prepare_retries as u64,
    );
    push_entry(&mut logs, entry(LogLevel::Key, "inner_task", message));
    let mut message = "task created dir=".to_owned();
    message.append(label(task.direction));
    let log = entry(LogLevel::Key, "inner_task", message);
    push_entry(
        &mut logs,
        log.with_task_id(task.task_id.text()).with_byte_len(task.total_size),
    );
    assert(lines_of(logs@) =~= created_lines(*task));
    logs
}

// ---------------------------------------------------------------------------
// Submissions
// ---------------------------------------------------------------------------

/// The tag of entries about a submission.
pub open spec fn submission_tag(paused: bool) -> Seq<char> {
    if paused {
        "try_enqueue_paused"@
    } else {
        "try_enqueue"@
    }
}

fn tag_of(paused: bool) -> (tag: &'static str)
    ensures
        tag@ == submission_tag(paused),
{
    if paused {
        "try_enqueue_paused"
    } else {
        "try_enqueue"
    }
}

/// A description without content was handed in.
pub fn empty_task_entry(paused: bool) -> (log: Log)
    ensures
        line_of(log@) == line(LogLevel::Warn, submission_tag(paused), "reject empty task"@),
{
    entry(LogLevel::Warn, tag_of(paused), "reject empty task".to_owned())
}

/// What is said of a description that was handed in.
pub open spec fn submission_words(pounce: PounceTask) -> Seq<char> {
    "task dir="@ + direction::direction_label(pounce.direction) + " name=\""@ + pounce.file_name@
        + "\" size="@ + text::decimal(pounce.total_size as nat) + " chunk="@ + text::decimal(
        pounce.chunk_size as nat,
    ) + " method="@ + pounce.method@ + " url="@ + log::sanitized(pounce.url@)
}

/// A description was handed in.
pub fn submission_entry(paused: bool, pounce: &PounceTask) -> (log: Log)
    ensures
        line_of(log@) == line(
            LogLevel::Debug,
            submission_tag(paused),
            submission_words(*pounce),
        ),
{
    let mut message = "task dir=".to_owned();
    message.append(label(pounce.direction));
    let named = and_text(message, " name=\"", pounce.file_name.as_str());
    let sized = and_number(
        and_number(named, "\" size=", pounce.total_size),
        " chunk=",
        pounce.chunk_size,
    );
    let message = and_text(
        and_text(sized, " method=", pounce.method.as_str()),
        " url=",
        sanitize_url(pounce.url.as_str()).as_str(),
    );
    entry(LogLevel::Debug, tag_of(paused), message)
}

/// A task is on its way to the scheduler.
pub fn submitted_entry(paused: bool, task_id: TaskId) -> (log: Log)
    ensures
        line_of(log@) == line(
            LogLevel::Key,
            submission_tag(paused),
            submission_tag(paused) + " success: task_id="@ + task_id.spec_text(),
        ),
{
    let message = and_task(tag_of(paused).to_owned(), " success: task_id=", task_id);
    entry(LogLevel::Key, tag_of(paused), message)
}

// ---------------------------------------------------------------------------
// Commands
// ---------------------------------------------------------------------------

/// What a command is called.
pub open spec fn kind_name(kind: CommandKind) -> Seq<char> {
    match kind {
        CommandKind::Enqueue => "try_enqueue"@,
        CommandKind::EnqueuePaused => "try_enqueue_paused"@,
        CommandKind::Pause => "pause"@,
        CommandKind::Resume => "resume"@,
        CommandKind::Cancel => "cancel"@,
        CommandKind::Snapshot => "snapshot"@,
        CommandKind::Close => "close"@,
    }
}

fn name_of(kind: CommandKind) -> (name: &'static str)
    ensures
        name@ == kind_name(kind),
{
    match kind {
        CommandKind::Enqueue => "try_enqueue",
        CommandKind::EnqueuePaused => "try_enqueue_paused",
        CommandKind::Pause => "pause",
        CommandKind::Resume => "resume",
        CommandKind::Cancel => "cancel",
        CommandKind::Snapshot => "snapshot",
        CommandKind::Close => "close",
    }
}

/// A client was asked to do something with a task.
pub fn called_entry(kind: CommandKind, task_id: TaskId) -> (log: Log)
    ensures
        line_of(log@) == line(
            LogLevel::Key,
            "client_api"@,
            kind_name(kind) + " called: task_id="@ + task_id.spec_text(),
        ),
{
    let message = and_task(name_of(kind).to_owned(), " called: task_id=", task_id);
    entry(LogLevel::Key, "client_api", message)
}

/// The level of the entry that a command is sent: a close is a checkpoint, and
/// snapshots may be asked for all the time.
pub open spec fn sending_level(kind: CommandKind) -> LogLevel {
    match kind {
        CommandKind::Close => LogLevel::Key,
        CommandKind::Snapshot => LogLevel::Trace,
        _ => LogLevel::Debug,
    }
}

/// What a command is about, as far as it is: its task, and the key of a
/// submission.
pub open spec fn subject_words(
    what: Seq<char>,
    task_id: Option<TaskId>,
    key: Option<UniqueId>,
) -> Seq<char> {
    match task_id {
        None => what,
        Some(task_id) => match key {
            None => what + ": task_id="@ + task_id.spec_text(),
            Some(key) => what + ": task_id="@ + task_id.spec_text() + " key="@ + key_words(
                direction::key_view(key),
            ),
        },
    }
}

fn subject_text(what: String, task_id: Option<TaskId>, key: &Option<UniqueId>) -> (text: String)
    ensures
        text@ == subject_words(what@, task_id, *key),
{
    match task_id {
        None => what,
        Some(task_id) => match key {
            None => and_task(what, ": task_id=", task_id),
            Some(key) => and_key(and_task(what, ": task_id=", task_id), " key=", key),
        },
    }
}

/// A command is sent to the scheduler.
pub fn sending_entry(kind: CommandKind, task_id: Option<TaskId>, key: Option<UniqueId>) -> (log:
    Log)
    ensures
        line_of(log@) == line(
            sending_level(kind),
            "executor_api"@,
            subject_words(kind_name(kind) + " send"@, task_id, key),
        ),
{
    let mut what = name_of(kind).to_owned();
    what.append(" send");
    let level = match kind {
        CommandKind::Close => LogLevel::Key,
        CommandKind::Snapshot => LogLevel::Trace,
        _ => LogLevel::Debug,
    };
    entry(level, "executor_api", subject_text(what, task_id, &key))
}

/// A command about a task has been sent.
pub fn sent_entry(kind: CommandKind, task_id: TaskId) -> (log: Log)
    ensures
        line_of(log@) == line(
            LogLevel::Debug,
            "executor_api"@,
            kind_name(kind) + " send ok: task_id="@ + task_id.spec_text(),
        ),
{
    let message = and_task(name_of(kind).to_owned(), " send ok: task_id=", task_id);
    entry(LogLevel::Debug, "executor_api", message)
}

/// What went wrong with a command: it could not be sent, or was never answered.
pub open spec fn lost_words(
    kind: CommandKind,
    sent: bool,
    task_id: Option<TaskId>,
    reason: Seq<char>,
) -> Seq<char> {
    let what = if sent {
        kind_name(kind) + " response await failed"@
    } else {
        kind_name(kind) + " send failed"@
    };
    match task_id {
        Some(task_id) => what + ": task_id="@ + task_id.spec_text() + " err="@ + reason,
        None => what + ": err="@ + reason,
    }
}

/// A command could not be sent, or was never answered.
pub fn lost_entry(kind: CommandKind, sent: bool, task_id: Option<TaskId>, reason: &str) -> (log:
    Log)
    ensures
        line_of(log@) == line(
            LogLevel::Warn,
            "executor_api"@,
            lost_words(kind, sent, task_id, reason@),
        ),
{
    let mut what = name_of(kind).to_owned();
    if sent {
        what.append(" response await failed");
    } else {
        what.append(" send failed");
    }
    let message = match task_id {
        Some(task_id) => and_text(and_task(what, ": task_id=", task_id), " err=", reason),
        None => and_text(what, ": err=", reason),
    };
    entry(LogLevel::Warn, "executor_api", message)
}

/// What happens to a client that is about no task.
#[derive(Debug, Clone, Copy, PartialEq, Eq, Structural)]
pub enum ClientStep {
    /// Something was asked of a client that is closed.
    FoundClosed,
    SnapshotCalled,
    /// A second close.
    CloseRejected,
    CloseForwarded,
    /// A close without anything to stop.
    CloseIdle,
    ExecutorReused,
    ThreadStarting,
    RuntimeCreated,
    ExecutorStarted,
}

/// The level, the tag and the message of a step.
pub open spec fn step_words(step: ClientStep) -> (LogLevel, Seq<char>, Seq<char>) {
    match step {
        ClientStep::FoundClosed => (
            LogLevel::Debug,
            "client"@,
            "ensure_open failed: client already closed"@,
        ),
        ClientStep::SnapshotCalled => (LogLevel::Debug, "client_api"@, "snapshot called"@),
        ClientStep::CloseRejected => (
            LogLevel::Debug,
            "client_api"@,
            "close rejected: already closed"@,
        ),
        ClientStep::CloseForwarded => (
            LogLevel::Key,
            "client_api"@,
            "close forwarding to executor"@,
        ),
        ClientStep::CloseIdle => (
            LogLevel::Key,
            "client_api"@,
            "close with no executor initialized"@,
        ),
        ClientStep::ExecutorReused => (LogLevel::Debug, "executor"@, "reuse existing executor"@),
        ClientStep::ThreadStarting => (
            LogLevel::Key,
            "worker_loop"@,
            "starting scheduler worker thread"@,
        ),
        ClientStep::RuntimeCreated => (
            LogLevel::Key,
            "worker_loop"@,
            "runtime created successfully"@,
        ),
        ClientStep::ExecutorStarted => (LogLevel::Key, "executor"@, "executor worker started"@),
    }
}

/// A client came to a step.
pub fn step_entry(step: ClientStep) -> (log: Log)
    ensures
        line_of(log@) == line(step_words(step).0, step_words(step).1, step_words(step).2),
{
    let (level, tag, message): (LogLevel, &'static str, &'static str) = match step {
        ClientStep::FoundClosed => (
            LogLevel::Debug,
            "client",
            "ensure_open failed: client already closed",
        ),
        ClientStep::SnapshotCalled => (LogLevel::Debug, "client_api", "snapshot called"),
        ClientStep::CloseRejected => (
            LogLevel::Debug,
            "client_api",
            "close rejected: already closed",
        ),
        ClientStep::CloseForwarded => (LogLevel::Key, "client_api", "close forwarding to executor"),
        ClientStep::CloseIdle => (
            LogLevel::Key,
            "client_api",
            "close with no executor initialized",
        ),
        ClientStep::ExecutorReused => (LogLevel::Debug, "executor", "reuse existing executor"),
        ClientStep::ThreadStarting => (
            LogLevel::Key,
            "worker_loop",
            "starting scheduler worker thread",
        ),
        ClientStep::RuntimeCreated => (LogLevel::Key, "worker_loop", "runtime created successfully"),
        ClientStep::ExecutorStarted => (LogLevel::Key, "executor", "executor worker started"),
    };
    entry(level, tag, message.to_owned())
}

/// A client gets its scheduler.
pub fn executor_entry(max_upload: usize, max_download: usize) -> (log: Log)
    ensures
        line_of(log@) == line(
            LogLevel::Key,
            "executor"@,
            "executor new: max_upload="@ + text::decimal(max_upload as nat) + " max_download="@
                + text::decimal(max_download as nat),
        ),
{
    let message = and_number(
        number_text("executor new: max_upload=", max_upload as u64),
        " max_download=",
        max_download as u64,
    );
    entry(LogLevel::Key, "executor", message)
}

// ---------------------------------------------------------------------------
// Listeners
// ---------------------------------------------------------------------------

/// How the list of global listeners changed, or did not.
#[derive(Debug, Clone, Copy, PartialEq, Eq, Structural)]
pub enum ListenerChange {
    Registered(GlobalProgressListenerId),
    Unregistered(GlobalProgressListenerId),
    /// There was no such listener.
    Missed(GlobalProgressListenerId),
    Cleared,
}

/// The level and the message of a change.
pub open spec fn listener_words(change: ListenerChange) -> (LogLevel, Seq<char>) {
    match change {
        ListenerChange::Registered(id) => (
            LogLevel::Key,
            "register global listener: id="@ + text::decimal(id.value as nat),
        ),
        ListenerChange::Unregistered(id) => (
            LogLevel::Key,
            "unregister global listener success: id="@ + text::decimal(id.value as nat),
        ),
        ListenerChange::Missed(id) => (
            LogLevel::Debug,
            "unregister global listener missed: id="@ + text::decimal(id.value as nat),
        ),
        ListenerChange::Cleared => (LogLevel::Key, "clear all global listeners"@),
    }
}

/// The list of global listeners changed, or was to.
pub fn listener_entry(change: ListenerChange) -> (log: Log)
    ensures
        line_of(log@) == line(
            listener_words(change).0,
            "listener"@,
            listener_words(change).1,
        ),
{
    match change {
        ListenerChange::Registered(id) => entry(
            LogLevel::Key,
            "listener",
            number_text("register global listener: id=", id.value),
        ),
        ListenerChange::Unregistered(id) => entry(
            LogLevel::Key,
            "listener",
            number_text("unregister global listener success: id=", id.value),
        ),
        ListenerChange::Missed(id) => entry(
            LogLevel::Debug,
            "listener",
            number_text("unregister global listener missed: id=", id.value),
        ),
        ListenerChange::Cleared => entry(
            LogLevel::Key,
            "listener",
            "clear all global listeners".to_owned(),
        ),
    }
}

// ---------------------------------------------------------------------------
// Callbacks
// ---------------------------------------------------------------------------

/// What is logged of a callback that is not called: a sample that is dropped is
/// of no consequence, anything else is.
pub open spec fn loss_words(kind: JobKind, closed: bool) -> (LogLevel, Seq<char>) {
    match kind {
        JobKind::Sample => (
            LogLevel::Trace,
            if closed {
                "transmission frame dropped: dispatcher already shut down"@
            } else {
                "transmission frame dropped: callback queue full"@
            },
        ),
        JobKind::Completion => (
            LogLevel::Warn,
            "complete callback undelivered: dispatcher gone (sending on a closed channel)"@,
        ),
        JobKind::Report => (
            LogLevel::Warn,
            "terminal progress frame undelivered: dispatcher gone (sending on a closed channel)"@,
        ),
    }
}

/// A callback is not called; see [`loss_words`].
pub fn loss_entry(kind: JobKind, closed: bool) -> (log: Log)
    ensures
        line_of(log@) == line(
            loss_words(kind, closed).0,
            "cb_dispatcher"@,
            loss_words(kind, closed).1,
        ),
{
    let (level, message): (LogLevel, &'static str) = match kind {
        JobKind::Sample => (
            LogLevel::Trace,
            if closed {
                "transmission frame dropped: dispatcher already shut down"
            } else {
                "transmission frame dropped: callback queue full"
            },
        ),
        JobKind::Completion => (
            LogLevel::Warn,
            "complete callback undelivered: dispatcher gone (sending on a closed channel)",
        ),
        JobKind::Report => (
            LogLevel::Warn,
            "terminal progress frame undelivered: dispatcher gone (sending on a closed channel)",
        ),
    };
    entry(level, "cb_dispatcher", message.to_owned())
}

/// What is logged of a callback that panicked.
pub open spec fn panic_line(completed: Option<TaskId>) -> LogView {
    match completed {
        None => line(
            LogLevel::Warn,
            "cb_dispatcher"@,
            "progress callback panicked; isolated in dispatcher thread"@,
        ),
        Some(task_id) => task_line(
            LogLevel::Warn,
            "cb_dispatcher"@,
            "complete callback panicked; isolated in dispatcher thread"@,
            task_id,
        ),
    }
}

/// A callback panicked: the completion callback of a task, or one for progress.
pub fn panic_entry(completed: Option<TaskId>) -> (log: Log)
    ensures
        line_of(log@) == panic_line(completed),
{
    match completed {
        None => entry(
            LogLevel::Warn,
            "cb_dispatcher",
            "progress callback panicked; isolated in dispatcher thread".to_owned(),
        ),
        Some(task_id) => entry(
            LogLevel::Warn,
            "cb_dispatcher",
            "complete callback panicked; isolated in dispatcher thread".to_owned(),
        ).with_task_id(task_id.text()),
    }
}

} // verus!
