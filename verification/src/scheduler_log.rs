//! What is logged of the scheduler: the commands and worker events that it
//! takes, what it makes of them, and which transfers it starts.
//!
//! Checkpoints are of level `Key`, what callers got wrong and strays of level
//! `Warn`, failures of level `Error`. How a decision came about is of level
//! `Debug`, and what happens with every chunk of level `Trace`.

use vstd::prelude::*;
use vstd::string::*;

use crate::direction;
use crate::direction::{Direction, KeyView, UniqueId};
use crate::effect::Effect;
use crate::error::MeowError;
use crate::executor::TransferCmd;
use crate::ids::TaskId;
use crate::inner_task::InnerTask;
use crate::log;
use crate::log::{redact_secrets, sanitize_url, Log, LogLevel, LogView};
use crate::log_lines::{and_count, and_error, and_flag, and_key, and_number, and_task, and_text, entry, error_fields, error_text, error_words, flag_words, key_text, key_words, line, line_of, lines_of, no_entries, number_text, push_entry, task_text, with_error};
use crate::scheduler;
use crate::scheduler::leader_of;
use crate::scheduler_state::{SchedulerState, SchedulerView};
use crate::text;
use crate::text::push_decimal;
use crate::transfer_status::TransferStatus;
use crate::worker_event::WorkerEvent;

verus! {

// ---------------------------------------------------------------------------
// Commands
// ---------------------------------------------------------------------------

/// Whether a task repeats a registered transfer.
pub open spec fn repeated(v: SchedulerView, task: InnerTask) -> bool {
    exists|k: KeyView| #[trigger] scheduler::repeats(v, task, k)
}

/// What is said of a submission when it comes in.
pub open spec fn received_words(what: Seq<char>, task: InnerTask) -> Seq<char> {
    what + task.task_id.spec_text() + " key="@ + key_words(task.spec_dedupe_key())
        + " chunk_size="@ + text::decimal(task.chunk_size as nat)
}

/// What is logged of a submission: that it came in, and that it repeats another
/// one or has been put in the queue.
pub open spec fn enqueue_lines(v: SchedulerView, task: InnerTask) -> Seq<LogView> {
    let k = task.spec_dedupe_key();
    seq![
        line(
            LogLevel::Key,
            "cmd_enqueue"@,
            received_words("received enqueue: task_id="@, task),
        ),
    ] + if repeated(v, task) {
        seq![line(LogLevel::Warn, "cmd_enqueue"@, "duplicate key rejected: key="@ + key_words(k))]
    } else if v.active.contains_key(k) || v.queued.contains(k) {
        Seq::empty()
    } else {
        seq![
            line(
                LogLevel::Key,
                "cmd_enqueue"@,
                "queued new key: key="@ + key_words(k) + " queued_len="@ + text::decimal(
                    v.queued.len() + 1,
                ),
            ),
        ]
    }
}

/// What is logged of an import.
pub open spec fn import_lines(v: SchedulerView, task: InnerTask) -> Seq<LogView> {
    let k = task.spec_dedupe_key();
    seq![
        line(
            LogLevel::Key,
            "cmd_enqueue_paused"@,
            received_words("received enqueue_paused: task_id="@, task),
        ),
        if repeated(v, task) {
            line(
                LogLevel::Warn,
                "cmd_enqueue_paused"@,
                "duplicate key rejected: key="@ + key_words(k),
            )
        } else {
            line(
                LogLevel::Key,
                "cmd_enqueue_paused"@,
                "task registered as paused: key="@ + key_words(k),
            )
        },
    ]
}

/// The commands on one task.
#[derive(Debug, Clone, Copy, PartialEq, Eq, Structural)]
pub enum Control {
    Pause,
    Resume,
    Cancel,
}

/// How a command on a task is called, the tag of its entries, and the tag of
/// those about what is done for it.
pub open spec fn control_names(control: Control) -> (Seq<char>, Seq<char>, Seq<char>) {
    match control {
        Control::Pause => ("pause"@, "cmd_pause"@, "pause_group"@),
        Control::Resume => ("resume"@, "cmd_resume"@, "resume_group"@),
        Control::Cancel => ("cancel"@, "cmd_cancel"@, "cancel_group"@),
    }
}

fn names(control: Control) -> (names: (&'static str, &'static str, &'static str))
    ensures
        (names.0@, names.1@, names.2@) == control_names(control),
{
    match control {
        Control::Pause => ("pause", "cmd_pause", "pause_group"),
        Control::Resume => ("resume", "cmd_resume", "resume_group"),
        Control::Cancel => ("cancel", "cmd_cancel", "cancel_group"),
    }
}

/// How a transfer stands when something is done to it.
pub open spec fn begin_words(name: Seq<char>, v: SchedulerView, k: KeyView) -> Seq<char> {
    name + " begin: key="@ + key_words(k) + " active="@ + flag_words(v.active.contains_key(k))
        + " queued="@ + flag_words(v.queued.contains(k)) + " paused="@ + flag_words(
        v.paused.contains(k),
    )
}

/// What is said of a resume that is refused for how the transfer stands.
pub open spec fn refusal_lines(v: SchedulerView, k: KeyView) -> Seq<LogView> {
    if !v.paused.contains(k) {
        seq![
            line(
                LogLevel::Warn,
                "resume_group"@,
                "resume rejected not paused: key="@ + key_words(k),
            ),
        ]
    } else if v.active.contains_key(k) {
        seq![
            line(
                LogLevel::Warn,
                "resume_group"@,
                "resume rejected still stopping: key="@ + key_words(k),
            ),
        ]
    } else if !v.groups.contains_key(k) {
        seq![
            line(
                LogLevel::Warn,
                "resume_group"@,
                "resume rejected missing group: key="@ + key_words(k),
            ),
        ]
    } else {
        Seq::empty()
    }
}

/// What is said of a resume that is accepted.
pub open spec fn resumed_lines(v: SchedulerView, k: KeyView) -> Seq<LogView> {
    (if v.queued.contains(k) {
        Seq::empty()
    } else {
        seq![
            line(
                LogLevel::Debug,
                "resume_group"@,
                "resume requeued key="@ + key_words(k) + " queued_len="@ + text::decimal(
                    v.queued.len() + 1,
                ),
            ),
        ]
    }) + seq![
        line(LogLevel::Debug, "resume_group"@, "resume success: key="@ + key_words(k)),
    ]
}

/// What is logged of a command on a task: that it came in, how the transfer
/// stood, what was done, and whether the command was accepted.
pub open spec fn control_lines(v: SchedulerView, control: Control, task_id: TaskId) -> Seq<
    LogView,
> {
    let (name, tag, group_tag) = control_names(control);
    let requested = seq![
        line(LogLevel::Key, tag, name + " requested: task_id="@ + task_id.spec_text()),
    ];
    if !v.task_keys.contains_key(task_id.value) {
        requested + seq![
            line(
                LogLevel::Warn,
                tag,
                name + " failed task not found: task_id="@ + task_id.spec_text(),
            ),
        ]
    } else {
        let k = v.task_keys[task_id.value];
        let begun = requested + seq![
            line(LogLevel::Debug, group_tag, begin_words(name, v, k)),
        ];
        let accepted = seq![
            line(
                LogLevel::Key,
                tag,
                name + " accepted: task_id="@ + task_id.spec_text() + " key="@ + key_words(k),
            ),
        ];
        match control {
            Control::Resume => match scheduler::resume_refusal(v, k) {
                Some(text) => begun + refusal_lines(v, k) + seq![
                    line(
                        LogLevel::Warn,
                        tag,
                        "resume rejected: task_id="@ + task_id.spec_text() + " key="@ + key_words(k)
                            + " err="@ + log::redacted(text, 0),
                    ),
                ],
                None => begun + resumed_lines(v, k) + accepted,
            },
            _ => begun + (if v.groups.contains_key(k) && !v.active.contains_key(k) {
                seq![
                    line(
                        LogLevel::Debug,
                        group_tag,
                        name + " status emitted: key="@ + key_words(k) + " offset="@
                            + text::decimal(v.offset_of(k) as nat),
                    ),
                ]
            } else {
                Seq::empty()
            }) + accepted,
        }
    }
}

/// What is logged of a command. What the scheduler is told of files is not.
pub open spec fn command_lines(v: SchedulerView, cmd: TransferCmd) -> Seq<LogView> {
    match cmd {
        TransferCmd::Enqueue { submission } => enqueue_lines(v, submission.task),
        TransferCmd::EnqueuePaused { submission } => import_lines(v, submission.task),
        TransferCmd::Pause { task_id } => control_lines(v, Control::Pause, task_id),
        TransferCmd::Resume { task_id } => control_lines(v, Control::Resume, task_id),
        TransferCmd::Cancel { task_id } => control_lines(v, Control::Cancel, task_id),
        TransferCmd::Identify { .. } => Seq::empty(),
        TransferCmd::Snapshot => seq![
            line(
                LogLevel::Debug,
                "cmd_snapshot"@,
                "snapshot requested: queued="@ + text::decimal(v.queued.len()) + " active="@
                    + text::decimal(v.active.dom().len()) + " paused="@ + text::decimal(
                    v.paused.len(),
                ),
            ),
        ],
        TransferCmd::Close => seq![
            line(
                LogLevel::Key,
                "cmd_close"@,
                "close requested: active="@ + text::decimal(v.active.dom().len()) + " groups="@
                    + text::decimal(v.groups.dom().len()) + " queued="@ + text::decimal(
                    v.queued.len(),
                ) + " paused="@ + text::decimal(v.paused.len()),
            ),
        ],
    }
}

/// The length of the queue with one more key in it.
fn longer_queue(state: &SchedulerState) -> (len: u128)
    ensures
        len == state@.queued.len() + 1,
{
    state.queued_len() as u128 + 1
}

fn received(what: &str, task: &InnerTask) -> (message: String)
    ensures
        message@ == received_words(what@, *task),
{
    let named = task_text(what, task.task_id);
    and_number(and_key(named, " key=", &task.dedupe_key()), " chunk_size=", task.chunk_size)
}

fn enqueue_log(state: &SchedulerState, task: &InnerTask) -> (logs: Vec<Log>)
    requires
        state.wf(),
    ensures
        lines_of(logs@) == enqueue_lines(state@, *task),
{
    let mut logs = no_entries();
    let key = task.dedupe_key();
    push_entry(
        &mut logs,
        entry(LogLevel::Key, "cmd_enqueue", received("received enqueue: task_id=", task)),
    );
    let leader = leader_of(state, task);
    if leader.is_some() {
        let message = key_text("duplicate key rejected: key=", &key);
        push_entry(&mut logs, entry(LogLevel::Warn, "cmd_enqueue", message));
    } else if !state.is_active(&key) && !state.is_queued(&key) {
        let message = and_count(
            key_text("queued new key: key=", &key),
            " queued_len=",
            longer_queue(state),
        );
        push_entry(&mut logs, entry(LogLevel::Key, "cmd_enqueue", message));
    }
    assert(repeated(state@, *task) == leader is Some);
    assert(lines_of(logs@) =~= enqueue_lines(state@, *task));
    logs
}

fn import_log(state: &SchedulerState, task: &InnerTask) -> (logs: Vec<Log>)
    ensures
        lines_of(logs@) == import_lines(state@, *task),
{
    let mut logs = no_entries();
    let key = task.dedupe_key();
    let message = received("received enqueue_paused: task_id=", task);
    push_entry(&mut logs, entry(LogLevel::Key, "cmd_enqueue_paused", message));
    let leader = leader_of(state, task);
    if leader.is_some() {
        let message = key_text("duplicate key rejected: key=", &key);
        push_entry(&mut logs, entry(LogLevel::Warn, "cmd_enqueue_paused", message));
    } else {
        let message = key_text("task registered as paused: key=", &key);
        push_entry(&mut logs, entry(LogLevel::Key, "cmd_enqueue_paused", message));
    }
    assert(repeated(state@, *task) == leader is Some);
    assert(lines_of(logs@) =~= import_lines(state@, *task));
    logs
}

/// Why a resume is refused, with the entry that says so; see [`refusal_lines`].
fn refusal(state: &SchedulerState, key: &UniqueId, logs: &mut Vec<Log>) -> (text: Option<
    &'static str,
>)
    ensures
        match scheduler::resume_refusal(state@, direction::key_view(*key)) {
            Some(reason) => text matches Some(text) && text@ == reason,
            None => text is None,
        },
        lines_of(final(logs)@) == lines_of(old(logs)@) + refusal_lines(
            state@,
            direction::key_view(*key),
        ),
{
    let (what, text): (&'static str, &'static str) = if !state.is_paused(key) {
        ("resume rejected not paused: key=", "resume target is not paused")
    } else if state.is_active(key) {
        (
            "resume rejected still stopping: key=",
            "resume target is still stopping, retry later",
        )
    } else {
        match state.group(key) {
            None => ("resume rejected missing group: key=", "resume target group missing"),
            Some(group) => {
                assert(lines_of(logs@) =~= lines_of(logs@) + Seq::<LogView>::empty());
                return if group.task.unread {
                    Some("resume target source has not been read")
                } else {
                    None
                };
            },
        }
    };
    push_entry(logs, entry(LogLevel::Warn, "resume_group", key_text(what, key)));
    Some(text)
}

fn control_log(state: &SchedulerState, control: Control, task_id: TaskId) -> (logs: Vec<Log>)
    requires
        state.wf(),
    ensures
        lines_of(logs@) == control_lines(state@, control, task_id),
{
    let ghost v = state@;
    let (name, tag, group_tag) = names(control);
    let mut logs = no_entries();
    let message = and_task(name.to_owned(), " requested: task_id=", task_id);
    push_entry(&mut logs, entry(LogLevel::Key, tag, message));
    let key = match state.task_key(task_id) {
        Some(key) => key,
        None => {
            let message = and_task(name.to_owned(), " failed task not found: task_id=", task_id);
            push_entry(&mut logs, entry(LogLevel::Warn, tag, message));
            assert(lines_of(logs@) =~= control_lines(v, control, task_id));
            return logs;
        },
    };
    let ghost k = direction::key_view(key);
    let named = and_key(name.to_owned(), " begin: key=", &key);
    let standing = and_flag(
        and_flag(
            and_flag(named, " active=", state.is_active(&key)),
            " queued=",
            state.is_queued(&key),
        ),
        " paused=",
        state.is_paused(&key),
    );
    push_entry(&mut logs, entry(LogLevel::Debug, group_tag, standing));
    let ghost begun = lines_of(logs@);
    if control == Control::Resume {
        if let Some(text) = refusal(state, &key, &mut logs) {
            let named = and_key(
                task_text("resume rejected: task_id=", task_id),
                " key=",
                &key,
            );
            let message = and_text(named, " err=", redact_secrets(text).as_str());
            push_entry(&mut logs, entry(LogLevel::Warn, tag, message));
            assert(lines_of(logs@) =~= control_lines(v, control, task_id));
            return logs;
        }
        assert(refusal_lines(v, k) =~= Seq::empty());
        assert(lines_of(logs@) =~= begun);
        if !state.is_queued(&key) {
            let message = and_count(
                key_text("resume requeued key=", &key),
                " queued_len=",
                longer_queue(state),
            );
            push_entry(&mut logs, entry(LogLevel::Debug, "resume_group", message));
        }
        let message = key_text("resume success: key=", &key);
        push_entry(&mut logs, entry(LogLevel::Debug, "resume_group", message));
        assert(lines_of(logs@) =~= begun + resumed_lines(v, k));
    } else if state.contains_group(&key) && !state.is_active(&key) {
        let message = and_number(
            and_key(name.to_owned(), " status emitted: key=", &key),
            " offset=",
            state.offset(&key),
        );
        push_entry(&mut logs, entry(LogLevel::Debug, group_tag, message));
    }
    let message = and_key(
        and_task(name.to_owned(), " accepted: task_id=", task_id),
        " key=",
        &key,
    );
    push_entry(&mut logs, entry(LogLevel::Key, tag, message));
    assert(lines_of(logs@) =~= control_lines(v, control, task_id));
    logs
}

/// The entries of a command, from the tables that it finds; see
/// [`command_lines`].
pub fn command_log(state: &SchedulerState, cmd: &TransferCmd) -> (logs: Vec<Log>)
    requires
        state.wf(),
    ensures
        lines_of(logs@) == command_lines(state@, *cmd),
{
    match cmd {
        TransferCmd::Enqueue { submission } => enqueue_log(state, &submission.task),
        TransferCmd::EnqueuePaused { submission } => import_log(state, &submission.task),
        TransferCmd::Pause { task_id } => control_log(state, Control::Pause, *task_id),
        TransferCmd::Resume { task_id } => control_log(state, Control::Resume, *task_id),
        TransferCmd::Cancel { task_id } => control_log(state, Control::Cancel, *task_id),
        TransferCmd::Identify { .. } => no_entries(),
        TransferCmd::Snapshot => {
            let mut logs = no_entries();
            let queued = number_text(
                "snapshot requested: queued=",
                state.queued_len() as u64,
            );
            let active = and_number(queued, " active=", state.active_len() as u64);
            let message = and_number(active, " paused=", state.paused_len() as u64);
            push_entry(&mut logs, entry(LogLevel::Debug, "cmd_snapshot", message));
            assert(lines_of(logs@) =~= command_lines(state@, *cmd));
            logs
        },
        TransferCmd::Close => {
            let mut logs = no_entries();
            let active = number_text("close requested: active=", state.active_len() as u64);
            let groups = and_number(active, " groups=", state.groups_len() as u64);
            let queued = and_number(groups, " queued=", state.queued_len() as u64);
            let message = and_number(queued, " paused=", state.paused_len() as u64);
            push_entry(&mut logs, entry(LogLevel::Key, "cmd_close", message));
            assert(lines_of(logs@) =~= command_lines(state@, *cmd));
            logs
        },
    }
}

/// Whether a command makes the scheduler look for transfers to start.
pub open spec fn looks_for_work(v: SchedulerView, cmd: TransferCmd) -> bool {
    match cmd {
        TransferCmd::Enqueue { submission } => !repeated(v, submission.task),
        TransferCmd::Pause { .. } => true,
        TransferCmd::Resume { .. } => true,
        TransferCmd::Identify { .. } => true,
        TransferCmd::Cancel { .. } => true,
        _ => false,
    }
}

/// See [`looks_for_work`].
pub fn may_start(state: &SchedulerState, cmd: &TransferCmd) -> (may: bool)
    ensures
        may == looks_for_work(state@, *cmd),
{
    match cmd {
        TransferCmd::Enqueue { submission } => {
            let leader = leader_of(state, &submission.task);
            assert(repeated(state@, submission.task) == leader is Some);
            leader.is_none()
        },
        TransferCmd::Pause { .. } | TransferCmd::Resume { .. } | TransferCmd::Identify { .. }
        | TransferCmd::Cancel { .. } => true,
        _ => false,
    }
}

// ---------------------------------------------------------------------------
// Worker events
// ---------------------------------------------------------------------------

/// A line about a transfer that goes by a key, which a URL gets into without its
/// secrets.
pub open spec fn keyed_line(level: LogLevel, message: Seq<char>, k: KeyView) -> LogView {
    LogView {
        object_key: Some(log::sanitized(k.1)),
        ..line(level, "worker_event"@, message)
    }
}

/// What is logged of a worker event: progress with every chunk, how a transfer
/// ended, and strays of transfers that are not registered.
pub open spec fn event_lines(v: SchedulerView, event: WorkerEvent) -> Seq<LogView> {
    let k = event.key();
    let known = v.groups.contains_key(k);
    match event {
        WorkerEvent::Progress { next_offset, total_size, .. } => seq![
            line(
                LogLevel::Trace,
                "worker_event"@,
                "progress: key="@ + key_words(k) + " next_offset="@ + text::decimal(
                    next_offset as nat,
                ) + " total_size="@ + text::decimal(total_size as nat),
            ),
        ] + if known {
            Seq::empty()
        } else {
            seq![
                LogView {
                    offset: Some(next_offset),
                    ..keyed_line(
                        LogLevel::Warn,
                        "stray Progress for dead group; ignored next_offset="@ + text::decimal(
                            next_offset as nat,
                        ) + " total_size="@ + text::decimal(total_size as nat),
                        k,
                    )
                },
            ]
        },
        WorkerEvent::Completed { total_size, .. } => seq![
            line(
                LogLevel::Key,
                "worker_event"@,
                "completed: key="@ + key_words(k) + " total_size="@ + text::decimal(
                    total_size as nat,
                ),
            ),
        ] + if known {
            Seq::empty()
        } else {
            seq![
                keyed_line(
                    LogLevel::Warn,
                    "Completed for unknown group; nothing to finalize total_size="@
                        + text::decimal(total_size as nat),
                    k,
                ),
            ]
        },
        WorkerEvent::Failed { error, .. } => if known {
            seq![
                error_fields(
                    LogView {
                        offset: Some(v.offset_of(k)),
                        ..keyed_line(LogLevel::Error, "task failed: "@ + error_words(error), k)
                    },
                    error,
                ),
            ]
        } else {
            seq![
                LogView {
                    error_code: error.code.spec_number(),
                    ..keyed_line(
                        LogLevel::Warn,
                        "Failed for unknown group; nothing to finalize error="@ + error_words(
                            error,
                        ),
                        k,
                    )
                },
            ]
        },
        WorkerEvent::Canceled { .. } => seq![
            line(LogLevel::Key, "worker_event"@, "canceled: key="@ + key_words(k)),
        ] + if v.paused.contains(k) {
            seq![
                line(
                    LogLevel::Key,
                    "worker_event"@,
                    "canceled from pause flow; keep group for resume: key="@ + key_words(k),
                ),
            ]
        } else if known {
            Seq::empty()
        } else {
            seq![
                keyed_line(
                    LogLevel::Warn,
                    "Canceled for unknown group; nothing to finalize"@,
                    k,
                ),
            ]
        },
    }
}

/// That an event came in at all, while the scheduler runs.
pub fn received_entry() -> (log: Log)
    ensures
        line_of(log@) == line(LogLevel::Trace, "worker_loop"@, "worker event received"@),
{
    entry(LogLevel::Trace, "worker_loop", "worker event received".to_owned())
}

fn keyed_entry(level: LogLevel, message: String, key: &UniqueId) -> (log: Log)
    ensures
        line_of(log@) == keyed_line(level, message@, direction::key_view(*key)),
{
    entry(level, "worker_event", message).with_key(sanitize_url(key.1.as_str()))
}

/// The entries of a worker event, from the tables that it finds; see
/// [`event_lines`].
pub fn event_log(state: &SchedulerState, event: &WorkerEvent) -> (logs: Vec<Log>)
    ensures
        lines_of(logs@) == event_lines(state@, *event),
{
    let mut logs = no_entries();
    match event {
        WorkerEvent::Progress { key, next_offset, total_size } => {
            let next = and_number(
                key_text("progress: key=", key),
                " next_offset=",
                *next_offset,
            );
            let message = and_number(next, " total_size=", *total_size);
            push_entry(&mut logs, entry(LogLevel::Trace, "worker_event", message));
            if !state.contains_group(key) {
                let next = number_text(
                    "stray Progress for dead group; ignored next_offset=",
                    *next_offset,
                );
                let message = and_number(next, " total_size=", *total_size);
                push_entry(
                    &mut logs,
                    keyed_entry(LogLevel::Warn, message, key).with_offset(*next_offset),
                );
            }
        },
        WorkerEvent::Completed { key, total_size, .. } => {
            let message = and_number(
                key_text("completed: key=", key),
                " total_size=",
                *total_size,
            );
            push_entry(&mut logs, entry(LogLevel::Key, "worker_event", message));
            if !state.contains_group(key) {
                let message = number_text(
                    "Completed for unknown group; nothing to finalize total_size=",
                    *total_size,
                );
                push_entry(&mut logs, keyed_entry(LogLevel::Warn, message, key));
            }
        },
        WorkerEvent::Failed { key, error, .. } => {
            if state.contains_group(key) {
                let message = error_text("task failed: ", error);
                let placed = keyed_entry(LogLevel::Error, message, key).with_offset(
                    state.offset(key),
                );
                push_entry(&mut logs, with_error(placed, error));
            } else {
                let message = error_text(
                    "Failed for unknown group; nothing to finalize error=",
                    error,
                );
                let stray = keyed_entry(LogLevel::Warn, message, key);
                push_entry(
                    &mut logs,
                    match error.code.number() {
                        Some(number) => stray.with_error_code(number),
                        None => stray,
                    },
                );
            }
        },
        WorkerEvent::Canceled { key, .. } => {
            let message = key_text("canceled: key=", key);
            push_entry(&mut logs, entry(LogLevel::Key, "worker_event", message));
            if state.is_paused(key) {
                let message = key_text(
                    "canceled from pause flow; keep group for resume: key=",
                    key,
                );
                push_entry(&mut logs, entry(LogLevel::Key, "worker_event", message));
            } else if !state.contains_group(key) {
                let message = "Canceled for unknown group; nothing to finalize".to_owned();
                push_entry(&mut logs, keyed_entry(LogLevel::Warn, message, key));
            }
        },
    }
    assert(lines_of(logs@) =~= event_lines(state@, *event));
    logs
}

/// Every event of a registered transfer that ends it or lets it rest is logged at
/// a level that is meant to be kept: as a failure where it failed, and as a
/// checkpoint otherwise.
pub proof fn law_every_end_is_logged(v: SchedulerView, event: WorkerEvent)
    requires
        event.terminal(),
        v.groups.contains_key(event.key()),
    ensures
        event_lines(v, event).len() >= 1,
        forall|i: int|
            0 <= i < event_lines(v, event).len() ==> (#[trigger] event_lines(v, event)[i]).level
                == if event is Failed {
                LogLevel::Error
            } else {
                LogLevel::Key
            },
{
}

// ---------------------------------------------------------------------------
// Starting
// ---------------------------------------------------------------------------

/// Why a transfer is still waiting after everything that could be started was.
pub open spec fn waiting_line(v: SchedulerView, k: KeyView) -> LogView {
    if v.paused.contains(k) {
        line(
            LogLevel::Debug,
            "scheduler"@,
            "skip key paused (requeue): key="@ + key_words(k),
        )
    } else if v.active.contains_key(k) {
        line(LogLevel::Debug, "scheduler"@, "skip key already active: key="@ + key_words(k))
    } else {
        line(
            LogLevel::Trace,
            "scheduler"@,
            "direction concurrency full, requeue key="@ + key_words(k) + " dir="@
                + direction::direction_label(k.0),
        )
    }
}

/// How many workers there were before some were started.
pub open spec fn active_before(v: SchedulerView, started: nat) -> nat {
    if started <= v.active.dom().len() {
        (v.active.dom().len() - started) as nat
    } else {
        0
    }
}

/// What is logged of starting transfers, from the tables that it leaves and how
/// many were started: how the tables stood, why the others wait, and how it
/// ended. That a transfer was started is logged with its own effect.
pub open spec fn start_lines(v: SchedulerView, started: nat) -> Seq<LogView> {
    seq![
        line(
            LogLevel::Debug,
            "scheduler"@,
            "try_start_next begin: queued="@ + text::decimal(v.queued.len() + started)
                + " active="@ + text::decimal(active_before(v, started)) + " paused="@
                + text::decimal(v.paused.len()),
        ),
    ] + Seq::new(v.queued.len(), |i: int| waiting_line(v, v.queued[i])) + seq![
        line(
            LogLevel::Debug,
            "scheduler"@,
            if v.queued.len() == 0 {
                "try_start_next exit: queue empty"@
            } else {
                "try_start_next break: no task scheduled in this round"@
            },
        ),
        line(
            LogLevel::Debug,
            "scheduler"@,
            "try_start_next end: started_count="@ + text::decimal(started),
        ),
    ]
}

fn waiting_entry(state: &SchedulerState, key: &UniqueId) -> (log: Log)
    ensures
        line_of(log@) == waiting_line(state@, direction::key_view(*key)),
{
    if state.is_paused(key) {
        entry(LogLevel::Debug, "scheduler", key_text("skip key paused (requeue): key=", key))
    } else if state.is_active(key) {
        entry(LogLevel::Debug, "scheduler", key_text("skip key already active: key=", key))
    } else {
        let full = key_text("direction concurrency full, requeue key=", key);
        let message = match key.0 {
            Direction::Upload => and_text(full, " dir=", "Upload"),
            Direction::Download => and_text(full, " dir=", "Download"),
        };
        entry(LogLevel::Trace, "scheduler", message)
    }
}

/// The entries of starting transfers; see [`start_lines`].
pub fn start_log(state: &SchedulerState, started: usize) -> (logs: Vec<Log>)
    ensures
        lines_of(logs@) == start_lines(state@, started as nat),
{
    let ghost v = state@;
    let mut logs = no_entries();
    let active: usize = state.active_len().saturating_sub(started);
    let mut queued = "try_start_next begin: queued=".to_owned();
    push_decimal(&mut queued, state.queued_len() as u128 + started as u128);
    let message = and_number(
        and_number(queued, " active=", active as u64),
        " paused=",
        state.paused_len() as u64,
    );
    push_entry(&mut logs, entry(LogLevel::Debug, "scheduler", message));
    let ghost begun = lines_of(logs@);
    let ghost waiting = Seq::new(v.queued.len(), |i: int| waiting_line(v, v.queued[i]));
    let mut i: usize = 0;
    assert(begun =~= begun + waiting.take(0));
    while i < state.queued_len()
        invariant
            state@ == v,
            i <= v.queued.len(),
            waiting == Seq::new(v.queued.len(), |i: int| waiting_line(v, v.queued[i])),
            lines_of(logs@) == begun + waiting.take(i as int),
        decreases v.queued.len() - i,
    {
        push_entry(&mut logs, waiting_entry(state, state.queued_key(i)));
        assert(begun + waiting.take(i as int) + seq![waiting[i as int]] =~= begun + waiting.take(
            i + 1,
        ));
        i += 1;
    }
    assert(waiting.take(i as int) =~= waiting);
    let how = if state.queued_len() == 0 {
        "try_start_next exit: queue empty"
    } else {
        "try_start_next break: no task scheduled in this round"
    };
    push_entry(&mut logs, entry(LogLevel::Debug, "scheduler", how.to_owned()));
    let message = number_text("try_start_next end: started_count=", started as u64);
    push_entry(&mut logs, entry(LogLevel::Debug, "scheduler", message));
    assert(lines_of(logs@) =~= start_lines(v, started as nat));
    logs
}

// ---------------------------------------------------------------------------
// Effects
// ---------------------------------------------------------------------------

/// How a status reads in a line.
pub open spec fn status_words(status: TransferStatus) -> Seq<char> {
    match status {
        TransferStatus::Unset => "Unset"@,
        TransferStatus::Pending => "Pending"@,
        TransferStatus::Transmission => "Transmission"@,
        TransferStatus::Paused => "Paused"@,
        TransferStatus::Complete => "Complete"@,
        TransferStatus::Failed(e) => "Failed("@ + error_words(e) + ")"@,
        TransferStatus::Canceled => "Canceled"@,
    }
}

fn status_text(status: &TransferStatus) -> (text: String)
    ensures
        text@ == status_words(*status),
{
    match status {
        TransferStatus::Unset => "Unset".to_owned(),
        TransferStatus::Pending => "Pending".to_owned(),
        TransferStatus::Transmission => "Transmission".to_owned(),
        TransferStatus::Paused => "Paused".to_owned(),
        TransferStatus::Complete => "Complete".to_owned(),
        TransferStatus::Failed(e) => {
            let mut text = error_text("Failed(", e);
            text.append(")");
            text
        },
        TransferStatus::Canceled => "Canceled".to_owned(),
    }
}

/// What is logged of an effect, from the tables as they are then and the number
/// of global listeners: every report, and every worker that starts.
pub open spec fn effect_lines(v: SchedulerView, effect: Effect, listeners: nat) -> Seq<LogView> {
    match effect {
        Effect::Status { record, .. } => seq![
            line(
                LogLevel::Trace,
                "emit_status"@,
                "status emit start: task_id="@ + record.task_id.spec_text() + " status="@
                    + status_words(record.status) + " transferred="@ + text::decimal(
                    record.transferred as nat,
                ) + " total="@ + text::decimal(record.total_size as nat),
            ),
            line(
                LogLevel::Trace,
                "emit_global_progress"@,
                "broadcast start: listener_count="@ + text::decimal(listeners) + " task_id="@
                    + record.task_id.spec_text(),
            ),
        ],
        Effect::Start { task_id, start_offset } => if v.task_keys.contains_key(task_id.value)
            && v.groups.contains_key(v.task_keys[task_id.value]) {
            let k = v.task_keys[task_id.value];
            seq![
                line(
                    LogLevel::Key,
                    "scheduler"@,
                    "start key="@ + key_words(k) + " from offset="@ + text::decimal(
                        start_offset as nat,
                    ) + " chunk_size="@ + text::decimal(v.groups[k].task.chunk_size as nat),
                ),
            ]
        } else {
            Seq::empty()
        },
        _ => Seq::empty(),
    }
}

/// The entries of an effect; see [`effect_lines`].
pub fn effect_log(state: &SchedulerState, effect: &Effect, listeners: usize) -> (logs: Vec<Log>)
    ensures
        lines_of(logs@) == effect_lines(state@, *effect, listeners as nat),
{
    let mut logs = no_entries();
    match effect {
        Effect::Status { record, .. } => {
            let named = and_text(
                task_text("status emit start: task_id=", record.task_id),
                " status=",
                status_text(&record.status).as_str(),
            );
            let message = and_number(
                and_number(named, " transferred=", record.transferred),
                " total=",
                record.total_size,
            );
            push_entry(&mut logs, entry(LogLevel::Trace, "emit_status", message));
            let message = and_task(
                number_text("broadcast start: listener_count=", listeners as u64),
                " task_id=",
                record.task_id,
            );
            push_entry(&mut logs, entry(LogLevel::Trace, "emit_global_progress", message));
        },
        Effect::Start { task_id, start_offset } => {
            if let Some(key) = state.task_key(*task_id) {
                if let Some(group) = state.group(&key) {
                    let placed = and_number(
                        key_text("start key=", &key),
                        " from offset=",
                        *start_offset,
                    );
                    let message = and_number(placed, " chunk_size=", group.task.chunk_size);
                    push_entry(&mut logs, entry(LogLevel::Key, "scheduler", message));
                }
            }
        },
        _ => {},
    }
    assert(lines_of(logs@) =~= effect_lines(state@, *effect, listeners as nat));
    logs
}

/// A protocol could not clean up what a canceled transfer left behind, whether
/// the transfer had a worker or not. Parts that stay may go on costing money.
pub fn abort_failure_entry(key: &UniqueId, had_worker: bool, e: &MeowError) -> (log: Log)
    ensures
        line_of(log@) == line(
            LogLevel::Warn,
            "cancel_group"@,
            (if had_worker {
                "protocol abort failed after worker quiesced: key="@
            } else {
                "protocol abort failed but continue cleanup: key="@
            }) + key_words(direction::key_view(*key)) + " err="@ + error_words(*e),
        ),
{
    let what = if had_worker {
        "protocol abort failed after worker quiesced: key="
    } else {
        "protocol abort failed but continue cleanup: key="
    };
    entry(LogLevel::Warn, "cancel_group", and_error(key_text(what, key), " err=", e))
}

/// The workers went away while the scheduler was closing.
pub fn lost_workers_entry(active: usize) -> (log: Log)
    ensures
        line_of(log@) == line(
            LogLevel::Error,
            "cmd_close"@,
            "worker event channel closed with "@ + text::decimal(active as nat)
                + " active groups"@,
        ),
{
    let mut message = number_text("worker event channel closed with ", active as u64);
    message.append(" active groups");
    entry(LogLevel::Error, "cmd_close", message)
}

/// The scheduler has closed.
pub fn closed_entry() -> (log: Log)
    ensures
        line_of(log@) == line(
            LogLevel::Key,
            "cmd_close"@,
            "close finished, worker loop exiting"@,
        ),
{
    entry(LogLevel::Key, "cmd_close", "close finished, worker loop exiting".to_owned())
}

} // verus!
