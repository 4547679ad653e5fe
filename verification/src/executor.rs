//! The scheduler loop: which command or worker event leads to what.
//!
//! The loop itself only waits for the next command or event and carries out
//! the effects; [`SchedulerLoop`] holds everything that it decides.

use vstd::prelude::*;
use vstd::string::*;

use crate::direction;
use crate::direction::{Direction, KeyView, UniqueId};
use crate::effect;
use crate::effect::{no_effects, push_effect, Effect, EffectView};
use crate::error;
use crate::error::{InnerErrorCode, MeowError};
use crate::ids::TaskId;
use crate::lifecycle::{DeferredStop, TerminalState, TransferLifecycle};
use crate::pounce_task::LocalPath;
use crate::scheduler;
use crate::scheduler::{begin_close, cancel_group, enqueue_group, enqueue_paused_group, handle_worker_event, identify_group, pause_group, resume_group, try_start_next, Step, Submission};
use crate::scheduler_state;
use crate::scheduler_state::{ActiveState, SchedulerState, SchedulerView};
use crate::transfer_status::TransferSnapshot;
use crate::worker_event::WorkerEvent;

verus! {

/// What clients ask of the scheduler.
pub enum TransferCmd {
    Enqueue { submission: Submission },
    EnqueuePaused { submission: Submission },
    Pause { task_id: TaskId },
    Resume { task_id: TaskId },
    /// The file of an imported upload was read: its signature, or why not.
    Identify { task_id: TaskId, read: Result<String, MeowError> },
    Cancel { task_id: TaskId },
    Snapshot,
    Close,
}

/// What the sender of a command is answered.
pub enum Reply {
    /// Submissions are not answered.
    Nothing,
    Control(Result<(), MeowError>),
    Snapshot(TransferSnapshot),
    /// The answer follows when the last worker has come to rest.
    Later,
}

/// Where the loop is in its life.
#[derive(Debug, Clone, Copy, PartialEq, Eq, Structural)]
pub enum Phase {
    Running,
    /// Close was requested; workers are coming to rest.
    Closing,
    Stopped,
}

/// A step, followed by the start of what can be started then.
pub open spec fn and_start(step: Step) -> Step {
    let started = scheduler::start_step(step.state);
    Step { state: started.state, effects: step.effects + started.effects }
}

/// What has to happen before a terminal event may be reported: the source file
/// of an upload is closed, and where an upload was canceled while it ran, the
/// protocol cleans up only now, when no completing request can race it.
pub open spec fn quiescence_effects(v: SchedulerView, event: WorkerEvent) -> Seq<EffectView> {
    let k = event.key();
    if !event.terminal() || !v.groups.contains_key(k) {
        Seq::empty()
    } else {
        let task = v.groups[k].task;
        let latch = v.groups[k].lifecycle;
        (if task.reads_file() {
            seq![EffectView::ReleaseUploadFile { task_id: task.task_id }]
        } else {
            Seq::empty()
        }) + (if !(event is Completed) && k.0 == Direction::Upload && v.canceling.contains(k) {
            seq![EffectView::Abort { task_id: task.task_id, latch }]
        } else {
            Seq::empty()
        })
    }
}

/// What a worker event leads to, cleanup first.
pub open spec fn quiescent_step(v: SchedulerView, event: WorkerEvent) -> Step {
    let step = scheduler::worker_event_step(v, event);
    Step { state: step.state, effects: quiescence_effects(v, event) + step.effects }
}

/// What a worker event leads to while the loop runs.
pub open spec fn running_event_step(v: SchedulerView, event: WorkerEvent) -> Step {
    if event.terminal() {
        and_start(quiescent_step(v, event))
    } else {
        quiescent_step(v, event)
    }
}

/// What a command on a task leads to; nothing where nobody knows the task.
pub open spec fn control_step(v: SchedulerView, cmd: TransferCmd) -> Step {
    let id = match cmd {
        TransferCmd::Pause { task_id } => task_id.value,
        TransferCmd::Resume { task_id } => task_id.value,
        TransferCmd::Identify { task_id, .. } => task_id.value,
        TransferCmd::Cancel { task_id } => task_id.value,
        _ => 0,
    };
    if !v.task_keys.contains_key(id) {
        Step { state: v, effects: Seq::empty() }
    } else {
        let k = v.task_keys[id];
        match cmd {
            TransferCmd::Pause { .. } => scheduler::pause_step(v, k),
            TransferCmd::Resume { .. } => scheduler::resume_step(v, k),
            TransferCmd::Identify { read, .. } => Step {
                state: scheduler::identify_state(v, k, read),
                effects: Seq::empty(),
            },
            _ => scheduler::cancel_step(v, k),
        }
    }
}

/// Whether `leader` is the transfer that a submission repeats, if any; other
/// commands repeat none.
pub open spec fn is_leader_of(v: SchedulerView, cmd: TransferCmd, leader: Option<KeyView>) -> bool {
    match cmd {
        TransferCmd::Enqueue { submission } => scheduler::is_leader(v, submission.task, leader),
        TransferCmd::EnqueuePaused { submission } => scheduler::is_leader(
            v,
            submission.task,
            leader,
        ),
        _ => leader is None,
    }
}

/// What a command other than `Close` leads to, where `leader` is the transfer
/// that it repeats, if any.
pub open spec fn command_step(
    v: SchedulerView,
    cmd: TransferCmd,
    leader: Option<KeyView>,
) -> Step {
    match cmd {
        TransferCmd::Enqueue { submission } => {
            let step = scheduler::enqueue_step(v, submission, leader);
            if leader is Some {
                step
            } else {
                and_start(step)
            }
        },
        TransferCmd::EnqueuePaused { submission } => scheduler::enqueue_paused_step(
            v,
            submission,
            leader,
        ),
        TransferCmd::Snapshot => Step { state: v, effects: Seq::empty() },
        TransferCmd::Close => Step { state: v, effects: Seq::empty() },
        _ => and_start(control_step(v, cmd)),
    }
}

/// The text of the refusal of a command on an unknown task.
pub open spec fn task_not_found_text(task_id: TaskId) -> Seq<char> {
    "task not found: "@ + task_id.spec_text()
}

/// Whether `result` is what a command on a task is answered: an unknown task is
/// refused, a resume or an identification may be refused for the transfer's
/// state, and everything else is accepted.
pub open spec fn control_answer(
    v: SchedulerView,
    cmd: TransferCmd,
    result: Result<(), MeowError>,
) -> bool {
    let id = match cmd {
        TransferCmd::Pause { task_id } => task_id,
        TransferCmd::Resume { task_id } => task_id,
        TransferCmd::Identify { task_id, .. } => task_id,
        TransferCmd::Cancel { task_id } => task_id,
        _ => TaskId { value: 0 },
    };
    if !v.task_keys.contains_key(id.value) {
        error::fails_with(result, InnerErrorCode::TaskNotFound, task_not_found_text(id))
    } else if cmd is Resume {
        match scheduler::resume_refusal(v, v.task_keys[id.value]) {
            Some(text) => error::fails_with(result, InnerErrorCode::InvalidTaskState, text),
            None => result is Ok,
        }
    } else if cmd is Identify {
        scheduler::identify_answer(v, v.task_keys[id.value], cmd->read, result)
    } else {
        result is Ok
    }
}

/// Whether a snapshot shows these tables; running transfers come in any order.
pub open spec fn shows(v: SchedulerView, snapshot: TransferSnapshot) -> bool {
    &&& snapshot.queued_groups == v.queued.len()
    &&& snapshot.active_groups == v.active.dom().len()
    &&& crate::key_map::lists_keys(snapshot.active_keys@, v.active.dom())
}

/// The tables after shutdown.
pub open spec fn stopped_state(v: SchedulerView) -> SchedulerView {
    SchedulerView {
        callbacks_open: false,
        ..SchedulerView::fresh(v.max_uploads, v.max_downloads)
    }
}

/// A step of a closing loop: when no worker is left, everything is forgotten
/// and the callbacks are closed.
pub open spec fn and_finish(step: Step) -> Step {
    if step.state.active == Map::<KeyView, ActiveState>::empty() {
        Step {
            state: stopped_state(step.state),
            effects: step.effects + seq![EffectView::CloseCallbacks],
        }
    } else {
        step
    }
}

/// The refusal of a command on an unknown task.
pub fn task_not_found_error(task_id: TaskId) -> (e: MeowError)
    ensures
        error::is_error(e, InnerErrorCode::TaskNotFound, task_not_found_text(task_id)),
{
    let mut text = "task not found: ".to_owned();
    text.append(task_id.text().as_str());
    MeowError::from_code(InnerErrorCode::TaskNotFound, text)
}

/// Appends the effects of a later step.
fn append_effects(effects: &mut Vec<Effect>, more: Vec<Effect>)
    ensures
        effect::effect_views(final(effects)@) == effect::effect_views(old(effects)@)
            + effect::effect_views(more@),
{
    let ghost added = more@;
    let mut more = more;
    effects.append(&mut more);
    assert(effects@ == old(effects)@ + added);
    assert(effect::effect_views(effects@) =~= effect::effect_views(old(effects)@)
        + effect::effect_views(added));
}

/// Applies a worker event after the cleanup that has to come first; see
/// [`quiescent_step`].
pub fn handle_quiescent_worker_event(event: WorkerEvent, state: &mut SchedulerState) -> (effects:
    Vec<Effect>)
    requires
        old(state).wf(),
    ensures
        final(state).wf(),
        (Step { state: final(state)@, effects: effect::effect_views(effects@) }) == quiescent_step(
            old(state)@,
            event,
        ),
{
    let ghost v = state@;
    let mut effects = no_effects();
    let (abortable, key) = match &event {
        WorkerEvent::Progress { key, .. } => (false, key),
        WorkerEvent::Completed { key, .. } => (false, key),
        WorkerEvent::Failed { key, .. } => (true, key),
        WorkerEvent::Canceled { key, .. } => (true, key),
    };
    if event.may_change_scheduler_readiness() {
        if let Some(group) = state.group(key) {
            let task_id = group.task.task_id;
            let latch = group.lifecycle;
            if group.task.has_upload_file() {
                push_effect(&mut effects, Effect::ReleaseUploadFile { task_id });
            }
            if abortable && key.0 == Direction::Upload && state.is_canceling(key) {
                push_effect(&mut effects, Effect::Abort { task_id, latch });
            }
        }
    }
    assert(effect::effect_views(effects@) =~= quiescence_effects(v, event));
    let reported = handle_worker_event(event, state);
    append_effects(&mut effects, reported);
    effects
}

/// The scheduler's tables and the phase of its loop.
pub struct SchedulerLoop {
    pub state: SchedulerState,
    pub phase: Phase,
}

impl SchedulerLoop {
    pub fn new(max_upload_concurrency: usize, max_download_concurrency: usize) -> (this: Self)
        ensures
            this.state.wf(),
            this.state@ == SchedulerView::fresh(
                max_upload_concurrency as nat,
                max_download_concurrency as nat,
            ),
            this.phase == Phase::Running,
    {
        SchedulerLoop {
            state: SchedulerState::new(max_upload_concurrency, max_download_concurrency),
            phase: Phase::Running,
        }
    }

    /// Starts what can be started and appends the effects.
    fn start_more(&mut self, effects: &mut Vec<Effect>)
        requires
            old(self).state.wf(),
        ensures
            final(self).state.wf(),
            final(self).phase == old(self).phase,
            (Step {
                state: final(self).state@,
                effects: effect::effect_views(final(effects)@),
            }) == and_start(
                (Step {
                    state: old(self).state@,
                    effects: effect::effect_views(old(effects)@),
                }),
            ),
    {
        let started = try_start_next(&mut self.state);
        append_effects(effects, started);
    }

    /// Ends the loop if no worker is left.
    fn finish_if_idle(&mut self, effects: &mut Vec<Effect>)
        requires
            old(self).state.wf(),
            old(self).phase == Phase::Closing,
        ensures
            final(self).state.wf(),
            final(self).phase == if old(self).state@.active == Map::<
                KeyView,
                ActiveState,
            >::empty() {
                Phase::Stopped
            } else {
                Phase::Closing
            },
            (Step {
                state: final(self).state@,
                effects: effect::effect_views(final(effects)@),
            }) == and_finish(
                (Step {
                    state: old(self).state@,
                    effects: effect::effect_views(old(effects)@),
                }),
            ),
    {
        if self.state.active_len() == 0 {
            self.finish(effects);
        }
    }

    /// Forgets everything, closes the callbacks and ends the loop.
    fn finish(&mut self, effects: &mut Vec<Effect>)
        requires
            old(self).state.wf(),
        ensures
            final(self).state.wf(),
            final(self).phase == Phase::Stopped,
            final(self).state@ == stopped_state(old(self).state@),
            effect::effect_views(final(effects)@) == effect::effect_views(old(effects)@)
                + seq![EffectView::CloseCallbacks],
    {
        self.state.clear();
        push_effect(effects, Effect::CloseCallbacks);
        self.phase = Phase::Stopped;
    }

    /// Takes the next command of a running loop.
    ///
    /// `Close` stops the workers and reports every transfer without one as
    /// paused. It is answered once the last worker has come to rest; until
    /// then no command is taken and nothing is started.
    pub fn on_command(&mut self, cmd: TransferCmd) -> (outcome: (Reply, Vec<Effect>))
        requires
            old(self).state.wf(),
            old(self).phase == Phase::Running,
        ensures
            final(self).state.wf(),
            !(cmd is Close) ==> {
                &&& final(self).phase == Phase::Running
                &&& exists|leader: Option<KeyView>|
                    is_leader_of(old(self).state@, cmd, leader) && (Step {
                        state: final(self).state@,
                        effects: effect::effect_views(outcome.1@),
                    }) == #[trigger] command_step(old(self).state@, cmd, leader)
            },
            cmd is Close ==> exists|step: Step|
                {
                    &&& #[trigger] scheduler::is_close_step(old(self).state@, step)
                    &&& (Step {
                        state: final(self).state@,
                        effects: effect::effect_views(outcome.1@),
                    }) == and_finish(step)
                    &&& final(self).phase == if step.state.active == Map::<
                        KeyView,
                        ActiveState,
                    >::empty() {
                        Phase::Stopped
                    } else {
                        Phase::Closing
                    }
                },
            match outcome.0 {
                Reply::Nothing => cmd is Enqueue || cmd is EnqueuePaused,
                Reply::Control(result) => {
                    ||| (cmd is Pause || cmd is Resume || cmd is Identify || cmd is Cancel)
                        && control_answer(
                        old(self).state@,
                        cmd,
                        result,
                    )
                    ||| cmd is Close && result is Ok && final(self).phase == Phase::Stopped
                },
                Reply::Snapshot(snapshot) => cmd is Snapshot && shows(old(self).state@, snapshot),
                Reply::Later => cmd is Close && final(self).phase == Phase::Closing,
            },
    {
        let ghost v = self.state@;
        match cmd {
            TransferCmd::Enqueue { submission } => {
                let (leader, mut effects) = enqueue_group(&mut self.state, submission);
                if leader.is_none() {
                    self.start_more(&mut effects);
                }
                assert((Step {
                    state: self.state@,
                    effects: effect::effect_views(effects@),
                }) == command_step(v, cmd, scheduler::leader_view(leader)));
                (Reply::Nothing, effects)
            },
            TransferCmd::EnqueuePaused { submission } => {
                let (leader, effects) = enqueue_paused_group(&mut self.state, submission);
                assert((Step {
                    state: self.state@,
                    effects: effect::effect_views(effects@),
                }) == command_step(v, cmd, scheduler::leader_view(leader)));
                (Reply::Nothing, effects)
            },
            TransferCmd::Pause { task_id } => {
                let (result, mut effects) = match self.state.task_key(task_id) {
                    Some(key) => (Ok(()), pause_group(&mut self.state, &key)),
                    None => (Err(task_not_found_error(task_id)), no_effects()),
                };
                self.start_more(&mut effects);
                assert((Step {
                    state: self.state@,
                    effects: effect::effect_views(effects@),
                }) == command_step(v, cmd, None));
                (Reply::Control(result), effects)
            },
            TransferCmd::Resume { task_id } => {
                let (result, mut effects) = match self.state.task_key(task_id) {
                    Some(key) => resume_group(&mut self.state, &key),
                    None => (Err(task_not_found_error(task_id)), no_effects()),
                };
                self.start_more(&mut effects);
                assert((Step {
                    state: self.state@,
                    effects: effect::effect_views(effects@),
                }) == command_step(v, cmd, None));
                (Reply::Control(result), effects)
            },
            TransferCmd::Identify { task_id, read } => {
                let result = match self.state.task_key(task_id) {
                    Some(key) => identify_group(&mut self.state, &key, read),
                    None => Err(task_not_found_error(task_id)),
                };
                let mut effects = no_effects();
                self.start_more(&mut effects);
                assert((Step {
                    state: self.state@,
                    effects: effect::effect_views(effects@),
                }) == command_step(v, cmd, None));
                (Reply::Control(result), effects)
            },
            TransferCmd::Cancel { task_id } => {
                let (result, mut effects) = match self.state.task_key(task_id) {
                    Some(key) => (Ok(()), cancel_group(&mut self.state, &key)),
                    None => (Err(task_not_found_error(task_id)), no_effects()),
                };
                self.start_more(&mut effects);
                assert((Step {
                    state: self.state@,
                    effects: effect::effect_views(effects@),
                }) == command_step(v, cmd, None));
                (Reply::Control(result), effects)
            },
            TransferCmd::Snapshot => {
                let snapshot = TransferSnapshot {
                    queued_groups: self.state.queued_len(),
                    active_groups: self.state.active_len(),
                    active_keys: self.state.active_keys(),
                };
                let effects = no_effects();
                assert((Step {
                    state: self.state@,
                    effects: effect::effect_views(effects@),
                }) == command_step(v, cmd, None));
                (Reply::Snapshot(snapshot), effects)
            },
            TransferCmd::Close => {
                self.phase = Phase::Closing;
                let mut effects = begin_close(&mut self.state);
                let ghost step = Step {
                    state: self.state@,
                    effects: effect::effect_views(effects@),
                };
                assert(scheduler::is_close_step(v, step));
                self.finish_if_idle(&mut effects);
                match self.phase {
                    Phase::Stopped => (Reply::Control(Ok(())), effects),
                    _ => (Reply::Later, effects),
                }
            },
        }
    }

    /// Takes the next worker event. While the loop is closing nothing new is
    /// started, and when the last worker has come to rest the loop ends; the
    /// close is answered then.
    pub fn on_event(&mut self, event: WorkerEvent) -> (effects: Vec<Effect>)
        requires
            old(self).state.wf(),
            old(self).phase != Phase::Stopped,
        ensures
            final(self).state.wf(),
            old(self).phase == Phase::Running ==> {
                &&& final(self).phase == Phase::Running
                &&& (Step {
                    state: final(self).state@,
                    effects: effect::effect_views(effects@),
                }) == running_event_step(old(self).state@, event)
            },
            old(self).phase == Phase::Closing ==> {
                let step = quiescent_step(old(self).state@, event);
                &&& (Step {
                    state: final(self).state@,
                    effects: effect::effect_views(effects@),
                }) == and_finish(step)
                &&& final(self).phase == if step.state.active == Map::<
                    KeyView,
                    ActiveState,
                >::empty() {
                    Phase::Stopped
                } else {
                    Phase::Closing
                }
            },
    {
        let start = event.may_change_scheduler_readiness();
        let mut effects = handle_quiescent_worker_event(event, &mut self.state);
        match self.phase {
            Phase::Running => {
                if start {
                    self.start_more(&mut effects);
                }
            },
            _ => {
                self.finish_if_idle(&mut effects);
            },
        }
        effects
    }

    /// Ends the loop when its clients are gone, or when its workers are gone
    /// while it is closing. Clients that are gone without a close leave the
    /// tables as they are; only the callbacks are closed.
    pub fn on_disconnect(&mut self) -> (effects: Vec<Effect>)
        requires
            old(self).state.wf(),
            old(self).phase != Phase::Stopped,
        ensures
            final(self).state.wf(),
            final(self).phase == Phase::Stopped,
            final(self).state@ == if old(self).phase == Phase::Running {
                SchedulerView { callbacks_open: false, ..old(self).state@ }
            } else {
                stopped_state(old(self).state@)
            },
            effect::effect_views(effects@) == seq![EffectView::CloseCallbacks],
    {
        let mut effects = no_effects();
        match self.phase {
            Phase::Running => {
                self.state.take_cb_submit();
                push_effect(&mut effects, Effect::CloseCallbacks);
                self.phase = Phase::Stopped;
            },
            _ => {
                self.finish(&mut effects);
            },
        }
        assert(effect::effect_views(effects@) =~= seq![EffectView::CloseCallbacks]);
        effects
    }
}

impl SchedulerLoop {
    /// The file that has to be read before a task can be resumed, if any: that
    /// of an upload that was imported and rests.
    pub fn source_to_read(&self, task_id: TaskId) -> (path: Option<LocalPath>)
        ensures
            path is Some <==> self.state@.task_keys.contains_key(task_id.value)
                && scheduler::awaits_source(
                self.state@,
                self.state@.task_keys[task_id.value],
            ),
            path matches Some(path) ==> path.bytes@
                == self.state@.groups[self.state@.task_keys[task_id.value]].task.source_path(),
    {
        let key = match self.state.task_key(task_id) {
            Some(key) => key,
            None => {
                return None;
            },
        };
        if !self.state.is_paused(&key) || self.state.is_active(&key) {
            return None;
        }
        match self.state.group(&key) {
            Some(group) => if group.task.unread {
                Some(group.task.source().clone())
            } else {
                None
            },
            None => None,
        }
    }

    /// A worker claims the latch of its transfer before the request that
    /// completes it. Without the claim that request must not be made.
    pub fn begin_completion(&mut self, key: &UniqueId) -> (claimed: bool)
        requires
            old(self).state.wf(),
        ensures
            final(self).state.wf(),
            final(self).phase == old(self).phase,
            claimed <==> (old(self).latch(direction::key_view(*key)) matches Some(latch)
                && latch.terminal == TerminalState::Open),
            final(self).state@ == if claimed {
                scheduler_state::with_lifecycle(
                    old(self).state@,
                    direction::key_view(*key),
                    TransferLifecycle {
                        terminal: TerminalState::Completing,
                        ..old(self).latch(direction::key_view(*key))->Some_0
                    },
                )
            } else {
                old(self).state@
            },
    {
        match self.state.lifecycle(key) {
            Some(lifecycle) => {
                let mut lifecycle = lifecycle;
                if lifecycle.begin_completion() {
                    self.state.set_lifecycle(key, lifecycle);
                    true
                } else {
                    false
                }
            },
            None => false,
        }
    }

    /// The latch of a registered transfer.
    pub open spec fn latch(self, k: KeyView) -> Option<TransferLifecycle> {
        if self.state@.groups.contains_key(k) {
            Some(self.state@.groups[k].lifecycle)
        } else {
            None
        }
    }

    /// A worker saw its transfer completed on the remote side, which outranks
    /// every request to stop it.
    pub fn acknowledge_completion(&mut self, key: &UniqueId)
        requires
            old(self).state.wf(),
        ensures
            final(self).state.wf(),
            final(self).phase == old(self).phase,
            final(self).state@ == match old(self).latch(direction::key_view(*key)) {
                Some(latch) => scheduler_state::with_lifecycle(
                    old(self).state@,
                    direction::key_view(*key),
                    TransferLifecycle { terminal: TerminalState::Completing, ..latch },
                ),
                None => old(self).state@,
            },
    {
        match self.state.lifecycle(key) {
            Some(lifecycle) => {
                let mut lifecycle = lifecycle;
                lifecycle.acknowledge_completion();
                self.state.set_lifecycle(key, lifecycle);
            },
            None => {},
        }
    }

    /// The request that was to complete a transfer has returned without doing
    /// so; a stop that was requested meanwhile takes effect now.
    pub fn finish_incomplete_completion(&mut self, key: &UniqueId) -> (stop: Option<DeferredStop>)
        requires
            old(self).state.wf(),
        ensures
            final(self).state.wf(),
            final(self).phase == old(self).phase,
            match old(self).latch(direction::key_view(*key)) {
                Some(latch) => stop == latch.terminal.incomplete().1 && final(self).state@
                    == scheduler_state::with_lifecycle(
                    old(self).state@,
                    direction::key_view(*key),
                    TransferLifecycle { terminal: latch.terminal.incomplete().0, ..latch },
                ),
                None => stop is None && final(self).state@ == old(self).state@,
            },
    {
        match self.state.lifecycle(key) {
            Some(lifecycle) => {
                let mut lifecycle = lifecycle;
                let stop = lifecycle.finish_incomplete_completion();
                self.state.set_lifecycle(key, lifecycle);
                stop
            },
            None => None,
        }
    }
}

/// The kinds of command, for messages.
#[derive(Debug, Clone, Copy, PartialEq, Eq, Structural)]
pub enum CommandKind {
    Enqueue,
    EnqueuePaused,
    Pause,
    Resume,
    Cancel,
    Snapshot,
    Close,
}

/// What is said of a command that could not be sent.
pub open spec fn send_failure_text(kind: CommandKind) -> Seq<char> {
    match kind {
        CommandKind::Enqueue => "try_enqueue_failed: "@,
        CommandKind::EnqueuePaused => "try_enqueue_paused_failed: "@,
        CommandKind::Pause => "pause_failed: "@,
        CommandKind::Resume => "resume_failed: "@,
        CommandKind::Cancel => "cancel_failed: "@,
        CommandKind::Snapshot => "snapshot cmd_tx send failed: "@,
        CommandKind::Close => "close_failed: "@,
    }
}

/// What is said of a command that was never answered. Submissions expect no
/// answer.
pub open spec fn response_failure_text(kind: CommandKind) -> Seq<char> {
    match kind {
        CommandKind::Enqueue | CommandKind::EnqueuePaused => ""@,
        CommandKind::Pause => "pause response failed: "@,
        CommandKind::Resume => "resume response failed: "@,
        CommandKind::Cancel => "cancel response failed: "@,
        CommandKind::Snapshot => "snapshot rx.await failed: "@,
        CommandKind::Close => "close response failed: "@,
    }
}

/// The error of a command that could not be sent, for a given reason.
pub fn command_send_error(kind: CommandKind, reason: &str) -> (e: MeowError)
    ensures
        error::is_error(
            e,
            InnerErrorCode::CommandSendFailed,
            send_failure_text(kind) + reason@,
        ),
{
    let mut text = match kind {
        CommandKind::Enqueue => "try_enqueue_failed: ".to_owned(),
        CommandKind::EnqueuePaused => "try_enqueue_paused_failed: ".to_owned(),
        CommandKind::Pause => "pause_failed: ".to_owned(),
        CommandKind::Resume => "resume_failed: ".to_owned(),
        CommandKind::Cancel => "cancel_failed: ".to_owned(),
        CommandKind::Snapshot => "snapshot cmd_tx send failed: ".to_owned(),
        CommandKind::Close => "close_failed: ".to_owned(),
    };
    text.append(reason);
    MeowError::from_code(InnerErrorCode::CommandSendFailed, text)
}

/// The error of a command that was never answered, for a given reason.
pub fn command_response_error(kind: CommandKind, reason: &str) -> (e: MeowError)
    ensures
        error::is_error(
            e,
            InnerErrorCode::CommandResponseFailed,
            response_failure_text(kind) + reason@,
        ),
{
    let mut text = match kind {
        CommandKind::Enqueue | CommandKind::EnqueuePaused => "".to_owned(),
        CommandKind::Pause => "pause response failed: ".to_owned(),
        CommandKind::Resume => "resume response failed: ".to_owned(),
        CommandKind::Cancel => "cancel response failed: ".to_owned(),
        CommandKind::Snapshot => "snapshot rx.await failed: ".to_owned(),
        CommandKind::Close => "close response failed: ".to_owned(),
    };
    text.append(reason);
    MeowError::from_code(InnerErrorCode::CommandResponseFailed, text)
}

} // verus!
