//! The scheduler's decisions: what worker events and commands do to its tables,
//! and what they make it ask for.

use vstd::prelude::*;

use crate::direction;
use crate::direction::{copy_key, Direction, KeyView, UniqueId};
use crate::effect;
use crate::effect::{emit_complete, emit_status, no_effects, push_effect, Effect, EffectView, StatusView};
use crate::error::{InnerErrorCode, MeowError};
use crate::inner_task::InnerTask;
use crate::lifecycle::{StopRequestDisposition, TransferLifecycle};
use crate::scheduler_state;
use crate::scheduler_state::{ActiveState, GroupState, SchedulerState, SchedulerView};
use crate::transfer_status::TransferStatus;
use crate::worker_event::WorkerEvent;

verus! {

/// What a step of the scheduler leads to: new tables and things to do.
#[verifier::ext_equal]
pub struct Step {
    pub state: SchedulerView,
    pub effects: Seq<EffectView>,
}

pub open spec fn larger(a: u64, b: u64) -> u64 {
    if a >= b {
        a
    } else {
        b
    }
}

fn max_u64(a: u64, b: u64) -> (max: u64)
    ensures
        max == larger(a, b),
{
    if a >= b {
        a
    } else {
        b
    }
}

/// The tables without any trace of a transfer that has come to its end.
pub open spec fn ended(v: SchedulerView, k: KeyView) -> SchedulerView {
    SchedulerView {
        groups: v.groups.remove(k),
        task_keys: if v.groups.contains_key(k) {
            v.task_keys.remove(v.groups[k].task.task_id.value)
        } else {
            v.task_keys
        },
        paused: v.paused.remove(k),
        active: v.active.remove(k),
        canceling: v.canceling.remove(k),
        offsets: v.offsets.remove(k),
        known_totals: v.known_totals.remove(k),
        ..v
    }
}

/// What a worker event does.
///
/// Progress counts only while the transfer is registered, and an unknown total
/// never replaces a known one. A terminal event ends the transfer; its report
/// carries the largest total known from anywhere. The exception is a worker
/// that stopped because of a pause: it leaves the transfer registered and its
/// latch open again, and the pause is reported only now.
pub open spec fn worker_event_step(v: SchedulerView, event: WorkerEvent) -> Step {
    let k = event.key();
    match event {
        WorkerEvent::Progress { next_offset, total_size, .. } => {
            if v.groups.contains_key(k) {
                let after = SchedulerView {
                    offsets: v.offsets.insert(k, next_offset),
                    known_totals: if total_size > 0 {
                        v.known_totals.insert(k, total_size)
                    } else {
                        v.known_totals
                    },
                    ..v
                };
                Step {
                    state: after,
                    effects: effect::status_effects(
                        v.callbacks_open,
                        v.groups[k],
                        StatusView::Transmission,
                        next_offset,
                        larger(total_size, after.effective_total(k, v.groups[k].task)),
                    ),
                }
            } else {
                Step { state: v, effects: Seq::empty() }
            }
        },
        WorkerEvent::Completed { total_size, completion_payload, .. } => Step {
            state: ended(v, k),
            effects: if v.groups.contains_key(k) {
                let total = larger(total_size, v.effective_total(k, v.groups[k].task));
                effect::status_effects(
                    v.callbacks_open,
                    v.groups[k],
                    StatusView::Complete,
                    total,
                    total,
                ) + effect::complete_effects(
                    v.callbacks_open,
                    v.groups[k],
                    effect::text_view(completion_payload),
                )
            } else {
                Seq::empty()
            },
        },
        WorkerEvent::Failed { error, total_size, .. } => Step {
            state: ended(v, k),
            effects: if v.groups.contains_key(k) {
                effect::status_effects(
                    v.callbacks_open,
                    v.groups[k],
                    effect::error_status(error),
                    v.offset_of(k),
                    larger(total_size, v.effective_total(k, v.groups[k].task)),
                )
            } else {
                Seq::empty()
            },
        },
        WorkerEvent::Canceled { total_size, .. } => {
            if v.paused.contains(k) {
                let at_rest = SchedulerView {
                    active: v.active.remove(k),
                    canceling: v.canceling.remove(k),
                    ..v
                };
                if v.groups.contains_key(k) {
                    let group = GroupState {
                        lifecycle: TransferLifecycle {
                            terminal: v.groups[k].lifecycle.terminal.pause_reset(),
                            ..v.groups[k].lifecycle
                        },
                        ..v.groups[k]
                    };
                    Step {
                        state: SchedulerView { groups: v.groups.insert(k, group), ..at_rest },
                        effects: effect::status_effects(
                            v.callbacks_open,
                            group,
                            StatusView::Paused,
                            v.offset_of(k),
                            larger(total_size, v.effective_total(k, group.task)),
                        ),
                    }
                } else {
                    Step { state: at_rest, effects: Seq::empty() }
                }
            } else {
                Step {
                    state: ended(v, k),
                    effects: if v.groups.contains_key(k) {
                        effect::status_effects(
                            v.callbacks_open,
                            v.groups[k],
                            StatusView::Canceled,
                            v.offset_of(k),
                            larger(total_size, v.effective_total(k, v.groups[k].task)),
                        )
                    } else {
                        Seq::empty()
                    },
                }
            }
        },
    }
}

/// Removes every trace of a transfer and hands out its registration, with the
/// offset and the total that were known.
fn end_transfer(state: &mut SchedulerState, key: &UniqueId) -> (group: Option<
    (GroupState, u64, u64),
>)
    requires
        old(state).wf(),
    ensures
        final(state).wf(),
        final(state)@ == ended(old(state)@, direction::key_view(*key)),
        match group {
            Some((g, offset, total)) => {
                &&& old(state)@.groups.contains_key(direction::key_view(*key))
                &&& g == old(state)@.groups[direction::key_view(*key)]
                &&& offset == old(state)@.offset_of(direction::key_view(*key))
                &&& total == old(state)@.effective_total(direction::key_view(*key), g.task)
            },
            None => !old(state)@.groups.contains_key(direction::key_view(*key)),
        },
{
    let ghost v = state@;
    let ghost k = direction::key_view(*key);
    let _ = state.remove_active(key);
    state.remove_paused(key);
    state.remove_canceling(key);
    let group = match state.take_group(key) {
        Some(group) => {
            state.unbind_task(group.task.task_id);
            let offset: u64 = state.offset(key);
            let total: u64 = state.effective_total(key, &group.task);
            Some((group, offset, total))
        },
        None => None,
    };
    state.forget_progress(key);
    assert(state@ =~= ended(v, k));
    group
}

/// Applies a worker event to the tables; see [`worker_event_step`].
pub fn handle_worker_event(event: WorkerEvent, state: &mut SchedulerState) -> (effects: Vec<Effect>)
    requires
        old(state).wf(),
    ensures
        final(state).wf(),
        (Step { state: final(state)@, effects: effect::effect_views(effects@) })
            == worker_event_step(old(state)@, event),
{
    let ghost v = state@;
    let ghost k = event.key();
    let open = state.callbacks_open();
    let mut effects = no_effects();
    match event {
        WorkerEvent::Progress { key, next_offset, total_size } => {
            if state.contains_group(&key) {
                state.set_offset(copy_key(&key), next_offset);
                if total_size > 0 {
                    state.set_known_total(copy_key(&key), total_size);
                }
                if let Some(group) = state.group(&key) {
                    let total = max_u64(total_size, state.effective_total(&key, &group.task));
                    emit_status(
                        &mut effects,
                        open,
                        group,
                        TransferStatus::Transmission,
                        next_offset,
                        total,
                    );
                }
            }
        },
        WorkerEvent::Completed { key, total_size, completion_payload } => {
            if let Some((group, _, known)) = end_transfer(state, &key) {
                let total = max_u64(total_size, known);
                emit_status(&mut effects, open, &group, TransferStatus::Complete, total, total);
                emit_complete(&mut effects, open, &group, completion_payload);
            }
        },
        WorkerEvent::Failed { key, error, total_size } => {
            if let Some((group, current, known)) = end_transfer(state, &key) {
                let total = max_u64(total_size, known);
                emit_status(
                    &mut effects,
                    open,
                    &group,
                    TransferStatus::Failed(error),
                    current,
                    total,
                );
            }
        },
        WorkerEvent::Canceled { key, total_size } => {
            if state.is_paused(&key) {
                let _ = state.remove_active(&key);
                state.remove_canceling(&key);
                if let Some(mut group) = state.take_group(&key) {
                    group.lifecycle.reset_pause();
                    let current: u64 = state.offset(&key);
                    let total = max_u64(total_size, state.effective_total(&key, &group.task));
                    emit_status(&mut effects, open, &group, TransferStatus::Paused, current, total);
                    state.put_group(copy_key(&key), group);
                    assert(state@.groups =~= worker_event_step(v, event).state.groups);
                } else {
                    assert(state@.groups =~= v.groups);
                }
            } else if let Some((group, current, known)) = end_transfer(state, &key) {
                let total = max_u64(total_size, known);
                emit_status(&mut effects, open, &group, TransferStatus::Canceled, current, total);
            }
        },
    }
    assert(effect::effect_views(effects@) =~= worker_event_step(v, event).effects);
    assert(state@ =~= worker_event_step(v, event).state);
    effects
}

// ---------------------------------------------------------------------------
// Starting workers
// ---------------------------------------------------------------------------

/// Whether a worker slot of a direction is free.
pub open spec fn slot_free(v: SchedulerView, direction: Direction) -> bool {
    v.running(direction) < v.limit(direction)
}

/// What happens to one waiting transfer when its turn comes; `v.queued` holds
/// the ones before it that keep waiting.
///
/// A paused or already running transfer keeps waiting, and so does one whose
/// direction has no free slot; one that is no longer registered is dropped;
/// any other is started where its offset stands. The start is reported, but
/// not for a download of unknown size.
pub open spec fn start_one(v: SchedulerView, k: KeyView) -> Step {
    if v.paused.contains(k) || v.active.contains_key(k) || (v.groups.contains_key(k) && !slot_free(
        v,
        k.0,
    )) {
        Step { state: SchedulerView { queued: v.queued.push(k), ..v }, effects: Seq::empty() }
    } else if !v.groups.contains_key(k) {
        Step { state: v, effects: Seq::empty() }
    } else {
        let group = v.groups[k];
        let total = v.effective_total(k, group.task);
        let active = ActiveState { task_id: group.task.task_id, interrupted: false };
        Step {
            state: SchedulerView { active: v.active.insert(k, active), ..v },
            effects: (if k.0 == Direction::Download && total == 0 {
                Seq::empty()
            } else {
                effect::status_effects(
                    v.callbacks_open,
                    group,
                    StatusView::Transmission,
                    v.offset_of(k),
                    total,
                )
            }) + seq![
                EffectView::Start { task_id: group.task.task_id, start_offset: v.offset_of(k) },
            ],
        }
    }
}

/// Gives each of the waiting transfers its turn, in order.
pub open spec fn start_pass(v: SchedulerView, waiting: Seq<KeyView>) -> Step
    decreases waiting.len(),
{
    if waiting.len() == 0 {
        Step { state: v, effects: Seq::empty() }
    } else {
        let before = start_pass(v, waiting.drop_last());
        let last = start_one(before.state, waiting.last());
        Step { state: last.state, effects: before.effects + last.effects }
    }
}

/// Starts as many waiting transfers as there are free slots.
pub open spec fn start_step(v: SchedulerView) -> Step {
    start_pass(SchedulerView { queued: Seq::empty(), ..v }, v.queued)
}

/// Whether a worker of a direction may be started.
pub fn can_start_direction(state: &SchedulerState, direction: Direction) -> (can: bool)
    requires
        state.wf(),
    ensures
        can == slot_free(state@, direction),
{
    let active: usize = state.active_direction_count(direction);
    match direction {
        Direction::Upload => active < state.max_upload_concurrency(),
        Direction::Download => active < state.max_download_concurrency(),
    }
}

/// Starts waiting transfers while there are free slots; see [`start_step`].
pub fn try_start_next(state: &mut SchedulerState) -> (effects: Vec<Effect>)
    requires
        old(state).wf(),
    ensures
        final(state).wf(),
        (Step { state: final(state)@, effects: effect::effect_views(effects@) }) == start_step(
            old(state)@,
        ),
{
    let ghost v = state@;
    let ghost waiting = v.queued;
    let ghost fresh = SchedulerView { queued: Seq::empty(), ..v };
    let open = state.callbacks_open();
    let mut effects = no_effects();
    let mut remaining: usize = state.queued_len();
    let ghost mut turn: int = 0;
    assert(waiting.take(0) =~= Seq::empty());
    assert(waiting.skip(0) =~= waiting);
    assert(waiting.skip(0) + fresh.queued =~= v.queued);
    while remaining > 0
        invariant
            state.wf(),
            turn + remaining == waiting.len(),
            0 <= turn,
            open == v.callbacks_open,
            fresh == (SchedulerView { queued: Seq::empty(), ..v }),
            effect::effect_views(effects@) == start_pass(fresh, waiting.take(turn)).effects,
            // The queue holds those that had their turn behind those that have not.
            state@ == (SchedulerView {
                queued: waiting.skip(turn) + start_pass(fresh, waiting.take(turn)).state.queued,
                ..start_pass(fresh, waiting.take(turn)).state
            }),
            start_pass(fresh, waiting.take(turn)).state.callbacks_open == v.callbacks_open,
        decreases remaining,
    {
        let ghost done = start_pass(fresh, waiting.take(turn));
        let ghost before = state@;
        remaining -= 1;
        match state.pop_queued() {
            Some(key) => {
                let ghost k = direction::key_view(key);
                proof {
                    assert(k == waiting[turn]);
                    assert(waiting.take(turn + 1).drop_last() =~= waiting.take(turn));
                    assert(waiting.take(turn + 1).last() == k);
                    assert(before.queued.skip(1) =~= waiting.skip(turn + 1) + done.state.queued);
                }
                if state.is_paused(&key) || state.is_active(&key) {
                    state.push_queued(key);
                    assert(state@.queued =~= waiting.skip(turn + 1) + done.state.queued.push(k));
                } else if let Some(group) = state.group(&key) {
                    let direction = key.0;
                    if !can_start_direction(state, direction) {
                        state.push_queued(key);
                        assert(state@.queued =~= waiting.skip(turn + 1) + done.state.queued.push(
                            k,
                        ));
                    } else {
                        let current: u64 = state.offset(&key);
                        let total: u64 = state.effective_total(&key, &group.task);
                        let task_id = group.task.task_id;
                        if !(direction == Direction::Download && total == 0) {
                            emit_status(
                                &mut effects,
                                open,
                                group,
                                TransferStatus::Transmission,
                                current,
                                total,
                            );
                        }
                        push_effect(&mut effects, Effect::Start { task_id, start_offset: current });
                        let _ = state.insert_active(key, ActiveState { task_id, interrupted: false });
                    }
                }
                proof {
                    let next = start_pass(fresh, waiting.take(turn + 1));
                    assert(state@ =~= (SchedulerView {
                        queued: waiting.skip(turn + 1) + next.state.queued,
                        ..next.state
                    }));
                    assert(effect::effect_views(effects@) =~= next.effects);
                    turn = turn + 1;
                }
            },
            None => {
                assert(false);
            },
        }
    }
    proof {
        assert(turn == waiting.len());
        assert(waiting.take(turn) =~= waiting);
        assert(waiting.skip(turn) =~= Seq::empty());
        assert(state@ =~= start_step(v).state);
    }
    effects
}

// ---------------------------------------------------------------------------
// Commands
// ---------------------------------------------------------------------------

/// A task with the callbacks that its submitter wants.
pub struct Submission {
    pub task: InnerTask,
    pub progress_cb: bool,
    pub complete_cb: bool,
}

/// The registration of a submitted task.
pub open spec fn new_group(submission: Submission) -> GroupState {
    GroupState {
        task: submission.task,
        lifecycle: TransferLifecycle::spec_new(),
        progress_cb: submission.progress_cb,
        complete_cb: submission.complete_cb,
    }
}

/// The status of a submission that repeats a registered transfer.
pub open spec fn duplicate_status() -> StatusView {
    StatusView::Failed {
        code: InnerErrorCode::DuplicateTaskError,
        msg: Seq::empty(),
        http_status: None,
    }
}

/// Whether a task repeats the transfer that is registered under a key: it goes
/// by the same key, or reads the same file and one of the two was imported
/// without reading it.
pub open spec fn repeats(v: SchedulerView, task: InnerTask, k: KeyView) -> bool {
    v.groups.contains_key(k) && (k == task.spec_dedupe_key() || task.may_repeat(v.groups[k].task))
}

/// The value of an optional key.
pub open spec fn leader_view(leader: Option<UniqueId>) -> Option<KeyView> {
    match leader {
        Some(key) => Some(direction::key_view(key)),
        None => None,
    }
}

/// Whether `leader` is the transfer that a task repeats, if any: the one under
/// the task's own key, otherwise any that reads the same file.
pub open spec fn is_leader(v: SchedulerView, task: InnerTask, leader: Option<KeyView>) -> bool {
    match leader {
        Some(k) => repeats(v, task, k) && (v.groups.contains_key(task.spec_dedupe_key()) ==> k
            == task.spec_dedupe_key()),
        None => forall|k: KeyView| !#[trigger] repeats(v, task, k),
    }
}

/// What a repeated submission leads to: a report to its submitter and to the
/// listeners, made out for the transfer that is already there.
pub open spec fn duplicate_effects(
    v: SchedulerView,
    submission: Submission,
    leader: KeyView,
) -> Seq<EffectView> {
    let leader = v.groups[leader];
    if v.callbacks_open {
        seq![
            EffectView::Status {
                recipient: if submission.progress_cb {
                    Some(submission.task.task_id)
                } else {
                    None
                },
                record: effect::group_record(
                    leader,
                    duplicate_status(),
                    0,
                    leader.task.total_size,
                ),
            },
        ]
    } else {
        Seq::empty()
    }
}

/// The tables with a submitted task registered.
pub open spec fn registered(v: SchedulerView, submission: Submission) -> SchedulerView {
    let k = submission.task.spec_dedupe_key();
    SchedulerView {
        groups: v.groups.insert(k, new_group(submission)),
        task_keys: v.task_keys.insert(submission.task.task_id.value, k),
        ..v
    }
}

/// The queue with a key behind it, unless it waits already or runs.
pub open spec fn queued_once(v: SchedulerView, k: KeyView) -> SchedulerView {
    if v.active.contains_key(k) || v.queued.contains(k) {
        v
    } else {
        SchedulerView { queued: v.queued.push(k), ..v }
    }
}

/// A report of a status with the progress that is on record.
pub open spec fn current_status(v: SchedulerView, k: KeyView, status: StatusView) -> Seq<EffectView> {
    effect::status_effects(
        v.callbacks_open,
        v.groups[k],
        status,
        v.offset_of(k),
        v.effective_total(k, v.groups[k].task),
    )
}

/// What submitting a task does: a repeated one changes nothing; any other is
/// registered, reported as pending, and put in the queue.
pub open spec fn enqueue_step(
    v: SchedulerView,
    submission: Submission,
    leader: Option<KeyView>,
) -> Step {
    let k = submission.task.spec_dedupe_key();
    match leader {
        Some(leader) => Step { state: v, effects: duplicate_effects(v, submission, leader) },
        None => {
            let after = registered(v, submission);
            Step {
                state: queued_once(after, k),
                effects: current_status(after, k, StatusView::Pending) + if v.active.contains_key(
                    k,
                ) {
                    current_status(after, k, StatusView::Transmission)
                } else {
                    Seq::empty()
                },
            }
        },
    }
}

/// What importing a task in the paused state does: it is registered and
/// reported as paused, and neither queued nor started.
pub open spec fn enqueue_paused_step(
    v: SchedulerView,
    submission: Submission,
    leader: Option<KeyView>,
) -> Step {
    let k = submission.task.spec_dedupe_key();
    match leader {
        Some(leader) => Step { state: v, effects: duplicate_effects(v, submission, leader) },
        None => {
            let after = registered(v, submission);
            Step {
                state: SchedulerView { paused: after.paused.insert(k), ..after },
                effects: current_status(after, k, StatusView::Paused),
            }
        },
    }
}

/// The tables after a running worker was told to stop.
pub open spec fn interrupted(v: SchedulerView, k: KeyView) -> SchedulerView {
    SchedulerView {
        active: v.active.insert(k, (ActiveState { interrupted: true, ..v.active[k] })),
        ..v
    }
}

/// The tables after the latch of a transfer was asked to pause.
pub open spec fn latch_paused(v: SchedulerView, k: KeyView) -> SchedulerView {
    let group = v.groups[k];
    SchedulerView {
        groups: v.groups.insert(
            k,
            (GroupState {
                lifecycle: TransferLifecycle {
                    terminal: group.lifecycle.terminal.paused(),
                    ..group.lifecycle
                },
                ..group
            }),
        ),
        ..v
    }
}

/// The tables after the latch of a transfer was asked to cancel.
pub open spec fn latch_canceled(v: SchedulerView, k: KeyView) -> SchedulerView {
    let group = v.groups[k];
    SchedulerView {
        groups: v.groups.insert(
            k,
            (GroupState {
                lifecycle: TransferLifecycle {
                    terminal: group.lifecycle.terminal.canceled(),
                    ..group.lifecycle
                },
                ..group
            }),
        ),
        ..v
    }
}

/// Whether a stop request reaches the worker right away: always, unless a
/// completing request is under way.
pub open spec fn stops_now(v: SchedulerView, k: KeyView) -> bool {
    v.groups.contains_key(k) ==> v.groups[k].lifecycle.terminal.stop_disposition()
        == StopRequestDisposition::InterruptNow
}

/// Telling a running worker to stop, or not, as its latch has it.
pub open spec fn stop_effects(v: SchedulerView, k: KeyView) -> Seq<EffectView> {
    if stops_now(v, k) {
        seq![EffectView::Interrupt { task_id: v.active[k].task_id }]
    } else {
        Seq::empty()
    }
}

/// What pausing a transfer does: it leaves the queue and counts as paused. A
/// running worker is told to stop, and the report waits until it has; without
/// a worker the pause is reported at once.
pub open spec fn pause_step(v: SchedulerView, k: KeyView) -> Step {
    let out = SchedulerView {
        queued: scheduler_state::without(v.queued, k),
        paused: v.paused.insert(k),
        ..v
    };
    if v.active.contains_key(k) {
        let latched = if v.groups.contains_key(k) {
            latch_paused(out, k)
        } else {
            out
        };
        Step {
            state: if stops_now(v, k) {
                interrupted(latched, k)
            } else {
                latched
            },
            effects: stop_effects(v, k),
        }
    } else {
        Step {
            state: out,
            effects: if v.groups.contains_key(k) {
                current_status(v, k, StatusView::Paused)
            } else {
                Seq::empty()
            },
        }
    }
}

/// Why a transfer is not one that was paused and has come to rest, if so.
pub open spec fn rest_refusal(v: SchedulerView, k: KeyView) -> Option<Seq<char>> {
    if !v.paused.contains(k) {
        Some("resume target is not paused"@)
    } else if v.active.contains_key(k) {
        Some("resume target is still stopping, retry later"@)
    } else if !v.groups.contains_key(k) {
        Some("resume target group missing"@)
    } else {
        None
    }
}

/// Why a transfer cannot be resumed, if so. An upload whose file was not read
/// when it was imported has to be identified first.
pub open spec fn resume_refusal(v: SchedulerView, k: KeyView) -> Option<Seq<char>> {
    match rest_refusal(v, k) {
        Some(text) => Some(text),
        None => if v.groups[k].task.unread {
            Some("resume target source has not been read"@)
        } else {
            None
        },
    }
}

/// What resuming a transfer does: a paused one that has come to rest is queued
/// again and reported as pending, with the progress it had.
pub open spec fn resume_step(v: SchedulerView, k: KeyView) -> Step {
    if !v.paused.contains(k) || v.active.contains_key(k) {
        Step { state: v, effects: Seq::empty() }
    } else {
        let after = SchedulerView { paused: v.paused.remove(k), ..v };
        if !v.groups.contains_key(k) {
            Step { state: after, effects: Seq::empty() }
        } else if v.groups[k].task.unread {
            Step { state: v, effects: Seq::empty() }
        } else {
            Step {
                state: queued_once(after, k),
                effects: current_status(v, k, StatusView::Pending),
            }
        }
    }
}

/// A registered upload once its file was read.
pub open spec fn read_group(group: GroupState, sign: String) -> GroupState {
    GroupState { task: InnerTask { file_sign: sign, unread: false, ..group.task }, ..group }
}

/// The tables once the file of an imported upload was read: it is registered
/// under what its content is.
pub open spec fn identified(v: SchedulerView, k: KeyView, sign: String) -> SchedulerView {
    let group = read_group(v.groups[k], sign);
    let known_as = group.task.spec_dedupe_key();
    SchedulerView {
        groups: v.groups.remove(k).insert(known_as, group),
        task_keys: v.task_keys.insert(group.task.task_id.value, known_as),
        paused: v.paused.remove(k).insert(known_as),
        offsets: v.offsets.remove(k),
        known_totals: v.known_totals.remove(k),
        ..v
    }
}

/// Whether a transfer is an import at rest whose file is still to be read.
pub open spec fn awaits_source(v: SchedulerView, k: KeyView) -> bool {
    rest_refusal(v, k) is None && v.groups[k].task.unread
}

/// What reading the file of an imported upload leads to: it is registered under
/// its content, unless that could not be read or is being transferred already.
pub open spec fn identify_state(
    v: SchedulerView,
    k: KeyView,
    read: Result<String, MeowError>,
) -> SchedulerView {
    match read {
        Ok(sign) => if awaits_source(v, k) && !v.groups.contains_key(
            read_group(v.groups[k], sign).task.spec_dedupe_key(),
        ) {
            identified(v, k, sign)
        } else {
            v
        },
        Err(_) => v,
    }
}

/// Whether `result` is what the reading of a file is answered.
pub open spec fn identify_answer(
    v: SchedulerView,
    k: KeyView,
    read: Result<String, MeowError>,
    result: Result<(), MeowError>,
) -> bool {
    match rest_refusal(v, k) {
        Some(text) => crate::error::fails_with(result, InnerErrorCode::InvalidTaskState, text),
        None => if !v.groups[k].task.unread {
            result is Ok
        } else {
            match read {
                Err(e) => result == Err::<(), MeowError>(e),
                Ok(sign) => if v.groups.contains_key(
                    read_group(v.groups[k], sign).task.spec_dedupe_key(),
                ) {
                    crate::error::fails_with(
                        result,
                        InnerErrorCode::DuplicateTaskError,
                        Seq::empty(),
                    )
                } else {
                    result is Ok
                },
            }
        },
    }
}

/// What canceling a transfer does. Without a worker it ends at once: the
/// protocol cleans up, then the end is reported. A running worker is told to
/// stop, the task identifier loses its meaning, and everything else waits for
/// the worker to come to rest.
pub open spec fn cancel_step(v: SchedulerView, k: KeyView) -> Step {
    let out = SchedulerView {
        queued: scheduler_state::without(v.queued, k),
        paused: v.paused.remove(k),
        ..v
    };
    if v.active.contains_key(k) {
        let latched = if v.groups.contains_key(k) {
            SchedulerView {
                task_keys: v.task_keys.remove(v.groups[k].task.task_id.value),
                ..latch_canceled(out, k)
            }
        } else {
            out
        };
        let canceling = SchedulerView { canceling: v.canceling.insert(k), ..latched };
        Step {
            state: if stops_now(v, k) {
                interrupted(canceling, k)
            } else {
                canceling
            },
            effects: stop_effects(v, k),
        }
    } else if v.groups.contains_key(k) {
        Step {
            state: ended(out, k),
            effects: seq![
                EffectView::Abort {
                    task_id: v.groups[k].task.task_id,
                    latch: latch_canceled(v, k).groups[k].lifecycle,
                },
            ]
                + current_status(v, k, StatusView::Canceled),
        }
    } else {
        Step {
            state: SchedulerView { canceling: v.canceling.remove(k), ..out },
            effects: Seq::empty(),
        }
    }
}

/// Reports a repeated submission; see [`duplicate_effects`].
fn emit_duplicate(
    state: &SchedulerState,
    leader: &UniqueId,
    submission: &Submission,
    effects: &mut Vec<Effect>,
)
    requires
        state@.groups.contains_key(direction::key_view(*leader)),
    ensures
        effect::effect_views(final(effects)@) == effect::effect_views(old(effects)@)
            + duplicate_effects(state@, *submission, direction::key_view(*leader)),
{
    let ghost k = direction::key_view(*leader);
    if state.callbacks_open() {
        if let Some(leader) = state.group(leader) {
            let recipient = if submission.progress_cb {
                Some(submission.task.task_id)
            } else {
                None
            };
            let duplicate = MeowError::from_code1(InnerErrorCode::DuplicateTaskError);
            let record = effect::to_record_inner(
                leader,
                TransferStatus::Failed(duplicate),
                0,
                leader.task.total_size,
            );
            push_effect(effects, Effect::Status { recipient, record });
        }
    }
    assert(effect::effect_views(effects@) =~= effect::effect_views(old(effects)@)
        + duplicate_effects(state@, *submission, k));
}

/// The transfer that a task repeats, if any; see [`is_leader`].
pub fn leader_of(state: &SchedulerState, task: &InnerTask) -> (leader: Option<UniqueId>)
    ensures
        is_leader(state@, *task, leader_view(leader)),
{
    let ghost v = state@;
    let own = task.dedupe_key();
    if state.contains_group(&own) {
        assert(repeats(v, *task, direction::key_view(own)));
        return Some(own);
    }
    let keys = state.group_keys();
    let ghost listed = scheduler_state::key_views(keys@);
    proof {
        lemma_listed(keys@, v.groups.dom());
    }
    let mut i: usize = 0;
    while i < keys.len()
        invariant
            state@ == v,
            i <= keys@.len(),
            listed == scheduler_state::key_views(keys@),
            !v.groups.contains_key(task.spec_dedupe_key()),
            forall|j: int| 0 <= j < i ==> !repeats(v, *task, #[trigger] listed[j]),
        decreases keys@.len() - i,
    {
        let key = &keys[i];
        if let Some(group) = state.group(key) {
            if task.shares_unread_source(&group.task) {
                assert(repeats(v, *task, direction::key_view(*key)));
                return Some(copy_key(key));
            }
        }
        assert(listed[i as int] == direction::key_view(*key));
        i += 1;
    }
    assert forall|k: KeyView| !#[trigger] repeats(v, *task, k) by {
        if v.groups.contains_key(k) {
            assert(listed.to_set().contains(k));
            assert(listed.contains(k));
            let j = choose|j: int| 0 <= j < listed.len() && listed[j] == k;
            assert(!repeats(v, *task, listed[j]));
        }
    }
    None
}

/// Registers a submitted task under its key.
fn register(state: &mut SchedulerState, key: &UniqueId, submission: Submission)
    requires
        old(state).wf(),
        direction::key_view(*key) == submission.task.spec_dedupe_key(),
    ensures
        final(state).wf(),
        final(state)@ == registered(old(state)@, submission),
{
    state.bind_task(submission.task.task_id, copy_key(key));
    state.put_group(
        copy_key(key),
        GroupState {
            task: submission.task,
            lifecycle: TransferLifecycle::new(),
            progress_cb: submission.progress_cb,
            complete_cb: submission.complete_cb,
        },
    );
}

/// Adds a report with the progress on record.
fn emit_current(
    state: &SchedulerState,
    key: &UniqueId,
    status: TransferStatus,
    effects: &mut Vec<Effect>,
)
    requires
        state@.groups.contains_key(direction::key_view(*key)),
    ensures
        effect::effect_views(final(effects)@) == effect::effect_views(old(effects)@)
            + current_status(state@, direction::key_view(*key), effect::status_view(status)),
{
    if let Some(group) = state.group(key) {
        let current: u64 = state.offset(key);
        let total: u64 = state.effective_total(key, &group.task);
        emit_status(effects, state.callbacks_open(), group, status, current, total);
    }
}

/// Puts a key at the end of the queue unless it waits already or runs.
fn queue_once(state: &mut SchedulerState, key: &UniqueId)
    requires
        old(state).wf(),
    ensures
        final(state).wf(),
        final(state)@ == queued_once(old(state)@, direction::key_view(*key)),
{
    if !state.is_active(key) && !state.is_queued(key) {
        state.push_queued(copy_key(key));
    }
}

/// Submits a task; see [`enqueue_step`]. The transfer that it repeats, if any,
/// comes back with the effects.
pub fn enqueue_group(state: &mut SchedulerState, submission: Submission) -> (outcome: (
    Option<UniqueId>,
    Vec<Effect>,
))
    requires
        old(state).wf(),
    ensures
        final(state).wf(),
        is_leader(old(state)@, submission.task, leader_view(outcome.0)),
        (Step { state: final(state)@, effects: effect::effect_views(outcome.1@) }) == enqueue_step(
            old(state)@,
            submission,
            leader_view(outcome.0),
        ),
{
    let ghost v = state@;
    let mut effects = no_effects();
    let key = submission.task.dedupe_key();
    let leader = leader_of(state, &submission.task);
    if let Some(leader) = &leader {
        emit_duplicate(state, leader, &submission, &mut effects);
    } else {
        let running = state.is_active(&key);
        register(state, &key, submission);
        emit_current(state, &key, TransferStatus::Pending, &mut effects);
        if running {
            emit_current(state, &key, TransferStatus::Transmission, &mut effects);
        }
        queue_once(state, &key);
    }
    assert(effect::effect_views(effects@) =~= enqueue_step(
        v,
        submission,
        leader_view(leader),
    ).effects);
    (leader, effects)
}

/// Imports a task in the paused state; see [`enqueue_paused_step`]. The transfer
/// that it repeats, if any, comes back with the effects.
pub fn enqueue_paused_group(state: &mut SchedulerState, submission: Submission) -> (outcome: (
    Option<UniqueId>,
    Vec<Effect>,
))
    requires
        old(state).wf(),
    ensures
        final(state).wf(),
        is_leader(old(state)@, submission.task, leader_view(outcome.0)),
        (Step { state: final(state)@, effects: effect::effect_views(outcome.1@) })
            == enqueue_paused_step(old(state)@, submission, leader_view(outcome.0)),
{
    let ghost v = state@;
    let mut effects = no_effects();
    let key = submission.task.dedupe_key();
    let leader = leader_of(state, &submission.task);
    if let Some(leader) = &leader {
        emit_duplicate(state, leader, &submission, &mut effects);
    } else {
        register(state, &key, submission);
        emit_current(state, &key, TransferStatus::Paused, &mut effects);
        state.insert_paused(key);
    }
    assert(effect::effect_views(effects@) =~= enqueue_paused_step(
        v,
        submission,
        leader_view(leader),
    ).effects);
    (leader, effects)
}

/// Tells a running worker to stop.
fn interrupt(state: &mut SchedulerState, key: &UniqueId, effects: &mut Vec<Effect>)
    requires
        old(state).wf(),
        old(state)@.active.contains_key(direction::key_view(*key)),
    ensures
        final(state).wf(),
        final(state)@ == interrupted(old(state)@, direction::key_view(*key)),
        effect::effect_views(final(effects)@) == effect::effect_views(old(effects)@) + seq![
            EffectView::Interrupt {
                task_id: old(state)@.active[direction::key_view(*key)].task_id,
            },
        ],
{
    if let Some(active) = state.active(key) {
        push_effect(effects, Effect::Interrupt { task_id: active.task_id });
        let _ = state.insert_active(
            copy_key(key),
            ActiveState { task_id: active.task_id, interrupted: true },
        );
    }
}

/// Asks the latch of a transfer to pause. Without a registration there is no
/// latch, and the worker can be stopped at once.
fn latch_pause(state: &mut SchedulerState, key: &UniqueId) -> (now: bool)
    requires
        old(state).wf(),
    ensures
        final(state).wf(),
        now == stops_now(old(state)@, direction::key_view(*key)),
        final(state)@ == if old(state)@.groups.contains_key(direction::key_view(*key)) {
            latch_paused(old(state)@, direction::key_view(*key))
        } else {
            old(state)@
        },
{
    let ghost v = state@;
    let ghost k = direction::key_view(*key);
    match state.take_group(key) {
        Some(mut group) => {
            let disposition = group.lifecycle.begin_pause();
            state.put_group(copy_key(key), group);
            assert(state@ =~= latch_paused(v, k));
            disposition == StopRequestDisposition::InterruptNow
        },
        None => {
            assert(state@ =~= v);
            true
        },
    }
}

/// Asks the latch of a transfer to cancel; see [`latch_pause`].
fn latch_cancel(state: &mut SchedulerState, key: &UniqueId) -> (now: bool)
    requires
        old(state).wf(),
    ensures
        final(state).wf(),
        now == stops_now(old(state)@, direction::key_view(*key)),
        final(state)@ == if old(state)@.groups.contains_key(direction::key_view(*key)) {
            SchedulerView {
                task_keys: old(state)@.task_keys.remove(
                    old(state)@.groups[direction::key_view(*key)].task.task_id.value,
                ),
                ..latch_canceled(old(state)@, direction::key_view(*key))
            }
        } else {
            old(state)@
        },
{
    let ghost v = state@;
    let ghost k = direction::key_view(*key);
    match state.take_group(key) {
        Some(mut group) => {
            let disposition = group.lifecycle.begin_cancel();
            let task_id = group.task.task_id;
            state.put_group(copy_key(key), group);
            state.unbind_task(task_id);
            assert(state@.groups =~= latch_canceled(v, k).groups);
            disposition == StopRequestDisposition::InterruptNow
        },
        None => {
            assert(state@ =~= v);
            true
        },
    }
}

/// Pauses a transfer; see [`pause_step`].
pub fn pause_group(state: &mut SchedulerState, key: &UniqueId) -> (effects: Vec<Effect>)
    requires
        old(state).wf(),
    ensures
        final(state).wf(),
        (Step { state: final(state)@, effects: effect::effect_views(effects@) }) == pause_step(
            old(state)@,
            direction::key_view(*key),
        ),
{
    let ghost v = state@;
    let ghost k = direction::key_view(*key);
    let mut effects = no_effects();
    let was_active = state.is_active(key);
    state.remove_queued(key);
    state.insert_paused(copy_key(key));
    if was_active {
        if latch_pause(state, key) {
            interrupt(state, key, &mut effects);
        }
    } else if state.contains_group(key) {
        emit_current(state, key, TransferStatus::Paused, &mut effects);
    }
    assert(effect::effect_views(effects@) =~= pause_step(v, k).effects);
    assert(state@ =~= pause_step(v, k).state);
    effects
}

/// Resumes a transfer; see [`resume_step`] and [`resume_refusal`].
pub fn resume_group(state: &mut SchedulerState, key: &UniqueId) -> (outcome: (
    Result<(), MeowError>,
    Vec<Effect>,
))
    requires
        old(state).wf(),
    ensures
        final(state).wf(),
        (Step { state: final(state)@, effects: effect::effect_views(outcome.1@) }) == resume_step(
            old(state)@,
            direction::key_view(*key),
        ),
        match resume_refusal(old(state)@, direction::key_view(*key)) {
            Some(text) => crate::error::fails_with(
                outcome.0,
                InnerErrorCode::InvalidTaskState,
                text,
            ),
            None => outcome.0 is Ok,
        },
{
    let ghost v = state@;
    let ghost k = direction::key_view(*key);
    let mut effects = no_effects();
    match check_rest(state, key) {
        Ok(()) => {},
        Err(e) => {
            if state.is_paused(key) && !state.is_active(key) {
                state.remove_paused(key);
            }
            return (Err(e), effects);
        },
    }
    if let Some(group) = state.group(key) {
        if group.task.unread {
            let error = MeowError::from_code_str(
                InnerErrorCode::InvalidTaskState,
                "resume target source has not been read",
            );
            return (Err(error), effects);
        }
    }
    state.remove_paused(key);
    emit_current(state, key, TransferStatus::Pending, &mut effects);
    queue_once(state, key);
    assert(effect::effect_views(effects@) =~= resume_step(v, k).effects);
    (Ok(()), effects)
}

/// Whether a transfer was paused and has come to rest; see [`rest_refusal`].
fn check_rest(state: &SchedulerState, key: &UniqueId) -> (result: Result<(), MeowError>)
    ensures
        match rest_refusal(state@, direction::key_view(*key)) {
            Some(text) => crate::error::fails_with(result, InnerErrorCode::InvalidTaskState, text),
            None => result is Ok,
        },
{
    let text = if !state.is_paused(key) {
        "resume target is not paused"
    } else if state.is_active(key) {
        "resume target is still stopping, retry later"
    } else if !state.contains_group(key) {
        "resume target group missing"
    } else {
        return Ok(());
    };
    Err(MeowError::from_code_str(InnerErrorCode::InvalidTaskState, text))
}

/// The file of an imported upload was read, or could not be; see
/// [`identify_state`] and [`identify_answer`].
pub fn identify_group(
    state: &mut SchedulerState,
    key: &UniqueId,
    read: Result<String, MeowError>,
) -> (result: Result<(), MeowError>)
    requires
        old(state).wf(),
    ensures
        final(state).wf(),
        final(state)@ == identify_state(old(state)@, direction::key_view(*key), read),
        identify_answer(old(state)@, direction::key_view(*key), read, result),
{
    let ghost v = state@;
    let ghost k = direction::key_view(*key);
    match check_rest(state, key) {
        Ok(()) => {},
        Err(e) => {
            return Err(e);
        },
    }
    let known_as = match state.group(key) {
        Some(group) => {
            if !group.task.unread {
                return Ok(());
            }
            match &read {
                Ok(sign) => match group.task.direction {
                    Direction::Upload => (Direction::Upload, sign.clone()),
                    Direction::Download => (Direction::Download, group.task.url.clone()),
                },
                Err(_) => copy_key(key),
            }
        },
        None => {
            return Ok(());
        },
    };
    let sign = match read {
        Ok(sign) => sign,
        Err(e) => {
            return Err(e);
        },
    };
    assert(direction::key_view(known_as) == read_group(
        v.groups[k],
        sign,
    ).task.spec_dedupe_key());
    if state.contains_group(&known_as) {
        return Err(MeowError::from_code1(InnerErrorCode::DuplicateTaskError));
    }
    if let Some(mut group) = state.take_group(key) {
        group.task.file_sign = sign;
        group.task.unread = false;
        assert(group == read_group(v.groups[k], sign));
        state.bind_task(group.task.task_id, copy_key(&known_as));
        state.put_group(copy_key(&known_as), group);
        state.remove_paused(key);
        state.insert_paused(known_as);
        state.forget_progress(key);
    }
    assert(state@ =~= identified(v, k, sign));
    Ok(())
}

/// Cancels a transfer; see [`cancel_step`].
pub fn cancel_group(state: &mut SchedulerState, key: &UniqueId) -> (effects: Vec<Effect>)
    requires
        old(state).wf(),
    ensures
        final(state).wf(),
        (Step { state: final(state)@, effects: effect::effect_views(effects@) }) == cancel_step(
            old(state)@,
            direction::key_view(*key),
        ),
{
    let ghost v = state@;
    let ghost k = direction::key_view(*key);
    let mut effects = no_effects();
    let was_active = state.is_active(key);
    state.remove_queued(key);
    state.remove_paused(key);
    if was_active {
        let now = latch_cancel(state, key);
        state.insert_canceling(copy_key(key));
        if now {
            interrupt(state, key, &mut effects);
        }
    } else {
        let open = state.callbacks_open();
        if state.contains_group(key) {
            if let Some((group, current, total)) = end_transfer(state, key) {
                let mut latch = group.lifecycle;
                let _ = latch.begin_cancel();
                push_effect(&mut effects, Effect::Abort { task_id: group.task.task_id, latch });
                emit_status(
                    &mut effects,
                    open,
                    &group,
                    TransferStatus::Canceled,
                    current,
                    total,
                );
            }
        } else {
            state.remove_canceling(key);
        }
    }
    assert(effect::effect_views(effects@) =~= cancel_step(v, k).effects);
    assert(state@ =~= cancel_step(v, k).state);
    effects
}

// ---------------------------------------------------------------------------
// Shutdown
// ---------------------------------------------------------------------------

/// Whether `keys` names every member of `set`, each once.
pub open spec fn lists(keys: Seq<KeyView>, set: Set<KeyView>) -> bool {
    keys.no_duplicates() && keys.to_set() == set
}

/// What closing does to one running transfer: a canceled one is told to stop;
/// any other is paused, as its latch allows.
pub open spec fn close_one(v: SchedulerView, k: KeyView) -> Step {
    if v.canceling.contains(k) {
        Step {
            state: interrupted(v, k),
            effects: seq![EffectView::Interrupt { task_id: v.active[k].task_id }],
        }
    } else {
        let latched = if v.groups.contains_key(k) {
            latch_paused(v, k)
        } else {
            v
        };
        let paused = SchedulerView { paused: v.paused.insert(k), ..latched };
        Step {
            state: if stops_now(v, k) {
                interrupted(paused, k)
            } else {
                paused
            },
            effects: stop_effects(v, k),
        }
    }
}

/// Closing does this to each running transfer in turn.
pub open spec fn close_running(v: SchedulerView, running: Seq<KeyView>) -> Step
    decreases running.len(),
{
    if running.len() == 0 {
        Step { state: v, effects: Seq::empty() }
    } else {
        let before = close_running(v, running.drop_last());
        let last = close_one(before.state, running.last());
        Step { state: last.state, effects: before.effects + last.effects }
    }
}

/// Transfers without a worker are reported as paused.
pub open spec fn close_resting(v: SchedulerView, resting: Seq<KeyView>) -> Seq<EffectView>
    decreases resting.len(),
{
    if resting.len() == 0 {
        Seq::empty()
    } else {
        close_resting(v, resting.drop_last()) + current_status(
            v,
            resting.last(),
            StatusView::Paused,
        )
    }
}

/// The first half of closing, with the order in which the transfers are taken.
pub open spec fn close_step(
    v: SchedulerView,
    running: Seq<KeyView>,
    resting: Seq<KeyView>,
) -> Step {
    let stopped = close_running(v, running);
    Step {
        state: stopped.state,
        effects: stopped.effects + close_resting(stopped.state, resting),
    }
}

/// Whether `step` is the first half of closing, in some order.
pub open spec fn is_close_step(v: SchedulerView, step: Step) -> bool {
    exists|running: Seq<KeyView>, resting: Seq<KeyView>|
        {
            &&& lists(running, v.active.dom())
            &&& lists(resting, v.groups.dom().difference(v.active.dom()))
            &&& step == #[trigger] close_step(v, running, resting)
        }
}

/// Closing changes neither which transfers run nor which are registered.
proof fn lemma_close_running_keeps(v: SchedulerView, running: Seq<KeyView>)
    requires
        running.to_set().subset_of(v.active.dom()),
    ensures
        close_running(v, running).state.active.dom() == v.active.dom(),
        close_running(v, running).state.groups.dom() == v.groups.dom(),
    decreases running.len(),
{
    if running.len() > 0 {
        let rest = running.drop_last();
        assert(running.contains(running.last()));
        assert(running.to_set().contains(running.last()));
        assert(rest.to_set().subset_of(v.active.dom())) by {
            assert forall|k: KeyView| rest.to_set().contains(k) implies v.active.dom().contains(
                k,
            ) by {
                let i = choose|i: int| 0 <= i < rest.len() && rest[i] == k;
                assert(running[i] == k);
                assert(running.to_set().contains(k));
            }
        }
        lemma_close_running_keeps(v, rest);
        let mid = close_running(v, rest).state;
        let k = running.last();
        assert(close_one(mid, k).state.active.dom() =~= mid.active.dom());
        assert(close_one(mid, k).state.groups.dom() =~= mid.groups.dom());
    }
}

/// The first half of closing: stops the running workers and reports the rest;
/// see [`is_close_step`].
pub fn begin_close(state: &mut SchedulerState) -> (effects: Vec<Effect>)
    requires
        old(state).wf(),
    ensures
        final(state).wf(),
        is_close_step(
            old(state)@,
            (Step { state: final(state)@, effects: effect::effect_views(effects@) }),
        ),
{
    let ghost v = state@;
    let mut effects = no_effects();
    let active_keys = state.active_keys();
    let ghost running = scheduler_state::key_views(active_keys@);
    proof {
        lemma_listed(active_keys@, v.active.dom());
    }
    let mut i: usize = 0;
    assert(running.take(0) =~= Seq::empty());
    while i < active_keys.len()
        invariant
            state.wf(),
            i <= active_keys@.len(),
            running == scheduler_state::key_views(active_keys@),
            running.to_set() == v.active.dom(),
            state@ == close_running(v, running.take(i as int)).state,
            effect::effect_views(effects@) == close_running(v, running.take(i as int)).effects,
        decreases active_keys@.len() - i,
    {
        let key = &active_keys[i];
        let ghost before = state@;
        let ghost k = direction::key_view(*key);
        proof {
            assert(running[i as int] == k);
            assert(running.take(i + 1).drop_last() =~= running.take(i as int));
            assert(running.take(i + 1).last() == k);
            lemma_prefix_set(running, i as int);
            lemma_close_running_keeps(v, running.take(i as int));
            assert(running.contains(k));
            assert(running.to_set().contains(k));
        }
        if state.is_canceling(key) {
            interrupt(state, key, &mut effects);
        } else {
            let now = latch_pause(state, key);
            state.insert_paused(copy_key(key));
            if now {
                interrupt(state, key, &mut effects);
            }
        }
        proof {
            assert(state@ =~= close_one(before, k).state);
            assert(effect::effect_views(effects@) =~= close_running(
                v,
                running.take(i + 1),
            ).effects);
        }
        i += 1;
    }
    assert(running.take(i as int) =~= running);
    let ghost stopped = state@;
    let group_keys = state.group_keys();
    let ghost all = scheduler_state::key_views(group_keys@);
    let ghost mut resting: Seq<KeyView> = Seq::empty();
    proof {
        lemma_close_running_keeps(v, running);
        lemma_listed(group_keys@, v.groups.dom());
    }
    let ghost stop_effects = effect::effect_views(effects@);
    assert(stop_effects =~= stop_effects + close_resting(stopped, resting));
    let mut j: usize = 0;
    while j < group_keys.len()
        invariant
            state@ == stopped,
            stopped.active.dom() == v.active.dom(),
            stopped.groups.dom() == v.groups.dom(),
            j <= group_keys@.len(),
            all == scheduler_state::key_views(group_keys@),
            lists(all, v.groups.dom()),
            resting.no_duplicates(),
            forall|k: KeyView| #[trigger]
                resting.contains(k) == (all.take(j as int).contains(k) && !v.active.contains_key(k)),
            effect::effect_views(effects@) == stop_effects + close_resting(stopped, resting),
        decreases group_keys@.len() - j,
    {
        let key = &group_keys[j];
        let ghost k = direction::key_view(*key);
        proof {
            assert(all[j as int] == k);
            assert(all.contains(k));
            assert(all.to_set().contains(k));
            assert(all.take(j + 1) =~= all.take(j as int).push(k));
            assert(!all.take(j as int).contains(k)) by {
                if all.take(j as int).contains(k) {
                    let m = choose|m: int| 0 <= m < j && all.take(j as int)[m] == k;
                    assert(all[m] == all[j as int]);
                }
            }
        }
        let ghost resting_before = resting;
        if !state.is_active(key) {
            emit_current(state, key, TransferStatus::Paused, &mut effects);
            proof {
                resting = resting.push(k);
                scheduler_state::lemma_push_no_duplicates(resting_before, k);
                assert(resting.drop_last() =~= resting_before);
                assert(stop_effects + (close_resting(stopped, resting_before) + current_status(
                    stopped,
                    k,
                    StatusView::Paused,
                )) =~= (stop_effects + close_resting(stopped, resting_before)) + current_status(
                    stopped,
                    k,
                    StatusView::Paused,
                ));
            }
        }
        proof {
            assert forall|x: KeyView| #[trigger]
                resting.contains(x) == (all.take(j + 1).contains(x) && !v.active.contains_key(x)) by {
                scheduler_state::lemma_push_contains(all.take(j as int), k, x);
                scheduler_state::lemma_push_contains(resting_before, k, x);
            }
        }
        j += 1;
    }
    proof {
        assert(all.take(j as int) =~= all);
        assert(resting.to_set() =~= v.groups.dom().difference(v.active.dom())) by {
            assert forall|x: KeyView| resting.to_set().contains(x) == v.groups.dom().difference(
                v.active.dom(),
            ).contains(x) by {
                assert(resting.contains(x) == (all.contains(x) && !v.active.contains_key(x)));
                assert(all.to_set().contains(x) == v.groups.dom().contains(x));
            }
        }
        let step = Step { state: state@, effects: effect::effect_views(effects@) };
        assert(step =~= close_step(v, running, resting));
        assert(is_close_step(v, step));
    }
    effects
}

/// A list of keys names what its values name.
proof fn lemma_listed(keys: Seq<UniqueId>, dom: Set<KeyView>)
    requires
        crate::key_map::lists_keys(keys, dom),
    ensures
        lists(scheduler_state::key_views(keys), dom),
{
    let views = scheduler_state::key_views(keys);
    assert forall|i: int, j: int|
        0 <= i < views.len() && 0 <= j < views.len() && i != j implies views[i] != views[j] by {
        if i < j {
            assert(direction::key_view(keys[i]) != direction::key_view(keys[j]));
        } else {
            assert(direction::key_view(keys[j]) != direction::key_view(keys[i]));
        }
    }
    assert(views.to_set() =~= dom) by {
        assert forall|k: KeyView| views.to_set().contains(k) == dom.contains(k) by {
            if dom.contains(k) {
                let i = choose|i: int|
                    0 <= i < keys.len() && direction::key_view(#[trigger] keys[i]) == k;
                assert(views[i] == k);
            }
            if views.contains(k) {
                let i = choose|i: int| 0 <= i < views.len() && views[i] == k;
                assert(direction::key_view(keys[i]) == k);
            }
        }
    }
}

proof fn lemma_prefix_set(keys: Seq<KeyView>, n: int)
    requires
        0 <= n <= keys.len(),
    ensures
        keys.take(n).to_set().subset_of(keys.to_set()),
{
    assert forall|k: KeyView| keys.take(n).to_set().contains(k) implies keys.to_set().contains(
        k,
    ) by {
        let i = choose|i: int| 0 <= i < n && keys.take(n)[i] == k;
        assert(keys[i] == k);
    }
}

} // verus!
