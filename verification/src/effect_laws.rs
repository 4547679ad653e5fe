//! What callers get to see of a transfer, told by what is on record of it and
//! what happened to it.

use vstd::prelude::*;

use crate::direction::{Direction, KeyView};
use crate::effect;
use crate::effect::{Effect, EffectView, RecordView, StatusView};
use crate::error::{InnerErrorCode, MeowError};
use crate::executor;
use crate::executor::TransferCmd;
use crate::lifecycle::{TerminalState, TransferLifecycle};
use crate::scheduler;
use crate::scheduler::{Step, Submission};
use crate::scheduler_state;
use crate::scheduler_state::{ActiveState, GroupState, SchedulerView};
use crate::transfer_status::{FileTransferRecord, TransferStatus};
use crate::worker_event::WorkerEvent;

verus! {

// ---------------------------------------------------------------------------
// Values
// ---------------------------------------------------------------------------

/// The value of a status tells every status apart, and holds code, text and
/// HTTP status of the error of a failure.
pub proof fn law_status_values_lose_nothing(status: TransferStatus)
    ensures
        match status {
            TransferStatus::Unset => effect::status_view(status) is Unset,
            TransferStatus::Pending => effect::status_view(status) is Pending,
            TransferStatus::Transmission => effect::status_view(status) is Transmission,
            TransferStatus::Paused => effect::status_view(status) is Paused,
            TransferStatus::Complete => effect::status_view(status) is Complete,
            TransferStatus::Failed(e) => effect::status_view(status) == (StatusView::Failed {
                code: e.code,
                msg: e.msg@,
                http_status: e.http_status,
            }),
            TransferStatus::Canceled => effect::status_view(status) is Canceled,
        },
{
}

/// The value of a progress record holds each of its fields.
pub proof fn law_record_values_lose_nothing(record: FileTransferRecord)
    ensures
        ({
            let view = effect::record_view(record);
            &&& view.task_id == record.task_id
            &&& view.file_sign == record.file_sign@
            &&& view.file_name == record.file_name@
            &&& view.total_size == record.total_size
            &&& view.transferred == record.transferred
            &&& view.status == effect::status_view(record.status)
            &&& view.direction == record.direction
        }),
{
}

/// The value of an effect tells every kind of effect apart and holds what the
/// effect holds.
pub proof fn law_effect_values_lose_nothing(effect: Effect)
    ensures
        match effect {
            Effect::Status { recipient, record } => effect::effect_view(effect) == (
            EffectView::Status { recipient, record: effect::record_view(record) }),
            Effect::Complete { task_id, payload: None } => effect::effect_view(effect) == (
            EffectView::Complete { task_id, payload: None }),
            Effect::Complete { task_id, payload: Some(payload) } => effect::effect_view(effect)
                == (EffectView::Complete { task_id, payload: Some(payload@) }),
            Effect::Start { task_id, start_offset } => effect::effect_view(effect) == (
            EffectView::Start { task_id, start_offset }),
            Effect::Interrupt { task_id } => effect::effect_view(effect) == (
            EffectView::Interrupt { task_id }),
            Effect::Abort { task_id, latch } => effect::effect_view(effect) == (
            EffectView::Abort { task_id, latch }),
            Effect::ReleaseUploadFile { task_id } => effect::effect_view(effect) == (
            EffectView::ReleaseUploadFile { task_id }),
            Effect::CloseCallbacks => effect::effect_view(effect) is CloseCallbacks,
        },
{
}

/// The values of a list of effects are those of its members, in order.
pub proof fn law_effects_keep_their_order(effects: Seq<Effect>, i: int)
    requires
        0 <= i < effects.len(),
    ensures
        effect::effect_views(effects).len() == effects.len(),
        effect::effect_views(effects)[i] == effect::effect_view(effects[i]),
{
}

// ---------------------------------------------------------------------------
// Reports and callbacks
// ---------------------------------------------------------------------------

/// A status is reported once while callbacks are open and not at all
/// afterwards. The record names the task, its file and its direction, and goes
/// to the task's own callback exactly where its submitter wants that.
pub proof fn law_a_status_is_reported_once(
    callbacks_open: bool,
    group: GroupState,
    status: StatusView,
    transferred: u64,
    total: u64,
)
    ensures
        ({
            let reports = effect::status_effects(
                callbacks_open,
                group,
                status,
                transferred,
                total,
            );
            &&& !callbacks_open ==> reports.len() == 0
            &&& callbacks_open ==> reports == seq![
                EffectView::Status {
                    recipient: if group.progress_cb {
                        Some(group.task.task_id)
                    } else {
                        None
                    },
                    record: RecordView {
                        task_id: group.task.task_id,
                        file_sign: group.task.file_sign@,
                        file_name: group.task.file_name@,
                        total_size: total,
                        transferred: transferred,
                        status: status,
                        direction: group.task.direction,
                    },
                },
            ]
        }),
{
}

/// The completion callback of a task is called once, with the payload that its
/// worker came back with, where its submitter wants it and callbacks are open;
/// otherwise it is not called.
pub proof fn law_completion_is_called_back_once(
    callbacks_open: bool,
    group: GroupState,
    payload: Option<Seq<char>>,
)
    ensures
        ({
            let calls = effect::complete_effects(callbacks_open, group, payload);
            &&& callbacks_open && group.complete_cb ==> calls == seq![
                EffectView::Complete { task_id: group.task.task_id, payload },
            ]
            &&& !callbacks_open || !group.complete_cb ==> calls.len() == 0
        }),
{
}

// ---------------------------------------------------------------------------
// Worker events
// ---------------------------------------------------------------------------

/// Progress of a registered transfer is put on record and reported as it came,
/// with the total that it knows; where it knows none, the one on record stays
/// and is reported. No other table changes, and no other transfer's entry.
pub proof fn law_progress_is_recorded_and_reported(
    v: SchedulerView,
    event: WorkerEvent,
    other: KeyView,
)
    requires
        event is Progress,
        v.groups.contains_key(event.key()),
    ensures
        ({
            let k = event.key();
            let w = scheduler::worker_event_step(v, event).state;
            let told = event->Progress_total_size;
            &&& w.offsets.contains_key(k) && w.offsets[k] == event->next_offset
            &&& told > 0 ==> w.known_totals.contains_key(k) && w.known_totals[k] == told
            &&& told == 0 ==> w.known_totals == v.known_totals
            &&& other != k ==> w.offsets.contains_key(other) == v.offsets.contains_key(other)
                && w.offsets[other] == v.offsets[other] && w.known_totals.contains_key(other)
                == v.known_totals.contains_key(other) && w.known_totals[other]
                == v.known_totals[other]
            &&& w.groups == v.groups
            &&& w.task_keys == v.task_keys
            &&& w.queued == v.queued
            &&& w.paused == v.paused
            &&& w.active == v.active
            &&& w.canceling == v.canceling
            &&& w.callbacks_open == v.callbacks_open
        }),
        ({
            let k = event.key();
            let reports = scheduler::worker_event_step(v, event).effects;
            let known = if event->Progress_total_size > 0 {
                event->Progress_total_size
            } else if v.known_totals.contains_key(k) && v.known_totals[k] > 0 {
                v.known_totals[k]
            } else {
                v.groups[k].task.total_size
            };
            &&& !v.callbacks_open ==> reports.len() == 0
            &&& v.callbacks_open ==> reports == seq![
                EffectView::Status {
                    recipient: if v.groups[k].progress_cb {
                        Some(v.groups[k].task.task_id)
                    } else {
                        None
                    },
                    record: RecordView {
                        task_id: v.groups[k].task.task_id,
                        file_sign: v.groups[k].task.file_sign@,
                        file_name: v.groups[k].task.file_name@,
                        total_size: known,
                        transferred: event->next_offset,
                        status: StatusView::Transmission,
                        direction: v.groups[k].task.direction,
                    },
                },
            ]
        }),
{
}

/// A completed transfer is reported as complete, with all of its bytes
/// transferred, and right behind that its completion callback is called with
/// the worker's payload: exactly once where its submitter wants the call, and
/// not at all otherwise. Once callbacks are closed there is neither.
pub proof fn law_completed_transfers_are_called_back(v: SchedulerView, event: WorkerEvent)
    requires
        event is Completed,
        v.groups.contains_key(event.key()),
    ensures
        ({
            let k = event.key();
            let effects = scheduler::worker_event_step(v, event).effects;
            let known = if v.known_totals.contains_key(k) && v.known_totals[k] > 0 {
                v.known_totals[k]
            } else {
                v.groups[k].task.total_size
            };
            let total = if event->Completed_total_size >= known {
                event->Completed_total_size
            } else {
                known
            };
            let report = EffectView::Status {
                recipient: if v.groups[k].progress_cb {
                    Some(v.groups[k].task.task_id)
                } else {
                    None
                },
                record: RecordView {
                    task_id: v.groups[k].task.task_id,
                    file_sign: v.groups[k].task.file_sign@,
                    file_name: v.groups[k].task.file_name@,
                    total_size: total,
                    transferred: total,
                    status: StatusView::Complete,
                    direction: v.groups[k].task.direction,
                },
            };
            let payload = match event->completion_payload {
                Some(text) => Some(text@),
                None => None,
            };
            &&& v.callbacks_open && v.groups[k].complete_cb ==> effects == seq![
                report,
                EffectView::Complete { task_id: v.groups[k].task.task_id, payload },
            ]
            &&& v.callbacks_open && !v.groups[k].complete_cb ==> effects == seq![report]
            &&& !v.callbacks_open ==> effects.len() == 0
        }),
{
}

/// A failed transfer is reported as failed with the error of its worker, at the
/// progress that is on record.
pub proof fn law_failed_transfers_are_reported(v: SchedulerView, event: WorkerEvent)
    requires
        event is Failed,
        v.groups.contains_key(event.key()),
    ensures
        ({
            let k = event.key();
            let effects = scheduler::worker_event_step(v, event).effects;
            let error = event->error;
            let offset = if v.offsets.contains_key(k) {
                v.offsets[k]
            } else {
                0
            };
            let known = if v.known_totals.contains_key(k) && v.known_totals[k] > 0 {
                v.known_totals[k]
            } else {
                v.groups[k].task.total_size
            };
            let total = if event->Failed_total_size >= known {
                event->Failed_total_size
            } else {
                known
            };
            &&& !v.callbacks_open ==> effects.len() == 0
            &&& v.callbacks_open ==> effects == seq![
                EffectView::Status {
                    recipient: if v.groups[k].progress_cb {
                        Some(v.groups[k].task.task_id)
                    } else {
                        None
                    },
                    record: RecordView {
                        task_id: v.groups[k].task.task_id,
                        file_sign: v.groups[k].task.file_sign@,
                        file_name: v.groups[k].task.file_name@,
                        total_size: total,
                        transferred: offset,
                        status: StatusView::Failed {
                                code: error.code,
                                msg: error.msg@,
                                http_status: error.http_status,
                            },
                        direction: v.groups[k].task.direction,
                    },
                },
            ]
        }),
{
}

/// A worker that stopped before the end is reported as paused where a pause was
/// asked for, and as canceled otherwise, at the progress that is on record. A
/// paused transfer stays registered and paused, with its progress, and its
/// worker is gone; a canceled one is gone.
pub proof fn law_stopped_transfers_are_reported(v: SchedulerView, event: WorkerEvent)
    requires
        event is Canceled,
        v.groups.contains_key(event.key()),
    ensures
        ({
            let k = event.key();
            let effects = scheduler::worker_event_step(v, event).effects;
            let offset = if v.offsets.contains_key(k) {
                v.offsets[k]
            } else {
                0
            };
            let known = if v.known_totals.contains_key(k) && v.known_totals[k] > 0 {
                v.known_totals[k]
            } else {
                v.groups[k].task.total_size
            };
            let total = if event->Canceled_total_size >= known {
                event->Canceled_total_size
            } else {
                known
            };
            &&& !v.callbacks_open ==> effects.len() == 0
            &&& v.callbacks_open ==> effects == seq![
                EffectView::Status {
                    recipient: if v.groups[k].progress_cb {
                        Some(v.groups[k].task.task_id)
                    } else {
                        None
                    },
                    record: RecordView {
                        task_id: v.groups[k].task.task_id,
                        file_sign: v.groups[k].task.file_sign@,
                        file_name: v.groups[k].task.file_name@,
                        total_size: total,
                        transferred: offset,
                        status: if v.paused.contains(k) {
                            StatusView::Paused
                        } else {
                            StatusView::Canceled
                        },
                        direction: v.groups[k].task.direction,
                    },
                },
            ]
        }),
        ({
            let k = event.key();
            let w = scheduler::worker_event_step(v, event).state;
            let before = v.groups[k];
            let after = w.groups[k];
            &&& !w.active.contains_key(k)
            &&& !w.canceling.contains(k)
            &&& w.groups.contains_key(k) <==> v.paused.contains(k)
            &&& w.paused.contains(k) <==> v.paused.contains(k)
            &&& w.queued == v.queued
            &&& w.callbacks_open == v.callbacks_open
            &&& v.paused.contains(k) ==> {
                &&& w.offsets == v.offsets
                &&& w.known_totals == v.known_totals
                &&& w.task_keys == v.task_keys
                &&& after.task == before.task
                &&& after.progress_cb == before.progress_cb
                &&& after.complete_cb == before.complete_cb
                &&& after.lifecycle.abort_started == before.lifecycle.abort_started
                &&& after.lifecycle.abort_required == before.lifecycle.abort_required
                &&& before.lifecycle.terminal is Pausing ==> after.lifecycle.terminal is Open
                &&& !(before.lifecycle.terminal is Pausing) ==> after.lifecycle.terminal
                    == before.lifecycle.terminal
            }
        }),
{
}

/// Only a completed transfer has its completion callback called; every worker
/// event leads to one report at most, and none to anything but reports and that
/// call.
pub proof fn law_nothing_else_is_called_back(v: SchedulerView, event: WorkerEvent, i: int)
    requires
        0 <= i < scheduler::worker_event_step(v, event).effects.len(),
    ensures
        ({
            let effects = scheduler::worker_event_step(v, event).effects;
            &&& v.groups.contains_key(event.key())
            &&& effects.len() <= 2
            &&& i == 0 ==> effects[i] is Status
            &&& i == 1 ==> effects[i] is Complete && event is Completed
        }),
{
}

/// A worker that came to its end leaves its transfer out of every table, and
/// nothing else out of any: what is on record of another transfer stays.
pub proof fn law_an_end_touches_no_other_transfer(
    v: SchedulerView,
    event: WorkerEvent,
    other: KeyView,
)
    requires
        other != event.key(),
    ensures
        ({
            let w = scheduler::worker_event_step(v, event).state;
            &&& w.groups.contains_key(other) == v.groups.contains_key(other)
            &&& w.groups[other] == v.groups[other]
            &&& w.active.contains_key(other) == v.active.contains_key(other)
            &&& w.active[other] == v.active[other]
            &&& w.paused.contains(other) == v.paused.contains(other)
            &&& w.canceling.contains(other) == v.canceling.contains(other)
            &&& w.offsets.contains_key(other) == v.offsets.contains_key(other)
            &&& w.offsets[other] == v.offsets[other]
            &&& w.known_totals.contains_key(other) == v.known_totals.contains_key(other)
            &&& w.known_totals[other] == v.known_totals[other]
            &&& w.queued == v.queued
            &&& w.max_uploads == v.max_uploads
            &&& w.max_downloads == v.max_downloads
            &&& w.callbacks_open == v.callbacks_open
        }),
        ({
            let k = event.key();
            let w = scheduler::worker_event_step(v, event).state;
            !(event is Progress) && !(event is Canceled && v.paused.contains(k)) ==> {
                &&& !w.groups.contains_key(k)
                &&& !w.active.contains_key(k)
                &&& !w.paused.contains(k)
                &&& !w.canceling.contains(k)
                &&& !w.offsets.contains_key(k)
                &&& !w.known_totals.contains_key(k)
                &&& v.groups.contains_key(k) ==> !w.task_keys.contains_key(
                    v.groups[k].task.task_id.value,
                )
            }
        }),
{
}

// ---------------------------------------------------------------------------
// Canceling, pausing, resuming
// ---------------------------------------------------------------------------

/// Canceling a registered transfer that has no worker ends it: the protocol is
/// told to clean up, with the latch of the task in its canceled state, and then
/// the cancel is reported once, at the progress on record. The cleanup does not
/// depend on whether callbacks are open.
pub proof fn law_a_resting_cancel_cleans_up(v: SchedulerView, k: KeyView)
    requires
        v.groups.contains_key(k),
        !v.active.contains_key(k),
    ensures
        ({
            let effects = scheduler::cancel_step(v, k).effects;
            let latch = v.groups[k].lifecycle;
            let finishing = latch.terminal is Completing || latch.terminal
                is CompletingPausePending || latch.terminal is CompletingCancelPending;
            let offset = if v.offsets.contains_key(k) {
                v.offsets[k]
            } else {
                0
            };
            let known = if v.known_totals.contains_key(k) && v.known_totals[k] > 0 {
                v.known_totals[k]
            } else {
                v.groups[k].task.total_size
            };
            let abort = EffectView::Abort {
                task_id: v.groups[k].task.task_id,
                latch: TransferLifecycle {
                    terminal: if finishing {
                        TerminalState::CompletingCancelPending
                    } else {
                        TerminalState::Canceling
                    },
                    abort_started: latch.abort_started,
                    abort_required: latch.abort_required,
                },
            };
            &&& v.callbacks_open ==> effects == seq![
                abort,
                EffectView::Status {
                    recipient: if v.groups[k].progress_cb {
                        Some(v.groups[k].task.task_id)
                    } else {
                        None
                    },
                    record: RecordView {
                        task_id: v.groups[k].task.task_id,
                        file_sign: v.groups[k].task.file_sign@,
                        file_name: v.groups[k].task.file_name@,
                        total_size: known,
                        transferred: offset,
                        status: StatusView::Canceled,
                        direction: v.groups[k].task.direction,
                    },
                },
            ]
            &&& !v.callbacks_open ==> effects == seq![abort]
        }),
        ({
            let w = scheduler::cancel_step(v, k).state;
            &&& !w.groups.contains_key(k)
            &&& !w.task_keys.contains_key(v.groups[k].task.task_id.value)
            &&& !w.paused.contains(k)
            &&& !w.queued.contains(k)
            &&& !w.canceling.contains(k)
            &&& !w.active.contains_key(k)
            &&& !w.offsets.contains_key(k)
            &&& !w.known_totals.contains_key(k)
        }),
{
    scheduler_state::lemma_without(v.queued, k);
}

/// Canceling a running transfer tells its worker to stop, unless a completing
/// request is under way, and reports nothing yet. The transfer stays registered
/// as one that is being canceled, its latch has the cancel, and its task
/// identifier means nothing any more.
pub proof fn law_a_running_cancel_stops_the_worker(v: SchedulerView, k: KeyView)
    requires
        v.groups.contains_key(k),
        v.active.contains_key(k),
    ensures
        ({
            let step = scheduler::cancel_step(v, k);
            let w = step.state;
            let latch = v.groups[k].lifecycle.terminal;
            let finishing = latch is Completing || latch is CompletingPausePending || latch
                is CompletingCancelPending;
            &&& finishing ==> step.effects.len() == 0 && w.active[k] == v.active[k]
            &&& !finishing ==> step.effects == seq![
                EffectView::Interrupt { task_id: v.active[k].task_id },
            ] && w.active[k].interrupted && w.active[k].task_id == v.active[k].task_id
            &&& w.active.dom() == v.active.dom()
            &&& w.groups.contains_key(k)
            &&& w.groups[k].task == v.groups[k].task
            &&& w.groups[k].progress_cb == v.groups[k].progress_cb
            &&& w.groups[k].complete_cb == v.groups[k].complete_cb
            &&& finishing ==> w.groups[k].lifecycle.terminal is CompletingCancelPending
            &&& !finishing ==> w.groups[k].lifecycle.terminal is Canceling
            &&& w.canceling.contains(k)
            &&& !w.paused.contains(k)
            &&& !w.queued.contains(k)
            &&& !w.task_keys.contains_key(v.groups[k].task.task_id.value)
            &&& w.offsets == v.offsets
            &&& w.known_totals == v.known_totals
        }),
{
    scheduler_state::lemma_without(v.queued, k);
    assert(scheduler::cancel_step(v, k).state.active.dom() =~= v.active.dom());
}

/// Pausing a transfer that has no worker is reported at once, at the progress
/// on record; pausing a running one tells its worker to stop, unless a
/// completing request is under way, and is not reported yet. Either way the
/// transfer counts as paused, waits no longer, and keeps its registration, its
/// identifier and its progress.
pub proof fn law_a_pause_is_kept_and_reported(v: SchedulerView, k: KeyView)
    requires
        v.groups.contains_key(k),
    ensures
        ({
            let step = scheduler::pause_step(v, k);
            let w = step.state;
            let latch = v.groups[k].lifecycle.terminal;
            let finishing = latch is Completing || latch is CompletingPausePending || latch
                is CompletingCancelPending;
            let offset = if v.offsets.contains_key(k) {
                v.offsets[k]
            } else {
                0
            };
            let known = if v.known_totals.contains_key(k) && v.known_totals[k] > 0 {
                v.known_totals[k]
            } else {
                v.groups[k].task.total_size
            };
            &&& w.paused == v.paused.insert(k)
            &&& !w.queued.contains(k)
            &&& w.groups.contains_key(k)
            &&& w.groups[k].task == v.groups[k].task
            &&& w.groups[k].progress_cb == v.groups[k].progress_cb
            &&& w.groups[k].complete_cb == v.groups[k].complete_cb
            &&& w.task_keys == v.task_keys
            &&& w.offsets == v.offsets
            &&& w.known_totals == v.known_totals
            &&& w.canceling == v.canceling
            &&& w.active.dom() == v.active.dom()
            &&& !v.active.contains_key(k) && v.callbacks_open ==> step.effects == seq![
                EffectView::Status {
                    recipient: if v.groups[k].progress_cb {
                        Some(v.groups[k].task.task_id)
                    } else {
                        None
                    },
                    record: RecordView {
                        task_id: v.groups[k].task.task_id,
                        file_sign: v.groups[k].task.file_sign@,
                        file_name: v.groups[k].task.file_name@,
                        total_size: known,
                        transferred: offset,
                        status: StatusView::Paused,
                        direction: v.groups[k].task.direction,
                    },
                },
            ]
            &&& !v.active.contains_key(k) && !v.callbacks_open ==> step.effects.len() == 0
            &&& !v.active.contains_key(k) ==> w.groups == v.groups && w.active == v.active
            &&& v.active.contains_key(k) && finishing ==> step.effects.len() == 0 && w.active[k]
                == v.active[k]
            &&& v.active.contains_key(k) && !finishing ==> step.effects == seq![
                EffectView::Interrupt { task_id: v.active[k].task_id },
            ] && w.active[k].interrupted && w.active[k].task_id == v.active[k].task_id
            &&& v.active.contains_key(k) && latch is Open ==> w.groups[k].lifecycle.terminal
                is Pausing
            &&& v.active.contains_key(k) && latch is Completing ==> w.groups[k].lifecycle.terminal
                is CompletingPausePending
            &&& v.active.contains_key(k) && !(latch is Open) && !(latch is Completing)
                ==> w.groups[k].lifecycle.terminal == latch
        }),
{
    scheduler_state::lemma_without(v.queued, k);
    assert(scheduler::pause_step(v, k).state.active.dom() =~= v.active.dom());
}

/// Resuming a transfer that was paused and has come to rest puts it at the end
/// of the queue and reports it as pending, at the progress on record. One that
/// is not paused, or whose worker is still stopping, or whose file is still to
/// be read, is left as it is and nothing is reported.
pub proof fn law_a_resume_queues_and_reports(v: SchedulerView, k: KeyView)
    requires
        v.groups.contains_key(k),
    ensures
        ({
            let step = scheduler::resume_step(v, k);
            let w = step.state;
            let rests = v.paused.contains(k) && !v.active.contains_key(k)
                && !v.groups[k].task.unread;
            let offset = if v.offsets.contains_key(k) {
                v.offsets[k]
            } else {
                0
            };
            let known = if v.known_totals.contains_key(k) && v.known_totals[k] > 0 {
                v.known_totals[k]
            } else {
                v.groups[k].task.total_size
            };
            &&& !rests ==> step.effects.len() == 0 && w == v
            &&& rests && v.callbacks_open ==> step.effects == seq![
                EffectView::Status {
                    recipient: if v.groups[k].progress_cb {
                        Some(v.groups[k].task.task_id)
                    } else {
                        None
                    },
                    record: RecordView {
                        task_id: v.groups[k].task.task_id,
                        file_sign: v.groups[k].task.file_sign@,
                        file_name: v.groups[k].task.file_name@,
                        total_size: known,
                        transferred: offset,
                        status: StatusView::Pending,
                        direction: v.groups[k].task.direction,
                    },
                },
            ]
            &&& rests && !v.callbacks_open ==> step.effects.len() == 0
            &&& rests ==> {
                &&& w.paused == v.paused.remove(k)
                &&& w.queued.contains(k)
                &&& !v.queued.contains(k) ==> w.queued == v.queued.push(k)
                &&& w.groups == v.groups
                &&& w.active == v.active
                &&& w.offsets == v.offsets
                &&& w.known_totals == v.known_totals
                &&& w.task_keys == v.task_keys
            }
        }),
{
    scheduler_state::lemma_push_contains(v.queued, k, k);
}

/// A resume is refused exactly where it has no effect, and the refusal says
/// why.
pub proof fn law_refused_resumes_say_why(v: SchedulerView, k: KeyView)
    ensures
        ({
            let refusal = scheduler::resume_refusal(v, k);
            &&& refusal is None <==> v.paused.contains(k) && !v.active.contains_key(k)
                && v.groups.contains_key(k) && !v.groups[k].task.unread
            &&& !v.paused.contains(k) ==> refusal == Some("resume target is not paused"@)
            &&& v.paused.contains(k) && v.active.contains_key(k) ==> refusal == Some(
                "resume target is still stopping, retry later"@,
            )
            &&& v.paused.contains(k) && !v.active.contains_key(k) && !v.groups.contains_key(k)
                ==> refusal == Some("resume target group missing"@)
            &&& v.paused.contains(k) && !v.active.contains_key(k) && v.groups.contains_key(k)
                && v.groups[k].task.unread ==> refusal == Some(
                "resume target source has not been read"@,
            )
        }),
{
}

// ---------------------------------------------------------------------------
// Submitting
// ---------------------------------------------------------------------------

/// A new submission is registered with an open latch and the callbacks that its
/// submitter wants, its task identifier leads to it, it is reported as pending
/// with nothing transferred unless something is on record, and it waits at the
/// end of the queue.
pub proof fn law_a_submission_is_registered_and_queued(v: SchedulerView, submission: Submission)
    requires
        !v.active.contains_key(submission.task.spec_dedupe_key()),
        !v.queued.contains(submission.task.spec_dedupe_key()),
    ensures
        ({
            let k = submission.task.spec_dedupe_key();
            let step = scheduler::enqueue_step(v, submission, None);
            let w = step.state;
            let offset = if v.offsets.contains_key(k) {
                v.offsets[k]
            } else {
                0
            };
            let known = if v.known_totals.contains_key(k) && v.known_totals[k] > 0 {
                v.known_totals[k]
            } else {
                submission.task.total_size
            };
            &&& w.groups == v.groups.insert(
                k,
                GroupState {
                    task: submission.task,
                    lifecycle: TransferLifecycle {
                        terminal: TerminalState::Open,
                        abort_started: false,
                        abort_required: false,
                    },
                    progress_cb: submission.progress_cb,
                    complete_cb: submission.complete_cb,
                },
            )
            &&& w.task_keys == v.task_keys.insert(submission.task.task_id.value, k)
            &&& w.queued == v.queued.push(k)
            &&& w.paused == v.paused
            &&& w.active == v.active
            &&& w.offsets == v.offsets
            &&& w.known_totals == v.known_totals
            &&& !v.callbacks_open ==> step.effects.len() == 0
            &&& v.callbacks_open ==> step.effects == seq![
                EffectView::Status {
                    recipient: if submission.progress_cb {
                        Some(submission.task.task_id)
                    } else {
                        None
                    },
                    record: RecordView {
                        task_id: submission.task.task_id,
                        file_sign: submission.task.file_sign@,
                        file_name: submission.task.file_name@,
                        total_size: known,
                        transferred: offset,
                        status: StatusView::Pending,
                        direction: submission.task.direction,
                    },
                },
            ]
        }),
{
}

/// An import in the paused state is registered like any other submission, but
/// it counts as paused, is reported so, and does not wait for a worker.
pub proof fn law_an_import_is_registered_and_paused(v: SchedulerView, submission: Submission)
    ensures
        ({
            let k = submission.task.spec_dedupe_key();
            let step = scheduler::enqueue_paused_step(v, submission, None);
            let w = step.state;
            let offset = if v.offsets.contains_key(k) {
                v.offsets[k]
            } else {
                0
            };
            let known = if v.known_totals.contains_key(k) && v.known_totals[k] > 0 {
                v.known_totals[k]
            } else {
                submission.task.total_size
            };
            &&& w.groups == v.groups.insert(
                k,
                GroupState {
                    task: submission.task,
                    lifecycle: TransferLifecycle {
                        terminal: TerminalState::Open,
                        abort_started: false,
                        abort_required: false,
                    },
                    progress_cb: submission.progress_cb,
                    complete_cb: submission.complete_cb,
                },
            )
            &&& w.task_keys == v.task_keys.insert(submission.task.task_id.value, k)
            &&& w.paused == v.paused.insert(k)
            &&& w.queued == v.queued
            &&& w.active == v.active
            &&& w.offsets == v.offsets
            &&& w.known_totals == v.known_totals
            &&& !v.callbacks_open ==> step.effects.len() == 0
            &&& v.callbacks_open ==> step.effects == seq![
                EffectView::Status {
                    recipient: if submission.progress_cb {
                        Some(submission.task.task_id)
                    } else {
                        None
                    },
                    record: RecordView {
                        task_id: submission.task.task_id,
                        file_sign: submission.task.file_sign@,
                        file_name: submission.task.file_name@,
                        total_size: known,
                        transferred: offset,
                        status: StatusView::Paused,
                        direction: submission.task.direction,
                    },
                },
            ]
        }),
{
}

/// A submission that repeats a registered transfer changes nothing and is
/// reported to its own submitter, where that one wants reports, as a failure
/// for being a duplicate; the record is made out for the transfer that is
/// there, with nothing transferred.
pub proof fn law_a_duplicate_is_told_its_submitter(
    v: SchedulerView,
    submission: Submission,
    leader: KeyView,
)
    ensures
        ({
            let step = scheduler::enqueue_step(v, submission, Some(leader));
            let there = v.groups[leader].task;
            &&& step == scheduler::enqueue_paused_step(v, submission, Some(leader))
            &&& step.state == v
            &&& !v.callbacks_open ==> step.effects.len() == 0
            &&& v.callbacks_open ==> step.effects == seq![
                EffectView::Status {
                    recipient: if submission.progress_cb {
                        Some(submission.task.task_id)
                    } else {
                        None
                    },
                    record: RecordView {
                        task_id: there.task_id,
                        file_sign: there.file_sign@,
                        file_name: there.file_name@,
                        total_size: there.total_size,
                        transferred: 0,
                        status: StatusView::Failed {
                            code: InnerErrorCode::DuplicateTaskError,
                            msg: Seq::empty(),
                            http_status: None,
                        },
                        direction: there.direction,
                    },
                },
            ]
        }),
{
}

// ---------------------------------------------------------------------------
// Starting
// ---------------------------------------------------------------------------

/// When a waiting transfer's turn comes and its direction has a worker to
/// spare, a worker is started for its task at the offset on record and entered
/// as running and not interrupted. The start is reported at that offset first,
/// except for a download whose size nobody knows yet.
pub proof fn law_a_start_goes_on_at_the_recorded_offset(v: SchedulerView, k: KeyView)
    requires
        v.groups.contains_key(k),
        !v.paused.contains(k),
        !v.active.contains_key(k),
        k.0 == Direction::Upload ==> v.running(Direction::Upload) < v.max_uploads,
        k.0 == Direction::Download ==> v.running(Direction::Download) < v.max_downloads,
    ensures
        ({
            let step = scheduler::start_one(v, k);
            let w = step.state;
            let offset = if v.offsets.contains_key(k) {
                v.offsets[k]
            } else {
                0
            };
            let known = if v.known_totals.contains_key(k) && v.known_totals[k] > 0 {
                v.known_totals[k]
            } else {
                v.groups[k].task.total_size
            };
            let start = EffectView::Start {
                task_id: v.groups[k].task.task_id,
                start_offset: offset,
            };
            let silent = !v.callbacks_open || (k.0 == Direction::Download && known == 0);
            &&& w.active == v.active.insert(
                k,
                ActiveState { task_id: v.groups[k].task.task_id, interrupted: false },
            )
            &&& w.queued == v.queued
            &&& w.groups == v.groups
            &&& w.offsets == v.offsets
            &&& silent ==> step.effects == seq![start]
            &&& !silent ==> step.effects == seq![
                EffectView::Status {
                    recipient: if v.groups[k].progress_cb {
                        Some(v.groups[k].task.task_id)
                    } else {
                        None
                    },
                    record: RecordView {
                        task_id: v.groups[k].task.task_id,
                        file_sign: v.groups[k].task.file_sign@,
                        file_name: v.groups[k].task.file_name@,
                        total_size: known,
                        transferred: offset,
                        status: StatusView::Transmission,
                        direction: v.groups[k].task.direction,
                    },
                },
                start,
            ]
        }),
{
}

/// A waiting transfer that is paused, runs already, or has no worker to spare
/// keeps its place; one that nobody knows any more is dropped. Neither starts
/// anything.
pub proof fn law_others_keep_waiting(v: SchedulerView, k: KeyView)
    ensures
        ({
            let step = scheduler::start_one(v, k);
            let full = match k.0 {
                Direction::Upload => v.running(Direction::Upload) >= v.max_uploads,
                Direction::Download => v.running(Direction::Download) >= v.max_downloads,
            };
            let waits = v.paused.contains(k) || v.active.contains_key(k) || (v.groups.contains_key(
                k,
            ) && full);
            &&& waits ==> step.effects.len() == 0 && step.state.queued == v.queued.push(k)
                && step.state.active == v.active
            &&& !waits && !v.groups.contains_key(k) ==> step.effects.len() == 0 && step.state == v
        }),
{
}

/// Commands on a transfer leave every other one as it was: its registration,
/// its worker, its progress, and whether it is paused, being canceled or
/// waiting.
pub proof fn law_commands_touch_no_other_transfer(v: SchedulerView, k: KeyView, other: KeyView)
    requires
        other != k,
    ensures
        ({
            let paused = scheduler::pause_step(v, k).state;
            let resumed = scheduler::resume_step(v, k).state;
            let canceled = scheduler::cancel_step(v, k).state;
            &&& paused.groups.contains_key(other) == v.groups.contains_key(other)
            &&& resumed.groups.contains_key(other) == v.groups.contains_key(other)
            &&& canceled.groups.contains_key(other) == v.groups.contains_key(other)
            &&& paused.groups[other] == v.groups[other]
            &&& resumed.groups[other] == v.groups[other]
            &&& canceled.groups[other] == v.groups[other]
            &&& paused.active.contains_key(other) == v.active.contains_key(other)
            &&& resumed.active.contains_key(other) == v.active.contains_key(other)
            &&& canceled.active.contains_key(other) == v.active.contains_key(other)
            &&& paused.active[other] == v.active[other]
            &&& resumed.active[other] == v.active[other]
            &&& canceled.active[other] == v.active[other]
            &&& paused.paused.contains(other) == v.paused.contains(other)
            &&& resumed.paused.contains(other) == v.paused.contains(other)
            &&& canceled.paused.contains(other) == v.paused.contains(other)
            &&& paused.queued.contains(other) == v.queued.contains(other)
            &&& resumed.queued.contains(other) == v.queued.contains(other)
            &&& canceled.queued.contains(other) == v.queued.contains(other)
            &&& paused.canceling.contains(other) == v.canceling.contains(other)
            &&& resumed.canceling.contains(other) == v.canceling.contains(other)
            &&& canceled.canceling.contains(other) == v.canceling.contains(other)
            &&& canceled.offsets.contains_key(other) == v.offsets.contains_key(other)
            &&& canceled.offsets[other] == v.offsets[other]
            &&& canceled.known_totals.contains_key(other) == v.known_totals.contains_key(other)
            &&& canceled.known_totals[other] == v.known_totals[other]
        }),
{
    scheduler_state::lemma_without(v.queued, k);
    scheduler_state::lemma_push_contains(v.queued, k, other);
}

/// Once the file of an import at rest was read, the import goes by its content:
/// everything that was on record of it is found under that key, unread no more,
/// with the signature that was read, and its task identifier leads there. A file
/// that could not be read, or whose content is being transferred already,
/// changes nothing.
pub proof fn law_a_read_import_goes_by_its_content(
    v: SchedulerView,
    k: KeyView,
    sign: String,
    e: MeowError,
)
    requires
        v.groups.contains_key(k),
        v.paused.contains(k),
        !v.active.contains_key(k),
        v.groups[k].task.unread,
        v.groups[k].task.direction == Direction::Upload,
    ensures
        ({
            let known_as = (Direction::Upload, sign@);
            let w = scheduler::identify_state(v, k, Ok(sign));
            let task = w.groups[known_as].task;
            let before = v.groups[k].task;
            &&& v.groups.contains_key(known_as) ==> w == v
            &&& !v.groups.contains_key(known_as) ==> {
                &&& w.groups.contains_key(known_as)
                &&& k != known_as ==> !w.groups.contains_key(k)
                &&& task.file_sign == sign
                &&& !task.unread
                &&& task.task_id == before.task_id
                &&& task.file_name == before.file_name
                &&& task.upload_source == before.upload_source
                &&& task.total_size == before.total_size
                &&& task.url == before.url
                &&& w.groups[known_as].lifecycle == v.groups[k].lifecycle
                &&& w.groups[known_as].progress_cb == v.groups[k].progress_cb
                &&& w.groups[known_as].complete_cb == v.groups[k].complete_cb
                &&& w.task_keys.contains_key(before.task_id.value)
                &&& w.task_keys[before.task_id.value] == known_as
                &&& w.paused.contains(known_as)
                &&& k != known_as ==> !w.paused.contains(k)
                &&& w.queued == v.queued
                &&& w.active == v.active
            }
        }),
        scheduler::identify_state(v, k, Err(e)) == v,
{
}

/// What the reading of an import's file is answered: its own failure where it
/// could not be read, a refusal as a duplicate where its content is being
/// transferred already, and otherwise success.
pub proof fn law_a_read_import_is_answered(
    v: SchedulerView,
    k: KeyView,
    read: Result<String, MeowError>,
    result: Result<(), MeowError>,
)
    requires
        v.groups.contains_key(k),
        v.paused.contains(k),
        !v.active.contains_key(k),
        v.groups[k].task.unread,
        v.groups[k].task.direction == Direction::Upload,
        scheduler::identify_answer(v, k, read, result),
    ensures
        read matches Err(e) ==> result == Err::<(), MeowError>(e),
        read matches Ok(sign) ==> ({
            let there = v.groups.contains_key((Direction::Upload, sign@));
            &&& result is Err <==> there
            &&& there ==> result->Err_0.code == InnerErrorCode::DuplicateTaskError
                && result->Err_0.msg@.len() == 0 && result->Err_0.http_status is None
        }),
{
}

// ---------------------------------------------------------------------------
// The loop
// ---------------------------------------------------------------------------

/// Before the end of a registered transfer is reported, the source file of an
/// upload from a file is closed, and an upload that was canceled while it ran
/// is cleaned up, with its latch, unless it completed after all. A pause, a
/// download and mere progress clean up nothing.
pub proof fn law_cleanup_comes_before_the_report(v: SchedulerView, event: WorkerEvent)
    requires
        v.groups.contains_key(event.key()),
    ensures
        ({
            let k = event.key();
            let task = v.groups[k].task;
            let effects = executor::quiescent_step(v, event).effects;
            let reports = scheduler::worker_event_step(v, event).effects;
            let from_file = task.direction == Direction::Upload && task.upload_source is Some
                && task.upload_source->Some_0 is File;
            let release = EffectView::ReleaseUploadFile { task_id: task.task_id };
            let abort = EffectView::Abort {
                task_id: task.task_id,
                latch: v.groups[k].lifecycle,
            };
            let canceled = (event is Failed || event is Canceled) && k.0 == Direction::Upload
                && v.canceling.contains(k);
            &&& executor::quiescent_step(v, event).state == scheduler::worker_event_step(
                v,
                event,
            ).state
            &&& event is Progress ==> effects == reports
            &&& !(event is Progress) && from_file && canceled ==> effects == seq![release, abort]
                + reports
            &&& !(event is Progress) && from_file && !canceled ==> effects == seq![release]
                + reports
            &&& !(event is Progress) && !from_file && canceled ==> effects == seq![abort] + reports
            &&& !(event is Progress) && !from_file && !canceled ==> effects == reports
        }),
{
    let effects = executor::quiescent_step(v, event).effects;
    let reports = scheduler::worker_event_step(v, event).effects;
    assert(Seq::<EffectView>::empty() + Seq::<EffectView>::empty() + reports =~= reports);
    assert(Seq::<EffectView>::empty() + reports =~= reports);
}

/// While the loop runs, the end of a worker is followed by the start of what
/// waits; progress starts nothing.
pub proof fn law_an_end_makes_room(v: SchedulerView, event: WorkerEvent)
    ensures
        ({
            let quiet = executor::quiescent_step(v, event);
            let step = executor::running_event_step(v, event);
            let next = scheduler::start_step(quiet.state);
            &&& event is Progress ==> step == quiet
            &&& !(event is Progress) ==> step.state == next.state && step.effects == quiet.effects
                + next.effects
        }),
{
}

/// Starting asks for reports and workers only.
proof fn lemma_start_pass_effects(v: SchedulerView, waiting: Seq<KeyView>)
    ensures
        forall|i: int|
            0 <= i < scheduler::start_pass(v, waiting).effects.len() ==> (
            #[trigger] scheduler::start_pass(v, waiting).effects[i]) is Status
                || scheduler::start_pass(v, waiting).effects[i] is Start,
    decreases waiting.len(),
{
    if waiting.len() > 0 {
        lemma_start_pass_effects(v, waiting.drop_last());
    }
}

/// While the loop runs, each completed transfer whose submitter wants it leads
/// to exactly one call of the completion callback, for its task and with the
/// payload of its worker, whatever is started at the same time; no other event
/// leads to one.
pub proof fn law_one_completion_call_per_completion(v: SchedulerView, event: WorkerEvent)
    ensures
        ({
            let k = event.key();
            let effects = executor::running_event_step(v, event).effects;
            let payload = match event->completion_payload {
                Some(text) => Some(text@),
                None => None,
            };
            let call = EffectView::Complete { task_id: v.groups[k].task.task_id, payload };
            let called = event is Completed && v.groups.contains_key(k) && v.callbacks_open
                && v.groups[k].complete_cb;
            &&& called ==> exists|i: int|
                0 <= i < effects.len() && #[trigger] effects[i] == call && forall|j: int|
                    0 <= j < effects.len() && (#[trigger] effects[j]) is Complete ==> j == i
            &&& !called ==> forall|j: int|
                0 <= j < effects.len() ==> !((#[trigger] effects[j]) is Complete)
        }),
{
    let k = event.key();
    let quiet = executor::quiescent_step(v, event);
    let cleanup = executor::quiescence_effects(v, event);
    let told = scheduler::worker_event_step(v, event).effects;
    let effects = executor::running_event_step(v, event).effects;
    let fresh = SchedulerView { queued: Seq::empty(), ..quiet.state };
    lemma_start_pass_effects(fresh, quiet.state.queued);
    let started = scheduler::start_step(quiet.state).effects;
    assert(forall|i: int|
        0 <= i < cleanup.len() ==> !((#[trigger] cleanup[i]) is Complete));
    assert(quiet.effects == cleanup + told);
    if event is Progress {
        assert(effects == quiet.effects);
    } else {
        assert(effects == quiet.effects + started);
    }
    if event is Completed && v.groups.contains_key(k) && v.callbacks_open
        && v.groups[k].complete_cb {
        law_completed_transfers_are_called_back(v, event);
        let at = cleanup.len() as int + 1;
        assert(told.len() == 2);
        assert(effects[at] == told[1]);
        assert forall|j: int| 0 <= j < effects.len() && (#[trigger] effects[j]) is Complete implies j
            == at by {
            if j < cleanup.len() {
                assert(effects[j] == cleanup[j]);
            } else if j < cleanup.len() + told.len() {
                assert(effects[j] == told[j - cleanup.len()]);
            } else {
                assert(effects[j] == started[j - cleanup.len() - told.len()]);
            }
        }
    } else {
        assert forall|j: int| 0 <= j < effects.len() implies !((
        #[trigger] effects[j]) is Complete) by {
            if j < cleanup.len() {
                assert(effects[j] == cleanup[j]);
            } else if j < cleanup.len() + told.len() {
                assert(effects[j] == told[j - cleanup.len()]);
            } else {
                assert(effects[j] == started[j - cleanup.len() - told.len()]);
            }
        }
    }
}

/// A command on a task does to the transfer that the identifier leads to what
/// the command says, and nothing where it leads nowhere; afterwards what waits
/// is started.
pub proof fn law_commands_reach_their_transfer(
    v: SchedulerView,
    cmd: TransferCmd,
    leader: Option<KeyView>,
)
    ensures
        ({
            let step = executor::command_step(v, cmd, leader);
            &&& cmd matches TransferCmd::Pause { task_id } ==> {
                let done = if v.task_keys.contains_key(task_id.value) {
                    scheduler::pause_step(v, v.task_keys[task_id.value])
                } else {
                    Step { state: v, effects: Seq::empty() }
                };
                let next = scheduler::start_step(done.state);
                step.state == next.state && step.effects == done.effects + next.effects
            }
            &&& cmd matches TransferCmd::Resume { task_id } ==> {
                let done = if v.task_keys.contains_key(task_id.value) {
                    scheduler::resume_step(v, v.task_keys[task_id.value])
                } else {
                    Step { state: v, effects: Seq::empty() }
                };
                let next = scheduler::start_step(done.state);
                step.state == next.state && step.effects == done.effects + next.effects
            }
            &&& cmd matches TransferCmd::Cancel { task_id } ==> {
                let done = if v.task_keys.contains_key(task_id.value) {
                    scheduler::cancel_step(v, v.task_keys[task_id.value])
                } else {
                    Step { state: v, effects: Seq::empty() }
                };
                let next = scheduler::start_step(done.state);
                step.state == next.state && step.effects == done.effects + next.effects
            }
            &&& cmd matches TransferCmd::Identify { task_id, read } ==> {
                let done = if v.task_keys.contains_key(task_id.value) {
                    scheduler::identify_state(v, v.task_keys[task_id.value], read)
                } else {
                    v
                };
                let next = scheduler::start_step(done);
                step.state == next.state && step.effects == next.effects
            }
            &&& cmd is Snapshot ==> step.state == v && step.effects.len() == 0
            &&& cmd matches TransferCmd::Enqueue { submission } ==> {
                let done = scheduler::enqueue_step(v, submission, leader);
                let next = scheduler::start_step(done.state);
                &&& leader is Some ==> step == done
                &&& leader is None ==> step.state == next.state && step.effects == done.effects
                    + next.effects
            }
            &&& cmd matches TransferCmd::EnqueuePaused { submission } ==> step
                == scheduler::enqueue_paused_step(v, submission, leader)
        }),
{
    if let TransferCmd::Identify { task_id, read } = cmd {
        let next = scheduler::start_step(executor::control_step(v, cmd).state);
        assert(Seq::<EffectView>::empty() + next.effects =~= next.effects);
    }
}

/// A command on a task that nobody knows is refused with the task's number, and
/// a known one is paused or canceled without a refusal.
pub proof fn law_unknown_tasks_are_refused(
    v: SchedulerView,
    cmd: TransferCmd,
    result: Result<(), MeowError>,
)
    requires
        executor::control_answer(v, cmd, result),
    ensures
        ({
            let id = match cmd {
                TransferCmd::Pause { task_id } => Some(task_id),
                TransferCmd::Resume { task_id } => Some(task_id),
                TransferCmd::Cancel { task_id } => Some(task_id),
                TransferCmd::Identify { task_id, .. } => Some(task_id),
                _ => None,
            };
            id matches Some(task_id) ==> {
                let known = v.task_keys.contains_key(task_id.value);
                &&& !known ==> result is Err && result->Err_0.code == InnerErrorCode::TaskNotFound
                    && result->Err_0.msg@ == "task not found: "@ + crate::text::decimal(
                    task_id.value as nat,
                ) && result->Err_0.http_status is None
                &&& known && (cmd is Pause || cmd is Cancel) ==> result is Ok
                &&& known && cmd is Resume ==> (result is Ok <==> scheduler::resume_refusal(
                    v,
                    v.task_keys[task_id.value],
                ) is None)
                &&& known && cmd is Resume && result is Err ==> result->Err_0.code
                    == InnerErrorCode::InvalidTaskState && Some(result->Err_0.msg@)
                    == scheduler::resume_refusal(v, v.task_keys[task_id.value])
            }
        }),
{
}

/// The callbacks of a closing loop are closed exactly when its last worker has
/// come to rest, as the last thing that is asked for; then nothing is left in
/// any table, and the callbacks stay closed.
pub proof fn law_callbacks_close_with_the_last_worker(step: Step)
    ensures
        ({
            let end = executor::and_finish(step);
            let idle = forall|k: KeyView| !(#[trigger] step.state.active.contains_key(k));
            &&& !idle ==> end == step
            &&& idle ==> {
                &&& end.effects == step.effects.push(EffectView::CloseCallbacks)
                &&& !end.state.callbacks_open
                &&& end.state.queued.len() == 0
                &&& end.state.max_uploads == step.state.max_uploads
                &&& end.state.max_downloads == step.state.max_downloads
                &&& forall|k: KeyView| !(#[trigger] end.state.groups.contains_key(k))
                &&& forall|k: KeyView| !(#[trigger] end.state.active.contains_key(k))
                &&& forall|k: KeyView| !(#[trigger] end.state.paused.contains(k))
                &&& forall|k: KeyView| !(#[trigger] end.state.canceling.contains(k))
                &&& forall|k: KeyView| !(#[trigger] end.state.offsets.contains_key(k))
                &&& forall|k: KeyView| !(#[trigger] end.state.known_totals.contains_key(k))
                &&& forall|t: u64| !(#[trigger] end.state.task_keys.contains_key(t))
            }
        }),
{
    let idle = forall|k: KeyView| !(#[trigger] step.state.active.contains_key(k));
    if idle {
        assert(step.state.active =~= Map::<KeyView, ActiveState>::empty());
        assert(step.effects + seq![EffectView::CloseCallbacks] =~= step.effects.push(
            EffectView::CloseCallbacks,
        ));
    }
}

} // verus!
