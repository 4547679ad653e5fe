//! What the scheduler's operations do, told by what goes into a call and what
//! comes out of it.

use vstd::prelude::*;

use crate::direction;
use crate::direction::{Direction, KeyView, UniqueId};
use crate::effect;
use crate::effect::Effect;
use crate::effect_laws;
use crate::error::{InnerErrorCode, MeowError};
use crate::executor;
use crate::executor::{CommandKind, Phase, Reply, SchedulerLoop, TransferCmd};
use crate::ids::TaskId;
use crate::lifecycle::{DeferredStop, TerminalState, TransferLifecycle};
use crate::pounce_task::{LocalPath, UploadSource};
use crate::scheduler;
use crate::scheduler::{Step, Submission};
use crate::scheduler_laws;
use crate::scheduler_state;
use crate::scheduler_state::{ActiveState, GroupState, SchedulerState, SchedulerView};
use crate::text;
use crate::transfer_status::{FileTransferRecord, TransferStatus};
use crate::worker_event::WorkerEvent;

verus! {

/// Makes what the value of an effect says of the effect itself available.
proof fn lemma_effect_at(effects: Seq<Effect>, i: int)
    requires
        0 <= i < effects.len(),
    ensures
        effect::effect_views(effects).len() == effects.len(),
        effect::effect_views(effects)[i] == effect::effect_view(effects[i]),
{
    effect_laws::law_effects_keep_their_order(effects, i);
    effect_laws::law_effect_values_lose_nothing(effects[i]);
    if let Effect::Status { recipient, record } = effects[i] {
        effect_laws::law_record_values_lose_nothing(record);
        effect_laws::law_status_values_lose_nothing(record.status);
    }
}

/// That an effect reports a status of a transfer: of its task and its file, to
/// the task's own callback where its submitter wants that.
pub open spec fn reports_status(
    e: Effect,
    group: GroupState,
    transferred: u64,
    total: u64,
) -> bool {
    e matches Effect::Status { recipient, record } && {
        &&& recipient is Some == group.progress_cb
        &&& recipient is Some ==> recipient->Some_0 == group.task.task_id
        &&& record.task_id == group.task.task_id
        &&& record.file_sign@ == group.task.file_sign@
        &&& record.file_name@ == group.task.file_name@
        &&& record.direction == group.task.direction
        &&& record.transferred == transferred
        &&& record.total_size == total
    }
}

// ---------------------------------------------------------------------------
// Reporting
// ---------------------------------------------------------------------------

/// Reporting a status adds one effect behind those there are while callbacks
/// are open, with the very status, and none afterwards.
pub proof fn law_a_reported_status_is_added(
    effects: &mut Vec<Effect>,
    callbacks_open: bool,
    group: &GroupState,
    status: TransferStatus,
    transferred: u64,
    total: u64,
)
    requires
        call_ensures(
            effect::emit_status,
            (effects, callbacks_open, group, status, transferred, total),
            (),
        ),
    ensures
        final(effects)@.len() == old(effects)@.len() + if callbacks_open {
            1int
        } else {
            0
        },
        callbacks_open ==> reports_status(final(effects)@.last(), *group, transferred, total),
        callbacks_open ==> ({
            let told = final(effects)@.last()->record.status;
            match status {
                TransferStatus::Unset => told is Unset,
                TransferStatus::Pending => told is Pending,
                TransferStatus::Transmission => told is Transmission,
                TransferStatus::Paused => told is Paused,
                TransferStatus::Complete => told is Complete,
                TransferStatus::Failed(e) => told matches TransferStatus::Failed(f) && f.code
                    == e.code && f.msg@ == e.msg@ && f.http_status == e.http_status,
                TransferStatus::Canceled => told is Canceled,
            }
        }),
{
    let after = final(effects)@;
    assert(effect::effect_views(after).len() == after.len());
    assert(effect::effect_views(old(effects)@).len() == old(effects)@.len());
    effect_laws::law_status_values_lose_nothing(status);
    if callbacks_open {
        lemma_effect_at(after, after.len() - 1);
    }
}

/// Calling a completion back adds one effect behind those there are exactly
/// where callbacks are open and the submitter wants it: with the task and the
/// very payload.
pub proof fn law_a_called_back_completion_is_added(
    effects: &mut Vec<Effect>,
    callbacks_open: bool,
    group: &GroupState,
    payload: Option<String>,
)
    requires
        call_ensures(effect::emit_complete, (effects, callbacks_open, group, payload), ()),
    ensures
        final(effects)@.len() == old(effects)@.len() + if callbacks_open && group.complete_cb {
            1int
        } else {
            0
        },
        callbacks_open && group.complete_cb ==> {
            &&& final(effects)@.last() matches Effect::Complete { task_id, payload: told }
            &&& task_id == group.task.task_id
            &&& told is Some == payload is Some
            &&& payload is Some ==> told->Some_0@ == payload->Some_0@
        },
{
    let after = final(effects)@;
    assert(effect::effect_views(after).len() == after.len());
    assert(effect::effect_views(old(effects)@).len() == old(effects)@.len());
    if callbacks_open && group.complete_cb {
        lemma_effect_at(after, after.len() - 1);
    }
}

/// A progress record shows the transfer it is made of.
pub proof fn law_records_show_their_transfer(
    group: &GroupState,
    status: TransferStatus,
    transferred: u64,
    total: u64,
    record: FileTransferRecord,
)
    requires
        call_ensures(effect::to_record_inner, (group, status, transferred, total), record),
    ensures
        record.task_id == group.task.task_id,
        record.file_sign@ == group.task.file_sign@,
        record.file_name@ == group.task.file_name@,
        record.direction == group.task.direction,
        record.transferred == transferred,
        record.total_size == total,
        record.status.spec_number() == status.spec_number(),
{
    effect_laws::law_record_values_lose_nothing(record);
    effect_laws::law_status_values_lose_nothing(status);
    effect_laws::law_status_values_lose_nothing(record.status);
}

// ---------------------------------------------------------------------------
// Workers' events
// ---------------------------------------------------------------------------

/// A completed transfer is reported as complete and called back, once each,
/// with the payload it ended with, and is gone.
pub proof fn law_completed_transfers_end(
    key: UniqueId,
    total_size: u64,
    completion_payload: Option<String>,
    state: &mut SchedulerState,
    effects: Vec<Effect>,
)
    requires
        old(state)@.groups.contains_key((key.0, key.1@)),
        call_ensures(
            scheduler::handle_worker_event,
            (WorkerEvent::Completed { key, total_size, completion_payload }, state),
            effects,
        ),
    ensures
        !final(state)@.groups.contains_key((key.0, key.1@)),
        !final(state)@.active.contains_key((key.0, key.1@)),
        ({
            let group = old(state)@.groups[(key.0, key.1@)];
            let open = old(state)@.callbacks_open;
            &&& !open ==> effects@.len() == 0
            &&& open ==> effects@.len() == if group.complete_cb {
                2int
            } else {
                1
            }
            &&& open ==> effects@[0] is Status && effects@[0]->record.status is Complete
                && effects@[0]->record.task_id == group.task.task_id
                && effects@[0]->record.transferred == effects@[0]->record.total_size
                && effects@[0]->record.total_size >= total_size
            &&& open && group.complete_cb ==> {
                &&& effects@[1] matches Effect::Complete { task_id, payload }
                &&& task_id == group.task.task_id
                &&& payload is Some == completion_payload is Some
                &&& payload is Some ==> payload->Some_0@ == completion_payload->Some_0@
            }
        }),
{
    let event = WorkerEvent::Completed { key, total_size, completion_payload };
    let views = effect::effect_views(effects@);
    effect_laws::law_completed_transfers_are_called_back(old(state)@, event);
    assert(views.len() == effects@.len());
    assert(views == scheduler::worker_event_step(old(state)@, event).effects);
    if effects@.len() > 0 {
        lemma_effect_at(effects@, 0);
    }
    if effects@.len() > 1 {
        lemma_effect_at(effects@, 1);
    }
}

/// A failed transfer is reported as failed once, with its very error and how
/// far it came, and is gone; nothing is called back.
pub proof fn law_failed_transfers_end(
    key: UniqueId,
    error: MeowError,
    total_size: u64,
    state: &mut SchedulerState,
    effects: Vec<Effect>,
)
    requires
        old(state)@.groups.contains_key((key.0, key.1@)),
        call_ensures(
            scheduler::handle_worker_event,
            (WorkerEvent::Failed { key, error, total_size }, state),
            effects,
        ),
    ensures
        !final(state)@.groups.contains_key((key.0, key.1@)),
        !final(state)@.active.contains_key((key.0, key.1@)),
        effects@.len() == if old(state)@.callbacks_open {
            1int
        } else {
            0
        },
        old(state)@.callbacks_open ==> {
            let group = old(state)@.groups[(key.0, key.1@)];
            &&& effects@[0] matches Effect::Status { record, .. }
            &&& record.task_id == group.task.task_id
            &&& record.transferred == if old(state)@.offsets.contains_key((key.0, key.1@)) {
                old(state)@.offsets[(key.0, key.1@)]
            } else {
                0
            }
            &&& record.total_size >= total_size
            &&& record.status matches TransferStatus::Failed(e)
            &&& e.code == error.code
            &&& e.msg@ == error.msg@
            &&& e.http_status == error.http_status
        },
{
    let event = WorkerEvent::Failed { key, error, total_size };
    let views = effect::effect_views(effects@);
    effect_laws::law_failed_transfers_are_reported(old(state)@, event);
    assert(views.len() == effects@.len());
    assert(views == scheduler::worker_event_step(old(state)@, event).effects);
    if effects@.len() > 0 {
        lemma_effect_at(effects@, 0);
    }
}

/// A stopped transfer that was paused stays, at rest and resumable, and is
/// reported as paused; any other is reported as canceled and is gone.
pub proof fn law_stopped_transfers_rest_or_end(
    key: UniqueId,
    total_size: u64,
    state: &mut SchedulerState,
    effects: Vec<Effect>,
)
    requires
        old(state)@.groups.contains_key((key.0, key.1@)),
        call_ensures(
            scheduler::handle_worker_event,
            (WorkerEvent::Canceled { key, total_size }, state),
            effects,
        ),
    ensures
        ({
            let k = (key.0, key.1@);
            let paused = old(state)@.paused.contains(k);
            &&& !final(state)@.active.contains_key(k)
            &&& final(state)@.groups.contains_key(k) <==> paused
            &&& paused ==> final(state)@.paused.contains(k)
            &&& paused ==> !(final(state)@.groups[k].lifecycle.terminal is Pausing)
            &&& paused ==> final(state)@.groups[k].task == old(state)@.groups[k].task
            &&& effects@.len() == if old(state)@.callbacks_open {
                1int
            } else {
                0
            }
            &&& old(state)@.callbacks_open ==> {
                &&& effects@[0] matches Effect::Status { record, .. }
                &&& record.task_id == old(state)@.groups[k].task.task_id
                &&& record.status is Paused <==> paused
                &&& record.status is Canceled <==> !paused
            }
        }),
{
    let event = WorkerEvent::Canceled { key, total_size };
    let views = effect::effect_views(effects@);
    effect_laws::law_stopped_transfers_are_reported(old(state)@, event);
    assert(views.len() == effects@.len());
    assert(views == scheduler::worker_event_step(old(state)@, event).effects);
    if effects@.len() > 0 {
        lemma_effect_at(effects@, 0);
    }
}

/// Progress of a transfer is recorded and reported as transmission, up to the
/// offset that was reached; the transfer stays.
pub proof fn law_progress_is_kept_and_told(
    key: UniqueId,
    next_offset: u64,
    total_size: u64,
    state: &mut SchedulerState,
    effects: Vec<Effect>,
)
    requires
        old(state)@.groups.contains_key((key.0, key.1@)),
        call_ensures(
            scheduler::handle_worker_event,
            (WorkerEvent::Progress { key, next_offset, total_size }, state),
            effects,
        ),
    ensures
        ({
            let k = (key.0, key.1@);
            &&& final(state)@.groups == old(state)@.groups
            &&& final(state)@.active == old(state)@.active
            &&& final(state)@.offsets.contains_key(k)
            &&& final(state)@.offsets[k] == next_offset
            &&& total_size > 0 ==> final(state)@.known_totals.contains_key(k)
                && final(state)@.known_totals[k] == total_size
            &&& effects@.len() == if old(state)@.callbacks_open {
                1int
            } else {
                0
            }
            &&& old(state)@.callbacks_open ==> {
                &&& effects@[0] matches Effect::Status { record, .. }
                &&& record.task_id == old(state)@.groups[k].task.task_id
                &&& record.status is Transmission
                &&& record.transferred == next_offset
                &&& record.total_size >= total_size
            }
        }),
{
    let event = WorkerEvent::Progress { key, next_offset, total_size };
    let views = effect::effect_views(effects@);
    assert(views.len() == effects@.len());
    assert(views == scheduler::worker_event_step(old(state)@, event).effects);
    if effects@.len() > 0 {
        lemma_effect_at(effects@, 0);
    }
}

// ---------------------------------------------------------------------------
// Commands
// ---------------------------------------------------------------------------

/// Canceling a transfer that no worker runs asks first for its cleanup, with a
/// latch that says that it is canceled, reports it as canceled, and forgets it.
pub proof fn law_canceled_at_rest(state: &mut SchedulerState, key: &UniqueId, effects: Vec<Effect>)
    requires
        old(state)@.groups.contains_key((key.0, key.1@)),
        !old(state)@.active.contains_key((key.0, key.1@)),
        call_ensures(scheduler::cancel_group, (state, key), effects),
    ensures
        ({
            let k = (key.0, key.1@);
            let group = old(state)@.groups[k];
            &&& effects@.len() == if old(state)@.callbacks_open {
                2int
            } else {
                1
            }
            &&& effects@[0] matches Effect::Abort { task_id, latch } && task_id
                == group.task.task_id && latch.terminal == (match group.lifecycle.terminal {
                TerminalState::Open | TerminalState::Pausing | TerminalState::Canceling =>
                    TerminalState::Canceling,
                _ => TerminalState::CompletingCancelPending,
            })
            &&& old(state)@.callbacks_open ==> {
                &&& effects@[1] matches Effect::Status { record, .. }
                &&& record.task_id == group.task.task_id
                &&& record.status is Canceled
            }
            &&& !final(state)@.groups.contains_key(k)
            &&& !final(state)@.paused.contains(k)
            &&& !final(state)@.queued.contains(k)
            &&& !final(state)@.task_keys.contains_key(group.task.task_id.value)
        }),
{
    let k = (key.0, key.1@);
    let views = effect::effect_views(effects@);
    effect_laws::law_a_resting_cancel_cleans_up(old(state)@, k);
    assert(views.len() == effects@.len());
    assert(views == scheduler::cancel_step(old(state)@, k).effects);
    if effects@.len() > 0 {
        lemma_effect_at(effects@, 0);
    }
    if effects@.len() > 1 {
        lemma_effect_at(effects@, 1);
    }
    scheduler_state::lemma_without(old(state)@.queued, k);
}

/// Canceling or pausing a transfer that a worker runs tells the worker to stop,
/// at once unless it is completing; the transfer stays until the worker does.
pub proof fn law_running_transfers_are_stopped(
    canceled: &mut SchedulerState,
    paused: &mut SchedulerState,
    key: &UniqueId,
    on_cancel: Vec<Effect>,
    on_pause: Vec<Effect>,
)
    requires
        *old(canceled) == *old(paused),
        old(canceled)@.groups.contains_key((key.0, key.1@)),
        old(canceled)@.active.contains_key((key.0, key.1@)),
        call_ensures(scheduler::cancel_group, (canceled, key), on_cancel),
        call_ensures(scheduler::pause_group, (paused, key), on_pause),
    ensures
        ({
            let k = (key.0, key.1@);
            let before = old(canceled)@;
            let completing = match before.groups[k].lifecycle.terminal {
                TerminalState::Open | TerminalState::Pausing | TerminalState::Canceling => false,
                _ => true,
            };
            &&& completing ==> on_cancel@.len() == 0 && on_pause@.len() == 0
            &&& !completing ==> on_cancel@ == seq![
                Effect::Interrupt { task_id: before.active[k].task_id },
            ] && on_pause@ == on_cancel@
            &&& final(canceled)@.active.contains_key(k) && final(paused)@.active.contains_key(k)
            &&& final(canceled)@.groups.contains_key(k) && final(paused)@.groups.contains_key(k)
            &&& final(canceled)@.canceling.contains(k) && !final(canceled)@.paused.contains(k)
            &&& final(paused)@.paused.contains(k)
            &&& !completing ==> final(canceled)@.active[k].interrupted
                && final(paused)@.active[k].interrupted
            &&& !final(canceled)@.task_keys.contains_key(before.groups[k].task.task_id.value)
            &&& final(paused)@.task_keys == before.task_keys
        }),
{
    let k = (key.0, key.1@);
    let v = old(canceled)@;
    assert(effect::effect_views(on_cancel@) == scheduler::cancel_step(v, k).effects);
    assert(effect::effect_views(on_pause@) == scheduler::pause_step(v, k).effects);
    assert(effect::effect_views(on_cancel@).len() == on_cancel@.len());
    assert(effect::effect_views(on_pause@).len() == on_pause@.len());
    if on_cancel@.len() > 0 {
        lemma_effect_at(on_cancel@, 0);
    }
    if on_pause@.len() > 0 {
        lemma_effect_at(on_pause@, 0);
    }
}

/// A transfer at rest that is paused is reported as paused and waits no more;
/// resuming it is answered, reports it as pending and queues it once.
pub proof fn law_pauses_and_resumes_at_rest(
    paused: &mut SchedulerState,
    resumed: &mut SchedulerState,
    key: &UniqueId,
    on_pause: Vec<Effect>,
    answer: Result<(), MeowError>,
    on_resume: Vec<Effect>,
)
    requires
        old(paused)@.groups.contains_key((key.0, key.1@)),
        !old(paused)@.active.contains_key((key.0, key.1@)),
        !old(paused)@.groups[(key.0, key.1@)].task.unread,
        call_ensures(scheduler::pause_group, (paused, key), on_pause),
        *old(resumed) == *final(paused),
        call_ensures(scheduler::resume_group, (resumed, key), (answer, on_resume)),
    ensures
        ({
            let k = (key.0, key.1@);
            let told = if old(paused)@.callbacks_open {
                1int
            } else {
                0
            };
            &&& final(paused)@.paused.contains(k)
            &&& !final(paused)@.queued.contains(k)
            &&& on_pause@.len() == told
            &&& told == 1 ==> on_pause@[0] is Status && on_pause@[0]->record.status is Paused
            &&& answer is Ok
            &&& !final(resumed)@.paused.contains(k)
            &&& final(resumed)@.queued == final(paused)@.queued.push(k)
            &&& on_resume@.len() == told
            &&& told == 1 ==> on_resume@[0] is Status && on_resume@[0]->record.status is Pending
                && on_resume@[0]->record.task_id == on_pause@[0]->record.task_id
                && on_resume@[0]->record.transferred == on_pause@[0]->record.transferred
        }),
{
    let k = (key.0, key.1@);
    let v = old(paused)@;
    let w = old(resumed)@;
    scheduler_state::lemma_without(v.queued, k);
    assert(effect::effect_views(on_pause@) == scheduler::pause_step(v, k).effects);
    assert(effect::effect_views(on_resume@) == scheduler::resume_step(w, k).effects);
    assert(effect::effect_views(on_pause@).len() == on_pause@.len());
    assert(effect::effect_views(on_resume@).len() == on_resume@.len());
    if on_pause@.len() > 0 {
        lemma_effect_at(on_pause@, 0);
    }
    if on_resume@.len() > 0 {
        lemma_effect_at(on_resume@, 0);
    }
}

/// Resuming anything else is refused, says why, and changes nothing but that a
/// pause of nothing is forgotten.
pub proof fn law_resumes_are_refused_for_a_reason(
    state: &mut SchedulerState,
    key: &UniqueId,
    answer: Result<(), MeowError>,
    effects: Vec<Effect>,
)
    requires
        call_ensures(scheduler::resume_group, (state, key), (answer, effects)),
    ensures
        ({
            let k = (key.0, key.1@);
            let v = old(state)@;
            &&& answer is Ok <==> v.paused.contains(k) && !v.active.contains_key(k)
                && v.groups.contains_key(k) && !v.groups[k].task.unread
            &&& answer matches Err(e) ==> {
                &&& e.code == InnerErrorCode::InvalidTaskState
                &&& e.http_status is None
                &&& !v.paused.contains(k) ==> e.msg@ == "resume target is not paused"@
                &&& v.paused.contains(k) && v.active.contains_key(k) ==> e.msg@
                    == "resume target is still stopping, retry later"@
                &&& v.paused.contains(k) && !v.active.contains_key(k) && !v.groups.contains_key(k)
                    ==> e.msg@ == "resume target group missing"@
                &&& effects@.len() == 0
                &&& final(state)@.groups == v.groups
                &&& final(state)@.active == v.active
                &&& final(state)@.queued == v.queued
            }
        }),
{
    assert(effect::effect_views(effects@).len() == effects@.len());
}

/// A new transfer is registered under its key and its task, reported as pending
/// and queued; a new import is registered, reported as paused and not queued.
pub proof fn law_new_transfers_are_taken_in(
    queued: &mut SchedulerState,
    paused: &mut SchedulerState,
    submission: Submission,
    on_queued: Vec<Effect>,
    on_paused: Vec<Effect>,
)
    requires
        *old(queued) == *old(paused),
        !old(queued)@.active.contains_key(submission.task.spec_dedupe_key()),
        !old(queued)@.queued.contains(submission.task.spec_dedupe_key()),
        call_ensures(scheduler::enqueue_group, (queued, submission), (None, on_queued)),
        call_ensures(scheduler::enqueue_paused_group, (paused, submission), (None, on_paused)),
    ensures
        ({
            let k = submission.task.spec_dedupe_key();
            let told = if old(queued)@.callbacks_open {
                1int
            } else {
                0
            };
            &&& final(queued)@.groups.contains_key(k)
            &&& final(queued)@.groups[k].task == submission.task
            &&& final(queued)@.groups[k].progress_cb == submission.progress_cb
            &&& final(queued)@.groups[k].complete_cb == submission.complete_cb
            &&& final(queued)@.groups[k].lifecycle.terminal is Open
            &&& final(queued)@.task_keys.contains_key(submission.task.task_id.value)
            &&& final(queued)@.task_keys[submission.task.task_id.value] == k
            &&& final(queued)@.queued == old(queued)@.queued.push(k)
            &&& on_queued@.len() == told
            &&& told == 1 ==> on_queued@[0] is Status && on_queued@[0]->record.status is Pending
                && on_queued@[0]->record.task_id == submission.task.task_id
            &&& final(paused)@.groups == final(queued)@.groups
            &&& final(paused)@.task_keys == final(queued)@.task_keys
            &&& final(paused)@.paused.contains(k)
            &&& final(paused)@.queued == old(queued)@.queued
            &&& on_paused@.len() == told
            &&& told == 1 ==> on_paused@[0] is Status && on_paused@[0]->record.status is Paused
                && on_paused@[0]->record.task_id == submission.task.task_id
        }),
{
    let v = old(queued)@;
    let none: Option<KeyView> = None;
    assert(effect::effect_views(on_queued@) == scheduler::enqueue_step(
        v,
        submission,
        none,
    ).effects);
    assert(effect::effect_views(on_paused@) == scheduler::enqueue_paused_step(
        v,
        submission,
        none,
    ).effects);
    assert(effect::effect_views(on_queued@).len() == on_queued@.len());
    assert(effect::effect_views(on_paused@).len() == on_paused@.len());
    if on_queued@.len() > 0 {
        lemma_effect_at(on_queued@, 0);
    }
    if on_paused@.len() > 0 {
        lemma_effect_at(on_paused@, 0);
    }
}

/// A transfer that is there already is not taken in again: nothing changes, and
/// the submitter of the second is told of a duplicate. It is recognized by its
/// key, or by reading the same file where one of the two was not read yet.
pub proof fn law_repeated_transfers_are_refused(
    state: &mut SchedulerState,
    submission: Submission,
    leader: Option<UniqueId>,
    effects: Vec<Effect>,
    k: KeyView,
)
    requires
        call_ensures(scheduler::enqueue_group, (state, submission), (leader, effects)),
        old(state)@.groups.contains_key(k),
        k == submission.task.spec_dedupe_key() || (submission.task.direction == Direction::Upload
            && old(state)@.groups[k].task.direction == Direction::Upload && (
        submission.task.upload_source matches Some(UploadSource::File(a))
            && old(state)@.groups[k].task.upload_source matches Some(
            UploadSource::File(b),
        ) && a.bytes@ == b.bytes@) && (submission.task.unread
            || old(state)@.groups[k].task.unread)),
    ensures
        leader is Some,
        final(state)@ == old(state)@,
        effects@.len() == if old(state)@.callbacks_open {
            1int
        } else {
            0
        },
        old(state)@.callbacks_open ==> {
            &&& effects@[0] matches Effect::Status { recipient, record }
            &&& recipient is Some <==> submission.progress_cb
            &&& recipient is Some ==> recipient->Some_0 == submission.task.task_id
            &&& record.status matches TransferStatus::Failed(e)
            &&& e.code == InnerErrorCode::DuplicateTaskError
        },
{
    let v = old(state)@;
    let led = scheduler::leader_view(leader);
    assert(scheduler::repeats(v, submission.task, k));
    assert(led is Some);
    assert(effect::effect_views(effects@) == scheduler::enqueue_step(v, submission, led).effects);
    assert(effect::effect_views(effects@).len() == effects@.len());
    if effects@.len() > 0 {
        lemma_effect_at(effects@, 0);
    }
}

/// A transfer of which nothing there is a repetition is taken in.
pub proof fn law_other_transfers_are_taken_in(
    state: &mut SchedulerState,
    submission: Submission,
    leader: Option<UniqueId>,
    effects: Vec<Effect>,
)
    requires
        call_ensures(scheduler::enqueue_group, (state, submission), (leader, effects)),
        !old(state)@.groups.contains_key(submission.task.spec_dedupe_key()),
        !submission.task.unread,
        forall|k: KeyView| #[trigger]
            old(state)@.groups.contains_key(k) ==> !old(state)@.groups[k].task.unread,
    ensures
        leader is None,
        final(state)@.groups.contains_key(submission.task.spec_dedupe_key()),
        final(state)@.groups[submission.task.spec_dedupe_key()].task == submission.task,
{
    if let Some(key) = leader {
        assert(scheduler::repeats(old(state)@, submission.task, (key.0, key.1@)));
        assert(old(state)@.groups.contains_key((key.0, key.1@)));
    }
}

// ---------------------------------------------------------------------------
// The running scheduler
// ---------------------------------------------------------------------------

/// A command for a task that is not known is refused by its number and changes
/// no transfer; one for a known task that is to pause or to be canceled is
/// accepted.
pub proof fn law_commands_are_answered(
    this: &mut SchedulerLoop,
    task_id: TaskId,
    cancel: bool,
    reply: Reply,
    effects: Vec<Effect>,
)
    requires
        call_ensures(
            SchedulerLoop::on_command,
            (
                this,
                if cancel {
                    TransferCmd::Cancel { task_id }
                } else {
                    TransferCmd::Pause { task_id }
                },
            ),
            (reply, effects),
        ),
    ensures
        final(this).phase is Running,
        reply matches Reply::Control(result) && {
            &&& result is Ok <==> old(this).state@.task_keys.contains_key(task_id.value)
            &&& result matches Err(e) ==> e.code == InnerErrorCode::TaskNotFound && e.msg@
                == "task not found: "@ + text::decimal(task_id.value as nat)
        },
{
}

/// A snapshot counts what waits and what runs, names what runs, each once, and
/// changes nothing.
pub proof fn law_snapshots_count(
    this: &mut SchedulerLoop,
    reply: Reply,
    effects: Vec<Effect>,
    running: KeyView,
    i: int,
    j: int,
)
    requires
        call_ensures(SchedulerLoop::on_command, (this, TransferCmd::Snapshot), (reply, effects)),
    ensures
        reply is Snapshot,
        ({
            let snapshot = reply->Snapshot_0;
            let names = snapshot.active_keys@;
            let active = old(this).state@.active;
            &&& snapshot.queued_groups == old(this).state@.queued.len()
            &&& snapshot.active_groups == active.dom().len()
            &&& 0 <= i < names.len() ==> active.contains_key((names[i].0, names[i].1@))
            &&& 0 <= i < j < names.len() ==> (names[i].0, names[i].1@) != (names[j].0, names[j].1@)
            &&& active.contains_key(running) ==> exists|n: int|
                0 <= n < names.len() && ((#[trigger] names[n]).0, names[n].1@) == running
        }),
        final(this).state@ == old(this).state@,
        effects@.len() == 0,
{
    assert(effect::effect_views(effects@).len() == effects@.len());
    let names = reply->Snapshot_0.active_keys@;
    let active = old(this).state@.active;
    if active.contains_key(running) {
        assert(active.dom().contains(running));
        let n = choose|n: int|
            0 <= n < names.len() && direction::key_view(#[trigger] names[n]) == running;
        assert((names[n].0, names[n].1@) == running);
    }
}

/// Closing ends the scheduler at once where no worker runs, with the callbacks
/// closed last, and otherwise is answered later.
pub proof fn law_closing_waits_for_workers(
    this: &mut SchedulerLoop,
    reply: Reply,
    effects: Vec<Effect>,
)
    requires
        scheduler_laws::consistent(old(this).state@),
        call_ensures(SchedulerLoop::on_command, (this, TransferCmd::Close), (reply, effects)),
    ensures
        old(this).state@.active.dom() == Set::<KeyView>::empty() ==> final(this).phase is Stopped,
        final(this).phase is Stopped ==> (reply matches Reply::Control(result) && result is Ok),
        final(this).phase is Stopped ==> effects@.len() > 0 && effects@.last() is CloseCallbacks
            && !final(this).state@.callbacks_open,
        final(this).phase is Stopped || (final(this).phase is Closing && reply is Later),
{
    let v = old(this).state@;
    let step = choose|step: Step|
        {
            &&& #[trigger] scheduler::is_close_step(v, step)
            &&& (Step {
                state: final(this).state@,
                effects: effect::effect_views(effects@),
            }) == executor::and_finish(step)
            &&& final(this).phase == if step.state.active == Map::<KeyView, ActiveState>::empty() {
                Phase::Stopped
            } else {
                Phase::Closing
            }
        };
    scheduler_laws::law_close_pauses_everything(v, step);
    assert(effect::effect_views(effects@).len() == effects@.len());
    if final(this).phase is Stopped {
        lemma_effect_at(effects@, effects@.len() - 1);
    }
    if v.active.dom() == Set::<KeyView>::empty() {
        assert(step.state.active =~= Map::<KeyView, ActiveState>::empty());
    }
}

/// A scheduler that lost its clients stops, closes the callbacks and does
/// nothing else.
pub proof fn law_a_lost_client_stops_the_scheduler(this: &mut SchedulerLoop, effects: Vec<Effect>)
    requires
        call_ensures(SchedulerLoop::on_disconnect, (this,), effects),
    ensures
        final(this).phase is Stopped,
        !final(this).state@.callbacks_open,
        effects@.len() == 1,
        effects@[0] is CloseCallbacks,
        old(this).phase is Running ==> final(this).state@.groups == old(this).state@.groups
            && final(this).state@.active == old(this).state@.active,
{
    assert(effect::effect_views(effects@).len() == effects@.len());
    lemma_effect_at(effects@, 0);
}

/// A completing request is claimed once, by a transfer that is there and open.
pub proof fn law_completing_requests_are_claimed_once(
    first: &mut SchedulerLoop,
    second: &mut SchedulerLoop,
    key: &UniqueId,
    claimed: bool,
    again: bool,
)
    requires
        call_ensures(SchedulerLoop::begin_completion, (first, key), claimed),
        *old(second) == *final(first),
        call_ensures(SchedulerLoop::begin_completion, (second, key), again),
    ensures
        ({
            let k = (key.0, key.1@);
            let before = old(first).state@;
            &&& claimed <==> before.groups.contains_key(k)
                && before.groups[k].lifecycle.terminal is Open
            &&& !again || !claimed
            &&& claimed ==> final(first).state@.groups[k].lifecycle.terminal is Completing
            &&& claimed ==> final(first).state@.groups[k].task == before.groups[k].task
            &&& final(first).state@.active == before.active
            &&& final(first).state@.queued == before.queued
            &&& !claimed ==> final(first).state@ == before
        }),
{
}

/// A completing request that did not complete hands over the stop that came in
/// meanwhile; one that completed takes precedence over it.
pub proof fn law_stops_wait_for_completing_requests(
    incomplete: &mut SchedulerLoop,
    complete: &mut SchedulerLoop,
    key: &UniqueId,
    stop: Option<DeferredStop>,
)
    requires
        old(incomplete).state@.groups.contains_key((key.0, key.1@)),
        *old(incomplete) == *old(complete),
        call_ensures(SchedulerLoop::finish_incomplete_completion, (incomplete, key), stop),
        call_ensures(SchedulerLoop::acknowledge_completion, (complete, key), ()),
    ensures
        ({
            let k = (key.0, key.1@);
            let before = old(incomplete).state@.groups[k].lifecycle.terminal;
            let after = final(incomplete).state@.groups[k].lifecycle.terminal;
            &&& before is Completing ==> stop is None && after is Open
            &&& before is CompletingPausePending ==> stop == Some(DeferredStop::Pause)
                && after is Pausing
            &&& before is CompletingCancelPending ==> stop == Some(DeferredStop::Cancel)
                && after is Canceling
            &&& before is Open || before is Pausing || before is Canceling ==> stop is None
                && after == before
            &&& final(complete).state@.groups[k].lifecycle.terminal is Completing
            &&& final(complete).state@.groups[k].task == old(complete).state@.groups[k].task
        }),
{
}

/// A source is to be read exactly for an import at rest that was not read yet,
/// and it is the file that the import names.
pub proof fn law_sources_are_read_for_imports_at_rest(
    this: &SchedulerLoop,
    task_id: TaskId,
    path: Option<LocalPath>,
)
    requires
        call_ensures(SchedulerLoop::source_to_read, (this, task_id), path),
    ensures
        path matches Some(path) ==> {
            let v = this.state@;
            let k = v.task_keys[task_id.value];
            &&& v.task_keys.contains_key(task_id.value)
            &&& v.paused.contains(k)
            &&& !v.active.contains_key(k)
            &&& v.groups.contains_key(k)
            &&& v.groups[k].task.unread
            &&& v.groups[k].task.upload_source matches Some(
                UploadSource::File(file),
            ) ==> path.bytes@ == file.bytes@
        },
        path is None && this.state@.task_keys.contains_key(task_id.value) ==> {
            let v = this.state@;
            let k = v.task_keys[task_id.value];
            !v.paused.contains(k) || v.active.contains_key(k) || !v.groups.contains_key(k)
                || !v.groups[k].task.unread
        },
{
}

/// Failures to reach the scheduler say what was to be done, and why it failed.
pub proof fn law_lost_commands_say_what_was_asked(
    kind: CommandKind,
    reason: &str,
    sent: MeowError,
    answered: MeowError,
)
    requires
        call_ensures(executor::command_send_error, (kind, reason), sent),
        call_ensures(executor::command_response_error, (kind, reason), answered),
    ensures
        sent.code == InnerErrorCode::CommandSendFailed,
        answered.code == InnerErrorCode::CommandResponseFailed,
        sent.msg@ == match kind {
            CommandKind::Enqueue => "try_enqueue_failed: "@,
            CommandKind::EnqueuePaused => "try_enqueue_paused_failed: "@,
            CommandKind::Pause => "pause_failed: "@,
            CommandKind::Resume => "resume_failed: "@,
            CommandKind::Cancel => "cancel_failed: "@,
            CommandKind::Snapshot => "snapshot cmd_tx send failed: "@,
            CommandKind::Close => "close_failed: "@,
        } + reason@,
        kind is Pause ==> answered.msg@ == "pause response failed: "@ + reason@,
        kind is Resume ==> answered.msg@ == "resume response failed: "@ + reason@,
        kind is Cancel ==> answered.msg@ == "cancel response failed: "@ + reason@,
        kind is Snapshot ==> answered.msg@ == "snapshot rx.await failed: "@ + reason@,
        kind is Close ==> answered.msg@ == "close response failed: "@ + reason@,
{
}

/// What starting leaves alone.
proof fn lemma_starting_keeps(v: SchedulerView, waiting: Seq<KeyView>)
    ensures
        scheduler::start_pass(v, waiting).state.groups == v.groups,
        scheduler::start_pass(v, waiting).state.task_keys == v.task_keys,
        scheduler::start_pass(v, waiting).state.paused == v.paused,
        scheduler::start_pass(v, waiting).state.callbacks_open == v.callbacks_open,
        scheduler::start_pass(v, waiting).state.offsets == v.offsets,
    decreases waiting.len(),
{
    if waiting.len() > 0 {
        lemma_starting_keeps(v, waiting.drop_last());
    }
}

/// While the scheduler runs, the end of a worker closes the source of an upload
/// first, cleans a canceled upload up, reports the end, and starts what waits:
/// afterwards nothing waits that has a slot of its direction.
pub proof fn law_ends_are_carried_out(
    this: &mut SchedulerLoop,
    event: WorkerEvent,
    effects: Vec<Effect>,
    waiting: KeyView,
)
    requires
        old(this).phase is Running,
        scheduler_laws::consistent(old(this).state@),
        old(this).state@.groups.contains_key(event.key()),
        old(this).state@.active.contains_key(event.key()),
        !(event is Progress),
        call_ensures(SchedulerLoop::on_event, (this, event), effects),
    ensures
        final(this).phase is Running,
        final(this).state@.callbacks_open == old(this).state@.callbacks_open,
        final(this).state@.queued.contains(waiting) ==> final(this).state@.running(waiting.0)
            >= final(this).state@.limit(waiting.0),
        ({
            let v = old(this).state@;
            let k = event.key();
            let group = v.groups[k];
            let from_file = group.task.direction == Direction::Upload && (
            group.task.upload_source matches Some(UploadSource::File(_)));
            let canceled = !(event is Completed) && k.0 == Direction::Upload
                && v.canceling.contains(k);
            let released = if from_file {
                1int
            } else {
                0
            };
            let at = released + if canceled {
                1int
            } else {
                0
            };
            &&& from_file ==> effects@.len() > 0 && effects@[0] == (Effect::ReleaseUploadFile {
                task_id: group.task.task_id,
            })
            &&& canceled ==> effects@.len() > released && effects@[released] == (Effect::Abort {
                task_id: group.task.task_id,
                latch: group.lifecycle,
            })
            &&& v.callbacks_open ==> {
                &&& effects@.len() > at
                &&& effects@[at] matches Effect::Status { record, .. }
                &&& record.task_id == group.task.task_id
                &&& event is Completed ==> record.status is Complete
                &&& event is Failed ==> record.status is Failed
                &&& event is Canceled ==> record.status is Paused || record.status is Canceled
            }
            &&& v.callbacks_open && group.complete_cb && event is Completed ==> effects@.len() > at
                + 1 && effects@[at + 1] is Complete
            &&& event is Completed || event is Failed ==> !final(this).state@.groups.contains_key(k)
        }),
{
    let v = old(this).state@;
    let quiet = executor::quiescent_step(v, event);
    let views = effect::effect_views(effects@);
    effect_laws::law_cleanup_comes_before_the_report(v, event);
    effect_laws::law_an_end_makes_room(v, event);
    if event is Completed {
        effect_laws::law_completed_transfers_are_called_back(v, event);
    }
    if event is Failed {
        effect_laws::law_failed_transfers_are_reported(v, event);
    }
    if event is Canceled {
        effect_laws::law_stopped_transfers_are_reported(v, event);
    }
    assert(views.len() == effects@.len());
    assert(views == quiet.effects + scheduler::start_step(quiet.state).effects);
    if effects@.len() > 0 {
        lemma_effect_at(effects@, 0);
    }
    if effects@.len() > 1 {
        lemma_effect_at(effects@, 1);
    }
    if effects@.len() > 2 {
        lemma_effect_at(effects@, 2);
    }
    let fresh = SchedulerView { queued: Seq::empty(), ..quiet.state };
    lemma_starting_keeps(fresh, quiet.state.queued);
    scheduler_laws::law_worker_event_keeps_consistency(v, event);
    scheduler_laws::law_start_is_exhaustive(quiet.state);
    if final(this).state@.queued.contains(waiting) {
        assert(!scheduler::slot_free(final(this).state@, waiting.0));
    }
}

/// A closing scheduler starts nothing any more; when its last worker has come
/// to rest it stops, and closes the callbacks behind everything else.
pub proof fn law_closing_ends_with_the_last_worker(
    this: &mut SchedulerLoop,
    event: WorkerEvent,
    effects: Vec<Effect>,
)
    requires
        old(this).phase is Closing,
        call_ensures(SchedulerLoop::on_event, (this, event), effects),
    ensures
        event is Progress && old(this).state@.active.contains_key(event.key()) ==> final(this).phase
            is Closing,
        final(this).phase is Stopped ==> effects@.len() > 0 && effects@.last() is CloseCallbacks
            && !final(this).state@.callbacks_open,
        final(this).phase is Closing || final(this).phase is Stopped,
        final(this).phase is Closing ==> final(this).state@.callbacks_open
            == old(this).state@.callbacks_open && final(this).state@.queued
            == old(this).state@.queued,
        !(event is Progress) && old(this).state@.active.dom() == set![event.key()]
            ==> final(this).phase is Stopped,
{
    let v = old(this).state@;
    let k = event.key();
    let step = executor::quiescent_step(v, event);
    assert(effect::effect_views(effects@).len() == effects@.len());
    if final(this).phase is Stopped {
        lemma_effect_at(effects@, effects@.len() - 1);
    }
    if event is Progress && v.active.contains_key(k) {
        assert(step.state.active.contains_key(k));
    }
    if !(event is Progress) && v.active.dom() == set![k] {
        assert(step.state.active.dom() =~= Set::<KeyView>::empty());
        assert(step.state.active =~= Map::<KeyView, ActiveState>::empty());
    }
}

/// A cancel reaches the transfer of its task: one at rest is cleaned up,
/// reported and gone, one that runs is told to stop, and then what waits is
/// started.
pub proof fn law_cancels_are_carried_out(
    this: &mut SchedulerLoop,
    task_id: TaskId,
    reply: Reply,
    effects: Vec<Effect>,
    waiting: KeyView,
)
    requires
        scheduler_laws::consistent(old(this).state@),
        old(this).state@.task_keys.contains_key(task_id.value),
        old(this).state@.groups.contains_key(old(this).state@.task_keys[task_id.value]),
        call_ensures(
            SchedulerLoop::on_command,
            (this, TransferCmd::Cancel { task_id }),
            (reply, effects),
        ),
    ensures
        final(this).state@.queued.contains(waiting) ==> final(this).state@.running(waiting.0)
            >= final(this).state@.limit(waiting.0),
        ({
            let v = old(this).state@;
            let k = v.task_keys[task_id.value];
            let group = v.groups[k];
            let resting = !v.active.contains_key(k);
            &&& resting ==> {
                &&& effects@.len() >= 1
                &&& effects@[0] matches Effect::Abort { task_id: aborted, .. }
                &&& aborted == group.task.task_id
                &&& !final(this).state@.groups.contains_key(k)
            }
            &&& resting && v.callbacks_open ==> {
                &&& effects@.len() >= 2
                &&& effects@[1] matches Effect::Status { record, .. }
                &&& record.status is Canceled
                &&& record.task_id == group.task.task_id
            }
            &&& !resting && (group.lifecycle.terminal is Open || group.lifecycle.terminal
                is Pausing) ==> effects@.len() >= 1 && effects@[0] == (Effect::Interrupt {
                task_id: v.active[k].task_id,
            })
            &&& !resting ==> final(this).state@.groups.contains_key(k)
                && final(this).state@.groups[k].lifecycle.terminal != TerminalState::Open
        }),
{
    let v = old(this).state@;
    let k = v.task_keys[task_id.value];
    let cmd = TransferCmd::Cancel { task_id };
    let leader = choose|leader: Option<KeyView>|
        executor::is_leader_of(v, cmd, leader) && (Step {
            state: final(this).state@,
            effects: effect::effect_views(effects@),
        }) == #[trigger] executor::command_step(v, cmd, leader);
    effect_laws::law_commands_reach_their_transfer(v, cmd, leader);
    let done = scheduler::cancel_step(v, k);
    if !v.active.contains_key(k) {
        effect_laws::law_a_resting_cancel_cleans_up(v, k);
    } else {
        effect_laws::law_a_running_cancel_stops_the_worker(v, k);
    }
    let views = effect::effect_views(effects@);
    assert(views.len() == effects@.len());
    assert(views == done.effects + scheduler::start_step(done.state).effects);
    if effects@.len() > 0 {
        lemma_effect_at(effects@, 0);
    }
    if effects@.len() > 1 {
        lemma_effect_at(effects@, 1);
    }
    let fresh = SchedulerView { queued: Seq::empty(), ..done.state };
    lemma_starting_keeps(fresh, done.state.queued);
    scheduler_laws::law_cancel_keeps_consistency(v, k);
    scheduler_laws::law_start_is_exhaustive(done.state);
    if final(this).state@.queued.contains(waiting) {
        assert(!scheduler::slot_free(final(this).state@, waiting.0));
    }
}

/// A submission that repeats nothing is registered, is reported as pending
/// first, and runs or waits for a slot of its direction.
pub proof fn law_submissions_are_carried_out(
    this: &mut SchedulerLoop,
    submission: Submission,
    reply: Reply,
    effects: Vec<Effect>,
)
    requires
        scheduler_laws::consistent(old(this).state@),
        !old(this).state@.groups.contains_key(submission.task.spec_dedupe_key()),
        !old(this).state@.task_keys.contains_key(submission.task.task_id.value),
        !submission.task.unread,
        forall|k: KeyView| #[trigger]
            old(this).state@.groups.contains_key(k) ==> !old(this).state@.groups[k].task.unread,
        call_ensures(
            SchedulerLoop::on_command,
            (this, TransferCmd::Enqueue { submission }),
            (reply, effects),
        ),
    ensures
        reply is Nothing,
        ({
            let k = submission.task.spec_dedupe_key();
            let v = old(this).state@;
            &&& final(this).state@.groups.contains_key(k)
            &&& final(this).state@.groups[k].task == submission.task
            &&& final(this).state@.groups[k].complete_cb == submission.complete_cb
            &&& final(this).state@.groups[k].progress_cb == submission.progress_cb
            &&& final(this).state@.task_keys.contains_key(submission.task.task_id.value)
            &&& final(this).state@.task_keys[submission.task.task_id.value] == k
            &&& v.callbacks_open ==> {
                &&& effects@.len() >= 1
                &&& effects@[0] matches Effect::Status { record, .. }
                &&& record.status is Pending
                &&& record.task_id == submission.task.task_id
            }
            &&& final(this).state@.active.contains_key(k) || (final(this).state@.queued.contains(k)
                && final(this).state@.running(k.0) >= final(this).state@.limit(k.0))
        }),
{
    let v = old(this).state@;
    let k = submission.task.spec_dedupe_key();
    let cmd = TransferCmd::Enqueue { submission };
    let leader = choose|leader: Option<KeyView>|
        executor::is_leader_of(v, cmd, leader) && (Step {
            state: final(this).state@,
            effects: effect::effect_views(effects@),
        }) == #[trigger] executor::command_step(v, cmd, leader);
    if let Some(led) = leader {
        assert(scheduler::repeats(v, submission.task, led));
        assert(v.groups.contains_key(led));
    }
    assert(leader is None);
    effect_laws::law_commands_reach_their_transfer(v, cmd, leader);
    let done = scheduler::enqueue_step(v, submission, leader);
    effect_laws::law_a_submission_is_registered_and_queued(v, submission);
    let views = effect::effect_views(effects@);
    assert(views.len() == effects@.len());
    assert(views == done.effects + scheduler::start_step(done.state).effects);
    if effects@.len() > 0 {
        lemma_effect_at(effects@, 0);
    }
    let fresh = SchedulerView { queued: Seq::empty(), ..done.state };
    lemma_starting_keeps(fresh, done.state.queued);
    scheduler_laws::law_submission_keeps_consistency(v, submission, leader);
    scheduler_laws::law_start_is_exhaustive(done.state);
    let queue = scheduler::registered(v, submission).queued;
    scheduler_state::lemma_push_contains(queue, k, k);
    assert(done.state.active.contains_key(k) || done.state.queued.contains(k));
    if final(this).state@.queued.contains(k) {
        assert(!scheduler::slot_free(final(this).state@, k.0));
    }
}

/// What is read of an import's file makes it a transfer by its content, one
/// that can be resumed; a failed reading is what the caller gets to know, and a
/// content that is there already is a duplicate.
pub proof fn law_imports_are_read(
    state: &mut SchedulerState,
    key: &UniqueId,
    read: Result<String, MeowError>,
    result: Result<(), MeowError>,
)
    requires
        old(state)@.groups.contains_key((key.0, key.1@)),
        old(state)@.groups[(key.0, key.1@)].task.unread,
        old(state)@.groups[(key.0, key.1@)].task.direction == Direction::Upload,
        old(state)@.paused.contains((key.0, key.1@)),
        !old(state)@.active.contains_key((key.0, key.1@)),
        call_ensures(scheduler::identify_group, (state, key, read), result),
    ensures
        read matches Err(e) ==> result == Err::<(), MeowError>(e) && final(state)@ == old(state)@,
        read matches Ok(sign) ==> {
            let k = (key.0, key.1@);
            let known_as = (Direction::Upload, sign@);
            let v = old(state)@;
            let w = final(state)@;
            &&& result is Ok <==> !v.groups.contains_key(known_as)
            &&& result matches Err(e) ==> e.code == InnerErrorCode::DuplicateTaskError && w == v
            &&& result is Ok ==> {
                &&& w.groups.contains_key(known_as)
                &&& w.groups[known_as].task.file_sign@ == sign@
                &&& !w.groups[known_as].task.unread
                &&& w.groups[known_as].task.task_id == v.groups[k].task.task_id
                &&& w.paused.contains(known_as)
                &&& w.task_keys.contains_key(v.groups[k].task.task_id.value)
                &&& w.task_keys[v.groups[k].task.task_id.value] == known_as
                &&& k != known_as ==> !w.groups.contains_key(k)
            }
        },
{
}

/// A new scheduler runs, knows of nothing, may call back, and has the limits
/// that it was given, each for its direction.
pub proof fn law_new_schedulers_know_of_nothing(
    uploads: usize,
    downloads: usize,
    made: SchedulerLoop,
    k: KeyView,
    id: u64,
)
    requires
        call_ensures(SchedulerLoop::new, (uploads, downloads), made),
    ensures
        made.phase is Running,
        made.state@.callbacks_open,
        made.state@.limit(Direction::Upload) == uploads,
        made.state@.limit(Direction::Download) == downloads,
        made.state@.running(Direction::Upload) == 0,
        made.state@.running(Direction::Download) == 0,
        made.state@.queued.len() == 0,
        !made.state@.groups.contains_key(k),
        !made.state@.active.contains_key(k),
        !made.state@.paused.contains(k),
        !made.state@.canceling.contains(k),
        !made.state@.task_keys.contains_key(id),
        made.state@.offset_of(k) == 0,
{
    let none = made.state@.active.dom();
    assert(scheduler_state::direction_keys(none, Direction::Upload) =~= Set::<KeyView>::empty());
    assert(scheduler_state::direction_keys(none, Direction::Download) =~= Set::<KeyView>::empty());
}

/// A direction may start a worker exactly while fewer of its workers run than
/// its limit allows; workers of the other direction do not count.
pub proof fn law_slots_are_counted_by_direction(
    state: &SchedulerState,
    up: bool,
    down: bool,
)
    requires
        call_ensures(scheduler::can_start_direction, (state, Direction::Upload), up),
        call_ensures(scheduler::can_start_direction, (state, Direction::Download), down),
    ensures
        up <==> state@.active.dom().filter(|k: KeyView| k.0 == Direction::Upload).len()
            < state@.max_uploads,
        down <==> state@.active.dom().filter(|k: KeyView| k.0 == Direction::Download).len()
            < state@.max_downloads,
{
    let running = state@.active.dom();
    assert(running.filter(|k: KeyView| k.0 == Direction::Upload)
        =~= scheduler_state::direction_keys(running, Direction::Upload));
    assert(running.filter(|k: KeyView| k.0 == Direction::Download)
        =~= scheduler_state::direction_keys(running, Direction::Download));
}

/// What is on record of a transfer is read back: how far it came, its size once
/// that is known, its latch and its task's key; recording one changes no other.
pub proof fn law_records_are_read_back(
    state: &mut SchedulerState,
    key: UniqueId,
    total: u64,
    asked: &UniqueId,
    before: Option<u64>,
    known: Option<u64>,
    offset: u64,
    groups: usize,
    paused: usize,
    latch: Option<TransferLifecycle>,
    task_id: TaskId,
    found: Option<UniqueId>,
)
    requires
        call_ensures(SchedulerState::set_known_total, (state, key, total), ()),
        call_ensures(SchedulerState::known_total, (old(state), asked), before),
        call_ensures(SchedulerState::known_total, (final(state), asked), known),
        call_ensures(SchedulerState::offset, (final(state), asked), offset),
        call_ensures(SchedulerState::groups_len, (final(state),), groups),
        call_ensures(SchedulerState::paused_len, (final(state),), paused),
        call_ensures(SchedulerState::lifecycle, (final(state), asked), latch),
        call_ensures(SchedulerState::task_key, (final(state), task_id), found),
    ensures
        (asked.0, asked.1@) == (key.0, key.1@) ==> known == Some(total),
        (asked.0, asked.1@) != (key.0, key.1@) ==> known == before,
        old(state)@.offsets.contains_key((asked.0, asked.1@)) ==> offset
            == old(state)@.offsets[(asked.0, asked.1@)],
        !old(state)@.offsets.contains_key((asked.0, asked.1@)) ==> offset == 0,
        groups == old(state)@.groups.dom().len(),
        paused == old(state)@.paused.len(),
        latch is Some <==> old(state)@.groups.contains_key((asked.0, asked.1@)),
        latch matches Some(latch) ==> latch == old(state)@.groups[(
            asked.0,
            asked.1@,
        )].lifecycle,
        found is Some <==> old(state)@.task_keys.contains_key(task_id.value),
        found matches Some(k) ==> (k.0, k.1@) == old(state)@.task_keys[task_id.value],
{
}

} // verus!
