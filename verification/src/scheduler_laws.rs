//! What holds of the scheduler as a whole.

use vstd::prelude::*;

use crate::direction::{Direction, KeyView};
use crate::effect;
use crate::effect::{EffectView, StatusView};
use crate::error::MeowError;
use crate::executor;
use crate::executor::TransferCmd;
use crate::ids::TaskId;
use crate::lifecycle::{TerminalState, TransferLifecycle};
use crate::scheduler;
use crate::scheduler::{Step, Submission};
use crate::scheduler_state;
use crate::scheduler_state::SchedulerView;
use crate::worker_event::WorkerEvent;

verus! {

/// Whether the tables agree with each other, the queue aside: every entry of
/// every table belongs to a registered transfer, task identifiers lead to the
/// transfer they were given for unless it was canceled, only running transfers
/// are being canceled, no direction has more workers than it may have, no worker
/// runs for an upload whose file is still to be read, and no other upload is
/// registered for such a file.
pub open spec fn tables_agree(v: SchedulerView) -> bool {
    &&& v.active.dom().finite()
    &&& forall|k: KeyView| #[trigger]
        v.groups.contains_key(k) ==> v.groups[k].task.spec_dedupe_key() == k
    &&& forall|t: u64| #[trigger]
        v.task_keys.contains_key(t) ==> v.groups.contains_key(v.task_keys[t])
            && v.groups[v.task_keys[t]].task.task_id.value == t && !v.canceling.contains(
            v.task_keys[t],
        )
    &&& forall|k: KeyView| #[trigger]
        v.active.contains_key(k) ==> v.groups.contains_key(k) && v.active[k].task_id
            == v.groups[k].task.task_id && !v.groups[k].task.unread
    &&& forall|k: KeyView| #[trigger]
        v.canceling.contains(k) ==> v.active.contains_key(k) && !v.paused.contains(k)
    &&& forall|a: KeyView, b: KeyView|
        #![trigger v.groups.contains_key(a), v.groups.contains_key(b)]
        v.groups.contains_key(a) && v.groups.contains_key(b) && a != b
            ==> !v.groups[a].task.may_repeat(v.groups[b].task)
    &&& forall|k: KeyView| #[trigger] v.paused.contains(k) ==> v.groups.contains_key(k)
    &&& forall|k: KeyView| #[trigger] v.offsets.contains_key(k) ==> v.groups.contains_key(k)
    &&& forall|k: KeyView| #[trigger]
        v.known_totals.contains_key(k) ==> v.groups.contains_key(k) && v.known_totals[k] > 0
    &&& v.running(Direction::Upload) <= v.max_uploads
    &&& v.running(Direction::Download) <= v.max_downloads
}

/// Whether a queue fits the tables: each key once, registered, neither running
/// nor paused, and with nothing left to be read.
pub open spec fn queue_fits(v: SchedulerView, queue: Seq<KeyView>) -> bool {
    &&& queue.no_duplicates()
    &&& forall|k: KeyView| #[trigger]
        queue.contains(k) ==> v.groups.contains_key(k) && !v.active.contains_key(k)
            && !v.paused.contains(k) && !v.groups[k].task.unread
}

/// Whether the tables of the scheduler agree with each other.
pub open spec fn consistent(v: SchedulerView) -> bool {
    tables_agree(v) && queue_fits(v, v.queued)
}

/// The tables of a new client agree.
pub proof fn law_fresh_is_consistent(max_uploads: nat, max_downloads: nat)
    ensures
        consistent(SchedulerView::fresh(max_uploads, max_downloads)),
{
    let v = SchedulerView::fresh(max_uploads, max_downloads);
    assert(scheduler_state::direction_keys(v.active.dom(), Direction::Upload) =~= Set::empty());
    assert(scheduler_state::direction_keys(v.active.dom(), Direction::Download) =~= Set::empty());
}

/// One turn: the tables still agree, and a started transfer takes one slot.
proof fn lemma_start_one(v: SchedulerView, k: KeyView)
    requires
        tables_agree(v),
        v.groups.contains_key(k),
        !v.active.contains_key(k),
        !v.paused.contains(k),
        !v.groups[k].task.unread,
    ensures
        ({
            let after = scheduler::start_one(v, k).state;
            &&& tables_agree(after)
            &&& scheduler::slot_free(v, k.0) ==> after.queued == v.queued && after.active.dom()
                == v.active.dom().insert(k)
            &&& !scheduler::slot_free(v, k.0) ==> after == (SchedulerView {
                queued: v.queued.push(k),
                ..v
            })
            &&& after.running(Direction::Upload) >= v.running(Direction::Upload)
            &&& after.running(Direction::Download) >= v.running(Direction::Download)
        }),
{
    scheduler_state::lemma_count_insert(v.active.dom(), k, Direction::Upload);
    scheduler_state::lemma_count_insert(v.active.dom(), k, Direction::Download);
    let after = scheduler::start_one(v, k).state;
    if scheduler::slot_free(v, k.0) {
        assert(after.active.dom() =~= v.active.dom().insert(k));
    }
}

/// A whole pass over waiting transfers.
proof fn lemma_start_pass(v: SchedulerView, waiting: Seq<KeyView>)
    requires
        tables_agree(v),
        v.queued == Seq::<KeyView>::empty(),
        queue_fits(v, waiting),
    ensures
        ({
            let after = scheduler::start_pass(v, waiting).state;
            &&& tables_agree(after)
            &&& after.groups == v.groups
            &&& after.paused == v.paused
            &&& after.max_uploads == v.max_uploads
            &&& after.max_downloads == v.max_downloads
            &&& after.queued.no_duplicates()
            &&& forall|k: KeyView| #[trigger]
                after.queued.contains(k) ==> waiting.contains(k) && !after.active.contains_key(k)
                    && !scheduler::slot_free(after, k.0)
            &&& forall|k: KeyView| #[trigger]
                after.active.contains_key(k) ==> v.active.contains_key(k) || waiting.contains(k)
            &&& forall|k: KeyView| #[trigger]
                waiting.contains(k) ==> after.active.contains_key(k) || after.queued.contains(k)
            &&& after.running(Direction::Upload) >= v.running(Direction::Upload)
            &&& after.running(Direction::Download) >= v.running(Direction::Download)
        }),
    decreases waiting.len(),
{
    if waiting.len() > 0 {
        let rest = waiting.drop_last();
        let last = waiting.last();
        assert(waiting == rest.push(last));
        assert forall|k: KeyView| #[trigger] rest.contains(k) implies waiting.contains(k) by {
            scheduler_state::lemma_push_contains(rest, last, k);
        }
        assert forall|i: int, j: int|
            0 <= i < rest.len() && 0 <= j < rest.len() && i != j implies rest[i] != rest[j] by {
            assert(rest[i] == waiting[i] && rest[j] == waiting[j]);
        }
        assert(!rest.contains(last)) by {
            if rest.contains(last) {
                let i = choose|i: int| 0 <= i < rest.len() && rest[i] == last;
                assert(waiting[i] == waiting[waiting.len() - 1]);
            }
        }
        assert(waiting.contains(last)) by {
            assert(waiting[waiting.len() - 1] == last);
        }
        lemma_start_pass(v, rest);
        let mid = scheduler::start_pass(v, rest).state;
        assert(!mid.active.contains_key(last));
        lemma_start_one(mid, last);
        let after = scheduler::start_one(mid, last).state;
        assert(!mid.queued.contains(last));
        scheduler_state::lemma_push_no_duplicates(mid.queued, last);
        assert forall|k: KeyView| #[trigger] after.queued.contains(k) implies waiting.contains(k)
            && !after.active.contains_key(k) && !scheduler::slot_free(after, k.0) by {
            scheduler_state::lemma_push_contains(mid.queued, last, k);
            if mid.queued.contains(k) {
                assert(rest.contains(k));
            }
        }
        assert forall|k: KeyView| #[trigger] waiting.contains(k) implies after.active.contains_key(
            k,
        ) || after.queued.contains(k) by {
            scheduler_state::lemma_push_contains(rest, last, k);
            scheduler_state::lemma_push_contains(mid.queued, last, k);
            if rest.contains(k) {
                assert(mid.active.contains_key(k) || mid.queued.contains(k));
            }
        }
        assert forall|k: KeyView| #[trigger]
            after.active.contains_key(k) implies v.active.contains_key(k) || waiting.contains(
            k,
        ) by {
            if mid.active.contains_key(k) && !v.active.contains_key(k) {
                assert(rest.contains(k));
            }
        }
    }
}

/// Starting keeps the tables in agreement, and it is exhaustive: every
/// transfer that still waits afterwards waits for a slot of its direction, and
/// none was lost. The worker limits of both directions are respected.
pub proof fn law_start_is_exhaustive(v: SchedulerView)
    requires
        consistent(v),
    ensures
        consistent(scheduler::start_step(v).state),
        forall|k: KeyView| #[trigger]
            scheduler::start_step(v).state.queued.contains(k) ==> !scheduler::slot_free(
                scheduler::start_step(v).state,
                k.0,
            ),
        forall|k: KeyView| #[trigger]
            v.queued.contains(k) ==> scheduler::start_step(v).state.active.contains_key(k)
                || scheduler::start_step(v).state.queued.contains(k),
        forall|k: KeyView| #[trigger]
            scheduler::start_step(v).state.queued.contains(k) ==> v.queued.contains(k),
{
    let fresh = SchedulerView { queued: Seq::empty(), ..v };
    assert(tables_agree(fresh));
    lemma_start_pass(fresh, v.queued);
}

/// Starting a second time in a row starts nothing and reports nothing.
pub proof fn law_start_twice_is_start_once(v: SchedulerView)
    requires
        consistent(v),
    ensures
        scheduler::start_step(scheduler::start_step(v).state).state == scheduler::start_step(v).state,
        scheduler::start_step(scheduler::start_step(v).state).effects == Seq::<EffectView>::empty(),
{
    law_start_is_exhaustive(v);
    let w = scheduler::start_step(v).state;
    let fresh = SchedulerView { queued: Seq::empty(), ..w };
    lemma_full_pass(fresh, w.queued);
    assert(w.queued.take(w.queued.len() as int) =~= w.queued);
    assert((SchedulerView { queued: w.queued, ..fresh }) =~= w);
}

/// A pass over transfers that have no free slot only restores the queue.
proof fn lemma_full_pass(v: SchedulerView, waiting: Seq<KeyView>)
    requires
        v.queued == Seq::<KeyView>::empty(),
        forall|k: KeyView| #[trigger]
            waiting.contains(k) ==> v.groups.contains_key(k) && !scheduler::slot_free(v, k.0),
    ensures
        scheduler::start_pass(v, waiting).state == (SchedulerView { queued: waiting, ..v }),
        scheduler::start_pass(v, waiting).effects == Seq::<EffectView>::empty(),
    decreases waiting.len(),
{
    if waiting.len() > 0 {
        let rest = waiting.drop_last();
        let last = waiting.last();
        assert(waiting == rest.push(last));
        assert forall|k: KeyView| #[trigger] rest.contains(k) implies v.groups.contains_key(k)
            && !scheduler::slot_free(v, k.0) by {
            scheduler_state::lemma_push_contains(rest, last, k);
            assert(waiting.contains(k));
        }
        assert(waiting.contains(last)) by {
            assert(waiting[waiting.len() - 1] == last);
        }
        lemma_full_pass(v, rest);
    } else {
        assert((SchedulerView { queued: waiting, ..v }) =~= v);
    }
}

/// Fewer workers never exceed the limits.
proof fn lemma_active_removed(v: SchedulerView, k: KeyView)
    requires
        v.active.dom().finite(),
    ensures
        (SchedulerView { active: v.active.remove(k), ..v }).running(Direction::Upload) <= v.running(
            Direction::Upload,
        ),
        (SchedulerView { active: v.active.remove(k), ..v }).running(Direction::Download)
            <= v.running(Direction::Download),
        v.active.remove(k).dom() == v.active.dom().remove(k),
{
    assert(v.active.remove(k).dom() =~= v.active.dom().remove(k));
    if v.active.contains_key(k) {
        scheduler_state::lemma_count_remove(v.active.dom(), k, Direction::Upload);
        scheduler_state::lemma_count_remove(v.active.dom(), k, Direction::Download);
    } else {
        assert(v.active.dom().remove(k) =~= v.active.dom());
    }
}

/// The end of a transfer keeps the tables in agreement.
proof fn lemma_ended(v: SchedulerView, k: KeyView)
    requires
        consistent(v),
        !v.queued.contains(k),
    ensures
        consistent(scheduler::ended(v, k)),
        forall|t: u64| #[trigger]
            scheduler::ended(v, k).task_keys.contains_key(t) ==> v.task_keys.contains_key(t)
                && scheduler::ended(v, k).task_keys[t] == v.task_keys[t] && v.task_keys[t] != k,
{
    lemma_active_removed(v, k);
    let w = scheduler::ended(v, k);
    assert forall|t: u64| #[trigger] w.task_keys.contains_key(t) implies v.task_keys.contains_key(t)
        && w.task_keys[t] == v.task_keys[t] && v.task_keys[t] != k by {
        if v.groups.contains_key(k) {
            assert(v.task_keys.contains_key(t));
            assert(t != v.groups[k].task.task_id.value);
        }
    }
    assert(w.queued == v.queued);
}

/// A message from a running worker keeps the tables in agreement.
pub proof fn law_worker_event_keeps_consistency(v: SchedulerView, event: WorkerEvent)
    requires
        consistent(v),
        v.active.contains_key(event.key()),
    ensures
        consistent(scheduler::worker_event_step(v, event).state),
        consistent(executor::running_event_step(v, event).state),
{
    let k = event.key();
    let w = scheduler::worker_event_step(v, event).state;
    lemma_active_removed(v, k);
    match event {
        WorkerEvent::Progress { .. } => {},
        WorkerEvent::Completed { .. } => {
            lemma_ended(v, k);
        },
        WorkerEvent::Failed { .. } => {
            lemma_ended(v, k);
        },
        WorkerEvent::Canceled { .. } => {
            if !v.paused.contains(k) {
                lemma_ended(v, k);
            }
        },
    }
    assert(consistent(w));
    law_start_is_exhaustive(w);
}

/// Telling a running worker to stop changes no table but its own entry.
proof fn lemma_interrupted(v: SchedulerView, k: KeyView)
    requires
        consistent(v),
        v.active.contains_key(k),
    ensures
        consistent(scheduler::interrupted(v, k)),
{
    assert(scheduler::interrupted(v, k).active.dom() =~= v.active.dom());
}

/// Pausing keeps the tables in agreement, whatever the transfer is doing.
pub proof fn law_pause_keeps_consistency(v: SchedulerView, k: KeyView)
    requires
        consistent(v),
        v.groups.contains_key(k),
        !v.canceling.contains(k),
    ensures
        consistent(scheduler::pause_step(v, k).state),
{
    scheduler_state::lemma_without(v.queued, k);
    let out = SchedulerView {
        queued: scheduler_state::without(v.queued, k),
        paused: v.paused.insert(k),
        ..v
    };
    assert(consistent(out));
    if v.active.contains_key(k) {
        assert(consistent(scheduler::latch_paused(out, k)));
        lemma_interrupted(scheduler::latch_paused(out, k), k);
    }
}

/// Resuming keeps the tables in agreement.
pub proof fn law_resume_keeps_consistency(v: SchedulerView, k: KeyView)
    requires
        consistent(v),
    ensures
        consistent(scheduler::resume_step(v, k).state),
{
    let after = SchedulerView { paused: v.paused.remove(k), ..v };
    if v.paused.contains(k) && !v.active.contains_key(k) && !v.groups[k].task.unread {
        assert(!v.queued.contains(k));
        scheduler_state::lemma_push_no_duplicates(v.queued, k);
        let w = scheduler::resume_step(v, k).state;
        assert forall|x: KeyView| #[trigger] w.queued.contains(x) implies w.groups.contains_key(x)
            && !w.active.contains_key(x) && !w.paused.contains(x) && !w.groups[x].task.unread by {
            scheduler_state::lemma_push_contains(v.queued, k, x);
        }
        assert(tables_agree(w));
    }
}

/// Canceling keeps the tables in agreement.
pub proof fn law_cancel_keeps_consistency(v: SchedulerView, k: KeyView)
    requires
        consistent(v),
    ensures
        consistent(scheduler::cancel_step(v, k).state),
{
    scheduler_state::lemma_without(v.queued, k);
    let out = SchedulerView {
        queued: scheduler_state::without(v.queued, k),
        paused: v.paused.remove(k),
        ..v
    };
    assert(consistent(out));
    if v.active.contains_key(k) {
        let latched = SchedulerView {
            task_keys: v.task_keys.remove(v.groups[k].task.task_id.value),
            ..scheduler::latch_canceled(out, k)
        };
        assert(consistent(latched));
        let canceling = SchedulerView { canceling: v.canceling.insert(k), ..latched };
        assert(consistent(canceling));
        lemma_interrupted(canceling, k);
    } else {
        lemma_ended(out, k);
    }
}

/// Submitting keeps the tables in agreement; a task that is not imported in the
/// paused state has to be one whose file was read.
pub proof fn law_submission_keeps_consistency(
    v: SchedulerView,
    submission: Submission,
    leader: Option<KeyView>,
)
    requires
        consistent(v),
        scheduler::is_leader(v, submission.task, leader),
    ensures
        !submission.task.unread ==> consistent(
            scheduler::enqueue_step(v, submission, leader).state,
        ),
        consistent(scheduler::enqueue_paused_step(v, submission, leader).state),
{
    let k = submission.task.spec_dedupe_key();
    if leader is None {
        assert(!scheduler::repeats(v, submission.task, k));
        let after = scheduler::registered(v, submission);
        assert forall|a: KeyView, b: KeyView|
            #![trigger after.groups.contains_key(a), after.groups.contains_key(b)]
            after.groups.contains_key(a) && after.groups.contains_key(b) && a
                != b implies !after.groups[a].task.may_repeat(after.groups[b].task) by {
            assert(!scheduler::repeats(v, submission.task, a));
            assert(!scheduler::repeats(v, submission.task, b));
            if a != k && b != k {
                assert(v.groups.contains_key(a) && v.groups.contains_key(b));
            }
        }
        assert(tables_agree(after));
        assert(!v.queued.contains(k));
        assert(!v.active.contains_key(k));
        scheduler_state::lemma_push_no_duplicates(v.queued, k);
        let w = scheduler::queued_once(after, k);
        assert forall|x: KeyView| #[trigger] w.queued.contains(x) implies w.groups.contains_key(x)
            && !w.active.contains_key(x) && !w.paused.contains(x) && (!submission.task.unread
            ==> !w.groups[x].task.unread) by {
            scheduler_state::lemma_push_contains(v.queued, k, x);
        }
    }
}

/// Reading the file of an imported upload keeps the tables in agreement.
pub proof fn law_identifying_keeps_consistency(
    v: SchedulerView,
    k: KeyView,
    read: Result<String, MeowError>,
)
    requires
        consistent(v),
    ensures
        consistent(scheduler::identify_state(v, k, read)),
{
    if let Ok(sign) = read {
        let w = scheduler::identified(v, k, sign);
        let known_as = scheduler::read_group(v.groups[k], sign).task.spec_dedupe_key();
        if scheduler::awaits_source(v, k) && !v.groups.contains_key(known_as) {
            assert(!v.queued.contains(k));
            assert(!v.queued.contains(known_as));
            assert(!v.active.contains_key(known_as));
            assert(tables_agree(w));
            assert(queue_fits(w, w.queued));
        }
    }
}

/// Every command of a running loop keeps the tables in agreement.
pub proof fn law_command_keeps_consistency(
    v: SchedulerView,
    cmd: TransferCmd,
    leader: Option<KeyView>,
)
    requires
        consistent(v),
        executor::is_leader_of(v, cmd, leader),
        cmd matches TransferCmd::Enqueue { submission } ==> !submission.task.unread,
    ensures
        consistent(executor::command_step(v, cmd, leader).state),
{
    match cmd {
        TransferCmd::Enqueue { submission } => {
            law_submission_keeps_consistency(v, submission, leader);
            law_start_is_exhaustive(scheduler::enqueue_step(v, submission, leader).state);
        },
        TransferCmd::EnqueuePaused { submission } => {
            law_submission_keeps_consistency(v, submission, leader);
        },
        TransferCmd::Pause { task_id } => {
            if v.task_keys.contains_key(task_id.value) {
                law_pause_keeps_consistency(v, v.task_keys[task_id.value]);
            }
            law_start_is_exhaustive(executor::control_step(v, cmd).state);
        },
        TransferCmd::Resume { task_id } => {
            if v.task_keys.contains_key(task_id.value) {
                law_resume_keeps_consistency(v, v.task_keys[task_id.value]);
            }
            law_start_is_exhaustive(executor::control_step(v, cmd).state);
        },
        TransferCmd::Identify { task_id, read } => {
            if v.task_keys.contains_key(task_id.value) {
                law_identifying_keeps_consistency(v, v.task_keys[task_id.value], read);
            }
            law_start_is_exhaustive(executor::control_step(v, cmd).state);
        },
        TransferCmd::Cancel { task_id } => {
            if v.task_keys.contains_key(task_id.value) {
                law_cancel_keeps_consistency(v, v.task_keys[task_id.value]);
            }
            law_start_is_exhaustive(executor::control_step(v, cmd).state);
        },
        TransferCmd::Snapshot => {},
        TransferCmd::Close => {},
    }
}

/// Closing keeps the tables in agreement, and afterwards every running
/// transfer is either canceled or paused: nothing is left to run on.
pub proof fn law_close_pauses_everything(v: SchedulerView, step: Step)
    requires
        consistent(v),
        scheduler::is_close_step(v, step),
    ensures
        consistent(step.state),
        step.state.active.dom() == v.active.dom(),
        step.state.groups.dom() == v.groups.dom(),
        step.state.task_keys == v.task_keys,
        step.state.offsets == v.offsets,
        step.state.known_totals == v.known_totals,
        forall|k: KeyView| #[trigger]
            v.active.contains_key(k) ==> step.state.canceling.contains(k)
                || step.state.paused.contains(k),
{
    let (running, resting) = choose|running: Seq<KeyView>, resting: Seq<KeyView>|
        {
            &&& scheduler::lists(running, v.active.dom())
            &&& scheduler::lists(resting, v.groups.dom().difference(v.active.dom()))
            &&& step == #[trigger] scheduler::close_step(v, running, resting)
        };
    lemma_close_running(v, running);
    assert forall|k: KeyView| #[trigger] v.active.contains_key(k) implies step.state.canceling.contains(
        k,
    ) || step.state.paused.contains(k) by {
        assert(running.to_set().contains(k));
        assert(running.contains(k));
    }
}

proof fn lemma_close_running(v: SchedulerView, running: Seq<KeyView>)
    requires
        consistent(v),
        forall|k: KeyView| #[trigger] running.contains(k) ==> v.active.contains_key(k),
    ensures
        ({
            let w = scheduler::close_running(v, running).state;
            &&& consistent(w)
            &&& w.active.dom() == v.active.dom()
            &&& w.groups.dom() == v.groups.dom()
            &&& w.canceling == v.canceling
            &&& w.task_keys == v.task_keys
            &&& w.offsets == v.offsets
            &&& w.known_totals == v.known_totals
            &&& w.queued == v.queued
            &&& w.callbacks_open == v.callbacks_open
            &&& forall|k: KeyView| #[trigger]
                w.groups.contains_key(k) ==> w.groups[k].task == v.groups[k].task
                    && w.groups[k].progress_cb == v.groups[k].progress_cb
            &&& forall|k: KeyView| #[trigger] v.paused.contains(k) ==> w.paused.contains(k)
            &&& forall|k: KeyView| #[trigger]
                running.contains(k) ==> w.canceling.contains(k) || w.paused.contains(k)
        }),
    decreases running.len(),
{
    if running.len() > 0 {
        let rest = running.drop_last();
        let k = running.last();
        assert(running == rest.push(k));
        assert forall|x: KeyView| #[trigger] rest.contains(x) implies v.active.contains_key(x) by {
            scheduler_state::lemma_push_contains(rest, k, x);
            assert(running.contains(x));
        }
        assert(running.contains(k)) by {
            assert(running[running.len() - 1] == k);
        }
        lemma_close_running(v, rest);
        let mid = scheduler::close_running(v, rest).state;
        assert(mid.active.contains_key(k)) by {
            assert(mid.active.dom().contains(k));
        }
        let w = scheduler::close_one(mid, k).state;
        if mid.canceling.contains(k) {
            lemma_interrupted(mid, k);
        } else {
            let latched = scheduler::latch_paused(mid, k);
            let paused = SchedulerView { paused: mid.paused.insert(k), ..latched };
            assert(consistent(latched));
            assert(consistent(paused));
            lemma_interrupted(paused, k);
            assert(latched.groups.dom() =~= mid.groups.dom());
        }
        assert(w.active.dom() =~= mid.active.dom());
        assert forall|x: KeyView| #[trigger] w.groups.contains_key(x) implies w.groups[x].task
            == v.groups[x].task && w.groups[x].progress_cb == v.groups[x].progress_cb by {
            assert(mid.groups.contains_key(x));
        }
        assert forall|x: KeyView| #[trigger] running.contains(x) implies w.canceling.contains(x)
            || w.paused.contains(x) by {
            scheduler_state::lemma_push_contains(rest, k, x);
            if rest.contains(x) {
                assert(mid.canceling.contains(x) || mid.paused.contains(x));
            }
        }
    }
}

/// Each transfer without a worker has its report.
proof fn lemma_close_resting(v: SchedulerView, resting: Seq<KeyView>, k: KeyView)
    requires
        v.callbacks_open,
        resting.contains(k),
    ensures
        scheduler::close_resting(v, resting).contains(
            scheduler::current_status(v, k, StatusView::Paused)[0],
        ),
    decreases resting.len(),
{
    let rest = resting.drop_last();
    let last = resting.last();
    let before = scheduler::close_resting(v, rest);
    let report = scheduler::current_status(v, last, StatusView::Paused);
    assert(resting == rest.push(last));
    scheduler_state::lemma_push_contains(rest, last, k);
    if k == last {
        assert((before + report)[before.len() as int] == report[0]);
    } else {
        lemma_close_resting(v, rest, k);
        let sought = scheduler::current_status(v, k, StatusView::Paused)[0];
        let i = choose|i: int| 0 <= i < before.len() && before[i] == sought;
        assert((before + report)[i] == sought);
    }
}

/// Closing reports every transfer as paused that was not canceled: at once
/// where there is no worker, and otherwise when its worker has come to rest. The
/// progress on record is what is reported.
pub proof fn law_close_reports_pauses(
    v: SchedulerView,
    step: Step,
    k: KeyView,
    stop: WorkerEvent,
)
    requires
        consistent(v),
        v.callbacks_open,
        scheduler::is_close_step(v, step),
        v.groups.contains_key(k),
        !v.canceling.contains(k),
        stop is Canceled,
        stop.key() == k,
    ensures
        !v.active.contains_key(k) ==> step.effects.contains(
            scheduler::current_status(v, k, StatusView::Paused)[0],
        ),
        v.active.contains_key(k) ==> scheduler::worker_event_step(step.state, stop).effects
            == effect::status_effects(
            true,
            v.groups[k],
            StatusView::Paused,
            v.offset_of(k),
            scheduler::larger(
                stop->Canceled_total_size,
                v.effective_total(k, v.groups[k].task),
            ),
        ),
{
    let (running, resting) = choose|running: Seq<KeyView>, resting: Seq<KeyView>|
        {
            &&& scheduler::lists(running, v.active.dom())
            &&& scheduler::lists(resting, v.groups.dom().difference(v.active.dom()))
            &&& step == #[trigger] scheduler::close_step(v, running, resting)
        };
    assert forall|x: KeyView| #[trigger] running.contains(x) implies v.active.contains_key(x) by {
        assert(running.to_set().contains(x));
    }
    lemma_close_running(v, running);
    let stopped = scheduler::close_running(v, running);
    assert(stopped.state.groups.dom().contains(k));
    if v.active.contains_key(k) {
        assert(running.to_set().contains(k));
        assert(running.contains(k));
    } else {
        assert(resting.to_set().contains(k));
        assert(resting.contains(k));
        lemma_close_resting(stopped.state, resting, k);
        let sought = scheduler::current_status(v, k, StatusView::Paused)[0];
        assert(sought == scheduler::current_status(stopped.state, k, StatusView::Paused)[0]);
        let reports = scheduler::close_resting(stopped.state, resting);
        let i = choose|i: int| 0 <= i < reports.len() && reports[i] == sought;
        assert((stopped.effects + reports)[stopped.effects.len() + i] == sought);
    }
}

/// A pass over waiting transfers starts them in order: one that is started goes
/// behind no other of its direction that is left waiting, those left keep their
/// order, and each start is asked for once, for the task and at the offset on
/// record.
proof fn lemma_start_pass_order(v: SchedulerView, waiting: Seq<KeyView>)
    requires
        tables_agree(v),
        v.queued == Seq::<KeyView>::empty(),
        queue_fits(v, waiting),
    ensures
        ({
            let step = scheduler::start_pass(v, waiting);
            let after = step.state;
            &&& after.offsets == v.offsets
            &&& forall|i: int, j: int|
                0 <= i < j < waiting.len() && (#[trigger] waiting[i]).0 == (
                #[trigger] waiting[j]).0 && after.active.contains_key(waiting[j])
                    ==> after.active.contains_key(waiting[i])
            &&& after.queued == waiting.filter(|k: KeyView| !after.active.contains_key(k))
            &&& forall|k: KeyView| #[trigger]
                after.active.contains_key(k) && !v.active.contains_key(k) ==> asks_for_start(
                    step.effects,
                    v.groups[k].task.task_id,
                    v.offset_of(k),
                )
            &&& forall|i: int|
                0 <= i < step.effects.len() && (#[trigger] step.effects[i]) is Start ==> exists|
                    k: KeyView,
                |
                    after.active.contains_key(k) && !v.active.contains_key(k)
                        && step.effects[i]->Start_task_id == (
                    #[trigger] v.groups[k]).task.task_id
        }),
    decreases waiting.len(),
{
    reveal(Seq::filter);
    lemma_start_pass(v, waiting);
    if waiting.len() > 0 {
        let rest = waiting.drop_last();
        let last = waiting.last();
        let n = rest.len() as int;
        assert(waiting == rest.push(last));
        assert forall|k: KeyView| #[trigger] rest.contains(k) implies waiting.contains(k) by {
            scheduler_state::lemma_push_contains(rest, last, k);
        }
        assert forall|i: int, j: int|
            0 <= i < rest.len() && 0 <= j < rest.len() && i != j implies rest[i] != rest[j] by {
            assert(rest[i] == waiting[i] && rest[j] == waiting[j]);
        }
        lemma_start_pass(v, rest);
        lemma_start_pass_order(v, rest);
        let before = scheduler::start_pass(v, rest);
        let mid = before.state;
        let step = scheduler::start_pass(v, waiting);
        let after = step.state;
        let turn = scheduler::start_one(mid, last);
        assert(waiting.contains(last)) by {
            assert(waiting[n] == last);
        }
        assert(!rest.contains(last)) by {
            if rest.contains(last) {
                let i = choose|i: int| 0 <= i < rest.len() && rest[i] == last;
                assert(waiting[i] == waiting[n]);
            }
        }
        assert(!mid.active.contains_key(last));
        assert forall|i: int, j: int|
            0 <= i < j < waiting.len() && (#[trigger] waiting[i]).0 == (#[trigger] waiting[j]).0
                && after.active.contains_key(waiting[j]) implies after.active.contains_key(
            waiting[i],
        ) by {
            assert(waiting[i] == rest[i]);
            assert(rest.contains(rest[i]));
            if j < n {
                assert(waiting[j] == rest[j]);
                assert(rest.contains(rest[j]));
                assert(mid.active.contains_key(rest[j]));
            } else if !mid.active.contains_key(rest[i]) {
                assert(mid.queued.contains(rest[i]));
                assert(!scheduler::slot_free(mid, rest[i].0));
            }
        }
        lemma_filter_agrees(
            rest,
            |k: KeyView| !mid.active.contains_key(k),
            |k: KeyView| !after.active.contains_key(k),
        );
        assert(after.queued =~= waiting.filter(|k: KeyView| !after.active.contains_key(k)));
        assert forall|k: KeyView| #[trigger]
            after.active.contains_key(k) && !v.active.contains_key(k) implies asks_for_start(
            step.effects,
            v.groups[k].task.task_id,
            v.offset_of(k),
        ) by {
            if k == last {
                let at = step.effects.len() - 1;
                assert(step.effects[at] == turn.effects.last());
            } else {
                assert(mid.active.contains_key(k));
                let at = choose|at: int|
                    0 <= at < before.effects.len() && #[trigger] before.effects[at] == (
                    EffectView::Start {
                        task_id: v.groups[k].task.task_id,
                        start_offset: v.offset_of(k),
                    });
                assert(step.effects[at] == before.effects[at]);
            }
        }
        assert forall|i: int|
            0 <= i < step.effects.len() && (#[trigger] step.effects[i]) is Start implies exists|
            k: KeyView,
        |
            after.active.contains_key(k) && !v.active.contains_key(k)
                && step.effects[i]->Start_task_id == (#[trigger] v.groups[k]).task.task_id by {
            if i < before.effects.len() {
                assert(step.effects[i] == before.effects[i]);
                let k = choose|k: KeyView|
                    mid.active.contains_key(k) && !v.active.contains_key(k)
                        && before.effects[i]->Start_task_id == (
                    #[trigger] v.groups[k]).task.task_id;
                assert(after.active.contains_key(k));
                assert(v.groups[k] == v.groups[k]);
            } else {
                assert(step.effects[i] == turn.effects[i - before.effects.len()]);
                assert(after.active.contains_key(last));
                assert(v.groups[last] == mid.groups[last]);
            }
        }
    }
}

/// Whether a worker for a task is asked for at an offset.
pub open spec fn asks_for_start(effects: Seq<EffectView>, task_id: TaskId, offset: u64) -> bool {
    exists|i: int|
        0 <= i < effects.len() && #[trigger] effects[i] == (EffectView::Start {
            task_id,
            start_offset: offset,
        })
}

/// Two conditions that agree on a list pick the same of it.
proof fn lemma_filter_agrees(
    list: Seq<KeyView>,
    a: spec_fn(KeyView) -> bool,
    b: spec_fn(KeyView) -> bool,
)
    requires
        forall|k: KeyView| #[trigger] list.contains(k) ==> a(k) == b(k),
    ensures
        list.filter(a) == list.filter(b),
    decreases list.len(),
{
    reveal(Seq::filter);
    if list.len() > 0 {
        let rest = list.drop_last();
        assert(list.contains(list.last())) by {
            assert(list[list.len() - 1] == list.last());
        }
        assert forall|k: KeyView| #[trigger] rest.contains(k) implies a(k) == b(k) by {
            let i = choose|i: int| 0 <= i < rest.len() && rest[i] == k;
            assert(list[i] == k);
            assert(list.contains(k));
        }
        lemma_filter_agrees(rest, a, b);
    }
}

/// Waiting transfers are started first come, first served within a direction:
/// none is started while one of its direction that came before it is left
/// waiting, and those left waiting keep their order. For every transfer that is
/// started, and for no other, a worker is asked for, at the offset on record.
pub proof fn law_first_come_first_served(v: SchedulerView)
    requires
        consistent(v),
    ensures
        ({
            let step = scheduler::start_step(v);
            let w = step.state;
            &&& forall|i: int, j: int|
                0 <= i < j < v.queued.len() && (#[trigger] v.queued[i]).0 == (
                #[trigger] v.queued[j]).0 && w.active.contains_key(v.queued[j])
                    ==> w.active.contains_key(v.queued[i])
            &&& w.queued == v.queued.filter(|k: KeyView| !w.active.contains_key(k))
            &&& forall|k: KeyView| #[trigger]
                w.active.contains_key(k) && !v.active.contains_key(k) ==> asks_for_start(
                    step.effects,
                    v.groups[k].task.task_id,
                    if v.offsets.contains_key(k) {
                        v.offsets[k]
                    } else {
                        0
                    },
                )
            &&& forall|i: int|
                0 <= i < step.effects.len() && (#[trigger] step.effects[i]) is Start ==> exists|
                    k: KeyView,
                |
                    w.active.contains_key(k) && !v.active.contains_key(k)
                        && step.effects[i]->Start_task_id == (
                    #[trigger] v.groups[k]).task.task_id
        }),
{
    let fresh = SchedulerView { queued: Seq::empty(), ..v };
    assert(tables_agree(fresh));
    lemma_start_pass_order(fresh, v.queued);
    let w = scheduler::start_step(v).state;
    assert forall|k: KeyView| #[trigger]
        w.active.contains_key(k) && !v.active.contains_key(k) implies asks_for_start(
        scheduler::start_step(v).effects,
        v.groups[k].task.task_id,
        if v.offsets.contains_key(k) {
            v.offsets[k]
        } else {
            0
        },
    ) by {
        assert(fresh.groups[k] == v.groups[k]);
        assert(fresh.offset_of(k) == v.offset_of(k));
    }
    assert forall|i: int|
        0 <= i < scheduler::start_step(v).effects.len() && (
        #[trigger] scheduler::start_step(v).effects[i]) is Start implies exists|k: KeyView|
        w.active.contains_key(k) && !v.active.contains_key(k)
            && scheduler::start_step(v).effects[i]->Start_task_id == (
        #[trigger] v.groups[k]).task.task_id by {
        let k = choose|k: KeyView|
            w.active.contains_key(k) && !fresh.active.contains_key(k)
                && scheduler::start_step(v).effects[i]->Start_task_id == (
            #[trigger] fresh.groups[k]).task.task_id;
        assert(v.groups[k] == fresh.groups[k]);
    }
}

/// Whether the worker for a task is told to stop.
pub open spec fn tells_to_stop(effects: Seq<EffectView>, task_id: TaskId) -> bool {
    effects.contains(EffectView::Interrupt { task_id })
}

/// While workers are told to stop, those not asked yet are as they were.
proof fn lemma_close_interrupts(v: SchedulerView, running: Seq<KeyView>)
    requires
        consistent(v),
        running.no_duplicates(),
        forall|k: KeyView| #[trigger] running.contains(k) ==> v.active.contains_key(k),
    ensures
        ({
            let step = scheduler::close_running(v, running);
            let w = step.state;
            &&& forall|k: KeyView|
                !running.contains(k) ==> #[trigger] w.active.contains_key(k)
                    == v.active.contains_key(k) && w.active[k] == v.active[k] && w.groups[k]
                    == v.groups[k] && w.paused.contains(k) == v.paused.contains(k)
            &&& forall|i: int|
                0 <= i < step.effects.len() ==> (#[trigger] step.effects[i]) is Interrupt
            &&& forall|k: KeyView| #[trigger]
                running.contains(k) && (v.canceling.contains(k)
                    || !v.groups[k].lifecycle.terminal.completing()) ==> tells_to_stop(
                    step.effects,
                    v.groups[k].task.task_id,
                ) && w.active[k].interrupted
            &&& forall|k: KeyView| #[trigger]
                running.contains(k) && !v.canceling.contains(k)
                    && v.groups[k].lifecycle.terminal.completing() ==> w.active[k] == v.active[k]
        }),
    decreases running.len(),
{
    if running.len() > 0 {
        let rest = running.drop_last();
        let k = running.last();
        let n = rest.len() as int;
        assert(running == rest.push(k));
        assert(running.contains(k)) by {
            assert(running[n] == k);
        }
        assert forall|x: KeyView| #[trigger] rest.contains(x) implies v.active.contains_key(x) by {
            scheduler_state::lemma_push_contains(rest, k, x);
            assert(running.contains(x));
        }
        assert forall|i: int, j: int|
            0 <= i < rest.len() && 0 <= j < rest.len() && i != j implies rest[i] != rest[j] by {
            assert(rest[i] == running[i] && rest[j] == running[j]);
        }
        assert(!rest.contains(k)) by {
            if rest.contains(k) {
                let i = choose|i: int| 0 <= i < rest.len() && rest[i] == k;
                assert(running[i] == running[n]);
            }
        }
        lemma_close_interrupts(v, rest);
        lemma_close_running(v, rest);
        let before = scheduler::close_running(v, rest);
        let mid = before.state;
        let turn = scheduler::close_one(mid, k);
        let step = scheduler::close_running(v, running);
        let w = step.state;
        assert(mid.active.contains_key(k) == v.active.contains_key(k));
        assert(mid.groups.contains_key(k)) by {
            assert(mid.groups.dom().contains(k));
        }
        assert(mid.groups[k] == v.groups[k]);
        assert forall|x: KeyView| !running.contains(x) implies #[trigger] w.active.contains_key(x)
            == v.active.contains_key(x) && w.active[x] == v.active[x] && w.groups[x]
            == v.groups[x] && w.paused.contains(x) == v.paused.contains(x) by {
            scheduler_state::lemma_push_contains(rest, k, x);
            assert(mid.active.contains_key(x) == v.active.contains_key(x));
        }
        assert forall|i: int| 0 <= i < step.effects.len() implies (
        #[trigger] step.effects[i]) is Interrupt by {
            if i < before.effects.len() {
                assert(step.effects[i] == before.effects[i]);
            } else {
                assert(step.effects[i] == turn.effects[i - before.effects.len()]);
            }
        }
        assert forall|x: KeyView| #[trigger]
            running.contains(x) && (v.canceling.contains(x)
                || !v.groups[x].lifecycle.terminal.completing()) implies tells_to_stop(
            step.effects,
            v.groups[x].task.task_id,
        ) && w.active[x].interrupted by {
            scheduler_state::lemma_push_contains(rest, k, x);
            if x == k {
                assert(turn.effects[0] == (EffectView::Interrupt {
                    task_id: v.groups[k].task.task_id,
                }));
                assert(step.effects[before.effects.len() as int] == turn.effects[0]);
            } else {
                assert(rest.contains(x));
                let sought = EffectView::Interrupt { task_id: v.groups[x].task.task_id };
                let at = choose|at: int|
                    0 <= at < before.effects.len() && before.effects[at] == sought;
                assert(step.effects[at] == sought);
            }
        }
        assert forall|x: KeyView| #[trigger]
            running.contains(x) && !v.canceling.contains(x)
                && v.groups[x].lifecycle.terminal.completing() implies w.active[x]
            == v.active[x] by {
            scheduler_state::lemma_push_contains(rest, k, x);
            if x != k {
                assert(rest.contains(x));
            }
        }
    }
}

/// Closing tells every worker to stop but those whose completing request is
/// under way and that were not canceled: these end by themselves.
pub proof fn law_close_stops_the_workers(v: SchedulerView, step: Step, k: KeyView)
    requires
        consistent(v),
        scheduler::is_close_step(v, step),
        v.active.contains_key(k),
    ensures
        ({
            let latch = v.groups[k].lifecycle.terminal;
            let finishing = latch is Completing || latch is CompletingPausePending || latch
                is CompletingCancelPending;
            &&& v.canceling.contains(k) || !finishing ==> tells_to_stop(
                step.effects,
                v.groups[k].task.task_id,
            ) && step.state.active[k].interrupted
            &&& !v.canceling.contains(k) && finishing ==> step.state.active[k] == v.active[k]
        }),
{
    let (running, resting) = choose|running: Seq<KeyView>, resting: Seq<KeyView>|
        {
            &&& scheduler::lists(running, v.active.dom())
            &&& scheduler::lists(resting, v.groups.dom().difference(v.active.dom()))
            &&& step == #[trigger] scheduler::close_step(v, running, resting)
        };
    assert forall|x: KeyView| #[trigger] running.contains(x) implies v.active.contains_key(x) by {
        assert(running.to_set().contains(x));
    }
    assert(running.to_set().contains(k));
    assert(running.contains(k));
    lemma_close_interrupts(v, running);
    let stopped = scheduler::close_running(v, running);
    let sought = EffectView::Interrupt { task_id: v.groups[k].task.task_id };
    if stopped.effects.contains(sought) {
        let at = choose|at: int| 0 <= at < stopped.effects.len() && stopped.effects[at] == sought;
        assert(step.effects[at] == sought);
    }
}

/// Closing reports pauses and stops workers, and asks for nothing else.
proof fn lemma_close_resting_effects(v: SchedulerView, resting: Seq<KeyView>)
    ensures
        scheduler::close_resting(v, resting).len() == if v.callbacks_open {
            resting.len()
        } else {
            0
        },
        forall|i: int|
            0 <= i < scheduler::close_resting(v, resting).len() ==> (
            #[trigger] scheduler::close_resting(v, resting)[i]) is Status
                && scheduler::close_resting(v, resting)[i]->record.status is Paused,
    decreases resting.len(),
{
    if resting.len() > 0 {
        lemma_close_resting_effects(v, resting.drop_last());
    }
}

/// Whether the effects from a place on, and no others, are reports.
pub open spec fn reports_from(effects: Seq<EffectView>, n: int) -> bool {
    &&& 0 <= n <= effects.len()
    &&& forall|i: int| 0 <= i < effects.len() ==> ((#[trigger] effects[i]) is Status <==> n <= i)
}

/// Closing asks for nothing but stopped workers and reports of pauses; while
/// callbacks are open there is one such report for each registered transfer
/// without a worker and none for any other.
pub proof fn law_close_only_stops_and_reports(v: SchedulerView, step: Step)
    requires
        consistent(v),
        v.groups.dom().finite(),
        scheduler::is_close_step(v, step),
    ensures
        forall|i: int|
            0 <= i < step.effects.len() ==> (#[trigger] step.effects[i]) is Interrupt || (
            step.effects[i] is Status && step.effects[i]->record.status is Paused),
        exists|n: int| #[trigger]
            reports_from(step.effects, n) && step.effects.len() - n == if v.callbacks_open {
                v.groups.dom().difference(v.active.dom()).len()
            } else {
                0
            },
{
    let (running, resting) = choose|running: Seq<KeyView>, resting: Seq<KeyView>|
        {
            &&& scheduler::lists(running, v.active.dom())
            &&& scheduler::lists(resting, v.groups.dom().difference(v.active.dom()))
            &&& step == #[trigger] scheduler::close_step(v, running, resting)
        };
    assert forall|x: KeyView| #[trigger] running.contains(x) implies v.active.contains_key(x) by {
        assert(running.to_set().contains(x));
    }
    lemma_close_interrupts(v, running);
    lemma_close_running(v, running);
    let stopped = scheduler::close_running(v, running);
    lemma_close_resting_effects(stopped.state, resting);
    let reports = scheduler::close_resting(stopped.state, resting);
    let n = stopped.effects.len() as int;
    assert(step.effects == stopped.effects + reports);
    resting.unique_seq_to_set();
    assert forall|i: int| 0 <= i < step.effects.len() implies ((
    #[trigger] step.effects[i]) is Status <==> n <= i) && (step.effects[i] is Interrupt || (
    step.effects[i] is Status && step.effects[i]->record.status is Paused)) by {
        if i < n {
            assert(step.effects[i] == stopped.effects[i]);
        } else {
            assert(step.effects[i] == reports[i - n]);
        }
    }
    assert(reports_from(step.effects, n));
}

/// Submitting a transfer that is already registered changes nothing; the
/// submitter and the listeners get one report that it is a duplicate.
pub proof fn law_duplicates_change_nothing(
    v: SchedulerView,
    submission: Submission,
    leader: Option<KeyView>,
    k: KeyView,
)
    requires
        scheduler::repeats(v, submission.task, k),
        scheduler::is_leader(v, submission.task, leader),
    ensures
        leader is Some,
        executor::command_step(v, TransferCmd::Enqueue { submission }, leader).state == v,
        executor::command_step(v, TransferCmd::EnqueuePaused { submission }, leader).state == v,
        executor::command_step(v, TransferCmd::Enqueue { submission }, leader).effects
            == scheduler::duplicate_effects(v, submission, leader->Some_0),
        executor::command_step(v, TransferCmd::EnqueuePaused { submission }, leader).effects
            == scheduler::duplicate_effects(v, submission, leader->Some_0),
        v.callbacks_open ==> scheduler::duplicate_effects(v, submission, leader->Some_0).len() == 1,
        forall|i: int|
            0 <= i < scheduler::duplicate_effects(v, submission, leader->Some_0).len()
                ==> reports_duplicate(
                #[trigger] scheduler::duplicate_effects(v, submission, leader->Some_0)[i],
            ),
{
}

/// A file that waits, runs or rests is not taken a second time: neither is the
/// file of an import at rest submitted again, whether it was read or not, nor is
/// the file of a registered upload imported.
pub proof fn law_a_file_is_taken_once(
    v: SchedulerView,
    submission: Submission,
    leader: Option<KeyView>,
    k: KeyView,
)
    requires
        scheduler::is_leader(v, submission.task, leader),
        v.groups.contains_key(k),
        submission.task.reads_file(),
        v.groups[k].task.reads_file(),
        submission.task.source_path() == v.groups[k].task.source_path(),
        submission.task.unread || v.groups[k].task.unread || submission.task.file_sign@
            == v.groups[k].task.file_sign@,
        v.groups[k].task.spec_dedupe_key() == k,
    ensures
        executor::command_step(v, TransferCmd::Enqueue { submission }, leader).state == v,
        executor::command_step(v, TransferCmd::EnqueuePaused { submission }, leader).state == v,
        v.callbacks_open ==> reports_duplicate(
            executor::command_step(v, TransferCmd::Enqueue { submission }, leader).effects[0],
        ) && reports_duplicate(
            executor::command_step(v, TransferCmd::EnqueuePaused { submission }, leader).effects[0],
        ),
{
    assert(scheduler::repeats(v, submission.task, k));
    law_duplicates_change_nothing(v, submission, leader, k);
}

/// Whether an effect is the report of a duplicate.
pub open spec fn reports_duplicate(e: EffectView) -> bool {
    e is Status && e->record.status == scheduler::duplicate_status()
}

/// The end of a transfer leaves no trace: it is registered nowhere, no task
/// identifier leads to it, and nothing of its progress is kept that a later
/// transfer under the same key could take for its own.
pub proof fn law_end_leaves_no_trace(v: SchedulerView, event: WorkerEvent)
    requires
        consistent(v),
        v.active.contains_key(event.key()),
        event.terminal(),
        event is Canceled ==> !v.paused.contains(event.key()),
    ensures
        ({
            let w = scheduler::worker_event_step(v, event).state;
            let k = event.key();
            &&& !w.groups.contains_key(k)
            &&& !w.active.contains_key(k)
            &&& !w.paused.contains(k)
            &&& !w.canceling.contains(k)
            &&& !w.queued.contains(k)
            &&& !w.offsets.contains_key(k)
            &&& !w.known_totals.contains_key(k)
            &&& forall|t: u64| #[trigger] w.task_keys.contains_key(t) ==> w.task_keys[t] != k
        }),
{
    lemma_ended(v, event.key());
}

/// A message about a transfer that is not registered reports nothing and
/// revives nothing, so that each transfer is reported as ended at most once.
pub proof fn law_stray_events_are_silent(v: SchedulerView, event: WorkerEvent)
    requires
        tables_agree(v),
        !v.groups.contains_key(event.key()),
    ensures
        scheduler::worker_event_step(v, event).effects == Seq::<EffectView>::empty(),
        scheduler::worker_event_step(v, event).state.groups == v.groups,
        !scheduler::worker_event_step(v, event).state.offsets.contains_key(event.key()),
        !scheduler::worker_event_step(v, event).state.known_totals.contains_key(event.key()),
{
    let w = scheduler::worker_event_step(v, event).state;
    assert(w.groups =~= v.groups);
}

/// Pausing a running transfer, its worker coming to rest, and resuming it
/// bring it back to the queue with its progress, its registration and its open
/// latch. The pause is reported when the worker has come to rest, not before.
pub proof fn law_pause_then_resume(v: SchedulerView, k: KeyView, stop: WorkerEvent)
    requires
        consistent(v),
        v.active.contains_key(k),
        !v.paused.contains(k),
        v.groups[k].lifecycle.terminal == TerminalState::Open,
        stop is Canceled,
        stop.key() == k,
    ensures
        ({
            let pausing = scheduler::pause_step(v, k);
            let resting = scheduler::worker_event_step(pausing.state, stop);
            let resumed = scheduler::resume_step(resting.state, k);
            &&& pausing.effects == seq![
                EffectView::Interrupt { task_id: v.groups[k].task.task_id },
            ]
            &&& resting.effects == effect::status_effects(
                v.callbacks_open,
                v.groups[k],
                StatusView::Paused,
                v.offset_of(k),
                scheduler::larger(
                    stop->Canceled_total_size,
                    v.effective_total(k, v.groups[k].task),
                ),
            )
            &&& scheduler::resume_refusal(resting.state, k) is None
            &&& resumed.effects == effect::status_effects(
                v.callbacks_open,
                v.groups[k],
                StatusView::Pending,
                v.offset_of(k),
                v.effective_total(k, v.groups[k].task),
            )
            &&& resumed.state == (SchedulerView {
                queued: v.queued.push(k),
                active: v.active.remove(k),
                canceling: v.canceling.remove(k),
                ..v
            })
        }),
{
    scheduler_state::lemma_without(v.queued, k);
    assert(!v.queued.contains(k));
    let pausing = scheduler::pause_step(v, k);
    let resting = scheduler::worker_event_step(pausing.state, stop);
    let resumed = scheduler::resume_step(resting.state, k);
    assert(resting.state.groups =~= v.groups);
    assert(resting.state.active =~= v.active.remove(k));
    assert(resting.state.paused.remove(k) =~= v.paused);
    assert(pausing.effects =~= seq![EffectView::Interrupt { task_id: v.groups[k].task.task_id }]);
    assert(resumed.state =~= (SchedulerView {
        queued: v.queued.push(k),
        active: v.active.remove(k),
        canceling: v.canceling.remove(k),
        ..v
    }));
}

/// Canceling a running transfer reports nothing yet: the one report comes when
/// the worker has come to rest, and only then is the registration gone.
pub proof fn law_active_cancel_reports_at_rest(v: SchedulerView, k: KeyView, stop: WorkerEvent)
    requires
        consistent(v),
        v.active.contains_key(k),
        stop is Canceled,
        stop.key() == k,
    ensures
        ({
            let canceling = scheduler::cancel_step(v, k);
            let resting = scheduler::worker_event_step(canceling.state, stop);
            &&& forall|i: int|
                0 <= i < canceling.effects.len() ==> #[trigger] canceling.effects[i] is Interrupt
            &&& canceling.state.groups.contains_key(k)
            &&& canceling.state.canceling.contains(k)
            &&& !canceling.state.task_keys.contains_key(v.groups[k].task.task_id.value)
            &&& resting.effects == effect::status_effects(
                v.callbacks_open,
                v.groups[k],
                StatusView::Canceled,
                v.offset_of(k),
                scheduler::larger(
                    stop->Canceled_total_size,
                    v.effective_total(k, v.groups[k].task),
                ),
            )
            &&& !resting.state.groups.contains_key(k)
            &&& !resting.state.canceling.contains(k)
        }),
{
}

/// A completion that was claimed before a cancel wins: the worker is not
/// interrupted, and its completion is what is reported.
pub proof fn law_completion_wins_over_late_cancel(
    v: SchedulerView,
    k: KeyView,
    completed: WorkerEvent,
)
    requires
        consistent(v),
        v.active.contains_key(k),
        v.groups[k].lifecycle.terminal == TerminalState::Completing,
        completed is Completed,
        completed.key() == k,
    ensures
        ({
            let canceling = scheduler::cancel_step(v, k);
            let done = scheduler::worker_event_step(canceling.state, completed);
            let total = scheduler::larger(
                completed->Completed_total_size,
                v.effective_total(k, v.groups[k].task),
            );
            &&& canceling.effects == Seq::<EffectView>::empty()
            &&& canceling.state.active[k] == v.active[k]
            &&& done.effects == effect::status_effects(
                v.callbacks_open,
                v.groups[k],
                StatusView::Complete,
                total,
                total,
            ) + effect::complete_effects(
                v.callbacks_open,
                v.groups[k],
                effect::text_view(completed->completion_payload),
            )
            &&& !done.state.canceling.contains(k)
            &&& !done.state.active.contains_key(k)
        }),
{
}

/// Importing a task in the paused state starts no worker, and resuming it later
/// puts it in the queue like any other. Where its file was not read, it is not
/// resumed before it has been.
pub proof fn law_import_starts_nothing(v: SchedulerView, submission: Submission)
    requires
        consistent(v),
        scheduler::is_leader(v, submission.task, None),
    ensures
        ({
            let k = submission.task.spec_dedupe_key();
            let imported = executor::command_step(
                v,
                TransferCmd::EnqueuePaused { submission },
                None,
            );
            &&& imported.state.active == v.active
            &&& imported.state.queued == v.queued
            &&& forall|i: int|
                0 <= i < imported.effects.len() ==> !(#[trigger] imported.effects[i] is Start)
            &&& !submission.task.unread ==> {
                &&& scheduler::resume_refusal(imported.state, k) is None
                &&& scheduler::resume_step(imported.state, k).state.queued == v.queued.push(k)
            }
            &&& submission.task.unread ==> {
                &&& scheduler::awaits_source(imported.state, k)
                &&& scheduler::resume_refusal(imported.state, k) is Some
                &&& scheduler::resume_step(imported.state, k) == (Step {
                    state: imported.state,
                    effects: Seq::empty(),
                })
            }
        }),
{
    let k = submission.task.spec_dedupe_key();
    assert(!scheduler::repeats(v, submission.task, k));
    assert(!v.queued.contains(k));
    assert(!v.active.contains_key(k));
}

/// Once the file of an imported upload was read and nobody else transfers its
/// content, the upload can be resumed like any other, under that content.
pub proof fn law_read_imports_can_be_resumed(v: SchedulerView, k: KeyView, sign: String)
    requires
        consistent(v),
        scheduler::awaits_source(v, k),
        !v.groups.contains_key(scheduler::read_group(v.groups[k], sign).task.spec_dedupe_key()),
    ensures
        ({
            let known_as = scheduler::read_group(v.groups[k], sign).task.spec_dedupe_key();
            let read = scheduler::identify_state(v, k, Ok(sign));
            &&& read.task_keys[v.groups[k].task.task_id.value] == known_as
            &&& !read.groups.contains_key(k)
            &&& scheduler::resume_refusal(read, known_as) is None
            &&& scheduler::resume_step(read, known_as).state.queued == v.queued.push(known_as)
            &&& scheduler::resume_step(read, known_as).effects == scheduler::current_status(
                read,
                known_as,
                StatusView::Pending,
            )
        }),
{
    let known_as = scheduler::read_group(v.groups[k], sign).task.spec_dedupe_key();
    assert(!v.queued.contains(known_as));
    assert(!v.active.contains_key(known_as));
}

/// Whatever a worker does with the latch of its transfer, the tables still
/// agree.
pub proof fn law_latches_keep_consistency(v: SchedulerView, k: KeyView, lifecycle: TransferLifecycle)
    requires
        consistent(v),
        v.groups.contains_key(k),
    ensures
        consistent(scheduler_state::with_lifecycle(v, k, lifecycle)),
{
}

} // verus!
