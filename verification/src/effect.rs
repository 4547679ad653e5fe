//! What the scheduler asks its surroundings to do.

use vstd::prelude::*;

use crate::direction::Direction;
use crate::error::{InnerErrorCode, MeowError};
use crate::ids::TaskId;
use crate::lifecycle::TransferLifecycle;
use crate::scheduler_state::GroupState;
use crate::transfer_status::{FileTransferRecord, TransferStatus};

verus! {

/// One thing to do, in the order in which the scheduler decided on them.
pub enum Effect {
    /// Report a status to the progress callback of `recipient`, if it has one,
    /// and to every global listener.
    Status { recipient: Option<TaskId>, record: FileTransferRecord },
    /// Call the completion callback of a task.
    Complete { task_id: TaskId, payload: Option<String> },
    /// Start a worker.
    Start { task_id: TaskId, start_offset: u64 },
    /// Tell a running worker to stop.
    Interrupt { task_id: TaskId },
    /// Let the protocol clean up what a canceled task left at the remote side.
    /// The latch of the task comes along, since the task may be forgotten by
    /// then.
    Abort { task_id: TaskId, latch: TransferLifecycle },
    /// Close the source file of an upload.
    ReleaseUploadFile { task_id: TaskId },
    /// Deliver what is pending and end the callback thread.
    CloseCallbacks,
}

/// The mathematical value of a status.
pub enum StatusView {
    Unset,
    Pending,
    Transmission,
    Paused,
    Complete,
    Failed { code: InnerErrorCode, msg: Seq<char>, http_status: Option<u16> },
    Canceled,
}

/// The mathematical value of a progress record.
#[verifier::ext_equal]
pub struct RecordView {
    pub task_id: TaskId,
    pub file_sign: Seq<char>,
    pub file_name: Seq<char>,
    pub total_size: u64,
    pub transferred: u64,
    pub status: StatusView,
    pub direction: Direction,
}

/// The mathematical value of an effect.
pub enum EffectView {
    Status { recipient: Option<TaskId>, record: RecordView },
    Complete { task_id: TaskId, payload: Option<Seq<char>> },
    Start { task_id: TaskId, start_offset: u64 },
    Interrupt { task_id: TaskId },
    Abort { task_id: TaskId, latch: TransferLifecycle },
    ReleaseUploadFile { task_id: TaskId },
    CloseCallbacks,
}

pub open spec fn status_view(status: TransferStatus) -> StatusView {
    match status {
        TransferStatus::Unset => StatusView::Unset,
        TransferStatus::Pending => StatusView::Pending,
        TransferStatus::Transmission => StatusView::Transmission,
        TransferStatus::Paused => StatusView::Paused,
        TransferStatus::Complete => StatusView::Complete,
        TransferStatus::Failed(e) => error_status(e),
        TransferStatus::Canceled => StatusView::Canceled,
    }
}

/// The status of a transfer that failed with an error.
pub open spec fn error_status(e: MeowError) -> StatusView {
    StatusView::Failed { code: e.code, msg: e.msg@, http_status: e.http_status }
}

pub open spec fn record_view(record: FileTransferRecord) -> RecordView {
    RecordView {
        task_id: record.task_id,
        file_sign: record.file_sign@,
        file_name: record.file_name@,
        total_size: record.total_size,
        transferred: record.transferred,
        status: status_view(record.status),
        direction: record.direction,
    }
}

pub open spec fn text_view(text: Option<String>) -> Option<Seq<char>> {
    match text {
        Some(t) => Some(t@),
        None => None,
    }
}

pub open spec fn effect_view(effect: Effect) -> EffectView {
    match effect {
        Effect::Status { recipient, record } => EffectView::Status {
            recipient,
            record: record_view(record),
        },
        Effect::Complete { task_id, payload } => EffectView::Complete {
            task_id,
            payload: text_view(payload),
        },
        Effect::Start { task_id, start_offset } => EffectView::Start { task_id, start_offset },
        Effect::Interrupt { task_id } => EffectView::Interrupt { task_id },
        Effect::Abort { task_id, latch } => EffectView::Abort { task_id, latch },
        Effect::ReleaseUploadFile { task_id } => EffectView::ReleaseUploadFile { task_id },
        Effect::CloseCallbacks => EffectView::CloseCallbacks,
    }
}

pub open spec fn effect_views(effects: Seq<Effect>) -> Seq<EffectView> {
    Seq::new(effects.len(), |i: int| effect_view(effects[i]))
}

/// Pushing an effect pushes its value.
pub broadcast proof fn lemma_push_effect(effects: Seq<Effect>, effect: Effect)
    ensures
        #[trigger] effect_views(effects.push(effect)) == effect_views(effects).push(
            effect_view(effect),
        ),
{
    assert(effect_views(effects.push(effect)) =~= effect_views(effects).push(effect_view(effect)));
}

/// A progress record of a registered transfer.
pub open spec fn group_record(
    group: GroupState,
    status: StatusView,
    transferred: u64,
    total: u64,
) -> RecordView {
    RecordView {
        task_id: group.task.task_id,
        file_sign: group.task.file_sign@,
        file_name: group.task.file_name@,
        total_size: total,
        transferred,
        status,
        direction: group.task.direction,
    }
}

/// Makes a progress record of a registered transfer.
pub fn to_record_inner(
    group: &GroupState,
    status: TransferStatus,
    transferred: u64,
    total: u64,
) -> (record: FileTransferRecord)
    ensures
        record_view(record) == group_record(*group, status_view(status), transferred, total),
{
    FileTransferRecord {
        task_id: group.task.task_id,
        file_sign: group.task.file_sign.clone(),
        file_name: group.task.file_name.clone(),
        total_size: total,
        transferred,
        status,
        direction: group.task.direction,
    }
}

/// Reporting a status of a registered transfer: one report while callbacks are
/// open, none afterwards.
pub open spec fn status_effects(
    callbacks_open: bool,
    group: GroupState,
    status: StatusView,
    transferred: u64,
    total: u64,
) -> Seq<EffectView> {
    if callbacks_open {
        seq![
            EffectView::Status {
                recipient: if group.progress_cb {
                    Some(group.task.task_id)
                } else {
                    None
                },
                record: group_record(group, status, transferred, total),
            },
        ]
    } else {
        Seq::empty()
    }
}

/// Adds the report of a status to `effects`.
pub fn emit_status(
    effects: &mut Vec<Effect>,
    callbacks_open: bool,
    group: &GroupState,
    status: TransferStatus,
    transferred: u64,
    total: u64,
)
    ensures
        effect_views(final(effects)@) == effect_views(old(effects)@) + status_effects(
            callbacks_open,
            *group,
            status_view(status),
            transferred,
            total,
        ),
{
    broadcast use lemma_push_effect;

    if callbacks_open {
        let recipient = if group.progress_cb {
            Some(group.task.task_id)
        } else {
            None
        };
        let record = to_record_inner(group, status, transferred, total);
        effects.push(Effect::Status { recipient, record });
    }
    assert(effect_views(effects@) =~= effect_views(old(effects)@) + status_effects(
        callbacks_open,
        *group,
        status_view(status),
        transferred,
        total,
    ));
}

/// Calling the completion callback of a registered transfer, where its
/// submitter wants it and callbacks are open.
pub open spec fn complete_effects(
    callbacks_open: bool,
    group: GroupState,
    payload: Option<Seq<char>>,
) -> Seq<EffectView> {
    if callbacks_open && group.complete_cb {
        seq![EffectView::Complete { task_id: group.task.task_id, payload }]
    } else {
        Seq::empty()
    }
}

/// Adds the completion callback of a transfer to `effects`.
pub fn emit_complete(
    effects: &mut Vec<Effect>,
    callbacks_open: bool,
    group: &GroupState,
    payload: Option<String>,
)
    ensures
        effect_views(final(effects)@) == effect_views(old(effects)@) + complete_effects(
            callbacks_open,
            *group,
            text_view(payload),
        ),
{
    broadcast use lemma_push_effect;

    if callbacks_open && group.complete_cb {
        effects.push(Effect::Complete { task_id: group.task.task_id, payload });
    }
    assert(effect_views(effects@) =~= effect_views(old(effects)@) + complete_effects(
        callbacks_open,
        *group,
        text_view(payload),
    ));
}

/// Adds one effect that is not a report.
pub fn push_effect(effects: &mut Vec<Effect>, effect: Effect)
    ensures
        effect_views(final(effects)@) == effect_views(old(effects)@) + seq![effect_view(effect)],
{
    broadcast use lemma_push_effect;

    effects.push(effect);
    assert(effect_views(effects@) =~= effect_views(old(effects)@) + seq![effect_view(effect)]);
}

/// No effects yet.
pub fn no_effects() -> (effects: Vec<Effect>)
    ensures
        effect_views(effects@) == Seq::<EffectView>::empty(),
{
    let effects: Vec<Effect> = Vec::new();
    assert(effect_views(effects@) =~= Seq::<EffectView>::empty());
    effects
}

} // verus!
