//! What callers see of a transfer: statuses, progress records, snapshots.

use vstd::prelude::*;

use crate::direction::{Direction, UniqueId};
use crate::error::MeowError;
use crate::ids::TaskId;

verus! {

/// The state of a transfer as reported to callers.
#[derive(Debug)]
pub enum TransferStatus {
    /// Nothing has been reported yet.
    Unset,
    Pending,
    Transmission,
    Paused,
    Complete,
    Failed(MeowError),
    Canceled,
}

impl Clone for TransferStatus {
    fn clone(&self) -> (copy: Self)
        ensures
            copy == *self,
    {
        match self {
            TransferStatus::Unset => TransferStatus::Unset,
            TransferStatus::Pending => TransferStatus::Pending,
            TransferStatus::Transmission => TransferStatus::Transmission,
            TransferStatus::Paused => TransferStatus::Paused,
            TransferStatus::Complete => TransferStatus::Complete,
            TransferStatus::Failed(e) => TransferStatus::Failed(e.clone()),
            TransferStatus::Canceled => TransferStatus::Canceled,
        }
    }
}

impl Default for TransferStatus {
    fn default() -> (status: Self)
        ensures
            status == TransferStatus::Unset,
    {
        TransferStatus::Unset
    }
}

impl TransferStatus {
    /// The number of a status, for storage outside of this library.
    pub open spec fn spec_number(self) -> int {
        match self {
            TransferStatus::Pending => 0,
            TransferStatus::Transmission => 1,
            TransferStatus::Paused => 2,
            TransferStatus::Complete => 3,
            TransferStatus::Failed(_) => 4,
            TransferStatus::Canceled => 5,
            TransferStatus::Unset => -1,
        }
    }

    pub fn as_i32(&self) -> (number: i32)
        ensures
            number == self.spec_number(),
    {
        match self {
            TransferStatus::Pending => 0,
            TransferStatus::Transmission => 1,
            TransferStatus::Paused => 2,
            TransferStatus::Complete => 3,
            TransferStatus::Failed(_) => 4,
            TransferStatus::Canceled => 5,
            TransferStatus::Unset => -1,
        }
    }
}

/// One progress report. The fraction shown to callers is `transferred` over
/// `total_size`, and zero while the total is unknown.
#[derive(Debug)]
pub struct FileTransferRecord {
    pub task_id: TaskId,
    pub file_sign: String,
    pub file_name: String,
    pub total_size: u64,
    pub transferred: u64,
    pub status: TransferStatus,
    pub direction: Direction,
}

impl Clone for FileTransferRecord {
    fn clone(&self) -> (copy: Self)
        ensures
            copy == *self,
    {
        FileTransferRecord {
            task_id: self.task_id,
            file_sign: self.file_sign.clone(),
            file_name: self.file_name.clone(),
            total_size: self.total_size,
            transferred: self.transferred,
            status: self.status.clone(),
            direction: self.direction,
        }
    }
}

/// Queue and worker counts at one moment.
#[derive(Debug)]
pub struct TransferSnapshot {
    pub queued_groups: usize,
    pub active_groups: usize,
    pub active_keys: Vec<UniqueId>,
}

/// What preparing a transfer found out: where to go on, and the total size
/// (zero where it is unknown).
#[derive(Debug, Clone, Copy, PartialEq, Eq, Structural)]
pub struct PrepareOutcome {
    pub next_offset: u64,
    pub total_size: u64,
}

/// What transferring one chunk led to.
#[derive(Debug)]
pub struct ChunkOutcome {
    pub next_offset: u64,
    pub total_size: u64,
    pub done: bool,
    pub completion_payload: Option<String>,
}

/// What waiting for a task ends with when it completed.
#[derive(Debug)]
pub struct TaskOutcome {
    pub task_id: TaskId,
    pub payload: Option<String>,
}

} // verus!
