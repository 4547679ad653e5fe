//! What workers tell the scheduler.

use vstd::prelude::*;

use crate::direction;
use crate::direction::{KeyView, UniqueId};
use crate::error::MeowError;

verus! {

/// A message from the worker of a transfer. Every worker ends with exactly one
/// of the last three.
pub enum WorkerEvent {
    Progress { key: UniqueId, next_offset: u64, total_size: u64 },
    Completed { key: UniqueId, total_size: u64, completion_payload: Option<String> },
    Failed { key: UniqueId, error: MeowError, total_size: u64 },
    Canceled { key: UniqueId, total_size: u64 },
}

impl WorkerEvent {
    /// The transfer that the message is about.
    pub open spec fn key(self) -> KeyView {
        match self {
            WorkerEvent::Progress { key, .. } => direction::key_view(key),
            WorkerEvent::Completed { key, .. } => direction::key_view(key),
            WorkerEvent::Failed { key, .. } => direction::key_view(key),
            WorkerEvent::Canceled { key, .. } => direction::key_view(key),
        }
    }

    /// Whether the worker is at its end.
    pub open spec fn terminal(self) -> bool {
        !(self is Progress)
    }

    /// Whether a queued transfer may become startable: progress neither frees
    /// a worker slot nor makes a transfer runnable.
    pub fn may_change_scheduler_readiness(&self) -> (may: bool)
        ensures
            may == self.terminal(),
    {
        match self {
            WorkerEvent::Progress { .. } => false,
            _ => true,
        }
    }
}

} // verus!
