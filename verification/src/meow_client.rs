//! The client: what it accepts, who listens, and how it closes.

use vstd::prelude::*;
use vstd::string::*;

use crate::error;
use crate::error::{InnerErrorCode, MeowError};
use crate::ids::{GlobalProgressListenerId, TaskId};
use crate::meow_config::MeowConfig;
use crate::pounce_task::PounceTask;
use crate::transfer_status::{FileTransferRecord, TaskOutcome, TransferStatus};

verus! {

/// A client with listeners of type `L`.
#[derive(Debug)]
pub struct MeowClient<L> {
    config: MeowConfig,
    listeners: Vec<(GlobalProgressListenerId, L)>,
    closed: bool,
}

/// The list without the entry at a place.
pub open spec fn without<T>(list: Seq<T>, at: int) -> Seq<T> {
    list.take(at) + list.skip(at + 1)
}

/// The place of the first listener with an identifier.
pub open spec fn first_listener<L>(
    list: Seq<(GlobalProgressListenerId, L)>,
    id: GlobalProgressListenerId,
    at: int,
) -> bool {
    &&& 0 <= at < list.len()
    &&& list[at].0 == id
    &&& forall|i: int| 0 <= i < at ==> (#[trigger] list[i]).0 != id
}

/// Whether a call on a closed client is refused.
pub open spec fn refused_closed<T>(result: Result<T, MeowError>) -> bool {
    error::fails_with(result, InnerErrorCode::ClientClosed, "meow client is already closed"@)
}

impl<L> MeowClient<L> {
    /// The listeners in the order of registration.
    pub closed spec fn spec_listeners(self) -> Seq<(GlobalProgressListenerId, L)> {
        self.listeners@
    }

    pub closed spec fn spec_closed(self) -> bool {
        self.closed
    }

    pub closed spec fn spec_config(self) -> MeowConfig {
        self.config
    }

    /// An open client without listeners.
    pub fn new(config: MeowConfig) -> (client: Self)
        ensures
            client.spec_config() == config,
            client.spec_listeners() == Seq::<(GlobalProgressListenerId, L)>::empty(),
            !client.spec_closed(),
    {
        MeowClient { config, listeners: Vec::new(), closed: false }
    }

    pub fn config(&self) -> (config: &MeowConfig)
        ensures
            *config == self.spec_config(),
    {
        &self.config
    }

    pub fn is_closed(&self) -> (closed: bool)
        ensures
            closed == self.spec_closed(),
    {
        self.closed
    }

    /// A closed client refuses every further call.
    pub fn ensure_open(&self) -> (result: Result<(), MeowError>)
        ensures
            result is Ok <==> !self.spec_closed(),
            self.spec_closed() ==> refused_closed(result),
    {
        if self.closed {
            return Err(
                MeowError::from_code_str(
                    InnerErrorCode::ClientClosed,
                    "meow client is already closed",
                ),
            );
        }
        Ok(())
    }

    /// Whether a task may be submitted: the client has to be open, and the task
    /// must not lack anything.
    pub fn check_submission(&self, task: &PounceTask) -> (result: Result<(), MeowError>)
        ensures
            result is Ok <==> !self.spec_closed() && !task.spec_is_empty(),
            self.spec_closed() ==> refused_closed(result),
            !self.spec_closed() && task.spec_is_empty() ==> error::fails_with(
                result,
                InnerErrorCode::ParameterEmpty,
                Seq::empty(),
            ),
    {
        match self.ensure_open() {
            Ok(()) => {},
            Err(e) => {
                return Err(e);
            },
        }
        if task.is_empty() {
            return Err(MeowError::from_code1(InnerErrorCode::ParameterEmpty));
        }
        Ok(())
    }

    /// Registers a listener for the progress of all tasks, behind those that
    /// are registered already.
    pub fn register_global_progress_listener(&mut self, id: GlobalProgressListenerId, listener: L)
        ensures
            final(self).spec_listeners() == old(self).spec_listeners().push((id, listener)),
            final(self).spec_closed() == old(self).spec_closed(),
            final(self).spec_config() == old(self).spec_config(),
    {
        self.listeners.push((id, listener));
    }

    /// Removes the listener with an identifier, and says whether there was one.
    pub fn unregister_global_progress_listener(
        &mut self,
        id: GlobalProgressListenerId,
    ) -> (removed: bool)
        ensures
            final(self).spec_closed() == old(self).spec_closed(),
            final(self).spec_config() == old(self).spec_config(),
            removed <==> exists|at: int| first_listener(old(self).spec_listeners(), id, at),
            forall|i: int|
                0 <= i < old(self).spec_listeners().len() && (
                #[trigger] old(self).spec_listeners()[i]).0 == id ==> removed,
            removed ==> exists|at: int| #[trigger]
                first_listener(old(self).spec_listeners(), id, at) && final(self).spec_listeners()
                    == without(old(self).spec_listeners(), at),
            !removed ==> final(self).spec_listeners() == old(self).spec_listeners(),
    {
        let ghost list = self.listeners@;
        let mut i: usize = 0;
        while i < self.listeners.len()
            invariant
                *self == *old(self),
                list == self.listeners@,
                i <= list.len(),
                forall|j: int| 0 <= j < i ==> (#[trigger] list[j]).0 != id,
            decreases list.len() - i,
        {
            if self.listeners[i].0.value == id.value {
                assert(list[i as int].0 == id);
                assert(first_listener(old(self).spec_listeners(), id, i as int));
                self.listeners.remove(i);
                assert(self.listeners@ =~= without(list, i as int));
                return true;
            }
            i += 1;
        }
        false
    }

    /// Removes all listeners.
    pub fn clear_global_listener(&mut self)
        ensures
            final(self).spec_listeners() == Seq::<(GlobalProgressListenerId, L)>::empty(),
            final(self).spec_closed() == old(self).spec_closed(),
            final(self).spec_config() == old(self).spec_config(),
    {
        self.listeners.clear();
    }

    /// The identifiers of the listeners, in the order of registration.
    pub fn listener_ids(&self) -> (ids: Vec<GlobalProgressListenerId>)
        ensures
            ids@.len() == self.spec_listeners().len(),
            forall|i: int| 0 <= i < ids@.len() ==> ids@[i] == (#[trigger] self.spec_listeners()[i]).0,
    {
        let mut ids: Vec<GlobalProgressListenerId> = Vec::new();
        let mut i: usize = 0;
        while i < self.listeners.len()
            invariant
                i <= self.listeners@.len(),
                ids@.len() == i,
                forall|j: int| 0 <= j < i ==> ids@[j] == (#[trigger] self.spec_listeners()[j]).0,
            decreases self.listeners@.len() - i,
        {
            ids.push(self.listeners[i].0);
            i += 1;
        }
        ids
    }

    /// The listener with an identifier, if there is one.
    pub fn listener(&self, id: GlobalProgressListenerId) -> (listener: Option<&L>)
        ensures
            listener is Some <==> exists|at: int| first_listener(self.spec_listeners(), id, at),
            listener matches Some(found) ==> exists|at: int| #[trigger]
                first_listener(self.spec_listeners(), id, at) && self.spec_listeners()[at].1
                    == *found,
    {
        let mut i: usize = 0;
        while i < self.listeners.len()
            invariant
                i <= self.listeners@.len(),
                forall|j: int| 0 <= j < i ==> (#[trigger] self.spec_listeners()[j]).0 != id,
            decreases self.listeners@.len() - i,
        {
            if self.listeners[i].0.value == id.value {
                assert(self.spec_listeners()[i as int].0 == id);
                assert(first_listener(self.spec_listeners(), id, i as int));
                return Some(&self.listeners[i].1);
            }
            i += 1;
        }
        None
    }

    /// Starts to close the client. A closed client cannot be closed again. From
    /// a callback of the same client closing cannot work, since it waits for
    /// that callback to return.
    pub fn begin_close(&mut self, on_own_callback_thread: bool) -> (result: Result<(), MeowError>)
        ensures
            final(self).spec_listeners() == old(self).spec_listeners(),
            final(self).spec_config() == old(self).spec_config(),
            old(self).spec_closed() ==> final(self).spec_closed() && refused_closed(result),
            !old(self).spec_closed() && on_own_callback_thread ==> !final(self).spec_closed()
                && error::fails_with(
                result,
                InnerErrorCode::InvalidTaskState,
                "close cannot be called from a transfer callback of the same client"@,
            ),
            !old(self).spec_closed() && !on_own_callback_thread ==> final(self).spec_closed()
                && result is Ok,
    {
        match self.ensure_open() {
            Ok(()) => {},
            Err(e) => {
                return Err(e);
            },
        }
        if on_own_callback_thread {
            return Err(
                MeowError::from_code_str(
                    InnerErrorCode::InvalidTaskState,
                    "close cannot be called from a transfer callback of the same client",
                ),
            );
        }
        self.closed = true;
        Ok(())
    }

    /// The scheduler has closed, or failed to. After a failure the client is
    /// open again, so that closing can be tried anew.
    pub fn finish_close(&mut self, outcome: Result<(), MeowError>) -> (result: Result<
        (),
        MeowError,
    >)
        ensures
            final(self).spec_listeners() == old(self).spec_listeners(),
            final(self).spec_config() == old(self).spec_config(),
            result == outcome,
            final(self).spec_closed() == (outcome is Ok && old(self).spec_closed()),
    {
        if outcome.is_err() {
            self.closed = false;
        }
        outcome
    }
}

/// Removing a listener undoes its registration: with an identifier that was not
/// in use, the list is what it was.
pub proof fn law_unregister_undoes_register<L>(
    list: Seq<(GlobalProgressListenerId, L)>,
    id: GlobalProgressListenerId,
    listener: L,
    at: int,
)
    requires
        forall|i: int| 0 <= i < list.len() ==> (#[trigger] list[i]).0 != id,
    ensures
        first_listener(list.push((id, listener)), id, list.len() as int),
        first_listener(list.push((id, listener)), id, at) ==> without(
            list.push((id, listener)),
            at,
        ) == list,
{
    let longer = list.push((id, listener));
    if first_listener(longer, id, at) {
        if at < list.len() {
            assert(longer[at] == list[at]);
        }
        assert(without(longer, at) =~= list);
    }
}

// ---------------------------------------------------------------------------
// Waiting for one task
// ---------------------------------------------------------------------------

/// How a task that is waited for ended.
pub type Terminal = Result<TaskOutcome, MeowError>;

/// Takes note of the first thing that tells how a task ended.
#[derive(Debug)]
pub struct TerminalOnce {
    notified: bool,
}

/// The end that a progress report tells of, if it tells of one. Completion is
/// told by the completion callback, which carries the payload.
pub open spec fn reported_end(status: TransferStatus, end: Option<Terminal>) -> bool {
    match status {
        TransferStatus::Failed(e) => end == Some(Err::<TaskOutcome, MeowError>(e)),
        TransferStatus::Canceled => end matches Some(end) && error::fails_with(
            end,
            InnerErrorCode::TaskCanceled,
            "task was canceled"@,
        ),
        _ => end is None,
    }
}

impl TerminalOnce {
    pub closed spec fn spec_notified(self) -> bool {
        self.notified
    }

    pub fn new() -> (once: TerminalOnce)
        ensures
            !once.spec_notified(),
    {
        TerminalOnce { notified: false }
    }

    /// A progress report came. The end is handed out once at most.
    pub fn on_record(&mut self, record: &FileTransferRecord) -> (end: Option<Terminal>)
        ensures
            old(self).spec_notified() ==> end is None && final(self).spec_notified(),
            !old(self).spec_notified() ==> reported_end(record.status, end)
                && final(self).spec_notified() == end is Some,
    {
        if self.notified {
            return None;
        }
        match &record.status {
            TransferStatus::Failed(e) => {
                self.notified = true;
                Some(Err(e.clone()))
            },
            TransferStatus::Canceled => {
                self.notified = true;
                Some(
                    Err(MeowError::from_code_str(InnerErrorCode::TaskCanceled, "task was canceled")),
                )
            },
            _ => None,
        }
    }

    /// The completion callback came.
    pub fn on_complete(&mut self, task_id: TaskId, payload: Option<String>) -> (end: Option<
        Terminal,
    >)
        ensures
            final(self).spec_notified(),
            old(self).spec_notified() ==> end is None,
            !old(self).spec_notified() ==> end == Some(
                Ok::<TaskOutcome, MeowError>(TaskOutcome { task_id, payload }),
            ),
    {
        if self.notified {
            return None;
        }
        self.notified = true;
        Some(Ok(TaskOutcome { task_id, payload }))
    }
}

/// What waiting returns; `None` where nobody is left to tell how the task ended.
pub fn waited_result(end: Option<Terminal>) -> (result: Terminal)
    ensures
        match end {
            Some(end) => result == end,
            None => error::fails_with(
                result,
                InnerErrorCode::CommandResponseFailed,
                "transfer terminal channel closed without notification"@,
            ),
        },
{
    match end {
        Some(end) => end,
        None => Err(
            MeowError::from_code_str(
                InnerErrorCode::CommandResponseFailed,
                "transfer terminal channel closed without notification",
            ),
        ),
    }
}

} // verus!
