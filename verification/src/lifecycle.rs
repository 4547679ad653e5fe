//! The latch between a transfer's completion and the requests to stop it.
//!
//! Completion, pause and cancel race for one transfer. Whoever claims the latch
//! first wins; a stop request that comes after the completion claim is kept
//! until the completing request has returned.

use vstd::prelude::*;

verus! {

/// Who holds the latch.
#[derive(Debug, Clone, Copy, PartialEq, Eq, Structural)]
pub enum TerminalState {
    Open,
    Completing,
    Canceling,
    Pausing,
    CompletingCancelPending,
    CompletingPausePending,
}

/// What a stop request has to do with the worker.
#[derive(Debug, Clone, Copy, PartialEq, Eq, Structural)]
pub enum StopRequestDisposition {
    InterruptNow,
    DeferredUntilRequestReturns,
}

/// A stop request that was kept while a completing request was under way.
#[derive(Debug, Clone, Copy, PartialEq, Eq, Structural)]
pub enum DeferredStop {
    Pause,
    Cancel,
}

impl TerminalState {
    /// Whether a completing request is under way.
    pub open spec fn completing(self) -> bool {
        self == TerminalState::Completing || self == TerminalState::CompletingPausePending || self
            == TerminalState::CompletingCancelPending
    }

    /// The state after a pause request.
    pub open spec fn paused(self) -> TerminalState {
        match self {
            TerminalState::Open => TerminalState::Pausing,
            TerminalState::Completing => TerminalState::CompletingPausePending,
            _ => self,
        }
    }

    /// The state after a cancel request, which outranks a pause.
    pub open spec fn canceled(self) -> TerminalState {
        if self.completing() {
            TerminalState::CompletingCancelPending
        } else {
            TerminalState::Canceling
        }
    }

    /// What a stop request has to do: a completing request is never
    /// interrupted.
    pub open spec fn stop_disposition(self) -> StopRequestDisposition {
        if self.completing() {
            StopRequestDisposition::DeferredUntilRequestReturns
        } else {
            StopRequestDisposition::InterruptNow
        }
    }

    /// The state once a paused worker has come to rest.
    pub open spec fn pause_reset(self) -> TerminalState {
        if self == TerminalState::Pausing {
            TerminalState::Open
        } else {
            self
        }
    }

    /// The state after a completing request that did not complete the
    /// transfer, and the stop that was kept meanwhile.
    pub open spec fn incomplete(self) -> (TerminalState, Option<DeferredStop>) {
        match self {
            TerminalState::Completing => (TerminalState::Open, None),
            TerminalState::CompletingPausePending => (
                TerminalState::Pausing,
                Some(DeferredStop::Pause),
            ),
            TerminalState::CompletingCancelPending => (
                TerminalState::Canceling,
                Some(DeferredStop::Cancel),
            ),
            _ => (self, None),
        }
    }
}

/// The latch of one transfer, with the marks of its provider-side abort.
#[derive(Debug, Clone, Copy, PartialEq, Eq, Structural)]
pub struct TransferLifecycle {
    pub terminal: TerminalState,
    pub abort_started: bool,
    pub abort_required: bool,
}

impl TransferLifecycle {
    pub open spec fn spec_new() -> TransferLifecycle {
        TransferLifecycle {
            terminal: TerminalState::Open,
            abort_started: false,
            abort_required: false,
        }
    }

    pub fn new() -> (lifecycle: TransferLifecycle)
        ensures
            lifecycle == TransferLifecycle::spec_new(),
    {
        TransferLifecycle {
            terminal: TerminalState::Open,
            abort_started: false,
            abort_required: false,
        }
    }

    /// Claims the latch for completion. Only an open latch can be claimed.
    pub fn begin_completion(&mut self) -> (claimed: bool)
        ensures
            claimed == (old(self).terminal == TerminalState::Open),
            *final(self) == (TransferLifecycle {
                terminal: if claimed {
                    TerminalState::Completing
                } else {
                    old(self).terminal
                },
                ..*old(self)
            }),
    {
        match self.terminal {
            TerminalState::Open => {
                self.terminal = TerminalState::Completing;
                true
            },
            _ => false,
        }
    }

    /// Records that the remote side reported the transfer complete. A fact
    /// wins over every stop request that raced it.
    pub fn acknowledge_completion(&mut self)
        ensures
            *final(self) == (TransferLifecycle {
                terminal: TerminalState::Completing,
                ..*old(self)
            }),
    {
        self.terminal = TerminalState::Completing;
    }

    /// Requests a pause.
    pub fn begin_pause(&mut self) -> (disposition: StopRequestDisposition)
        ensures
            disposition == old(self).terminal.stop_disposition(),
            *final(self) == (TransferLifecycle {
                terminal: old(self).terminal.paused(),
                ..*old(self)
            }),
    {
        match self.terminal {
            TerminalState::Open => {
                self.terminal = TerminalState::Pausing;
                StopRequestDisposition::InterruptNow
            },
            TerminalState::Completing => {
                self.terminal = TerminalState::CompletingPausePending;
                StopRequestDisposition::DeferredUntilRequestReturns
            },
            TerminalState::CompletingPausePending | TerminalState::CompletingCancelPending => {
                StopRequestDisposition::DeferredUntilRequestReturns
            },
            TerminalState::Pausing | TerminalState::Canceling => {
                StopRequestDisposition::InterruptNow
            },
        }
    }

    /// Requests a cancel.
    pub fn begin_cancel(&mut self) -> (disposition: StopRequestDisposition)
        ensures
            disposition == old(self).terminal.stop_disposition(),
            *final(self) == (TransferLifecycle {
                terminal: old(self).terminal.canceled(),
                ..*old(self)
            }),
    {
        match self.terminal {
            TerminalState::Canceling => StopRequestDisposition::InterruptNow,
            TerminalState::Completing | TerminalState::CompletingPausePending => {
                self.terminal = TerminalState::CompletingCancelPending;
                StopRequestDisposition::DeferredUntilRequestReturns
            },
            TerminalState::CompletingCancelPending => {
                StopRequestDisposition::DeferredUntilRequestReturns
            },
            TerminalState::Open | TerminalState::Pausing => {
                self.terminal = TerminalState::Canceling;
                StopRequestDisposition::InterruptNow
            },
        }
    }

    /// Opens the latch again after a pause, so that the transfer can resume.
    pub fn reset_pause(&mut self)
        ensures
            *final(self) == (TransferLifecycle {
                terminal: old(self).terminal.pause_reset(),
                ..*old(self)
            }),
    {
        match self.terminal {
            TerminalState::Pausing => {
                self.terminal = TerminalState::Open;
            },
            _ => {},
        }
    }

    /// Gives the completion claim back after a request that did not complete
    /// the transfer, and hands out the stop that was kept meanwhile.
    pub fn finish_incomplete_completion(&mut self) -> (stop: Option<DeferredStop>)
        ensures
            stop == old(self).terminal.incomplete().1,
            *final(self) == (TransferLifecycle {
                terminal: old(self).terminal.incomplete().0,
                ..*old(self)
            }),
    {
        match self.terminal {
            TerminalState::Completing => {
                self.terminal = TerminalState::Open;
                None
            },
            TerminalState::CompletingPausePending => {
                self.terminal = TerminalState::Pausing;
                Some(DeferredStop::Pause)
            },
            TerminalState::CompletingCancelPending => {
                self.terminal = TerminalState::Canceling;
                Some(DeferredStop::Cancel)
            },
            _ => None,
        }
    }

    /// Claims the provider-side abort: the first caller gets it, nobody else.
    pub fn begin_abort(&mut self) -> (first: bool)
        ensures
            first == !old(self).abort_started,
            *final(self) == (TransferLifecycle { abort_started: true, ..*old(self) }),
    {
        let first = !self.abort_started;
        self.abort_started = true;
        first
    }

    /// Marks that the provider still holds state that has to be aborted.
    pub fn require_abort(&mut self)
        ensures
            *final(self) == (TransferLifecycle { abort_required: true, ..*old(self) }),
    {
        self.abort_required = true;
    }

    pub fn abort_required(&self) -> (required: bool)
        ensures
            required == self.abort_required,
    {
        self.abort_required
    }
}

/// One step that can be taken on a latch.
pub enum LifecycleStep {
    BeginCompletion,
    AcknowledgeCompletion,
    BeginPause,
    BeginCancel,
    ResetPause,
    FinishIncompleteCompletion,
}

/// The state after one step.
pub open spec fn lifecycle_step(state: TerminalState, step: LifecycleStep) -> TerminalState {
    match step {
        LifecycleStep::BeginCompletion => if state == TerminalState::Open {
            TerminalState::Completing
        } else {
            state
        },
        LifecycleStep::AcknowledgeCompletion => TerminalState::Completing,
        LifecycleStep::BeginPause => state.paused(),
        LifecycleStep::BeginCancel => state.canceled(),
        LifecycleStep::ResetPause => state.pause_reset(),
        LifecycleStep::FinishIncompleteCompletion => state.incomplete().0,
    }
}

/// The state after a sequence of steps.
pub open spec fn lifecycle_run(state: TerminalState, steps: Seq<LifecycleStep>) -> TerminalState
    decreases steps.len(),
{
    if steps.len() == 0 {
        state
    } else {
        lifecycle_step(lifecycle_run(state, steps.drop_last()), steps.last())
    }
}

/// An accepted cancel is final: as long as the remote side does not report the
/// transfer complete, no sequence of steps leads from it to a completion claim
/// or opens the latch again.
pub proof fn law_cancel_is_final(steps: Seq<LifecycleStep>)
    requires
        forall|i: int| 0 <= i < steps.len() ==> !(steps[i] is AcknowledgeCompletion),
    ensures
        lifecycle_run(TerminalState::Canceling, steps) == TerminalState::Canceling,
    decreases steps.len(),
{
    if steps.len() > 0 {
        law_cancel_is_final(steps.drop_last());
    }
}

/// While a completing request is under way, no stop request takes the claim
/// away or interrupts the worker; only the end of the request does.
pub proof fn law_completion_excludes_stops(state: TerminalState, step: LifecycleStep)
    requires
        state.completing(),
        !(step is FinishIncompleteCompletion),
    ensures
        lifecycle_step(state, step).completing(),
        state.stop_disposition() == StopRequestDisposition::DeferredUntilRequestReturns,
{
}

/// A stop request that was deferred is not lost: it takes effect when the
/// completing request returns without completing, and a cancel outranks a
/// pause whichever came first.
pub proof fn law_deferred_stop_takes_effect(state: TerminalState)
    requires
        state.completing(),
    ensures
        state.canceled().incomplete() == (TerminalState::Canceling, Some(DeferredStop::Cancel)),
        state.paused().canceled().incomplete() == (
            TerminalState::Canceling,
            Some(DeferredStop::Cancel),
        ),
        state == TerminalState::Completing ==> state.paused().incomplete() == (
            TerminalState::Pausing,
            Some(DeferredStop::Pause),
        ),
{
}

/// A pause blocks completion until it is reset, and resetting it undoes it.
pub proof fn law_pause_blocks_completion_until_reset()
    ensures
        lifecycle_step(TerminalState::Open.paused(), LifecycleStep::BeginCompletion)
            == TerminalState::Pausing,
        TerminalState::Open.paused().pause_reset() == TerminalState::Open,
{
}

} // verus!
