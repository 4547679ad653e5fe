use rusty_cat::lifecycle::{
    DeferredStop, StopRequestDisposition, TerminalState, TransferLifecycle,
};

#[test]
fn completion_excludes_pause_and_cancel() {
    let mut lifecycle = TransferLifecycle::new();
    assert!(lifecycle.begin_completion());
    assert!(!lifecycle.begin_completion(), "completion has one owner");
    assert_eq!(
        lifecycle.begin_pause(),
        StopRequestDisposition::DeferredUntilRequestReturns
    );
    assert_eq!(
        lifecycle.begin_cancel(),
        StopRequestDisposition::DeferredUntilRequestReturns
    );
    assert_eq!(
        lifecycle.finish_incomplete_completion(),
        Some(DeferredStop::Cancel),
        "cancel upgrades a pending pause when the request was not terminal"
    );
}

#[test]
fn accepted_pause_blocks_completion_and_can_upgrade_to_cancel() {
    let mut lifecycle = TransferLifecycle::new();
    assert_eq!(
        lifecycle.begin_pause(),
        StopRequestDisposition::InterruptNow
    );
    assert!(!lifecycle.begin_completion());
    assert_eq!(
        lifecycle.begin_cancel(),
        StopRequestDisposition::InterruptNow
    );
    assert!(!lifecycle.begin_completion());
}

#[test]
fn quiescent_pause_can_reset_for_resume() {
    let mut lifecycle = TransferLifecycle::new();
    assert_eq!(
        lifecycle.begin_pause(),
        StopRequestDisposition::InterruptNow
    );
    lifecycle.reset_pause();
    assert!(lifecycle.begin_completion());
}

#[test]
fn provider_abort_is_shared_and_exactly_once() {
    let mut lifecycle = TransferLifecycle::new();
    assert!(lifecycle.begin_abort());
    assert!(!lifecycle.begin_abort());
}

#[test]
fn observed_remote_completion_overrides_racing_stop_request() {
    for cancel in [false, true] {
        let mut lifecycle = TransferLifecycle::new();
        let disposition = if cancel {
            lifecycle.begin_cancel()
        } else {
            lifecycle.begin_pause()
        };
        assert_eq!(disposition, StopRequestDisposition::InterruptNow);

        // This models a request that passed its preflight cancellation
        // check, then reported terminal success while the control command
        // raced it. Remote truth wins and later stops become deferred.
        lifecycle.acknowledge_completion();
        assert_eq!(
            lifecycle.begin_cancel(),
            StopRequestDisposition::DeferredUntilRequestReturns
        );
        assert!(lifecycle.finish_incomplete_completion().is_some());
    }
}

#[test]
fn deferred_pause_takes_effect_when_the_request_returns() {
    let mut lifecycle = TransferLifecycle::new();
    assert!(lifecycle.begin_completion());
    lifecycle.begin_pause();
    assert_eq!(
        lifecycle.finish_incomplete_completion(),
        Some(DeferredStop::Pause)
    );
    assert_eq!(lifecycle.terminal, TerminalState::Pausing);
    lifecycle.reset_pause();
    assert_eq!(lifecycle.terminal, TerminalState::Open);
    assert_eq!(lifecycle.finish_incomplete_completion(), None);
}

#[test]
fn abort_is_required_only_after_it_was_asked_for() {
    let mut lifecycle = TransferLifecycle::new();
    assert!(!lifecycle.abort_required());
    lifecycle.require_abort();
    assert!(lifecycle.abort_required());
}
