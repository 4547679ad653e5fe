use rusty_cat::callbacks::JobKind;
use rusty_cat::client_log::{
    beginning_log, called_entry, created_log, empty_task_entry, executor_entry, listener_entry,
    loss_entry, lost_entry, panic_entry, sending_entry, sent_entry, step_entry, submission_entry,
    submitted_entry, unreadable_entry, ClientStep, ListenerChange,
};
use rusty_cat::direction::{Direction, UniqueId};
use rusty_cat::effect::Effect;
use rusty_cat::error::{InnerErrorCode, MeowError};
use rusty_cat::executor::{CommandKind, SchedulerLoop, TransferCmd};
use rusty_cat::ids::{GlobalProgressListenerId, TaskId};
use rusty_cat::inner_task::{DefaultProtocols, InnerTask};
use rusty_cat::log::{Log, LogLevel};
use rusty_cat::pounce_task::{
    BreakpointDownloadHttpConfig, DownloadPounceBuilder, LocalPath, PounceTask, ProtocolId,
    UploadPounceBuilder,
};
use rusty_cat::presigned::range_download::RefreshOutcome;
use rusty_cat::presigned::range_download_plan::PresignedRangeDownloadPlan;
use rusty_cat::retry::ChunkRetry;
use rusty_cat::scheduler::Submission;
use rusty_cat::scheduler_log::{
    abort_failure_entry, closed_entry, command_log, effect_log, event_log, lost_workers_entry,
    may_start, received_entry, start_log,
};
use rusty_cat::transfer_status::{ChunkOutcome, FileTransferRecord, TransferStatus};
use rusty_cat::worker_event::WorkerEvent;
use rusty_cat::worker_log::{
    attempt_entry, bad_range_entry, canceled_attempt_entry, failure_entry, prepare_retry_entry,
    renewal_entry, unsettled_entry, unusable_entry, worker_entry, FailedStep, WorkerNote,
};

fn pounce(url: &str) -> PounceTask {
    DownloadPounceBuilder::new(
        "a.bin".to_string(),
        LocalPath::new(b"/tmp/a.bin".to_vec()),
        1024,
        url.to_string(),
    )
    .build()
}

fn task(id: u64, url: &str) -> InnerTask {
    let protocols = DefaultProtocols {
        upload: ProtocolId { value: 1 },
        download: ProtocolId { value: 2 },
    };
    InnerTask::from_pounce(
        TaskId::new(id),
        pounce(url),
        BreakpointDownloadHttpConfig::default(),
        protocols,
        None,
    )
    .expect("nothing is read")
    .0
}

fn enqueue(id: u64, url: &str) -> TransferCmd {
    TransferCmd::Enqueue {
        submission: Submission {
            task: task(id, url),
            progress_cb: false,
            complete_cb: false,
        },
    }
}

fn said(logs: &[Log]) -> Vec<(LogLevel, &str, &str)> {
    logs.iter()
        .map(|log| (log.level(), log.tag(), log.message()))
        .collect()
}

fn key(url: &str) -> UniqueId {
    (Direction::Download, url.to_string())
}

fn refused() -> MeowError {
    MeowError::from_code_str(InnerErrorCode::ResponseStatusError, "no: sig=SECRET-REDACTED")
        .with_http_status(503)
}

#[test]
fn submissions_are_logged_with_their_key_and_the_queue() {
    let mut scheduler = SchedulerLoop::new(1, 1);
    let first = enqueue(1, "https://e/a?sig=abc");
    assert_eq!(
        said(&command_log(&scheduler.state, &first)),
        vec![
            (
                LogLevel::Key,
                "cmd_enqueue",
                "received enqueue: task_id=1 key=(Download, https://e/a?sig=REDACTED) chunk_size=1024"
            ),
            (
                LogLevel::Key,
                "cmd_enqueue",
                "queued new key: key=(Download, https://e/a?sig=REDACTED) queued_len=1"
            ),
        ]
    );
    assert!(may_start(&scheduler.state, &first));
    let (_, effects) = scheduler.on_command(first);
    assert_eq!(
        said(&effect_log(&scheduler.state, effects.last().unwrap(), 0)),
        vec![(
            LogLevel::Key,
            "scheduler",
            "start key=(Download, https://e/a?sig=REDACTED) from offset=0 chunk_size=1024"
        )]
    );
    assert_eq!(
        said(&start_log(&scheduler.state, 1)),
        vec![
            (
                LogLevel::Debug,
                "scheduler",
                "try_start_next begin: queued=1 active=0 paused=0"
            ),
            (LogLevel::Debug, "scheduler", "try_start_next exit: queue empty"),
            (LogLevel::Debug, "scheduler", "try_start_next end: started_count=1"),
        ]
    );
    let again = enqueue(2, "https://e/a?sig=abc");
    assert_eq!(
        said(&command_log(&scheduler.state, &again))[1],
        (
            LogLevel::Warn,
            "cmd_enqueue",
            "duplicate key rejected: key=(Download, https://e/a?sig=REDACTED)"
        )
    );
    assert!(!may_start(&scheduler.state, &again));
    scheduler.on_command(enqueue(3, "u"));
    assert_eq!(
        said(&start_log(&scheduler.state, 0)),
        vec![
            (
                LogLevel::Debug,
                "scheduler",
                "try_start_next begin: queued=1 active=1 paused=0"
            ),
            (
                LogLevel::Trace,
                "scheduler",
                "direction concurrency full, requeue key=(Download, u) dir=Download"
            ),
            (
                LogLevel::Debug,
                "scheduler",
                "try_start_next break: no task scheduled in this round"
            ),
            (LogLevel::Debug, "scheduler", "try_start_next end: started_count=0"),
        ]
    );
    let paused = TransferCmd::EnqueuePaused {
        submission: Submission {
            task: task(4, "v"),
            progress_cb: false,
            complete_cb: false,
        },
    };
    assert_eq!(
        said(&command_log(&scheduler.state, &paused)),
        vec![
            (
                LogLevel::Key,
                "cmd_enqueue_paused",
                "received enqueue_paused: task_id=4 key=(Download, v) chunk_size=1024"
            ),
            (
                LogLevel::Key,
                "cmd_enqueue_paused",
                "task registered as paused: key=(Download, v)"
            ),
        ]
    );
    scheduler.on_command(paused);
    assert_eq!(
        said(&command_log(&scheduler.state, &TransferCmd::Close)),
        vec![(
            LogLevel::Key,
            "cmd_close",
            "close requested: active=1 groups=3 queued=1 paused=1"
        )]
    );
    assert_eq!(
        said(&command_log(&scheduler.state, &TransferCmd::Snapshot)),
        vec![(
            LogLevel::Debug,
            "cmd_snapshot",
            "snapshot requested: queued=1 active=1 paused=1"
        )]
    );
}

#[test]
fn commands_are_logged_with_how_the_transfer_stood() {
    let mut scheduler = SchedulerLoop::new(1, 1);
    scheduler.on_command(enqueue(1, "a"));
    scheduler.on_command(enqueue(2, "b"));
    let unknown = TransferCmd::Cancel {
        task_id: TaskId::new(9),
    };
    assert_eq!(
        said(&command_log(&scheduler.state, &unknown)),
        vec![
            (LogLevel::Key, "cmd_cancel", "cancel requested: task_id=9"),
            (LogLevel::Warn, "cmd_cancel", "cancel failed task not found: task_id=9"),
        ]
    );
    let task_id = TaskId::new(2);
    let resume = TransferCmd::Resume { task_id };
    assert_eq!(
        said(&command_log(&scheduler.state, &resume)),
        vec![
            (LogLevel::Key, "cmd_resume", "resume requested: task_id=2"),
            (
                LogLevel::Debug,
                "resume_group",
                "resume begin: key=(Download, b) active=false queued=true paused=false"
            ),
            (
                LogLevel::Warn,
                "resume_group",
                "resume rejected not paused: key=(Download, b)"
            ),
            (
                LogLevel::Warn,
                "cmd_resume",
                "resume rejected: task_id=2 key=(Download, b) err=resume target is not paused"
            ),
        ]
    );
    let pause = TransferCmd::Pause { task_id };
    assert_eq!(
        said(&command_log(&scheduler.state, &pause))[2..],
        [
            (
                LogLevel::Debug,
                "pause_group",
                "pause status emitted: key=(Download, b) offset=0"
            ),
            (
                LogLevel::Key,
                "cmd_pause",
                "pause accepted: task_id=2 key=(Download, b)"
            ),
        ]
    );
    scheduler.on_command(pause);
    assert_eq!(
        said(&command_log(&scheduler.state, &resume))[2..],
        [
            (
                LogLevel::Debug,
                "resume_group",
                "resume requeued key=(Download, b) queued_len=1"
            ),
            (LogLevel::Debug, "resume_group", "resume success: key=(Download, b)"),
            (
                LogLevel::Key,
                "cmd_resume",
                "resume accepted: task_id=2 key=(Download, b)"
            ),
        ]
    );
}

#[test]
fn every_end_of_a_transfer_is_logged() {
    let mut scheduler = SchedulerLoop::new(1, 1);
    scheduler.on_command(enqueue(1, "a?sig=abc"));
    let known = || key("a?sig=abc");
    let progress = WorkerEvent::Progress {
        key: known(),
        next_offset: 40,
        total_size: 100,
    };
    assert_eq!(
        said(&event_log(&scheduler.state, &progress)),
        vec![(
            LogLevel::Trace,
            "worker_event",
            "progress: key=(Download, a?sig=REDACTED) next_offset=40 total_size=100"
        )]
    );
    scheduler.on_event(progress);
    let failed = WorkerEvent::Failed {
        key: known(),
        error: MeowError::from_code_str(InnerErrorCode::DiskFull, "full: sig=SECRET-REDACTED")
            .with_http_status(507),
        total_size: 100,
    };
    let logs = event_log(&scheduler.state, &failed);
    assert_eq!(logs.len(), 1);
    assert_eq!(logs[0].level(), LogLevel::Error);
    assert_eq!(logs[0].message(), "task failed: full: sig=REDACTED");
    assert_eq!(logs[0].object_key(), Some("a?sig=REDACTED"));
    assert_eq!(logs[0].offset(), Some(40));
    assert_eq!(
        (logs[0].error_code(), logs[0].http_status()),
        (Some(121), Some(507))
    );
    let completed = WorkerEvent::Completed {
        key: known(),
        total_size: 100,
        completion_payload: None,
    };
    assert_eq!(
        said(&event_log(&scheduler.state, &completed)),
        vec![(
            LogLevel::Key,
            "worker_event",
            "completed: key=(Download, a?sig=REDACTED) total_size=100"
        )]
    );
    scheduler.on_command(TransferCmd::Pause {
        task_id: TaskId::new(1),
    });
    let canceled = WorkerEvent::Canceled {
        key: known(),
        total_size: 100,
    };
    assert_eq!(
        said(&event_log(&scheduler.state, &canceled)),
        vec![
            (
                LogLevel::Key,
                "worker_event",
                "canceled: key=(Download, a?sig=REDACTED)"
            ),
            (
                LogLevel::Key,
                "worker_event",
                "canceled from pause flow; keep group for resume: key=(Download, a?sig=REDACTED)"
            ),
        ]
    );
    let stray = WorkerEvent::Failed {
        key: key("x"),
        error: MeowError::from_code_str(InnerErrorCode::TaskCanceled, "late"),
        total_size: 0,
    };
    let logs = event_log(&scheduler.state, &stray);
    assert_eq!(
        said(&logs),
        vec![(
            LogLevel::Warn,
            "worker_event",
            "Failed for unknown group; nothing to finalize error=late"
        )]
    );
    assert_eq!(logs[0].error_code(), Some(120));
    assert_eq!(received_entry().message(), "worker event received");
}

#[test]
fn reports_and_the_end_of_the_loop_are_logged() {
    let scheduler = SchedulerLoop::new(1, 1);
    let record = FileTransferRecord {
        task_id: TaskId::new(5),
        file_sign: "sign".to_string(),
        file_name: "name".to_string(),
        total_size: 100,
        transferred: 40,
        status: TransferStatus::Transmission,
        direction: Direction::Download,
    };
    let report = Effect::Status {
        recipient: None,
        record,
    };
    assert_eq!(
        said(&effect_log(&scheduler.state, &report, 3)),
        vec![
            (
                LogLevel::Trace,
                "emit_status",
                "status emit start: task_id=5 status=Transmission transferred=40 total=100"
            ),
            (
                LogLevel::Trace,
                "emit_global_progress",
                "broadcast start: listener_count=3 task_id=5"
            ),
        ]
    );
    assert!(effect_log(&scheduler.state, &Effect::CloseCallbacks, 0).is_empty());
    assert_eq!(
        closed_entry().message(),
        "close finished, worker loop exiting"
    );
    assert_eq!(
        lost_workers_entry(2).message(),
        "worker event channel closed with 2 active groups"
    );
    assert_eq!(
        abort_failure_entry(&key("a"), true, &refused()).message(),
        "protocol abort failed after worker quiesced: key=(Download, a) err=no: sig=REDACTED"
    );
    assert_eq!(
        abort_failure_entry(&key("a"), false, &refused()).message(),
        "protocol abort failed but continue cleanup: key=(Download, a) err=no: sig=REDACTED"
    );
}

#[test]
fn tasks_are_logged_from_their_description_on() {
    let id = TaskId::new(7);
    let logs = beginning_log(id, &pounce("u"), "/tmp/a.bin");
    assert_eq!(
        said(&logs),
        vec![
            (LogLevel::Key, "inner_task", "from_pounce start: task_id=7"),
            (
                LogLevel::Key,
                "inner_task",
                "build download task: task_id=7 path=/tmp/a.bin"
            ),
            (
                LogLevel::Warn,
                "inner_task",
                "download task missing client_file_sign; defaulting to empty"
            ),
        ]
    );
    assert_eq!(logs[2].task_id(), Some("7"));
    let bytes = UploadPounceBuilder::from_bytes("a".to_string(), vec![1, 2], 1).build(0);
    assert_eq!(
        beginning_log(id, &bytes, "")[1].message(),
        "build upload task from bytes: task_id=7 len=2"
    );
    let logs = created_log(&task(7, "u"));
    assert!(logs[0]
        .message()
        .starts_with("from_pounce resolved: task_id=7 dir=Download file=a.bin chunk=1024 total=0"));
    assert_eq!(logs[1].message(), "task created dir=Download");
    assert_eq!((logs[1].task_id(), logs[1].byte_len()), (Some("7"), Some(0)));
    let unreadable = unreadable_entry(id, "/tmp/a", &refused());
    assert_eq!(
        unreadable.message(),
        "calculate_sign failed: path=/tmp/a err=no: sig=REDACTED"
    );
    assert_eq!(unreadable.level(), LogLevel::Error);
    assert_eq!(
        submission_entry(true, &pounce("https://e/o?sig=abc")).message(),
        "task dir=Download name=\"a.bin\" size=0 chunk=1024 method=GET url=https://e/o?sig=REDACTED"
    );
    assert_eq!(empty_task_entry(false).message(), "reject empty task");
    assert_eq!(
        submitted_entry(true, id).message(),
        "try_enqueue_paused success: task_id=7"
    );
}

#[test]
fn what_clients_send_is_logged() {
    let id = TaskId::new(7);
    assert_eq!(
        called_entry(CommandKind::Pause, id).message(),
        "pause called: task_id=7"
    );
    let sending = sending_entry(CommandKind::Enqueue, Some(id), Some(key("u")));
    assert_eq!(
        sending.message(),
        "try_enqueue send: task_id=7 key=(Download, u)"
    );
    assert_eq!(sending.level(), LogLevel::Debug);
    let snapshot = sending_entry(CommandKind::Snapshot, None, None);
    assert_eq!(
        (snapshot.level(), snapshot.message()),
        (LogLevel::Trace, "snapshot send")
    );
    assert_eq!(
        sent_entry(CommandKind::Cancel, id).message(),
        "cancel send ok: task_id=7"
    );
    assert_eq!(
        lost_entry(CommandKind::Resume, false, Some(id), "full").message(),
        "resume send failed: task_id=7 err=full"
    );
    assert_eq!(
        lost_entry(CommandKind::Close, true, None, "gone").message(),
        "close response await failed: err=gone"
    );
    assert_eq!(
        step_entry(ClientStep::CloseIdle).message(),
        "close with no executor initialized"
    );
    assert_eq!(
        executor_entry(2, 3).message(),
        "executor new: max_upload=2 max_download=3"
    );
    let listener = GlobalProgressListenerId { value: 4 };
    assert_eq!(
        listener_entry(ListenerChange::Registered(listener)).message(),
        "register global listener: id=4"
    );
    assert_eq!(
        listener_entry(ListenerChange::Missed(listener)).level(),
        LogLevel::Debug
    );
    assert_eq!(loss_entry(JobKind::Sample, false).level(), LogLevel::Trace);
    assert_eq!(loss_entry(JobKind::Report, true).level(), LogLevel::Warn);
    assert_eq!(panic_entry(Some(id)).task_id(), Some("7"));
    assert_eq!(panic_entry(None).task_id(), None);
}

#[test]
fn failures_of_workers_say_where_they_happened() {
    let id = TaskId::new(3);
    let at = key("u");
    let prepare = failure_entry(
        &at,
        id,
        FailedStep::Prepare {
            start_offset: 1,
            attempt: 2,
            max_retries: 3,
        },
        &refused(),
    );
    assert_eq!(
        prepare.message(),
        "prepare failed: key=(Download, u) err=no: sig=REDACTED"
    );
    assert_eq!(prepare.task_id(), Some("3"));
    assert_eq!(
        (prepare.offset(), prepare.attempt(), prepare.max_retries()),
        (Some(1), Some(2), Some(3))
    );
    assert_eq!(prepare.http_status(), Some(503));
    let chunk = failure_entry(
        &at,
        id,
        FailedStep::Chunk {
            offset: 8,
            chunk_size: 9,
        },
        &refused(),
    );
    assert_eq!(
        chunk.message(),
        "chunk retry exhausted or non-retryable: key=(Download, u) offset=8 err=no: sig=REDACTED"
    );
    assert_eq!((chunk.offset(), chunk.byte_len()), (Some(8), Some(9)));
    assert_eq!(
        failure_entry(&at, id, FailedStep::Panic, &refused()).task_id(),
        None
    );
    assert_eq!(
        worker_entry(
            &at,
            id,
            WorkerNote::ParallelBegin {
                start_offset: 1,
                total: 2,
                max_parts: 3
            }
        )
        .message(),
        "begin: key=(Download, u) task_id=3 start_offset=1 total=2 max_parts=3"
    );
    assert_eq!(
        worker_entry(
            &at,
            id,
            WorkerNote::Prepared {
                next_offset: 6,
                total: 10
            }
        )
        .message(),
        "prepared: key=(Download, u) task_id=3 next_offset=6 total=10"
    );
    assert_eq!(
        prepare_retry_entry(&at, id, 0, 250, &refused()).message(),
        "prepare retry scheduled: key=(Download, u) task_id=3 attempt=1 delay_ms=250 err=no: sig=REDACTED"
    );
    assert_eq!(
        unsettled_entry(&refused()).message(),
        "checkpoint while settling failed download also failed: no: sig=REDACTED"
    );
}

#[test]
fn retries_are_traced_with_their_counts() {
    let at = key("u");
    let counts = |attempt: u32| ChunkRetry {
        attempt,
        max_retries: 2,
    };
    let scheduled = attempt_entry(&at, 8, counts(0), &Err(refused()), false, 250).expect("a retry");
    assert_eq!(scheduled.level(), LogLevel::Trace);
    assert_eq!(
        scheduled.message(),
        "retry scheduled: key=(Download, u) offset=8 attempt=1 next_delay_ms=250 err=no: sig=REDACTED"
    );
    assert_eq!(
        (scheduled.offset(), scheduled.attempt(), scheduled.max_retries()),
        (Some(8), Some(0), Some(2))
    );
    assert_eq!(scheduled.http_status(), Some(503));
    let end = attempt_entry(&at, 8, counts(2), &Err(refused()), false, 250).expect("the end");
    assert_eq!(
        end.message(),
        "give up: key=(Download, u) offset=8 attempt=2 max_retries=2 retryable=true err=no: sig=REDACTED"
    );
    let stopped = attempt_entry(&at, 8, counts(1), &Err(refused()), true, 250).expect("a cancel");
    assert!(stopped.message().starts_with("cancel after chunk error: "));
    let done = || {
        Ok(ChunkOutcome {
            next_offset: 16,
            total_size: 32,
            done: false,
            completion_payload: None,
        })
    };
    assert!(attempt_entry(&at, 8, counts(0), &done(), false, 0).is_none());
    assert_eq!(
        attempt_entry(&at, 8, counts(1), &done(), false, 0)
            .expect("a recovery")
            .message(),
        "retry recovered: key=(Download, u) offset=8 attempts_used=1 next_offset=16"
    );
    assert_eq!(
        canceled_attempt_entry(&at, 8, counts(1), true).message(),
        "cancel during backoff wait: key=(Download, u) offset=8 attempt=1"
    );
    assert_eq!(
        canceled_attempt_entry(&at, 8, counts(0), false).message(),
        "cancel before transfer: key=(Download, u) offset=8 attempt=0"
    );
}

#[test]
fn renewals_that_fail_are_logged_without_secrets() {
    let plan = PresignedRangeDownloadPlan::new("https://e/o?sig=abc").with_total_size(5);
    let failed = renewal_entry(&plan, &RefreshOutcome::Failed(refused())).expect("a failure");
    assert_eq!(
        failed.message(),
        "presigned range URL refresh/re-sign failed: no: sig=REDACTED"
    );
    assert_eq!(failed.url(), Some("https://e/o?sig=REDACTED"));
    let other = PresignedRangeDownloadPlan::new("https://e/o").with_total_size(6);
    let mismatch = renewal_entry(&plan, &RefreshOutcome::Refreshed(other)).expect("a failure");
    assert_eq!(
        mismatch.message(),
        "refreshed range total_size mismatch: old=5 new=6"
    );
    let same = PresignedRangeDownloadPlan::new("https://e/o").with_total_size(5);
    assert!(renewal_entry(&plan, &RefreshOutcome::Refreshed(same)).is_none());
    assert!(renewal_entry(&plan, &RefreshOutcome::Panicked).is_none());
    let expired = MeowError::from_code_str(
        InnerErrorCode::InvalidTaskState,
        "presigned range URL expired and no refresher is configured",
    );
    let entry = unusable_entry(&plan, &expired).expect("a failure");
    assert_eq!(entry.message(), expired.msg());
    assert_eq!(entry.level(), LogLevel::Error);
    assert!(unusable_entry(&plan, &refused()).is_none());
    assert_eq!(bad_range_entry(&refused()).level(), LogLevel::Warn);
}
