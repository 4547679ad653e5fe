use rusty_cat::callbacks::{
    fan_out, is_callback_dispatcher_thread_for, CallbackQueue, CbJob, Recipient, Submitted,
    TaskCallbacks, CALLBACK_QUEUE_CAPACITY,
};
use rusty_cat::direction::Direction;
use rusty_cat::error::{InnerErrorCode, MeowError};
use rusty_cat::ids::{GlobalProgressListenerId, TaskId};
use rusty_cat::meow_client::{waited_result, MeowClient, TerminalOnce};
use rusty_cat::meow_config::{MeowConfig, TimeSpan};
use rusty_cat::pounce_task::{
    BreakpointDownloadHttpConfig, DownloadPounceBuilder, LocalPath, PounceTask, UploadPounceBuilder,
};
use rusty_cat::transfer_status::{FileTransferRecord, TransferStatus};

fn record(status: TransferStatus) -> FileTransferRecord {
    FileTransferRecord {
        task_id: TaskId::new(1),
        file_sign: "sign".to_string(),
        file_name: "name".to_string(),
        total_size: 10,
        transferred: 4,
        status,
        direction: Direction::Download,
    }
}

#[test]
fn configurations_have_usable_defaults() {
    let config = MeowConfig::default();
    assert_eq!(config.http_timeout(), TimeSpan::from_secs(5));
    assert_eq!(config.tcp_keepalive(), TimeSpan::from_secs(30));
    assert_eq!(config.command_queue_capacity(), 128);
    assert_eq!(config.worker_event_queue_capacity(), 256);
    assert_eq!(
        config.breakpoint_download_http().range_accept,
        "application/octet-stream"
    );
    assert!(MeowConfig::builder().build().is_ok());
}

#[test]
fn configurations_are_checked() {
    let refused = [
        MeowConfig::builder().max_upload_concurrency(0),
        MeowConfig::builder().max_download_concurrency(0),
        MeowConfig::builder().command_queue_capacity(0),
        MeowConfig::builder().worker_event_queue_capacity(0),
        MeowConfig::builder().http_timeout(TimeSpan::from_secs(0)),
        MeowConfig::builder().tcp_keepalive(TimeSpan { secs: 0, nanos: 0 }),
    ];
    for builder in refused {
        let error = builder.build().expect_err("zero is refused");
        assert_eq!(error.code(), InnerErrorCode::ParameterEmpty);
    }
    let config = MeowConfig::builder()
        .max_upload_concurrency(3)
        .max_download_concurrency(4)
        .http_timeout(TimeSpan { secs: 0, nanos: 1 })
        .tcp_keepalive(TimeSpan::from_secs(9))
        .command_queue_capacity(5)
        .worker_event_queue_capacity(6)
        .breakpoint_download_http(BreakpointDownloadHttpConfig {
            range_accept: "*/*".to_string(),
        })
        .build()
        .expect("valid");
    assert_eq!(config.max_upload_concurrency(), 3);
    assert_eq!(config.max_download_concurrency(), 4);
    assert_eq!(config.command_queue_capacity(), 5);
    assert_eq!(config.worker_event_queue_capacity(), 6);
    assert_eq!(config.tcp_keepalive(), TimeSpan::from_secs(9));
    assert_eq!(config.breakpoint_download_http().range_accept, "*/*");
}

#[test]
fn statuses_have_numbers() {
    let failed = TransferStatus::Failed(MeowError::from_code1(InnerErrorCode::Unknown));
    let numbers: Vec<i32> = [
        TransferStatus::default(),
        TransferStatus::Pending,
        TransferStatus::Transmission,
        TransferStatus::Paused,
        TransferStatus::Complete,
        failed,
        TransferStatus::Canceled,
    ]
    .iter()
    .map(|status| status.as_i32())
    .collect();
    assert_eq!(numbers, vec![-1, 0, 1, 2, 3, 4, 5]);
}

#[test]
fn submissions_are_checked_before_anything_else() {
    let mut client: MeowClient<u8> = MeowClient::new(MeowConfig::default());
    let good = UploadPounceBuilder::from_bytes("a".to_string(), b"x".to_vec(), 0)
        .with_url("https://u".to_string())
        .build(0);
    let empty = UploadPounceBuilder::from_bytes("a".to_string(), Vec::new(), 0)
        .with_url("https://u".to_string())
        .build(0);
    client.check_submission(&good).expect("complete task");
    assert_eq!(
        client.check_submission(&empty).unwrap_err().code(),
        InnerErrorCode::ParameterEmpty
    );
    client.begin_close(false).expect("close");
    assert!(client.is_closed());
    assert_eq!(
        client.check_submission(&good).unwrap_err().code(),
        InnerErrorCode::ClientClosed
    );
    assert_eq!(
        client.ensure_open().unwrap_err().code(),
        InnerErrorCode::ClientClosed
    );
}

#[test]
fn builders_describe_files_and_bytes() {
    let task = UploadPounceBuilder::from_bytes("a".to_string(), b"x".to_vec(), 0)
        .with_file_path(LocalPath::new(b"/f".to_vec()))
        .with_url("https://u".to_string())
        .with_max_chunk_retries(9)
        .build(77);
    assert_eq!(task.total_size, 77);
    assert_eq!(task.chunk_size, 1048576);
    assert_eq!(task.method, "POST");
    assert_eq!(task.max_chunk_retries, 9);
    assert_eq!(task.file_path.bytes, b"/f".to_vec());
    assert!(!task.is_empty());
    let bytes = UploadPounceBuilder::new("a".to_string(), LocalPath::new(b"/f".to_vec()), 5)
        .with_bytes(b"xyz".to_vec())
        .build(77);
    assert_eq!(bytes.total_size, 3);
    assert_eq!(bytes.chunk_size, 5);
    assert!(bytes.is_empty(), "no URL");
}

#[test]
fn closing_is_refused_on_the_own_callback_thread() {
    let mut client: MeowClient<u8> = MeowClient::new(MeowConfig::default());
    let own = is_callback_dispatcher_thread_for(Some(7), 7);
    assert_eq!(
        client.begin_close(own).unwrap_err().code(),
        InnerErrorCode::InvalidTaskState
    );
    assert!(!client.is_closed());
    let other = is_callback_dispatcher_thread_for(Some(8), 7);
    client.begin_close(other).expect("another client's thread");
    assert!(!is_callback_dispatcher_thread_for(None, 7));
    let failed = client.finish_close(Err(MeowError::from_code_str(
        InnerErrorCode::CommandSendFailed,
        "gone",
    )));
    assert!(failed.is_err());
    assert!(!client.is_closed(), "closing can be tried again");
    client.begin_close(false).unwrap();
    client.finish_close(Ok(())).unwrap();
    for own in [false, true] {
        assert_eq!(
            client.begin_close(own).unwrap_err().code(),
            InnerErrorCode::ClientClosed
        );
    }
}

#[test]
fn listeners_come_and_go() {
    let mut client: MeowClient<&str> = MeowClient::new(MeowConfig::default());
    let id = |value| GlobalProgressListenerId { value };
    client.register_global_progress_listener(id(1), "one");
    client.register_global_progress_listener(id(2), "two");
    assert_eq!(client.listener_ids(), vec![id(1), id(2)]);
    assert_eq!(client.listener(id(2)), Some(&"two"));
    assert!(client.unregister_global_progress_listener(id(1)));
    assert!(!client.unregister_global_progress_listener(id(1)));
    assert_eq!(client.listener_ids(), vec![id(2)]);
    client.clear_global_listener();
    assert!(client.listener_ids().is_empty());
    assert_eq!(client.config().max_upload_concurrency(), 2);
}

#[test]
fn a_task_ends_once() {
    let mut once = TerminalOnce::new();
    assert!(once
        .on_record(&record(TransferStatus::Transmission))
        .is_none());
    assert!(once.on_record(&record(TransferStatus::Complete)).is_none());
    let end = once.on_complete(TaskId::new(1), Some("etag".to_string()));
    let outcome = waited_result(end).expect("completed");
    assert_eq!(outcome.task_id, TaskId::new(1));
    assert_eq!(outcome.payload.as_deref(), Some("etag"));
    assert!(once.on_record(&record(TransferStatus::Canceled)).is_none());

    let mut canceled = TerminalOnce::new();
    let end = canceled.on_record(&record(TransferStatus::Canceled));
    assert_eq!(
        waited_result(end).unwrap_err().code(),
        InnerErrorCode::TaskCanceled
    );
    assert!(canceled.on_complete(TaskId::new(1), None).is_none());

    let mut failed = TerminalOnce::new();
    let end = failed.on_record(&record(TransferStatus::Failed(MeowError::from_code_str(
        InnerErrorCode::DiskFull,
        "full",
    ))));
    assert_eq!(
        waited_result(end).unwrap_err().code(),
        InnerErrorCode::DiskFull
    );
    assert_eq!(
        waited_result(None).unwrap_err().code(),
        InnerErrorCode::CommandResponseFailed
    );
}

#[test]
fn reports_go_to_the_task_and_to_every_listener() {
    let ids = [
        GlobalProgressListenerId { value: 5 },
        GlobalProgressListenerId { value: 6 },
    ];
    let jobs = fan_out(Some(TaskId::new(1)), &ids, &record(TransferStatus::Paused));
    let recipients: Vec<Recipient> = jobs
        .iter()
        .map(|job| match job {
            CbJob::Progress { recipient, .. } => *recipient,
            CbJob::Complete { .. } => panic!("only reports"),
        })
        .collect();
    assert_eq!(
        recipients,
        vec![
            Recipient::Task(TaskId::new(1)),
            Recipient::Global(ids[0]),
            Recipient::Global(ids[1]),
        ]
    );
    assert_eq!(fan_out(None, &[], &record(TransferStatus::Paused)).len(), 0);
}

fn sample() -> CbJob {
    CbJob::Progress {
        recipient: Recipient::Task(TaskId::new(1)),
        record: record(TransferStatus::Transmission),
    }
}

fn completion(id: u64) -> CbJob {
    CbJob::Complete {
        task_id: TaskId::new(id),
        payload: None,
    }
}

#[test]
fn only_samples_are_dropped() {
    let mut queue = CallbackQueue::with_capacity(1);
    assert!(matches!(queue.submit(completion(1)), Submitted::Queued));
    assert!(matches!(queue.submit(sample()), Submitted::Dropped));
    let again = match queue.submit(completion(2)) {
        Submitted::Wait(job) => job,
        _ => panic!("a completion waits for room"),
    };
    assert!(matches!(
        queue.take(),
        Some(CbJob::Complete { task_id, .. }) if task_id == TaskId::new(1)
    ));
    assert!(matches!(queue.submit(again), Submitted::Queued));
    queue.close();
    assert!(!queue.is_finished());
    assert!(matches!(queue.submit(sample()), Submitted::Undelivered));
    assert!(matches!(
        queue.take(),
        Some(CbJob::Complete { task_id, .. }) if task_id == TaskId::new(2)
    ));
    assert!(queue.is_finished());
    assert!(queue.take().is_none());
    let mut usual = CallbackQueue::new();
    for _ in 0..CALLBACK_QUEUE_CAPACITY {
        assert!(matches!(usual.submit(sample()), Submitted::Queued));
    }
    assert!(matches!(usual.submit(sample()), Submitted::Dropped));
}

#[test]
fn callbacks_are_optional() {
    let none: TaskCallbacks<u8, u8> = TaskCallbacks::empty();
    assert!(none.progress_cb().is_none() && none.complete_cb().is_none());
    let some: TaskCallbacks<u8, u8> = TaskCallbacks::new(Some(1), Some(2));
    assert_eq!((*some.progress_cb(), *some.complete_cb()), (Some(1), Some(2)));
}

#[test]
fn downloads_are_built_from_their_defaults() {
    let path = || LocalPath::new(b"/tmp/object.bin".to_vec());
    let task = DownloadPounceBuilder::new(
        "object.bin".to_string(),
        path(),
        4096,
        "https://example.com/object.bin".to_string(),
    )
    .build();
    assert_eq!(task.direction, Direction::Download);
    assert_eq!(task.file_name, "object.bin");
    assert_eq!(task.chunk_size, 4096);
    assert_eq!(task.url, "https://example.com/object.bin");
    assert_eq!(task.method, "GET");
    assert!(task.upload_source.is_none());
    assert!(task.headers.is_empty());
    assert!(task.client_file_sign.is_none());
    assert!(task.breakpoint_download_http.is_none());
    assert_eq!(task.max_chunk_retries, PounceTask::DEFAULT_MAX_CHUNK_RETRIES);
    assert_eq!(task.max_parts_in_flight, 1);
    assert_eq!(task.total_size, 0);

    let task = DownloadPounceBuilder::new("a".to_string(), path(), 0, "u".to_string())
        .with_url("v".to_string())
        .with_client_file_sign("sign".to_string())
        .with_max_chunk_retries(7)
        .with_max_parts_in_flight(0)
        .with_total_size(99)
        .build();
    assert_eq!(task.chunk_size, 1024 * 1024);
    assert_eq!(task.url, "v");
    assert_eq!(task.client_file_sign.as_deref(), Some("sign"));
    assert_eq!(task.max_chunk_retries, 7);
    assert_eq!(task.max_parts_in_flight, 1);
    assert_eq!(task.total_size, 99);
}
