use reqwest::header::HeaderMap;
use rusty_cat::direction::Direction;
use rusty_cat::error::{InnerErrorCode, IoErrorKind, IoFailure, MeowError};
use rusty_cat::exec::{worker_panicked, Report};
use rusty_cat::ids::TaskId;
use rusty_cat::inner_task::{DefaultProtocols, InnerTask};
use rusty_cat::lifecycle::TransferLifecycle;
use rusty_cat::pounce_task::{
    BreakpointDownloadHttpConfig, LocalPath, ProtocolId, UploadPounceBuilder,
};
use rusty_cat::target_lease::{
    ensure_target_outside_sidecar_namespace, inode_key, lease_keys, lock_failure,
    lock_failure_given, lock_name, ownership_keys, path_key, sidecar_names, LeasePathWalk,
};
use rusty_cat::transfer_task::{
    after_staging, check_positioned_write, download_part_end, map_download_target_lock_error,
    map_download_validation_error, positioned_write_error, target_error, AfterStaging, Checkpoint,
    CheckpointCause, CheckpointFailure, CheckpointStep, Finalization, FinalizeStep, RecordedProgress,
    SerialCompaction, StageOutcome, TargetStage, TransferTask, WriteStage,
};
use sha2::Digest as _;

fn batch_error(result: Result<(), CheckpointFailure>) -> MeowError {
    match result {
        Err(CheckpointFailure::Error(error)) => error,
        _ => panic!("the transfer waits for this checkpoint"),
    }
}

#[test]
fn contention_is_an_invalid_task_state() {
    let error = map_download_target_lock_error(
        "lock target".to_string(),
        &IoFailure::new(IoErrorKind::WouldBlock),
    );

    assert_eq!(error.code(), InnerErrorCode::InvalidTaskState);
    assert_eq!(error.msg(), "lock target");
}

#[test]
fn non_contention_uses_normal_io_classification() {
    let permission = map_download_target_lock_error(
        "open target".to_string(),
        &IoFailure::new(IoErrorKind::PermissionDenied),
    );
    let missing_parent = map_download_target_lock_error(
        "open target".to_string(),
        &IoFailure::new(IoErrorKind::NotFound),
    );

    assert_eq!(permission.code(), InnerErrorCode::IoError);
    assert_eq!(missing_parent.code(), InnerErrorCode::LocalFileRemoved);
}

#[test]
fn out_of_space_preserves_disk_full() {
    let error = map_download_target_lock_error(
        "create target ownership file".to_string(),
        &IoFailure {
            kind: IoErrorKind::StorageFull,
            raw_os_error: Some(28),
        },
    );
    assert_eq!(error.code(), InnerErrorCode::DiskFull);
    let by_number = map_download_target_lock_error(
        "create target ownership file".to_string(),
        &IoFailure {
            kind: IoErrorKind::Other,
            raw_os_error: Some(28),
        },
    );
    assert_eq!(by_number.code(), InnerErrorCode::DiskFull);
}

#[test]
fn content_that_cannot_be_validated_says_why() {
    let code = |kind| map_download_validation_error(&IoFailure::new(kind)).code();
    assert_eq!(
        code(IoErrorKind::NotFound),
        InnerErrorCode::LocalFileRemoved
    );
    assert_eq!(
        code(IoErrorKind::UnexpectedEof),
        InnerErrorCode::LocalFileRemoved
    );
    assert_eq!(
        code(IoErrorKind::InvalidData),
        InnerErrorCode::ChecksumMismatch
    );
    assert_eq!(code(IoErrorKind::PermissionDenied), InnerErrorCode::IoError);
}

#[test]
fn positioned_write_reports_local_file_removed_when_locked_target_was_truncated() {
    let end = download_part_end(8, b"abcdefgh".len()).expect("part end");
    assert_eq!(end, 16);
    check_positioned_write("/t", end, Some(Ok(16))).expect("preallocated target");
    let error = check_positioned_write("/t", end, Some(Ok(4)))
        .expect_err("a part extending beyond the truncated target must fail");
    assert_eq!(error.code(), InnerErrorCode::LocalFileRemoved);
    assert_eq!(
        error.msg(),
        "download target was truncated before positioned write: len=4 need>=16"
    );
    let closed = check_positioned_write("/t", end, None).unwrap_err();
    assert_eq!(closed.code(), InnerErrorCode::InvalidTaskState);
    let unreadable = check_positioned_write(
        "/t",
        end,
        Some(Err(IoFailure::new(IoErrorKind::PermissionDenied))),
    )
    .unwrap_err();
    assert_eq!(unreadable.msg(), "stat locked download target failed: /t");
}

#[test]
fn part_ends_do_not_overflow() {
    let error = download_part_end(u64::MAX, 1).unwrap_err();
    assert_eq!(error.code(), InnerErrorCode::InvalidRange);
    assert_eq!(download_part_end(u64::MAX, 0).unwrap(), u64::MAX);
}

#[test]
fn failed_writes_name_their_stage() {
    let text = |stage| {
        positioned_write_error(stage, 7, &IoFailure::new(IoErrorKind::Other))
            .msg()
            .to_string()
    };
    assert_eq!(
        text(WriteStage::Seek),
        "seek locked download target failed: offset=7"
    );
    assert_eq!(
        text(WriteStage::Write),
        "write locked download target failed: offset=7"
    );
    assert_eq!(
        text(WriteStage::Flush),
        "flush locked download target failed: offset=7"
    );
}

#[test]
fn lone_staged_part_is_checkpointed_by_wall_clock_timer() {
    let staged = Some(Ok(StageOutcome {
        checkpoint_due: false,
        arm_timer: true,
    }));
    assert_eq!(
        after_staging(staged, true).expect("stage"),
        AfterStaging::ArmTimer,
        "the batch threshold was not reached"
    );
    let mut checkpoint = Checkpoint::new(CheckpointCause::Timer);
    checkpoint.on_begin(Some(Ok(true))).expect("staged part");
    assert_eq!(checkpoint.step, CheckpointStep::SyncData);
    checkpoint.on_sync(Some(Ok(()))).expect("synced");
    assert_eq!(checkpoint.step, CheckpointStep::Commit);
    checkpoint.on_commit(Some(Ok(()))).expect("committed");
    assert_eq!(checkpoint.step, CheckpointStep::Done);
}

#[test]
fn staging_decides_what_follows() {
    let outcome = |checkpoint_due, arm_timer| {
        Some(Ok(StageOutcome {
            checkpoint_due,
            arm_timer,
        }))
    };
    assert_eq!(
        after_staging(outcome(true, true), true).unwrap(),
        AfterStaging::Checkpoint
    );
    assert_eq!(
        after_staging(outcome(false, true), false).unwrap(),
        AfterStaging::Continue
    );
    assert_eq!(
        after_staging(None, true).unwrap_err().code(),
        InnerErrorCode::InvalidTaskState
    );
    assert_eq!(
        after_staging(Some(Err(IoFailure::new(IoErrorKind::Other))), true)
            .unwrap_err()
            .msg(),
        "stage .rcdl checkpoint failed"
    );
}

#[test]
fn checkpoints_stop_at_the_first_failure() {
    let failure = IoFailure::new(IoErrorKind::Other);
    let mut nothing = Checkpoint::new(CheckpointCause::Batch);
    nothing.on_begin(Some(Ok(false))).unwrap();
    assert_eq!(nothing.step, CheckpointStep::Done);
    let mut begin = Checkpoint::new(CheckpointCause::Batch);
    assert_eq!(
        batch_error(begin.on_begin(Some(Err(failure)))).msg(),
        "begin .rcdl checkpoint failed"
    );
    let mut closed = Checkpoint::new(CheckpointCause::Batch);
    closed.on_begin(Some(Ok(true))).unwrap();
    assert_eq!(
        batch_error(closed.on_sync(None)).code(),
        InnerErrorCode::InvalidTaskState
    );
    let mut sync = Checkpoint::new(CheckpointCause::Batch);
    sync.on_begin(Some(Ok(true))).unwrap();
    assert_eq!(
        batch_error(sync.on_sync(Some(Err(failure)))).msg(),
        "sync download checkpoint data failed"
    );
    let mut commit = Checkpoint::new(CheckpointCause::Batch);
    commit.on_begin(Some(Ok(true))).unwrap();
    commit.on_sync(Some(Ok(()))).unwrap();
    assert_eq!(
        batch_error(commit.on_commit(Some(Err(failure)))).msg(),
        "commit .rcdl checkpoint failed"
    );
    let mut timer = Checkpoint::new(CheckpointCause::Timer);
    assert!(matches!(
        timer.on_begin(Some(Err(failure))),
        Err(CheckpointFailure::Io(handed)) if handed == failure
    ));
    let mut gone = Checkpoint::new(CheckpointCause::Timer);
    gone.on_begin(Some(Ok(true))).unwrap();
    assert!(matches!(
        gone.on_sync(None),
        Err(CheckpointFailure::TargetGone)
    ));
}

#[test]
fn serial_compaction_keeps_the_recorded_prefix() {
    let mut compaction = SerialCompaction::new();
    compaction.on_watermark(Some(4096)).unwrap();
    compaction.on_truncated("/t", Some(Ok(()))).unwrap();
    compaction.on_synced(Ok(())).unwrap();
    assert_eq!(compaction.on_persisted(Some(Ok(4096))).unwrap(), 4096);

    let mut moved = SerialCompaction::new();
    moved.on_watermark(Some(4096)).unwrap();
    moved.on_truncated("/t", Some(Ok(()))).unwrap();
    moved.on_synced(Ok(())).unwrap();
    assert_eq!(
        moved.on_persisted(Some(Ok(8192))).unwrap_err().msg(),
        "serial checkpoint watermark changed during compaction: expected=4096 actual=8192"
    );
    assert_eq!(
        SerialCompaction::new().on_watermark(None).unwrap_err().code(),
        InnerErrorCode::InvalidTaskState
    );
}

fn finalize(
    len: Result<u64, IoFailure>,
    progress: Result<Option<RecordedProgress>, IoFailure>,
) -> Result<(), MeowError> {
    let mut finalization = Finalization::new(100);
    finalization.on_checkpoint(Ok(()));
    finalization.on_visible_len("/t", len);
    if finalization.step == FinalizeStep::Validate {
        finalization.on_progress(progress);
    }
    finalization.on_released(Ok(()), Ok(()))
}

#[test]
fn final_content_validation_uses_bytes_not_file_identity() {
    let all = |total, all_done| Ok(Some(RecordedProgress { total, all_done }));
    finalize(Ok(100), all(100, true)).expect("identical bytes are the same content generation");
    let error = finalize(Ok(100), Err(IoFailure::new(IoErrorKind::InvalidData)))
        .expect_err("same-length different content must fail");
    assert_eq!(error.code(), InnerErrorCode::ChecksumMismatch);
}

#[test]
fn completion_is_refused_until_it_is_earned() {
    let all = |total, all_done| Ok(Some(RecordedProgress { total, all_done }));
    assert_eq!(
        finalize(Ok(99), all(100, true)).unwrap_err().msg(),
        "download length changed before complete: expected=100 actual=99"
    );
    assert_eq!(
        finalize(Err(IoFailure::new(IoErrorKind::NotFound)), all(100, true))
            .unwrap_err()
            .code(),
        InnerErrorCode::LocalFileRemoved
    );
    assert_eq!(
        finalize(Ok(100), all(101, true)).unwrap_err().msg(),
        "download progress total mismatch: expected=100 progress=101"
    );
    assert_eq!(
        finalize(Ok(100), all(100, false)).unwrap_err().code(),
        InnerErrorCode::InvalidRange
    );
    assert_eq!(
        finalize(Ok(100), Ok(None)).unwrap_err().code(),
        InnerErrorCode::InvalidTaskState
    );
    let failure = || MeowError::from_code_str(InnerErrorCode::IoError, "release");
    let mut first = Finalization::new(100);
    first.on_checkpoint(Err(MeowError::from_code_str(
        InnerErrorCode::DiskFull,
        "checkpoint",
    )));
    assert_eq!(
        first
            .on_released(Err(failure()), Err(failure()))
            .unwrap_err()
            .code(),
        InnerErrorCode::DiskFull
    );
    let mut released = Finalization::new(100);
    released.on_checkpoint(Ok(()));
    released.on_visible_len("/t", Ok(100));
    released.on_progress(all(100, true));
    assert_eq!(released.step, FinalizeStep::DeleteAndRelease);
    assert!(released.on_released(Err(failure()), Ok(())).is_err());
}

#[test]
fn running_transfers_see_their_task() {
    let pounce = UploadPounceBuilder::from_bytes("a.bin".to_string(), b"abc".to_vec(), 2)
        .with_url("https://u".to_string())
        .with_method("PUT".to_string())
        .with_max_parts_in_flight(0)
        .with_max_upload_prepare_retries(7)
        .build(0);
    let (inner, _) = InnerTask::from_pounce(
        TaskId::new(1),
        pounce,
        BreakpointDownloadHttpConfig::default(),
        DefaultProtocols {
            upload: ProtocolId { value: 0 },
            download: ProtocolId { value: 0 },
        },
        None,
    )
    .unwrap();
    let task = TransferTask::from_inner(&inner);
    assert_eq!(task.direction(), Direction::Upload);
    assert_eq!(task.total_size(), 3);
    assert_eq!(task.chunk_size(), 2);
    assert_eq!(task.file_sign(), "900150983cd24fb0d6963f7d28e17f72");
    assert_eq!(task.file_name(), "a.bin");
    assert!(task.file_path().is_empty());
    assert_eq!(task.url(), "https://u");
    assert_eq!(task.method(), "PUT");
    assert_eq!(task.headers(), &HeaderMap::new());
    assert_eq!(task.max_parts_in_flight(), 1);
    assert_eq!(task.max_upload_prepare_retries(), 7);
    let mut lifecycle = TransferLifecycle::new();
    assert!(!task.upload_abort_required(&lifecycle));
    task.require_upload_abort(&mut lifecycle);
    assert!(task.upload_abort_required(&lifecycle));

    let Report::Failed { error, total_size } = worker_panicked(&inner, "boom") else {
        panic!("a worker that panicked fails its transfer");
    };
    assert_eq!(error.code(), InnerErrorCode::Unknown);
    assert_eq!(error.msg(), "run_group task panicked: boom");
    assert_eq!(total_size, 3);
}

#[test]
fn downloads_are_asked_for_as_octets_by_default() {
    assert_eq!(
        BreakpointDownloadHttpConfig::default().range_accept,
        "application/octet-stream"
    );
    let path = LocalPath::new(b"/x".to_vec());
    assert!(!path.is_empty());
    assert_eq!(path.clone().bytes, b"/x".to_vec());
}

// Ownership of targets

#[test]
fn keys_of_a_target_name_its_path_and_inode() {
    assert_eq!(path_key(b"/a/b"), b"path:/a/b".to_vec());
    assert_eq!(inode_key(3, 45), b"inode:3:45".to_vec());
    assert_eq!(
        lease_keys(b"/a", None, Some((3, 45))),
        vec![b"path:/a".to_vec(), b"inode:3:45".to_vec()]
    );
    assert_eq!(lease_keys(b"/a", None, None), vec![b"path:/a".to_vec()]);
}

#[test]
fn differently_cased_nonexistent_targets_share_a_conservative_lease() {
    let folded = b"/t/casealias".to_vec();
    let mixed = lease_keys(b"/t/CaseAlias", Some(folded.clone()), None);
    let lower = lease_keys(b"/t/casealias", Some(folded), None);
    assert_ne!(mixed[0], lower[0]);
    assert_eq!(mixed[1], b"path-casefold:/t/casealias".to_vec());
    assert!(mixed.iter().any(|key| lower.contains(key)));
}

#[test]
fn owners_lock_in_one_order() {
    let keys = ownership_keys(
        vec![b"path:/b".to_vec(), b"inode:1:2".to_vec()],
        vec![b"path:/a".to_vec(), b"inode:1:2".to_vec()],
    );
    assert_eq!(
        keys,
        vec![
            b"inode:1:2".to_vec(),
            b"path:/a".to_vec(),
            b"path:/b".to_vec()
        ]
    );
}

#[test]
fn lock_files_are_named_by_digest() {
    let digest: Vec<String> = sha2::Sha256::digest(b"path:/a")
        .iter()
        .map(|byte| format!("{byte:02x}"))
        .collect();
    assert_eq!(lock_name(b"path:/a"), format!("{}.lock", digest.concat()));
}

#[test]
fn a_lock_held_elsewhere_would_block() {
    let other = |raw| IoFailure {
        kind: IoErrorKind::Other,
        raw_os_error: raw,
    };
    assert_eq!(
        lock_failure_given(other(Some(11)), Some(11)).kind,
        IoErrorKind::WouldBlock
    );
    assert_eq!(
        lock_failure_given(other(Some(5)), Some(11)),
        other(Some(5))
    );
    let contended = fs2::lock_contended_error().raw_os_error();
    assert_eq!(
        lock_failure(other(contended)).kind,
        IoErrorKind::WouldBlock
    );
    assert_eq!(
        lock_failure(IoFailure::new(IoErrorKind::WouldBlock)).kind,
        IoErrorKind::WouldBlock
    );
    let denied = IoFailure::new(IoErrorKind::PermissionDenied);
    assert_eq!(lock_failure(denied), denied);
}

#[test]
fn a_target_that_cannot_be_owned_says_what_was_tried() {
    let held = IoFailure::new(IoErrorKind::WouldBlock);
    let gone = IoFailure::new(IoErrorKind::NotFound);
    let lease = target_error(TargetStage::AcquireLease, "/t", &held);
    assert_eq!(lease.code(), InnerErrorCode::InvalidTaskState);
    assert_eq!(lease.msg(), "acquire download target lease failed: /t");
    let lock = target_error(TargetStage::Lock, "/t", &gone);
    assert_eq!(lock.code(), InnerErrorCode::LocalFileRemoved);
    assert_eq!(lock.msg(), "lock actual download target failed: /t");
    let stat = target_error(TargetStage::StatLocked, "/t", &held);
    assert_eq!(stat.code(), InnerErrorCode::IoError);
    assert_eq!(stat.msg(), "stat locked download target failed: /t");
    let newly = target_error(TargetStage::StatNewlyLocked, "/t", &held);
    assert_eq!(newly.msg(), "stat newly locked download target failed: /t");
    let sync = target_error(TargetStage::Sync, "/t", &held);
    assert_eq!(sync.msg(), "sync locked download target failed: /t");
    let unlock = target_error(TargetStage::Unlock, "/t", &held);
    assert_eq!(unlock.code(), InnerErrorCode::IoError);
    assert_eq!(unlock.msg(), "unlock download target failed");
}

fn names(path: &str) -> Vec<Vec<u8>> {
    path.split('/').map(|name| name.as_bytes().to_vec()).collect()
}

#[test]
fn reserved_sidecar_namespace_cannot_be_used_as_a_download_target() {
    let error = ensure_target_outside_sidecar_namespace(&names("t/.rusty-cat/user-visible.bin"))
        .expect_err("reserved sidecar namespace must fail closed");
    assert_eq!(error.kind, IoErrorKind::InvalidInput);
    assert!(ensure_target_outside_sidecar_namespace(&names(".rusty-cat")).is_err());
    assert!(ensure_target_outside_sidecar_namespace(&names("t/user-visible.bin")).is_ok());
    assert!(ensure_target_outside_sidecar_namespace(&names("t/.rusty-cats/a")).is_ok());
    assert!(ensure_target_outside_sidecar_namespace(&names("t/.rusty/a")).is_ok());
    assert!(ensure_target_outside_sidecar_namespace(&Vec::new()).is_ok());
}

#[test]
fn generated_sidecar_path_is_never_a_valid_visible_target() {
    let sidecar = sidecar_names(names("t/d"), b"report.bin");
    let digest: Vec<String> = sha2::Sha256::digest(b"report.bin")
        .iter()
        .map(|byte| format!("{byte:02x}"))
        .collect();
    assert_eq!(
        sidecar,
        names(&format!("t/d/.rusty-cat/{}.rcdl", digest.concat()))
    );
    let error = ensure_target_outside_sidecar_namespace(&sidecar)
        .expect_err("a generated sidecar path must remain reserved");
    assert_eq!(error.kind, IoErrorKind::InvalidInput);
}

#[test]
fn paths_are_resolved_as_far_as_they_exist() {
    let missing = IoFailure::new(IoErrorKind::NotFound);
    let mut walk = LeasePathWalk::new();
    assert_eq!(
        walk.on_failure(missing, Some(b"c".to_vec()), Some(b"/a/b".to_vec()))
            .unwrap(),
        b"/a/b".to_vec()
    );
    assert_eq!(
        walk.on_failure(missing, Some(b"b".to_vec()), Some(b"/a".to_vec()))
            .unwrap(),
        b"/a".to_vec()
    );
    assert_eq!(
        walk.into_components(),
        vec![b"b".to_vec(), b"c".to_vec()]
    );
    let mut relative = LeasePathWalk::new();
    assert_eq!(
        relative
            .on_failure(missing, Some(b"c".to_vec()), Some(Vec::new()))
            .unwrap(),
        b".".to_vec()
    );
    let mut root = LeasePathWalk::new();
    assert_eq!(
        root.on_failure(missing, None, None).unwrap_err().kind,
        IoErrorKind::NotFound
    );
    let mut denied = LeasePathWalk::new();
    assert_eq!(
        denied
            .on_failure(
                IoFailure::new(IoErrorKind::PermissionDenied),
                Some(b"c".to_vec()),
                None
            )
            .unwrap_err()
            .kind,
        IoErrorKind::PermissionDenied
    );
}
