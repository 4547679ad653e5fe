use reqwest::header::HeaderMap;
use rusty_cat::direction::{safe_key, same_key, Direction, UniqueId};
use rusty_cat::effect::Effect;
use rusty_cat::error::{InnerErrorCode, MeowError};
use rusty_cat::executor::{
    command_response_error, command_send_error, handle_quiescent_worker_event, CommandKind, Phase,
    Reply, SchedulerLoop, TransferCmd,
};
use rusty_cat::ids::TaskId;
use rusty_cat::inner_task::{DefaultProtocols, InnerTask};
use rusty_cat::lifecycle::{DeferredStop, TerminalState, TransferLifecycle};
use rusty_cat::meow_config::MeowConfig;
use rusty_cat::pounce_task::{
    BreakpointDownloadHttpConfig, DownloadPounceBuilder, LocalPath, PounceTask, ProtocolId,
    UploadPounceBuilder,
};
use rusty_cat::scheduler::{
    begin_close, cancel_group, can_start_direction, enqueue_group, enqueue_paused_group,
    handle_worker_event, identify_group, pause_group, resume_group, try_start_next, Submission,
};
use rusty_cat::scheduler_state::{ActiveState, GroupState, SchedulerState};
use rusty_cat::source_check::{FileStat, SourceCheck, SourceRole};
use rusty_cat::transfer_status::{FileTransferRecord, TransferStatus};
use rusty_cat::upload_file::{ContentScanner, FileGeneration, UploadFileSnapshot};
use rusty_cat::worker_event::WorkerEvent;

fn default_protocols() -> DefaultProtocols {
    DefaultProtocols {
        upload: ProtocolId { value: 1 },
        download: ProtocolId { value: 2 },
    }
}

fn default_http() -> BreakpointDownloadHttpConfig {
    BreakpointDownloadHttpConfig::default()
}

fn download_pounce(url: &str, total_size: u64) -> PounceTask {
    PounceTask {
        direction: Direction::Download,
        file_name: "known-totals.bin".to_string(),
        file_path: LocalPath::new(b"/tmp/known-totals.bin".to_vec()),
        upload_source: None,
        total_size,
        chunk_size: 1024,
        url: url.to_string(),
        method: "GET".to_string(),
        headers: HeaderMap::new(),
        client_file_sign: None,
        breakpoint_upload: None,
        breakpoint_download: None,
        breakpoint_download_http: None,
        max_chunk_retries: 3,
        max_upload_prepare_retries: 3,
        max_parts_in_flight: 1,
    }
}

fn download_task(id: u64, url: &str, total_size: u64) -> InnerTask {
    let (task, _) = InnerTask::from_pounce(
        TaskId::new(id),
        download_pounce(url, total_size),
        default_http(),
        default_protocols(),
        None,
    )
    .expect("from_pounce");
    task
}

fn snapshot_of(bytes: &[u8]) -> UploadFileSnapshot {
    let generation = FileGeneration {
        len: bytes.len() as u64,
        readonly: false,
        modified: Some(1),
        created: Some(1),
        dev: 1,
        ino: 1,
        mtime_nsec: 1,
        ctime: 1,
        ctime_nsec: 1,
    };
    let mut scanner = match ContentScanner::new(bytes.len() as u64, 1024) {
        Ok(scanner) => scanner,
        Err(_) => panic!("scanner"),
    };
    scanner.update(bytes);
    let mut check = SourceCheck::begin(SourceRole::Initial, "/tmp/teardown.bin", generation.len);
    check.on_open(Ok(())).expect("open");
    check
        .on_stat(Ok(FileStat {
            regular: true,
            generation,
        }))
        .expect("stat");
    check.on_scan(Ok(scanner.finish())).expect("scan");
    check.on_restat(Ok(generation)).expect("restat");
    check.into_snapshot(1024)
}

fn upload_task(id: u64) -> InnerTask {
    let bytes = vec![7u8; 4096];
    let pounce = UploadPounceBuilder::new(
        "teardown.bin".to_string(),
        LocalPath::new(b"/tmp/teardown.bin".to_vec()),
        1024,
    )
    .with_url("https://placeholder/upload".to_string())
    .build(4096);
    assert!(InnerTask::file_to_hash(&pounce).unwrap().is_some());
    let (task, snapshot) = InnerTask::from_pounce(
        TaskId::new(id),
        pounce,
        default_http(),
        default_protocols(),
        Some(Ok(snapshot_of(&bytes))),
    )
    .expect("from_pounce");
    assert!(snapshot.is_some());
    assert_eq!(task.file_sign, format!("{:x}", md5::compute(&bytes)));
    task
}

fn state_with(task: InnerTask) -> (SchedulerState, UniqueId) {
    let mut state = SchedulerState::new(1, 1);
    let key = task.dedupe_key();
    state.bind_task(task.task_id, key.clone());
    state.set_offset(key.clone(), 0);
    state.put_group(
        key.clone(),
        GroupState {
            task,
            lifecycle: TransferLifecycle::new(),
            progress_cb: false,
            complete_cb: false,
        },
    );
    (state, key)
}

fn live_download_state(tag: &str) -> (SchedulerState, UniqueId) {
    state_with(download_task(
        1,
        &format!("https://placeholder.invalid/{tag}"),
        0,
    ))
}

fn live_download_state_with_preset(tag: &str, preset: u64) -> (SchedulerState, UniqueId) {
    state_with(download_task(
        1,
        &format!("https://placeholder.invalid/{tag}"),
        preset,
    ))
}

fn live_upload_state() -> (SchedulerState, UniqueId, u64) {
    let task = upload_task(1);
    let total = task.total_size;
    let (state, key) = state_with(task);
    (state, key, total)
}

fn records(effects: &[Effect]) -> Vec<FileTransferRecord> {
    effects
        .iter()
        .filter_map(|effect| match effect {
            Effect::Status { record, .. } => Some(record.clone()),
            _ => None,
        })
        .collect()
}

fn only_record(effects: &[Effect]) -> FileTransferRecord {
    let mut all = records(effects);
    assert_eq!(all.len(), 1);
    all.pop().expect("one record")
}

fn progress_of(record: &FileTransferRecord) -> f32 {
    if record.total_size == 0 {
        0.0
    } else {
        record.transferred as f32 / record.total_size as f32
    }
}

fn progress(key: &UniqueId, next_offset: u64, total_size: u64) -> WorkerEvent {
    WorkerEvent::Progress {
        key: key.clone(),
        next_offset,
        total_size,
    }
}

fn completed(key: &UniqueId, total_size: u64) -> WorkerEvent {
    WorkerEvent::Completed {
        key: key.clone(),
        total_size,
        completion_payload: None,
    }
}

fn failed(key: &UniqueId, total_size: u64) -> WorkerEvent {
    WorkerEvent::Failed {
        key: key.clone(),
        error: MeowError::from_code(InnerErrorCode::Unknown, "boom".to_string()),
        total_size,
    }
}

fn canceled(key: &UniqueId, total_size: u64) -> WorkerEvent {
    WorkerEvent::Canceled {
        key: key.clone(),
        total_size,
    }
}

fn has_offset(state: &SchedulerState, key: &UniqueId) -> Option<u64> {
    if state.has_offset(key) {
        Some(state.offset(key))
    } else {
        None
    }
}

// Totals

#[test]
fn effective_total_prefers_runtime_over_unset_preset() {
    let (mut state, key) = live_download_state("eff_runtime");
    state.set_known_total(key.clone(), 4096);
    let task = download_task(1, "https://placeholder.invalid/eff_runtime", 0);
    assert_eq!(state.effective_total(&key, &task), 4096);
}

#[test]
fn effective_total_returns_zero_when_nothing_known() {
    let (state, key) = live_download_state("eff_zero");
    let task = download_task(1, "https://placeholder.invalid/eff_zero", 0);
    assert_eq!(state.effective_total(&key, &task), 0);
}

#[test]
fn effective_total_falls_back_to_preset_when_no_runtime() {
    let (state, key) = live_download_state_with_preset("eff_fallback", 8192);
    let task = download_task(1, "https://placeholder.invalid/eff_fallback", 8192);
    assert_eq!(state.effective_total(&key, &task), 8192);
}

#[test]
fn effective_total_runtime_wins_over_larger_preset() {
    let (mut state, key) = live_download_state_with_preset("eff_shrink", 10000);
    state.set_known_total(key.clone(), 4096);
    let task = download_task(1, "https://placeholder.invalid/eff_shrink", 10000);
    assert_eq!(state.effective_total(&key, &task), 4096);
}

#[test]
fn download_harness_builds_group_with_zero_preset_total() {
    let (state, key) = live_download_state("harness");
    assert!(state.contains_group(&key));
    assert_eq!(state.group(&key).expect("group").task.total_size, 0);
    assert_eq!(has_offset(&state, &key), Some(0));
}

// Worker events

#[test]
fn stray_progress_after_complete_creates_no_orphan_offset() {
    let (mut state, key, total) = live_upload_state();
    assert!(state.contains_group(&key));

    handle_worker_event(completed(&key, total), &mut state);
    assert!(
        !state.contains_group(&key),
        "group must be removed after Completed"
    );
    assert!(
        has_offset(&state, &key).is_none(),
        "offsets entry must be cleared after Completed"
    );

    let effects = handle_worker_event(progress(&key, 512, total), &mut state);
    assert!(effects.is_empty());
    assert!(
        has_offset(&state, &key).is_none(),
        "stray Progress after teardown must not resurrect an orphan offsets entry"
    );
}

#[test]
fn progress_for_live_group_persists_offset() {
    let (mut state, key, total) = live_upload_state();
    handle_worker_event(progress(&key, 1024, total), &mut state);
    assert_eq!(
        has_offset(&state, &key),
        Some(1024),
        "progress for a live group must persist its contiguous offset"
    );
}

#[test]
fn repro_download_failed_after_progress_zeroes_total() {
    let (mut state, key) = live_download_state("repro_failed");

    let effects = handle_worker_event(progress(&key, 512, 4096), &mut state);
    let transmission = only_record(&effects);
    assert!(matches!(transmission.status, TransferStatus::Transmission));
    assert_eq!(transmission.total_size, 4096);
    assert!((progress_of(&transmission) - 0.125).abs() < f32::EPSILON);

    let effects = handle_worker_event(failed(&key, 0), &mut state);
    let failed = only_record(&effects);
    assert!(matches!(failed.status, TransferStatus::Failed(_)));
    assert_eq!(failed.total_size, 4096);
    assert!((progress_of(&failed) - 0.125).abs() < f32::EPSILON);
}

#[test]
fn progress_records_runtime_total_into_scheduler() {
    let (mut state, key) = live_download_state("record_total");
    handle_worker_event(progress(&key, 512, 4096), &mut state);
    assert_eq!(state.known_total(&key), Some(4096));
}

#[test]
fn zero_total_progress_does_not_clobber_known_total() {
    let (mut state, key) = live_download_state("no_clobber");
    handle_worker_event(progress(&key, 512, 4096), &mut state);
    handle_worker_event(progress(&key, 600, 0), &mut state);
    assert_eq!(state.known_total(&key), Some(4096));
}

#[test]
fn terminal_completed_cleans_known_totals() {
    let (mut state, key) = live_download_state("complete_cleans");
    handle_worker_event(progress(&key, 512, 4096), &mut state);
    handle_worker_event(completed(&key, 4096), &mut state);
    assert!(state.known_total(&key).is_none());
    assert!(has_offset(&state, &key).is_none());
}

#[test]
fn terminal_failed_cleans_known_totals() {
    let (mut state, key) = live_download_state("failed_cleans");
    handle_worker_event(progress(&key, 512, 4096), &mut state);
    handle_worker_event(failed(&key, 0), &mut state);
    assert!(state.known_total(&key).is_none());
    assert!(has_offset(&state, &key).is_none());
}

#[test]
fn terminal_canceled_cleans_known_totals() {
    let (mut state, key) = live_download_state("canceled_cleans");
    handle_worker_event(progress(&key, 512, 4096), &mut state);
    handle_worker_event(canceled(&key, 0), &mut state);
    assert!(state.known_total(&key).is_none());
}

#[test]
fn pause_flow_canceled_keeps_known_total() {
    let (mut state, key) = live_download_state("pause_keeps");
    handle_worker_event(progress(&key, 512, 4096), &mut state);
    state.insert_paused(key.clone());
    handle_worker_event(canceled(&key, 0), &mut state);
    assert!(state.contains_group(&key));
    assert_eq!(state.known_total(&key), Some(4096));
}

#[test]
fn stray_progress_after_teardown_creates_no_orphan_known_total() {
    let (mut state, key) = live_download_state("stray_progress");
    handle_worker_event(completed(&key, 4096), &mut state);
    handle_worker_event(progress(&key, 512, 4096), &mut state);
    assert!(state.known_total(&key).is_none());
}

#[test]
fn download_failed_prefers_event_total_when_scheduler_has_none() {
    let (mut state, key) = live_download_state("failed_event");
    let effects = handle_worker_event(failed(&key, 8192), &mut state);
    let failed = only_record(&effects);
    assert!(matches!(failed.status, TransferStatus::Failed(_)));
    assert_eq!(failed.total_size, 8192);
}

#[test]
fn download_canceled_prefers_event_total_when_scheduler_has_none() {
    let (mut state, key) = live_download_state("canceled_event");
    let effects = handle_worker_event(canceled(&key, 8192), &mut state);
    let canceled = only_record(&effects);
    assert!(matches!(canceled.status, TransferStatus::Canceled));
    assert_eq!(canceled.total_size, 8192);
    assert!(!state.contains_group(&key));
}

#[test]
fn download_failed_with_no_total_anywhere_keeps_zero() {
    let (mut state, key) = live_download_state("failed_zero");
    let effects = handle_worker_event(failed(&key, 0), &mut state);
    let failed = only_record(&effects);
    assert_eq!(failed.total_size, 0);
    assert_eq!(progress_of(&failed), 0.0);
}

#[test]
fn upload_failed_keeps_preset_total() {
    let (mut state, key, total) = live_upload_state();
    let effects = handle_worker_event(failed(&key, 0), &mut state);
    let failed = only_record(&effects);
    assert!(matches!(failed.status, TransferStatus::Failed(_)));
    assert_eq!(failed.total_size, total);
}

#[test]
fn completed_with_zero_event_total_falls_back_to_known_total() {
    let (mut state, key) = live_download_state("complete_fallback");
    handle_worker_event(progress(&key, 4096, 4096), &mut state);
    let effects = handle_worker_event(completed(&key, 0), &mut state);
    let complete = only_record(&effects);
    assert!(matches!(complete.status, TransferStatus::Complete));
    assert_eq!(complete.total_size, 4096);
    assert!((progress_of(&complete) - 1.0).abs() < f32::EPSILON);
}

#[test]
fn zero_total_progress_emit_keeps_known_total() {
    let (mut state, key) = live_download_state("emit_no_clobber");
    handle_worker_event(progress(&key, 512, 4096), &mut state);
    let effects = handle_worker_event(progress(&key, 600, 0), &mut state);
    let second = only_record(&effects);
    assert!(matches!(second.status, TransferStatus::Transmission));
    assert!(progress_of(&second) > 0.13);
    assert_eq!(second.total_size, 4096);
}

#[test]
fn stray_failed_after_teardown_creates_no_orphan_known_total() {
    let (mut state, key) = live_download_state("stray_failed");
    handle_worker_event(completed(&key, 4096), &mut state);
    handle_worker_event(
        WorkerEvent::Failed {
            key: key.clone(),
            error: MeowError::from_code(InnerErrorCode::Unknown, "late".to_string()),
            total_size: 9999,
        },
        &mut state,
    );
    assert!(state.known_total(&key).is_none());
}

#[test]
fn progress_does_not_change_scheduler_readiness_but_terminal_events_do() {
    let key = (Direction::Download, "scheduler-event".to_string());
    assert!(
        !progress(&key, 1, 2).may_change_scheduler_readiness(),
        "Progress neither releases an active slot nor makes a queued group runnable"
    );
    assert!(completed(&key, 2).may_change_scheduler_readiness());
    assert!(failed(&key, 2).may_change_scheduler_readiness());
    assert!(canceled(&key, 2).may_change_scheduler_readiness());
}

// Tables

#[test]
fn active_direction_counts_follow_insert_remove_and_clear_exactly_once() {
    let mut state = SchedulerState::new(1, 1);
    let upload = (Direction::Upload, "upload".to_string());
    let download = (Direction::Download, "download".to_string());
    let active = ActiveState {
        task_id: TaskId::new(1),
        interrupted: false,
    };

    assert_eq!(state.active_direction_count(Direction::Upload), 0);
    assert_eq!(state.active_direction_count(Direction::Download), 0);

    assert!(state.insert_active(upload.clone(), active).is_none());
    assert!(state.insert_active(download.clone(), active).is_none());
    assert_eq!(state.active_direction_count(Direction::Upload), 1);
    assert_eq!(state.active_direction_count(Direction::Download), 1);

    // Replacing the same key is not a second active group.
    assert!(state.insert_active(upload.clone(), active).is_some());
    assert_eq!(state.active_direction_count(Direction::Upload), 1);

    assert!(state.remove_active(&upload).is_some());
    assert!(state.remove_active(&upload).is_none());
    assert_eq!(state.active_direction_count(Direction::Upload), 0);
    assert_eq!(state.active_direction_count(Direction::Download), 1);

    state.clear_active();
    assert_eq!(state.active_len(), 0);
    assert_eq!(state.active_direction_count(Direction::Upload), 0);
    assert_eq!(state.active_direction_count(Direction::Download), 0);
}

#[test]
fn keys_are_shown_without_their_secrets() {
    let key = (
        Direction::Download,
        "https://host/file?X-Amz-Signature=abc".to_string(),
    );
    assert!(!safe_key(&key).contains("abc"));
    assert!(same_key(&key, &key.clone()));
    assert!(!same_key(&key, &(Direction::Upload, key.1.clone())));
}

// Control of groups

fn group_with_progress(tag: &str) -> (SchedulerState, UniqueId) {
    let (mut state, key) = live_download_state(tag);
    state.set_offset(key.clone(), 512);
    state.set_known_total(key.clone(), 4096);
    (state, key)
}

fn activate(state: &mut SchedulerState, key: &UniqueId) {
    state.insert_active(
        key.clone(),
        ActiveState {
            task_id: TaskId::new(1),
            interrupted: false,
        },
    );
}

fn interrupted(effects: &[Effect]) -> bool {
    effects
        .iter()
        .any(|effect| matches!(effect, Effect::Interrupt { .. }))
}

#[test]
fn pause_group_emits_paused_with_runtime_total() {
    let (mut state, key) = group_with_progress("pause_total");

    let effects = pause_group(&mut state, &key);

    let paused = only_record(&effects);
    assert!(matches!(paused.status, TransferStatus::Paused));
    assert_eq!(paused.total_size, 4096);
    assert!((progress_of(&paused) - 0.125).abs() < f32::EPSILON);
}

#[test]
fn resume_group_emits_pending_with_runtime_total() {
    let (mut state, key) = group_with_progress("resume_total");
    pause_group(&mut state, &key);

    let (result, effects) = resume_group(&mut state, &key);
    result.expect("resume");

    let pending = only_record(&effects);
    assert!(matches!(pending.status, TransferStatus::Pending));
    assert_eq!(pending.total_size, 4096);
}

#[test]
fn cancel_group_emits_canceled_with_runtime_total() {
    let (mut state, key) = group_with_progress("cancel_total");

    let effects = cancel_group(&mut state, &key);

    let canceled = only_record(&effects);
    assert!(matches!(canceled.status, TransferStatus::Canceled));
    assert_eq!(canceled.total_size, 4096);
    assert!((progress_of(&canceled) - 0.125).abs() < f32::EPSILON);
    assert!(!state.contains_group(&key));
    assert!(has_offset(&state, &key).is_none());
    assert!(state.known_total(&key).is_none());
}

#[test]
fn active_cancel_defers_terminal_until_worker_quiesces() {
    let (mut state, key) = group_with_progress("active_cancel_quiescence");
    activate(&mut state, &key);

    let effects = cancel_group(&mut state, &key);

    assert!(interrupted(&effects));
    assert!(state.active(&key).expect("active").interrupted);
    assert!(state.is_active(&key));
    assert!(state.contains_group(&key));
    assert!(state.is_canceling(&key));
    assert!(
        !records(&effects)
            .iter()
            .any(|record| matches!(record.status, TransferStatus::Canceled)),
        "Canceled must not be visible before the worker cleanup ack"
    );

    let effects = handle_quiescent_worker_event(canceled(&key, 4096), &mut state);

    let canceled = only_record(&effects);
    assert!(matches!(canceled.status, TransferStatus::Canceled));
    assert_eq!(canceled.total_size, 4096);
    assert!(!state.is_active(&key));
    assert!(!state.contains_group(&key));
    assert!(!state.is_canceling(&key));
}

#[test]
fn active_pause_defers_paused_until_worker_quiesces_then_can_resume() {
    let (mut state, key) = group_with_progress("active_pause_quiescence");
    activate(&mut state, &key);

    let effects = pause_group(&mut state, &key);
    assert!(interrupted(&effects));
    assert!(state.is_active(&key));
    assert!(state.is_paused(&key));
    assert!(
        !records(&effects)
            .iter()
            .any(|record| matches!(record.status, TransferStatus::Paused)),
        "Paused must not be visible before the worker cleanup ack"
    );

    let effects = handle_worker_event(canceled(&key, 4096), &mut state);
    let paused = only_record(&effects);
    assert!(matches!(paused.status, TransferStatus::Paused));
    assert_eq!(paused.total_size, 4096);
    assert!(!state.is_active(&key));
    assert!(state.contains_group(&key));

    let (result, _) = resume_group(&mut state, &key);
    result.expect("resume after quiescent pause");
    assert!(!state.is_paused(&key));
    assert!(state.is_queued(&key));
}

#[test]
fn completion_claim_wins_late_cancel_without_canceling_worker() {
    let (mut state, key) = live_download_state("completion_wins");
    let mut lifecycle = state.lifecycle(&key).expect("group");
    assert!(lifecycle.begin_completion());
    state.set_lifecycle(&key, lifecycle);
    activate(&mut state, &key);

    let effects = cancel_group(&mut state, &key);
    assert!(!interrupted(&effects));
    assert!(!state.active(&key).expect("active").interrupted);
    assert!(state.is_canceling(&key));
    assert!(state.is_active(&key));

    let effects = handle_quiescent_worker_event(completed(&key, 1), &mut state);
    let complete = only_record(&effects);
    assert!(matches!(complete.status, TransferStatus::Complete));
    assert_eq!(complete.total_size, 1);
    assert!(!state.is_canceling(&key));
    assert!(!state.is_active(&key));
}

#[test]
fn resumed_download_start_transmission_carries_known_total() {
    let (mut state, key) = group_with_progress("restart_total");
    state.push_queued(key.clone());

    let effects = try_start_next(&mut state);

    let transmission = only_record(&effects);
    assert!(matches!(transmission.status, TransferStatus::Transmission));
    assert_eq!(transmission.total_size, 4096);
    assert!((progress_of(&transmission) - 0.125).abs() < f32::EPSILON);
    assert!(matches!(
        effects.last(),
        Some(Effect::Start { start_offset: 512, .. })
    ));
}

// The loop

fn submit(task: InnerTask) -> TransferCmd {
    TransferCmd::Enqueue {
        submission: Submission {
            task,
            progress_cb: true,
            complete_cb: true,
        },
    }
}

fn started(effects: &[Effect]) -> Vec<u64> {
    effects
        .iter()
        .filter_map(|effect| match effect {
            Effect::Start { task_id, .. } => Some(task_id.value),
            _ => None,
        })
        .collect()
}

fn answer(reply: Reply) -> Result<(), MeowError> {
    match reply {
        Reply::Control(result) => result,
        _ => panic!("a command on a task is answered at once"),
    }
}

fn url(n: u64) -> String {
    format!("https://host/{n}")
}

fn key_of(n: u64) -> UniqueId {
    (Direction::Download, url(n))
}

#[test]
fn no_more_workers_run_than_the_limit_allows() {
    let mut scheduler = SchedulerLoop::new(1, 2);
    let mut running = Vec::new();
    for n in 1..=4 {
        let (_, effects) = scheduler.on_command(submit(download_task(n, &url(n), 10)));
        running.extend(started(&effects));
    }
    assert_eq!(running, vec![1, 2]);
    assert!(!can_start_direction(&scheduler.state, Direction::Download));
    assert!(can_start_direction(&scheduler.state, Direction::Upload));
    let (reply, _) = scheduler.on_command(TransferCmd::Snapshot);
    match reply {
        Reply::Snapshot(snapshot) => {
            assert_eq!(snapshot.queued_groups, 2);
            assert_eq!(snapshot.active_groups, 2);
            assert_eq!(snapshot.active_keys.len(), 2);
        }
        _ => panic!("snapshot"),
    }
    // Waiting transfers start in the order in which they came.
    let effects = scheduler.on_event(completed(&key_of(2), 10));
    assert_eq!(started(&effects), vec![3]);
    let effects = scheduler.on_event(failed(&key_of(1), 10));
    assert_eq!(started(&effects), vec![4]);
}

#[test]
fn a_transfer_is_submitted_once() {
    let mut scheduler = SchedulerLoop::new(1, 1);
    scheduler.on_command(submit(download_task(1, &url(1), 10)));
    let (_, effects) = scheduler.on_command(submit(download_task(2, &url(1), 10)));
    let refused = only_record(&effects);
    assert_eq!(refused.task_id, TaskId::new(1), "the record is of the running transfer");
    assert!(matches!(
        effects[0],
        Effect::Status { recipient: Some(id), .. } if id == TaskId::new(2)
    ));
    match &refused.status {
        TransferStatus::Failed(error) => {
            assert_eq!(error.code(), InnerErrorCode::DuplicateTaskError)
        }
        _ => panic!("a repeated submission fails"),
    }
    let (reply, _) = scheduler.on_command(TransferCmd::Pause {
        task_id: TaskId::new(2),
    });
    assert_eq!(
        answer(reply).unwrap_err().code(),
        InnerErrorCode::TaskNotFound
    );
}

#[test]
fn unknown_tasks_are_refused_by_name() {
    let mut scheduler = SchedulerLoop::new(1, 1);
    let (reply, effects) = scheduler.on_command(TransferCmd::Cancel {
        task_id: TaskId::new(42),
    });
    let error = answer(reply).unwrap_err();
    assert_eq!(error.code(), InnerErrorCode::TaskNotFound);
    assert_eq!(error.msg(), "task not found: 42");
    assert!(effects.is_empty());
}

#[test]
fn resume_needs_a_paused_transfer() {
    let mut scheduler = SchedulerLoop::new(1, 1);
    scheduler.on_command(submit(download_task(1, &url(1), 10)));
    let (reply, _) = scheduler.on_command(TransferCmd::Resume {
        task_id: TaskId::new(1),
    });
    assert_eq!(
        answer(reply).unwrap_err().code(),
        InnerErrorCode::InvalidTaskState
    );
}

#[test]
fn a_pause_undone_by_a_resume_starts_where_it_stopped() {
    let mut scheduler = SchedulerLoop::new(1, 1);
    scheduler.on_command(submit(download_task(1, &url(1), 10)));
    scheduler.on_event(progress(&key_of(1), 4, 10));
    let (reply, effects) = scheduler.on_command(TransferCmd::Pause {
        task_id: TaskId::new(1),
    });
    answer(reply).unwrap();
    assert!(interrupted(&effects));
    scheduler.on_event(canceled(&key_of(1), 10));
    let (reply, effects) = scheduler.on_command(TransferCmd::Resume {
        task_id: TaskId::new(1),
    });
    answer(reply).unwrap();
    assert!(effects
        .iter()
        .any(|effect| matches!(effect, Effect::Start { start_offset: 4, .. })));
}

#[test]
fn a_task_enqueued_paused_waits_for_its_resume() {
    let mut scheduler = SchedulerLoop::new(1, 1);
    let (_, effects) = scheduler.on_command(TransferCmd::EnqueuePaused {
        submission: Submission {
            task: download_task(1, &url(1), 10),
            progress_cb: true,
            complete_cb: false,
        },
    });
    assert!(started(&effects).is_empty());
    assert!(matches!(
        only_record(&effects).status,
        TransferStatus::Paused
    ));
    let (reply, effects) = scheduler.on_command(TransferCmd::Resume {
        task_id: TaskId::new(1),
    });
    answer(reply).unwrap();
    assert_eq!(started(&effects), vec![1]);
}

#[test]
fn a_canceled_upload_is_cleaned_up_once_its_worker_rests() {
    let mut scheduler = SchedulerLoop::new(1, 1);
    let task = upload_task(9);
    let key = task.dedupe_key();
    scheduler.on_command(submit(task));
    let (reply, effects) = scheduler.on_command(TransferCmd::Cancel {
        task_id: TaskId::new(9),
    });
    answer(reply).unwrap();
    assert!(!effects
        .iter()
        .any(|effect| matches!(effect, Effect::Abort { .. })));
    let effects = scheduler.on_event(canceled(&key, 4096));
    assert!(matches!(effects[0], Effect::ReleaseUploadFile { .. }));
    assert!(matches!(effects[1], Effect::Abort { .. }));
    assert!(matches!(
        only_record(&effects).status,
        TransferStatus::Canceled
    ));
}

#[test]
fn close_waits_for_running_workers() {
    let mut scheduler = SchedulerLoop::new(1, 1);
    scheduler.on_command(submit(download_task(1, &url(1), 10)));
    scheduler.on_command(submit(download_task(2, &url(2), 10)));
    let (reply, effects) = scheduler.on_command(TransferCmd::Close);
    assert!(matches!(reply, Reply::Later));
    assert_eq!(scheduler.phase, Phase::Closing);
    assert!(interrupted(&effects));
    let effects = scheduler.on_event(canceled(&key_of(1), 10));
    assert_eq!(scheduler.phase, Phase::Stopped);
    assert!(matches!(effects.last(), Some(Effect::CloseCallbacks)));
    assert!(started(&effects).is_empty());
}

#[test]
fn close_of_an_idle_loop_is_answered_at_once() {
    let mut scheduler = SchedulerLoop::new(1, 1);
    let (reply, effects) = scheduler.on_command(TransferCmd::Close);
    answer(reply).unwrap();
    assert!(matches!(effects.last(), Some(Effect::CloseCallbacks)));
    assert_eq!(scheduler.phase, Phase::Stopped);
}

#[test]
fn a_loop_without_clients_only_closes_callbacks() {
    let mut scheduler = SchedulerLoop::new(1, 1);
    let effects = scheduler.on_disconnect();
    assert_eq!(effects.len(), 1);
    assert!(matches!(effects[0], Effect::CloseCallbacks));
    assert_eq!(scheduler.phase, Phase::Stopped);
}

#[test]
fn workers_claim_the_latch_before_completing() {
    let mut scheduler = SchedulerLoop::new(1, 1);
    scheduler.on_command(submit(download_task(1, &url(1), 10)));
    let key = key_of(1);
    assert!(scheduler.begin_completion(&key));
    assert!(!scheduler.begin_completion(&key));
    scheduler.on_command(TransferCmd::Cancel {
        task_id: TaskId::new(1),
    });
    assert_eq!(
        scheduler.finish_incomplete_completion(&key),
        Some(DeferredStop::Cancel)
    );
    scheduler.acknowledge_completion(&key);
    assert_eq!(
        scheduler.state.lifecycle(&key).expect("latch").terminal,
        TerminalState::Completing
    );
    assert!(!scheduler.begin_completion(&key_of(5)));
    assert_eq!(scheduler.finish_incomplete_completion(&key_of(5)), None);
}

#[test]
fn closing_the_tables_reports_what_had_no_worker() {
    let mut state = SchedulerState::new(1, 1);
    enqueue_group(
        &mut state,
        Submission {
            task: download_task(1, &url(1), 10),
            progress_cb: false,
            complete_cb: false,
        },
    );
    enqueue_paused_group(
        &mut state,
        Submission {
            task: download_task(2, &url(2), 10),
            progress_cb: false,
            complete_cb: false,
        },
    );
    let effects = begin_close(&mut state);
    let paused: Vec<_> = records(&effects)
        .into_iter()
        .filter(|record| matches!(record.status, TransferStatus::Paused))
        .map(|record| record.task_id.value)
        .collect();
    assert!(paused.contains(&1));
}

#[test]
fn commands_that_cannot_be_delivered_say_why() {
    let sent = command_send_error(CommandKind::Pause, "channel closed");
    assert_eq!(sent.code(), InnerErrorCode::CommandSendFailed);
    assert!(sent.msg().ends_with("channel closed"));
    let answered = command_response_error(CommandKind::Close, "channel closed");
    assert_eq!(answered.code(), InnerErrorCode::CommandResponseFailed);
    assert!(answered.msg().ends_with("channel closed"));
}

// Tasks

#[test]
fn uploads_are_keyed_by_content_and_downloads_by_url() {
    let from_memory = UploadPounceBuilder::from_bytes("other.bin".to_string(), vec![7u8; 4096], 0)
        .with_url("https://elsewhere/upload".to_string())
        .build(0);
    assert!(InnerTask::file_to_hash(&from_memory).unwrap().is_none());
    let (in_memory, snapshot) =
        InnerTask::from_pounce(
            TaskId::new(2),
            from_memory,
            default_http(),
            default_protocols(),
            None,
        )
        .unwrap();
    assert!(snapshot.is_none());
    assert!(!in_memory.has_upload_file());
    let in_file = upload_task(1);
    assert!(in_file.has_upload_file());
    assert_eq!(in_memory.dedupe_key(), in_file.dedupe_key());
    assert_eq!(
        download_task(1, "https://a/b", 1).dedupe_key(),
        (Direction::Download, "https://a/b".to_string())
    );
}

#[test]
fn a_source_that_cannot_be_hashed_makes_no_task() {
    let pounce = UploadPounceBuilder::new(
        "a.bin".to_string(),
        LocalPath::new(b"/tmp/a.bin".to_vec()),
        0,
    )
    .build(1);
    let refused = InnerTask::from_pounce(
        TaskId::new(1),
        pounce,
        default_http(),
        default_protocols(),
        Some(Err(MeowError::from_code_str(
            InnerErrorCode::FileNotFound,
            "missing",
        ))),
    );
    match refused {
        Ok(_) => panic!("no file, no task"),
        Err(error) => assert_eq!(error.code(), InnerErrorCode::FileNotFound),
    }
}

#[test]
fn a_default_client_runs_two_transfers_each_way() {
    let config = MeowConfig::default();
    assert_eq!(config.max_upload_concurrency(), 2);
    assert_eq!(config.max_download_concurrency(), 2);
}

fn imported_upload(id: u64, path: &str) -> InnerTask {
    let pounce = UploadPounceBuilder::new(
        "import.bin".to_string(),
        LocalPath::new(path.as_bytes().to_vec()),
        1024,
    )
    .with_url("https://placeholder/upload".to_string())
    .build(4096);
    let (task, snapshot) = InnerTask::from_pounce(
        TaskId::new(id),
        pounce,
        default_http(),
        default_protocols(),
        None,
    )
    .expect("nothing is read");
    assert!(snapshot.is_none());
    task
}

#[test]
fn an_imported_upload_is_read_when_it_is_resumed() {
    let task = imported_upload(7, "/tmp/a");
    assert!(task.unread);
    assert_eq!(
        task.dedupe_key(),
        (Direction::Upload, "unread:2f746d702f61".to_string())
    );
    let mut scheduler = SchedulerLoop::new(1, 1);
    let submission = |task: InnerTask| Submission {
        task,
        progress_cb: true,
        complete_cb: false,
    };
    let (_, effects) = scheduler.on_command(TransferCmd::EnqueuePaused {
        submission: submission(task),
    });
    assert_eq!(effects.len(), 1);
    assert!(matches!(
        &effects[0],
        Effect::Status { record, .. } if matches!(record.status, TransferStatus::Paused) && record.transferred == 0
    ));
    let (_, effects) = scheduler.on_command(TransferCmd::EnqueuePaused {
        submission: submission(imported_upload(8, "/tmp/a")),
    });
    assert!(matches!(
        &effects[0],
        Effect::Status { record, .. } if matches!(record.status, TransferStatus::Failed(_))
    ));
    let id = TaskId::new(7);
    let path = scheduler.source_to_read(id).expect("still to be read");
    assert_eq!(path.bytes, b"/tmp/a".to_vec());
    let (reply, effects) = scheduler.on_command(TransferCmd::Resume { task_id: id });
    assert!(effects.is_empty());
    match reply {
        Reply::Control(Err(error)) => {
            assert_eq!(error.code(), InnerErrorCode::InvalidTaskState);
            assert_eq!(error.msg(), "resume target source has not been read");
        }
        _ => panic!("an upload cannot start before its file was read"),
    }
    let (reply, _) = scheduler.on_command(TransferCmd::Identify {
        task_id: id,
        read: Err(MeowError::from_code_str(
            InnerErrorCode::LocalFileRemoved,
            "gone",
        )),
    });
    assert!(matches!(reply, Reply::Control(Err(error)) if error.msg() == "gone"));
    assert!(scheduler.source_to_read(id).is_some(), "it can be tried again");
    let (reply, effects) = scheduler.on_command(TransferCmd::Identify {
        task_id: id,
        read: Ok("0123".to_string()),
    });
    assert!(matches!(reply, Reply::Control(Ok(()))));
    assert!(effects.is_empty());
    assert!(scheduler.source_to_read(id).is_none());
    let key = scheduler.state.task_key(id).expect("known");
    assert_eq!(key, (Direction::Upload, "0123".to_string()));
    let (reply, effects) = scheduler.on_command(TransferCmd::Resume { task_id: id });
    assert!(matches!(reply, Reply::Control(Ok(()))));
    assert!(matches!(
        &effects[0],
        Effect::Status { record, .. } if record.file_sign == "0123"
    ));
    assert!(effects
        .iter()
        .any(|effect| matches!(effect, Effect::Start { task_id, .. } if *task_id == id)));
}

#[test]
fn an_import_whose_content_is_under_way_stays_paused() {
    let mut state = SchedulerState::new(1, 1);
    let submission = |task: InnerTask| Submission {
        task,
        progress_cb: false,
        complete_cb: false,
    };
    let running = upload_task(1);
    let sign = running.file_sign.clone();
    enqueue_group(&mut state, submission(running));
    enqueue_paused_group(&mut state, submission(imported_upload(2, "/tmp/b")));
    let key = state.task_key(TaskId::new(2)).expect("imported");
    let error = identify_group(&mut state, &key, Ok(sign)).expect_err("the same content");
    assert_eq!(error.code(), InnerErrorCode::DuplicateTaskError);
    assert!(state.is_paused(&key));
    let waiting = identify_group(&mut state, &upload_task(1).dedupe_key(), Ok(String::new()));
    assert_eq!(
        waiting.expect_err("it waits for a worker").msg(),
        "resume target is not paused"
    );
}

#[test]
fn a_file_is_taken_once_whether_it_was_read_or_not() {
    let submission = |task: InnerTask| Submission {
        task,
        progress_cb: true,
        complete_cb: false,
    };
    let refused = |effects: &[Effect], leader: u64, submitter: u64| match effects {
        [Effect::Status { recipient, record }] => {
            assert_eq!(*recipient, Some(TaskId::new(submitter)));
            assert_eq!(record.task_id, TaskId::new(leader));
            match &record.status {
                TransferStatus::Failed(error) => {
                    assert_eq!(error.code(), InnerErrorCode::DuplicateTaskError);
                }
                _ => panic!("a duplicate fails"),
            }
        }
        _ => panic!("one report"),
    };
    // Waiting or running, then imported.
    let mut scheduler = SchedulerLoop::new(1, 1);
    scheduler.on_command(TransferCmd::Enqueue {
        submission: submission(upload_task(1)),
    });
    let (_, effects) = scheduler.on_command(TransferCmd::EnqueuePaused {
        submission: submission(imported_upload(2, "/tmp/teardown.bin")),
    });
    refused(&effects, 1, 2);
    assert!(scheduler.state.task_key(TaskId::new(2)).is_none());

    // Imported, then submitted.
    let mut scheduler = SchedulerLoop::new(1, 1);
    scheduler.on_command(TransferCmd::EnqueuePaused {
        submission: submission(imported_upload(3, "/tmp/teardown.bin")),
    });
    let (_, effects) = scheduler.on_command(TransferCmd::Enqueue {
        submission: submission(upload_task(4)),
    });
    refused(&effects, 3, 4);
    assert_eq!(scheduler.state.queued_len(), 0);
    let (_, effects) = scheduler.on_command(TransferCmd::EnqueuePaused {
        submission: submission(imported_upload(5, "/tmp/other.bin")),
    });
    assert!(matches!(
        &effects[..],
        [Effect::Status { record, .. }] if matches!(record.status, TransferStatus::Paused)
    ));
}

#[test]
fn the_protocol_of_a_task_outranks_the_default() {
    let given = ProtocolId { value: 9 };
    let build = |protocol: Option<ProtocolId>| {
        let builder = UploadPounceBuilder::from_bytes("a".to_string(), vec![1], 1);
        match protocol {
            Some(protocol) => builder.with_breakpoint_upload(protocol),
            None => builder,
        }
        .build(0)
    };
    let resolve = |pounce: PounceTask| {
        InnerTask::from_pounce(
            TaskId::new(1),
            pounce,
            default_http(),
            default_protocols(),
            None,
        )
        .expect("bytes need no file")
        .0
    };
    assert_eq!(resolve(build(None)).breakpoint_upload.value, 1);
    assert_eq!(resolve(build(Some(given))).breakpoint_upload.value, 9);
    let download = DownloadPounceBuilder::new(
        "a".to_string(),
        LocalPath::new(b"/tmp/a".to_vec()),
        1,
        "u".to_string(),
    );
    let named = download.with_breakpoint_download(given).build();
    assert_eq!(resolve(named).breakpoint_download.value, 9);
}
