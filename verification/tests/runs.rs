use rusty_cat::direction::Direction;
use rusty_cat::error::{InnerErrorCode, MeowError};
use rusty_cat::exec::{GroupRun, Report, RunAction, RunConfig, RunState};
use rusty_cat::exec_parallel::{ParallelAction, ParallelRun, ParallelTurn};
use rusty_cat::retry::ChunkRetryResult;
use rusty_cat::transfer_status::{ChunkOutcome, PrepareOutcome};
use rusty_cat::worker_event::WorkerEvent;

fn run(direction: Direction, parts: usize) -> GroupRun {
    GroupRun {
        config: RunConfig {
            direction,
            task_total: 0,
            chunk_size: 10,
            max_chunk_retries: 1,
            max_parts_in_flight: parts,
            start_offset: 0,
        },
        state: RunState::Preparing { attempt: 0 },
    }
}

fn prepared(next_offset: u64, total_size: u64) -> Result<PrepareOutcome, MeowError> {
    Ok(PrepareOutcome {
        next_offset,
        total_size,
    })
}

fn chunk(next_offset: u64, total_size: u64, done: bool) -> ChunkRetryResult {
    ChunkRetryResult::Done(ChunkOutcome {
        next_offset,
        total_size,
        done,
        completion_payload: if done { Some("etag".to_string()) } else { None },
    })
}

fn connection_lost() -> MeowError {
    MeowError::from_code_str(InnerErrorCode::HttpError, "connection lost")
}

fn kinds(reports: &[Report]) -> Vec<&'static str> {
    reports
        .iter()
        .map(|report| match report {
            Report::Progress { .. } => "progress",
            Report::Completed { .. } => "completed",
            Report::Failed { .. } => "failed",
            Report::Canceled { .. } => "canceled",
        })
        .collect()
}

#[test]
fn a_worker_takes_chunks_until_done() {
    let mut worker = run(Direction::Download, 1);
    assert_eq!(
        worker.begin(false).action,
        RunAction::Prepare { local_offset: 0 }
    );
    let turn = worker.on_prepared(prepared(0, 20), true, false);
    assert_eq!(kinds(&turn.reports), vec!["progress"]);
    assert_eq!(
        turn.action,
        RunAction::Transfer {
            offset: 0,
            chunk_size: 10,
            known_total: 20
        }
    );
    let turn = worker.on_chunk(chunk(10, 0, false), false);
    assert_eq!(
        turn.action,
        RunAction::Transfer {
            offset: 10,
            chunk_size: 10,
            known_total: 20
        }
    );
    let turn = worker.on_chunk(chunk(20, 20, true), false);
    assert_eq!(kinds(&turn.reports), vec!["progress", "completed"]);
    assert_eq!(turn.action, RunAction::Stop);
    assert_eq!(worker.state, RunState::Ended);
}

#[test]
fn downloads_prepare_again_when_the_connection_fails() {
    let mut worker = run(Direction::Download, 1);
    let turn = worker.on_prepared(Err(connection_lost()), true, false);
    assert_eq!(turn.action, RunAction::Sleep { attempt: 0 });
    assert!(turn.reports.is_empty());
    let turn = worker.on_prepared(Err(connection_lost()), true, false);
    assert_eq!(turn.action, RunAction::Stop);
    assert_eq!(kinds(&turn.reports), vec!["failed"]);

    let mut upload = run(Direction::Upload, 1);
    let turn = upload.on_prepared(Err(connection_lost()), true, false);
    assert_eq!(kinds(&turn.reports), vec!["failed"]);

    let mut refused = run(Direction::Download, 1);
    let status = MeowError::from_code_str(InnerErrorCode::ResponseStatusError, "503");
    let turn = refused.on_prepared(Err(status), true, false);
    assert_eq!(kinds(&turn.reports), vec!["failed"]);
}

#[test]
fn a_cancel_ends_a_worker_between_chunks() {
    assert_eq!(
        kinds(&run(Direction::Download, 1).begin(true).reports),
        vec!["canceled"]
    );
    let mut worker = run(Direction::Download, 1);
    let turn = worker.on_prepared(prepared(0, 20), true, true);
    assert_eq!(kinds(&turn.reports), vec!["progress", "canceled"]);
    let mut failing = run(Direction::Download, 1);
    let turn = failing.on_prepared(Err(connection_lost()), true, true);
    assert_eq!(kinds(&turn.reports), vec!["canceled"]);
    let mut chunked = run(Direction::Download, 1);
    chunked.on_prepared(prepared(0, 20), true, false);
    let turn = chunked.on_chunk(ChunkRetryResult::Cancelled, false);
    assert_eq!(kinds(&turn.reports), vec!["canceled"]);
}

#[test]
fn several_parts_need_a_known_total_and_a_willing_protocol() {
    let mut worker = run(Direction::Upload, 4);
    let turn = worker.on_prepared(prepared(10, 40), true, false);
    assert_eq!(
        turn.action,
        RunAction::RunParallel {
            start_offset: 10,
            known_total: 40
        }
    );
    assert_eq!(worker.state, RunState::HandedOver);
    for (total, supported) in [(0, true), (40, false)] {
        let mut serial = run(Direction::Upload, 4);
        let turn = serial.on_prepared(prepared(0, total), supported, false);
        assert!(matches!(turn.action, RunAction::Transfer { .. }));
    }
    let mut wide = run(Direction::Upload, 300);
    let turn = wide.on_prepared(prepared(0, 10_000), true, false);
    assert_eq!(kinds(&turn.reports), vec!["progress", "failed"]);
}

#[test]
fn reports_become_events_of_their_transfer() {
    let key = (Direction::Upload, "k".to_string());
    let event = Report::Completed {
        total_size: 5,
        completion_payload: None,
    }
    .into_event(key.clone());
    assert!(matches!(
        event,
        WorkerEvent::Completed { key: k, total_size: 5, completion_payload: None } if k == key
    ));
}

fn start(direction: Direction, from: u64) -> (ParallelRun, ParallelTurn) {
    ParallelRun::start(direction, from, 10, 35, 2)
}

#[test]
fn parts_go_out_as_room_allows_and_completion_waits_for_all() {
    let (mut worker, turn) = start(Direction::Upload, 0);
    assert_eq!(turn.dispatch, vec![0, 10]);
    assert_eq!(turn.action, ParallelAction::WaitForPart);
    // The second part lands first: nothing is contiguous yet.
    let turn = worker.on_part(10, chunk(20, 35, false), false);
    assert!(turn.reports.is_empty());
    assert_eq!(turn.dispatch, vec![20]);
    let turn = worker.on_part(0, chunk(10, 35, false), false);
    assert!(matches!(
        turn.reports[..],
        [Report::Progress { next_offset: 20, total_size: 35 }]
    ));
    assert_eq!(turn.dispatch, vec![30]);
    worker.on_part(30, chunk(35, 35, false), false);
    let turn = worker.on_part(20, chunk(30, 35, false), false);
    assert!(matches!(
        turn.reports[..],
        [Report::Progress { next_offset: 35, .. }]
    ));
    assert_eq!(turn.action, ParallelAction::Complete);
    let turn = worker.on_completed(Ok(Some("etag".to_string())));
    assert_eq!(kinds(&turn.reports), vec!["completed"]);
    assert_eq!(turn.action, ParallelAction::Stop);
}

#[test]
fn a_failed_part_drains_the_window_and_is_reported() {
    let (mut worker, _) = start(Direction::Download, 0);
    let turn = worker.on_part(0, ChunkRetryResult::Failed(connection_lost()), false);
    assert!(turn.dispatch.is_empty());
    assert_eq!(turn.action, ParallelAction::WaitForPart);
    let turn = worker.on_part(10, chunk(20, 35, false), false);
    assert!(turn.dispatch.is_empty());
    assert_eq!(turn.action, ParallelAction::Checkpoint);
    let turn = worker.on_checkpoint(Err(MeowError::from_code_str(
        InnerErrorCode::DiskFull,
        "full",
    )));
    match &turn.reports[..] {
        [Report::Failed { error, total_size: 35 }] => {
            assert_eq!(error.code(), InnerErrorCode::HttpError)
        }
        _ => panic!("the failed part is what is reported"),
    }
}

#[test]
fn a_canceled_download_writes_down_what_it_has() {
    let (mut worker, _) = start(Direction::Download, 0);
    worker.on_part(0, chunk(10, 35, false), true);
    worker.on_part(10, ChunkRetryResult::Cancelled, true);
    let turn = worker.on_part(20, ChunkRetryResult::Cancelled, true);
    assert_eq!(turn.action, ParallelAction::Checkpoint);
    let turn = worker.on_checkpoint(Ok(()));
    assert_eq!(kinds(&turn.reports), vec!["canceled"]);

    let (mut upload, _) = start(Direction::Upload, 0);
    upload.on_part(0, ChunkRetryResult::Cancelled, true);
    let turn = upload.on_part(10, ChunkRetryResult::Cancelled, true);
    assert_eq!(kinds(&turn.reports), vec!["canceled"]);
    assert_eq!(turn.action, ParallelAction::Stop);
}

#[test]
fn a_transfer_that_is_there_already_has_no_parts() {
    let (_, upload) = start(Direction::Upload, 35);
    assert_eq!(kinds(&upload.reports), vec!["completed"]);
    assert_eq!(upload.action, ParallelAction::Stop);
    let (_, download) = start(Direction::Download, 35);
    assert_eq!(download.action, ParallelAction::Complete);
}

#[test]
fn a_panicked_part_fails_the_transfer() {
    let (mut worker, _) = start(Direction::Upload, 0);
    let turn = worker.on_part_panicked("task 3 panicked");
    assert_eq!(turn.action, ParallelAction::AbandonParts);
    match &turn.reports[..] {
        [Report::Failed { error, .. }] => {
            assert_eq!(error.msg(), "upload part task panicked: task 3 panicked")
        }
        _ => panic!("one failure"),
    }
}
