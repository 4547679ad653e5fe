use rusty_cat::error::{InnerErrorCode, MeowError};
use rusty_cat::exec::validate_parallel_part_window;
use rusty_cat::memory_budget::{
    part_memory_bytes,
    current_memory_limit_bytes, memory_limit_for_pointer_width, ParallelMemoryBudget,
};
use rusty_cat::retry::{
    backoff_with_jitter_ms, calc_backoff_with_jitter_ms, is_connection_layer_retryable,
    is_transport_retryable, ChunkRetry, ChunkRetryResult, RetryDecision,
};
use rusty_cat::transfer_status::ChunkOutcome;

#[test]
fn parallel_window_uses_real_grid_and_rejects_task_or_memory_exhaustion() {
    validate_parallel_part_window(usize::MAX, 1024 * 1024, 2 * 1024 * 1024)
        .expect("a huge configured maximum is harmless for a two-part file");
    assert!(validate_parallel_part_window(257, 1, 257).is_err());
    assert!(
        validate_parallel_part_window(3, 256 * 1024 * 1024, 3 * 256 * 1024 * 1024,).is_err()
    );
    assert!(validate_parallel_part_window(2, 0, 1).is_err());
}

#[test]
fn window_refusals_say_what_was_asked_for() {
    let tasks = validate_parallel_part_window(257, 1, 257).unwrap_err();
    assert_eq!(tasks.code(), InnerErrorCode::IoError);
    assert_eq!(
        tasks.msg(),
        "parallel part window exceeds task limit: requested=257 limit=256"
    );
    let memory =
        validate_parallel_part_window(3, 256 * 1024 * 1024, 3 * 256 * 1024 * 1024).unwrap_err();
    assert_eq!(
        memory.msg(),
        "parallel part window exceeds memory limit: requested=805306368 limit=536870912"
    );
    let zero = validate_parallel_part_window(2, 0, 1).unwrap_err();
    assert_eq!(
        zero.msg(),
        "parallel part count overflow or zero chunk size"
    );
    assert!(validate_parallel_part_window(0, 0, 0).is_ok());
    assert!(validate_parallel_part_window(256, 1, 256).is_ok());
}

#[test]
fn thirty_two_bit_targets_use_a_lower_memory_cap() {
    let cap_32 = memory_limit_for_pointer_width(32);
    let cap_64 = memory_limit_for_pointer_width(64);

    assert_eq!(cap_32, 64 * 1024 * 1024);
    assert_eq!(cap_64, 512 * 1024 * 1024);
    assert!(cap_32 < cap_64);
}

#[test]
fn oversized_internal_limit_is_clamped_without_panicking() {
    let budget = ParallelMemoryBudget::with_limit(u64::MAX);
    assert_eq!(
        budget.limit_bytes(),
        (tokio::sync::Semaphore::MAX_PERMITS as u64).min(u32::MAX as u64)
    );
}

#[test]
fn oversized_part_is_rejected_instead_of_waiting_forever() {
    let budget = ParallelMemoryBudget::with_limit(8);
    let error = budget.permits_for(9).expect_err("part exceeds client budget");
    assert_eq!(error.code(), InnerErrorCode::IoError);
    assert_eq!(budget.permits_for(8).unwrap(), 8);
}

#[test]
fn budget_of_this_machine_is_the_documented_one() {
    assert_eq!(
        current_memory_limit_bytes(),
        memory_limit_for_pointer_width(usize::BITS)
    );
    assert_eq!(
        ParallelMemoryBudget::for_current_target().limit_bytes(),
        current_memory_limit_bytes()
    );
}

fn status_error(status: u16) -> MeowError {
    MeowError::from_code_str(InnerErrorCode::ResponseStatusError, "status").with_http_status(status)
}

#[test]
fn only_transient_failures_are_retried() {
    for status in [408, 429, 500, 502, 503, 504, 599] {
        assert!(is_transport_retryable(&status_error(status)), "{status}");
    }
    for status in [400, 401, 403, 404, 409, 416, 600] {
        assert!(!is_transport_retryable(&status_error(status)), "{status}");
    }
    assert!(is_transport_retryable(&MeowError::from_code_str(
        InnerErrorCode::HttpError,
        "connection reset"
    )));
    assert!(!is_transport_retryable(&MeowError::from_code_str(
        InnerErrorCode::ChecksumMismatch,
        "checksum"
    )));
    assert!(is_connection_layer_retryable(&MeowError::from_code_str(
        InnerErrorCode::HttpError,
        "connection reset"
    )));
    assert!(!is_connection_layer_retryable(&status_error(503)));
}

#[test]
fn backoff_doubles_up_to_its_cap_and_varies_by_a_fifth() {
    let plain: Vec<u64> = (0..7)
        .map(|attempt| (0..41).map(|r| backoff_with_jitter_ms(attempt, r)).max().unwrap())
        .collect();
    assert_eq!(plain, vec![240, 480, 960, 1920, 3840, 6000, 6000]);
    let least: Vec<u64> = (0..7)
        .map(|attempt| (0..41).map(|r| backoff_with_jitter_ms(attempt, r)).min().unwrap())
        .collect();
    assert_eq!(least, vec![160, 320, 640, 1280, 2560, 4000, 4000]);
    for attempt in 0..40 {
        let delay = calc_backoff_with_jitter_ms(attempt);
        assert!((160..=6000).contains(&delay));
    }
    assert!((4000..=6000).contains(&calc_backoff_with_jitter_ms(u32::MAX)));
}

#[test]
fn a_chunk_is_tried_once_more_than_it_may_be_retried() {
    let mut retry = ChunkRetry::new(2);
    let mut attempts = 0;
    let error = loop {
        assert!(retry.before_attempt(false).is_none());
        attempts += 1;
        let failure = MeowError::from_code_str(InnerErrorCode::HttpError, "reset");
        match retry.after_attempt(Err(failure), false) {
            RetryDecision::Backoff { .. } => {}
            RetryDecision::Finish(ChunkRetryResult::Failed(error)) => break error,
            _ => panic!("a failing chunk only waits or fails"),
        }
    };
    assert_eq!(attempts, 3);
    assert_eq!(error.code(), InnerErrorCode::HttpError);

    let mut retry = ChunkRetry::new(2);
    let done = ChunkOutcome {
        next_offset: 10,
        total_size: 20,
        done: false,
        completion_payload: None,
    };
    assert!(matches!(
        retry.after_attempt(Ok(done), false),
        RetryDecision::Finish(ChunkRetryResult::Done(_))
    ));
    assert!(matches!(
        retry.before_attempt(true),
        Some(ChunkRetryResult::Cancelled)
    ));
}

#[test]
fn parts_charge_their_bytes_and_the_block_that_verifies_them() {
    assert_eq!(part_memory_bytes(0, 10, 25, 0), 10);
    assert_eq!(part_memory_bytes(20, 10, 25, 4), 9, "the last part is short");
    assert_eq!(part_memory_bytes(30, 10, 25, 4), 4);
    assert_eq!(part_memory_bytes(0, u64::MAX, u64::MAX, 1), u64::MAX);
}
