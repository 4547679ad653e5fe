use rusty_cat::log::{
    debug_log_listener_active, emit_lazy, redact_secrets, sanitize_url, set_debug_log_listener,
    try_set_debug_log_listener, DebugLogSlot, Log, LogLevel,
};

#[test]
fn levels_are_ordered_and_say_what_to_keep() {
    let levels = [
        LogLevel::Trace,
        LogLevel::Debug,
        LogLevel::Info,
        LogLevel::Key,
        LogLevel::Warn,
        LogLevel::Error,
    ];
    for pair in levels.windows(2) {
        assert!(pair[0] < pair[1]);
    }
    for level in levels {
        assert_eq!(level.persist_recommended(), level >= LogLevel::Key);
    }
    let labels: Vec<&str> = levels.iter().map(|level| level.as_str()).collect();
    assert_eq!(
        labels,
        vec!["TRACE", "DEBUG", "INFO", "KEY", "WARN", "ERROR"]
    );
}

#[test]
fn entries_describe_themselves() {
    let log = Log::at(12, LogLevel::Error, "upload_part", "failed".to_string())
        .with_task_id("t-1".to_string())
        .with_key("a/b".to_string())
        .with_part(3)
        .with_range(4096, 1024)
        .with_http_status(503)
        .with_attempt(1)
        .with_max_retries(3)
        .with_error_code(-7)
        .with_url("https://host/a?sig=abc&part=3");
    assert_eq!(
        log.to_text(),
        "[12] ERROR [upload_part] failed task_id=t-1 key=a/b part=3 offset=4096 len=1024 \
         http_status=503 attempt=1 max_retries=3 error_code=-7 \
         url=https://host/a?sig=REDACTED&part=3"
    );
    assert_eq!(log.timestamp_ms(), 12);
    assert_eq!(log.level(), LogLevel::Error);
    assert_eq!(log.tag(), "upload_part");
    assert_eq!(log.message(), "failed");
    assert_eq!(log.task_id(), Some("t-1"));
    assert_eq!(log.object_key(), Some("a/b"));
    assert_eq!(log.part_index(), Some(3));
    assert_eq!(log.offset(), Some(4096));
    assert_eq!(log.byte_len(), Some(1024));
    assert_eq!(log.http_status(), Some(503));
    assert_eq!(log.attempt(), Some(1));
    assert_eq!(log.max_retries(), Some(3));
    assert_eq!(log.error_code(), Some(-7));
    assert_eq!(log.url(), Some("https://host/a?sig=REDACTED&part=3"));
    assert_eq!(log.into_message(), "failed");
}

#[test]
fn entries_are_made_by_level() {
    let made = [
        (Log::trace("t", "m".to_string()), LogLevel::Trace),
        (Log::debug("t", "m".to_string()), LogLevel::Debug),
        (Log::info("t", "m".to_string()), LogLevel::Info),
        (Log::key("t", "m".to_string()), LogLevel::Key),
        (Log::warn("t", "m".to_string()), LogLevel::Warn),
        (Log::error("t", "m".to_string()), LogLevel::Error),
    ];
    for (log, level) in made {
        assert_eq!(log.level(), level);
        assert!(log.timestamp_ms() > 1_600_000_000_000);
        assert_eq!(log.task_id(), None);
        assert_eq!(log.url(), None);
    }
    let spaced = Log::new(LogLevel::Info, "t", "m".to_string())
        .with_offset(5)
        .with_byte_len(6);
    assert_eq!((spaced.offset(), spaced.byte_len()), (Some(5), Some(6)));
}

#[test]
fn urls_lose_their_secrets() {
    let safe = sanitize_url(
        "https://acct.blob.core.windows.net/c/f.bin?sv=2024&sig=abc%2F&se=2030&X-Amz-Signature=q",
    );
    assert!(!safe.contains("abc"));
    assert!(!safe.contains("=q"));
    assert!(safe.starts_with("https://acct.blob.core.windows.net/c/f.bin?sv=2024&sig="));
    assert_eq!(sanitize_url("https://host/plain"), "https://host/plain");
    assert_eq!(sanitize_url(&safe), safe);
}

#[test]
fn texts_lose_their_secrets() {
    let safe = redact_secrets("failed: https://h/a?sig=abc&x=1 and Signature=def, x");
    assert!(!safe.contains("abc"));
    assert!(!safe.contains("def"));
    assert!(safe.contains("x=1"));
    assert_eq!(redact_secrets(&safe), safe);
    assert_eq!(redact_secrets("nothing here"), "nothing here");
    let safe = redact_secrets("error: GET https://h/o?sv=2021&sig=AbC%2Bsecret failed");
    assert_eq!(safe, "error: GET https://h/o?sv=2021&sig=REDACTED failed");
}

#[test]
fn one_listener_at_most() {
    let mut slot: DebugLogSlot<u32> = DebugLogSlot::new();
    assert!(!debug_log_listener_active(&slot));
    assert!(emit_lazy(&slot, || panic!("nobody listens")).is_none());
    try_set_debug_log_listener(&mut slot, 1).expect("first listener");
    let taken = try_set_debug_log_listener(&mut slot, 2).expect_err("already set");
    assert!(!taken.text().is_empty());
    assert_eq!(slot.listener, Some(1));
    assert!(debug_log_listener_active(&slot));
    let log = emit_lazy(&slot, || Log::info("t", "m".to_string())).expect("a listener");
    assert_eq!(log.message(), "m");
    set_debug_log_listener(&mut slot, None).unwrap();
    assert!(!debug_log_listener_active(&slot));
    set_debug_log_listener(&mut slot, Some(3)).unwrap();
    set_debug_log_listener(&mut slot, Some(4)).unwrap();
    assert_eq!(slot.listener, Some(4));
}
