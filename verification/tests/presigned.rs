use std::cell::Cell;

use reqwest::header::{HeaderMap, HeaderName, HeaderValue, RANGE};
use rusty_cat::error::{InnerErrorCode, MeowError};
use rusty_cat::headers::{headers_from_iter, headers_from_pairs, merge_headers};
use rusty_cat::presigned::completion_request::CompletionRequest;
use rusty_cat::presigned::metadata::Metadata;
use rusty_cat::presigned::multipart_upload::{
    callback_result, is_success, CompletionBody, PartChoice, PartResponse,
    PresignedMultipartUpload,
};
use rusty_cat::presigned::multipart_upload_plan::PresignedMultipartUploadPlan;
use rusty_cat::presigned::range_download::{
    ask_refresher, ActiveRefreshes, Freshness, PendingRangeUrl, PresignedDownloadUrlRefresher,
    PresignedRangeDownload, RefreshOutcome,
};
use rusty_cat::presigned::range_download_plan::PresignedRangeDownloadPlan;
use rusty_cat::presigned::time::{due, now_unix_secs};
use rusty_cat::presigned::upload_part::PresignedUploadPart;
use rusty_cat::presigned::uploaded_part::{
    record_part, sort_dedup_completion_parts, sort_parts, PartKey, PresignedUploadedPart,
};
use rusty_cat::retry::is_transport_retryable;

struct TestDownloadRefresher;

impl PresignedDownloadUrlRefresher for TestDownloadRefresher {
    fn refresh_range_download(
        &self,
        plan: &PresignedRangeDownloadPlan,
    ) -> Result<PresignedRangeDownloadPlan, MeowError> {
        Ok(plan
            .clone()
            .with_range_expires_at_unix_secs(now_unix_secs()? + 3600)
            .with_range_headers(headers_from_pairs(&[("x-refreshed", "yes")])?))
    }
}

fn asking<R: PresignedDownloadUrlRefresher>(
    refresher: &R,
) -> impl Fn(&PresignedRangeDownloadPlan) -> RefreshOutcome + '_ {
    move |plan: &PresignedRangeDownloadPlan| ask_refresher(refresher, plan)
}

fn two_part_plan() -> PresignedMultipartUploadPlan {
    PresignedMultipartUploadPlan::new(
        10,
        5,
        vec![
            PresignedUploadPart::put(1, 0, 5, "https://example.com/1"),
            PresignedUploadPart::put(2, 5, 5, "https://example.com/2"),
        ],
    )
}

#[test]
fn test_plan_finds_part_by_offset() {
    let plan = two_part_plan();
    assert_eq!(plan.part_for_offset(5).unwrap().part_number, 2);
    assert!(plan.part_for_offset(10).is_none());
}

#[test]
fn presigned_multipart_advertises_parallel_parts() {
    // Presigned multipart accounts parts by offset and reorders
    // the manifest by part_number at completion, so it is out-of-order safe.
    let upload = PresignedMultipartUpload::new(two_part_plan());
    assert!(upload.supports_parallel_parts());
}

#[test]
fn presigned_accounting_is_order_independent() {
    // Parts completing out of order (the whole point of parallel parts) must
    // still reduce to the correct contiguous prefix and an ascending,
    // part_number-ordered completion manifest.
    let plan = PresignedMultipartUploadPlan::new(
        20,
        5,
        vec![
            PresignedUploadPart::put(1, 0, 5, "https://example.com/1"),
            PresignedUploadPart::put(2, 5, 5, "https://example.com/2"),
            PresignedUploadPart::put(3, 10, 5, "https://example.com/3"),
            PresignedUploadPart::put(4, 15, 5, "https://example.com/4"),
        ],
    );
    let upload = PresignedMultipartUpload::new(plan);

    let mk = |part_number, offset, etag: &str| PresignedUploadedPart {
        part_number,
        provider_part_id: None,
        offset,
        size: 5,
        etag: Some(etag.to_string()),
    };
    // Recorded in scrambled completion order.
    let scrambled = vec![
        mk(3, 10, "e3"),
        mk(1, 0, "e1"),
        mk(4, 15, "e4"),
        mk(2, 5, "e2"),
    ];

    // Contiguous prefix is order-independent: full file -> 20.
    assert_eq!(upload.resumed_offset_from(&scrambled), 20);

    // Completion manifest is always ascending by part_number.
    let to_complete = sort_dedup_completion_parts(scrambled.clone());
    let part_numbers: Vec<_> = to_complete.iter().map(|p| p.part_number).collect();
    assert_eq!(part_numbers, vec![1, 2, 3, 4]);
}

#[test]
fn a_part_keeps_the_name_that_its_provider_knows_it_by() {
    let part = PresignedUploadPart::put(1, 0, 5, "https://example.com/1")
        .with_provider_part_id("block-1".to_string())
        .with_expires_at_unix_secs(9);
    assert_eq!(part.provider_part_id.as_deref(), Some("block-1"));
    assert_eq!(part.expires_at_unix_secs, Some(9));
    assert_eq!((part.part_number, part.offset, part.size), (1, 0, 5));
    assert_eq!(part.method, "PUT");
}

#[test]
fn test_plan_validate_rejects_duplicate_offsets() {
    let plan = PresignedMultipartUploadPlan::new(
        10,
        5,
        vec![
            PresignedUploadPart::put(1, 0, 5, "https://example.com/1"),
            PresignedUploadPart::put(2, 0, 5, "https://example.com/2"),
        ],
    );
    let err = plan.validate().expect_err("duplicate offset must fail");
    assert!(err.msg().contains("duplicate presigned part offset"));
}

#[test]
fn test_headers_from_iter_accepts_dynamic_headers() {
    let headers = headers_from_iter(vec![(
        "x-ms-blob-type".to_string(),
        "BlockBlob".to_string(),
    )])
    .expect("headers");
    assert_eq!(headers.get("x-ms-blob-type").unwrap(), "BlockBlob");
}

#[test]
fn header_names_and_values_have_to_be_valid() {
    let name = headers_from_pairs(&[("bad name", "v")]).expect_err("a space in a name");
    assert_eq!(name.code(), InnerErrorCode::ParameterEmpty);
    assert!(name.msg().starts_with("invalid header name 'bad name': "));
    let value = headers_from_pairs(&[("x-a", "line\nbreak")]).expect_err("a line break");
    assert_eq!(value.code(), InnerErrorCode::ParameterEmpty);
    assert!(value.msg().starts_with("invalid header value for 'x-a': "));
    let last = headers_from_pairs(&[("X-A", "one"), ("x-a", "two")]).unwrap();
    assert_eq!(last.len(), 1);
    assert_eq!(last.get("x-a").unwrap(), "two");
}

#[test]
fn merged_headers_replace_what_was_there() {
    let mut target = headers_from_pairs(&[("x-a", "old"), ("x-b", "kept")]).unwrap();
    let extra = headers_from_pairs(&[("x-a", "new"), ("x-c", "added")]).unwrap();
    assert!(merge_headers(&mut target, &extra));
    assert_eq!(target.get("x-a").unwrap(), "new");
    assert_eq!(target.get("x-b").unwrap(), "kept");
    assert_eq!(target.get("x-c").unwrap(), "added");
    assert_eq!(target.len(), 3);
    assert!(merge_headers(&mut target, &HeaderMap::new()));
    assert_eq!(target.len(), 3);
}

#[test]
fn names_with_a_double_quote_are_merged_like_others() {
    let mut extra = HeaderMap::new();
    extra.insert(
        HeaderName::from_static("x-\"quoted\""),
        HeaderValue::from_static("1"),
    );
    let long = "y\"".repeat(50);
    extra.insert(
        HeaderName::from_lowercase(long.as_bytes()).unwrap(),
        HeaderValue::from_static("2"),
    );
    let mut target = HeaderMap::new();
    assert!(merge_headers(&mut target, &extra));
    assert_eq!(target, extra);
    let refused = headers_from_pairs(&[("x-\"quoted\"", "1")]).expect_err("no token");
    assert_eq!(refused.code(), InnerErrorCode::ParameterEmpty);
}

#[test]
fn large_header_maps_are_merged() {
    let pairs = |from: usize, to: usize| -> Vec<(String, String)> {
        (from..to)
            .map(|i| (format!("x-{i}"), format!("{i}")))
            .collect()
    };
    let mut target = headers_from_iter(pairs(0, 8000)).expect("a large map");
    let extra = headers_from_iter(pairs(8000, 16000)).expect("another");
    assert!(merge_headers(&mut target, &extra));
    assert_eq!(target.keys_len(), 16000);
    assert_eq!(target.get("x-15999").unwrap(), "15999");
    let full = headers_from_iter(pairs(0, 40000)).expect_err("more than a map can hold");
    assert_eq!(full.msg(), "header map cannot hold more names");
    let more = headers_from_iter(pairs(16000, 32000)).expect("a third");
    assert!(!merge_headers(&mut target, &more));
    assert_eq!(target.keys_len(), 16000, "nothing is merged by half");
}

#[test]
fn test_uploaded_part_etag_unquoted() {
    let part = PresignedUploadedPart {
        part_number: 1,
        provider_part_id: None,
        offset: 0,
        size: 5,
        etag: Some("\"etag-1\"".to_string()),
    };
    assert_eq!(part.etag_unquoted().as_deref(), Some("etag-1"));
}

#[test]
fn a_part_without_an_etag_has_no_unquoted_one() {
    let mut part = uploaded(1, 0, 5);
    part.etag = None;
    assert_eq!(part.etag_unquoted(), None);
}

#[test]
fn test_part_for_upload_uses_refresher_near_expiry() {
    let expires = now_unix_secs().expect("now") + 1;
    let upload = PresignedMultipartUpload::new(
        PresignedMultipartUploadPlan::new(
            5,
            5,
            vec![
                PresignedUploadPart::put(1, 0, 5, "https://old.example.com/1")
                    .with_expires_at_unix_secs(expires),
            ],
        )
        .with_refresh_before_secs(60),
    );

    let part = match upload.part_for_upload(0, true) {
        Ok(PartChoice::Refresh(part)) => part,
        _ => panic!("a URL near its expiry is renewed"),
    };
    let renewed = part
        .clone()
        .with_expires_at_unix_secs(now_unix_secs().expect("now") + 3600);
    let part = match PresignedMultipartUpload::accept_refreshed(&part, renewed) {
        Ok(part) => part,
        Err(_) => panic!("the same part with a fresh URL"),
    };
    assert!(part.expires_at_unix_secs.expect("expires") > expires);
}

fn refusal<T>(result: Result<T, MeowError>) -> MeowError {
    match result {
        Ok(_) => panic!("expected a refusal"),
        Err(error) => error,
    }
}

#[test]
fn expired_urls_without_a_refresher_are_refused() {
    let upload = PresignedMultipartUpload::new(
        PresignedMultipartUploadPlan::new(
            5,
            5,
            vec![PresignedUploadPart::put(7, 0, 5, "https://e/1").with_expires_at_unix_secs(100)],
        )
        .with_refresh_before_secs(10),
    );
    assert!(matches!(
        upload.part_for_upload_at(0, false, Ok(89), Ok(89)),
        Ok(PartChoice::Send(_))
    ));
    assert!(matches!(
        upload.part_for_upload_at(0, false, Ok(90), Ok(99)),
        Ok(PartChoice::Send(_))
    ));
    assert!(matches!(
        upload.part_for_upload_at(0, true, Ok(90), Ok(90)),
        Ok(PartChoice::Refresh(_))
    ));
    let error = refusal(upload.part_for_upload_at(0, false, Ok(100), Ok(100)));
    assert_eq!(error.code(), InnerErrorCode::InvalidTaskState);
    assert_eq!(
        error.msg(),
        "presigned upload part 7 URL expired and no refresher is configured"
    );
    let missing = refusal(upload.part_for_upload(3, true));
    assert_eq!(missing.code(), InnerErrorCode::InvalidRange);
    assert_eq!(
        missing.msg(),
        "missing presigned upload part for offset 3"
    );
}

#[test]
fn a_fresh_url_has_to_be_for_the_same_part() {
    let part = PresignedUploadPart::put(1, 0, 5, "https://e/1");
    let error = refusal(PresignedMultipartUpload::accept_refreshed(
        &part,
        PresignedUploadPart::put(2, 5, 4, "https://e/1"),
    ));
    assert_eq!(error.code(), InnerErrorCode::InvalidTaskState);
    assert_eq!(
        error.msg(),
        "refreshed presigned part mismatch: old=(1, 0, 5) new=(2, 5, 4)"
    );
}

#[test]
fn urls_are_due_before_they_expire() {
    assert!(!due(None, 60, u64::MAX));
    assert!(!due(Some(100), 60, 39));
    assert!(due(Some(100), 60, 40));
    assert!(due(Some(100), 0, 100));
    assert!(!due(Some(100), 0, 99));
    assert!(due(Some(u64::MAX), u64::MAX, 0));
}

#[test]
fn test_range_download_uses_refresher_near_expiry() {
    let expires = now_unix_secs().expect("now") + 1;
    let mut download = PresignedRangeDownload::new(
        1,
        PresignedRangeDownloadPlan::new("https://old.example.com/file")
            .with_total_size(10)
            .with_range_expires_at_unix_secs(expires)
            .with_refresh_before_secs(60),
    );

    let plan = match download
        .ensure_fresh_plan(
            Some(&asking(&TestDownloadRefresher)),
            &mut ActiveRefreshes::new(),
        )
    {
        Ok(plan) => plan,
        Err(_) => panic!("fresh plan"),
    };
    assert_eq!(plan.range_headers.get("x-refreshed").unwrap(), "yes");
    assert!(plan.range_expires_at_unix_secs.expect("expires") > expires);
}

// Resuming

fn plan_three_5b_parts() -> PresignedMultipartUploadPlan {
    PresignedMultipartUploadPlan::new(
        15,
        5,
        vec![
            PresignedUploadPart::put(1, 0, 5, "https://example.com/1"),
            PresignedUploadPart::put(2, 5, 5, "https://example.com/2"),
            PresignedUploadPart::put(3, 10, 5, "https://example.com/3"),
        ],
    )
}

fn uploaded(part_number: u64, offset: u64, size: u64) -> PresignedUploadedPart {
    PresignedUploadedPart {
        part_number,
        provider_part_id: None,
        offset,
        size,
        etag: Some(format!("etag-{part_number}")),
    }
}

#[test]
fn test_resumed_offset_covers_full_contiguous_prefix() {
    let up = PresignedMultipartUpload::new(plan_three_5b_parts());
    let resumed = up.resumed_offset_from(&vec![uploaded(1, 0, 5), uploaded(2, 5, 5)]);
    assert_eq!(resumed, 10, "two contiguous 5-byte parts resume at offset 10");
}

#[test]
fn test_resumed_offset_stops_at_gap() {
    // Parts at 0 and 10 leave a gap at 5; resume must stop at the gap, not skip it.
    let up = PresignedMultipartUpload::new(plan_three_5b_parts());
    let resumed = up.resumed_offset_from(&vec![uploaded(1, 0, 5), uploaded(3, 10, 5)]);
    assert_eq!(resumed, 5);
}

#[test]
fn test_resumed_offset_stops_on_plan_size_mismatch() {
    // A persisted part whose size disagrees with the plan is not trusted.
    let up = PresignedMultipartUpload::new(plan_three_5b_parts());
    let resumed = up.resumed_offset_from(&vec![uploaded(1, 0, 4)]);
    assert_eq!(resumed, 0);
}

#[test]
fn test_resumed_offset_ignores_part_not_in_plan() {
    // An offset the plan does not contain cannot start the contiguous prefix.
    let up = PresignedMultipartUpload::new(plan_three_5b_parts());
    let resumed = up.resumed_offset_from(&vec![uploaded(9, 3, 5)]);
    assert_eq!(resumed, 0);
}

#[test]
fn test_resumed_offset_empty_is_zero() {
    let up = PresignedMultipartUpload::new(plan_three_5b_parts());
    assert_eq!(up.resumed_offset_from(&vec![]), 0);
}

#[test]
fn test_with_resumed_parts_dedups_by_offset() {
    // Injecting two parts for the same offset keeps only one.
    let up = PresignedMultipartUpload::new(plan_three_5b_parts()).with_resumed_parts(vec![
        uploaded(1, 0, 5),
        uploaded(1, 0, 5),
        uploaded(2, 5, 5),
    ]);
    let parts = up.uploaded_parts();
    assert_eq!(parts.len(), 2);
    let mut offsets: Vec<u64> = parts.iter().map(|p| p.offset).collect();
    offsets.sort_unstable();
    assert_eq!(offsets, vec![0, 5]);
}

#[test]
fn the_last_part_for_an_offset_counts() {
    let up = PresignedMultipartUpload::new(plan_three_5b_parts())
        .with_resumed_parts(vec![uploaded(1, 0, 5), uploaded(9, 0, 5)]);
    let numbers: Vec<u64> = up.uploaded_parts().iter().map(|p| p.part_number).collect();
    assert_eq!(numbers, vec![9]);
    let mut list = vec![uploaded(1, 0, 5), uploaded(2, 5, 5)];
    record_part(&mut list, uploaded(8, 5, 4));
    record_part(&mut list, uploaded(3, 10, 5));
    let recorded: Vec<(u64, u64)> = list.iter().map(|p| (p.part_number, p.offset)).collect();
    assert_eq!(recorded, vec![(1, 0), (8, 5), (3, 10)]);
}

#[test]
fn test_with_resumed_parts_empty_is_fresh_upload() {
    let up = PresignedMultipartUpload::new(plan_three_5b_parts()).with_resumed_parts(vec![]);
    assert!(up.uploaded_parts().is_empty());
    assert_eq!(up.resumed_offset_from(&vec![]), 0);
}

#[test]
fn test_sort_dedup_completion_parts_orders_by_part_number_and_drops_dup_offset() {
    let parts = sort_dedup_completion_parts(vec![
        uploaded(3, 10, 5),
        uploaded(1, 0, 5),
        uploaded(2, 5, 5),
        uploaded(2, 5, 5), // duplicate offset 5
    ]);
    let pns: Vec<u64> = parts.iter().map(|p| p.part_number).collect();
    let offsets: Vec<u64> = parts.iter().map(|p| p.offset).collect();
    assert_eq!(pns, vec![1, 2, 3], "ascending part numbers");
    assert_eq!(offsets, vec![0, 5, 10], "duplicate offset dropped");
}

#[test]
fn sorting_keeps_equal_parts_in_order() {
    let mut first = uploaded(1, 5, 5);
    first.etag = Some("first".to_string());
    let mut second = uploaded(1, 5, 5);
    second.etag = Some("second".to_string());
    let sorted = sort_parts(vec![first, uploaded(2, 0, 5), second], PartKey::Offset);
    let tags: Vec<&str> = sorted.iter().filter_map(|p| p.etag.as_deref()).collect();
    assert_eq!(tags, vec!["etag-2", "first", "second"]);
}

// Plans

#[test]
fn plans_are_checked_before_use() {
    let at = |parts: Vec<PresignedUploadPart>, total: u64, chunk: u64| {
        refusal(PresignedMultipartUploadPlan::new(total, chunk, parts).validate())
    };
    let part = |number: u64, offset: u64, size: u64| {
        PresignedUploadPart::put(number, offset, size, "https://e/p")
    };
    let chunk = at(vec![part(1, 0, 5)], 5, 0);
    assert_eq!(chunk.code(), InnerErrorCode::ParameterEmpty);
    assert_eq!(
        chunk.msg(),
        "presigned plan chunk_size must be greater than zero"
    );
    let empty = at(vec![], 10, 5);
    assert_eq!(empty.code(), InnerErrorCode::ParameterEmpty);
    assert_eq!(
        empty.msg(),
        "presigned plan parts must not be empty for non-empty upload"
    );
    for (error, text) in [
        (at(vec![part(4, 0, 0)], 5, 5), "presigned part 4 has zero size"),
        (
            at(vec![part(4, 0, 6)], 5, 5),
            "presigned part 4 out of range: end=6 total=5",
        ),
        (
            at(vec![part(4, u64::MAX, 5)], 5, 5),
            "presigned part 4 range overflow",
        ),
        (
            at(vec![part(1, 0, 5), part(2, 0, 5)], 10, 5),
            "duplicate presigned part offset: 0",
        ),
    ] {
        assert_eq!(error.code(), InnerErrorCode::InvalidRange);
        assert_eq!(error.msg(), text);
    }
    assert!(PresignedMultipartUploadPlan::new(0, 5, vec![])
        .validate()
        .is_ok());
    assert!(two_part_plan().validate().is_ok());
}

#[test]
fn a_plan_has_to_fit_its_task() {
    let upload = PresignedMultipartUpload::new(two_part_plan().with_upload_id("u-1".to_string()))
        .with_resumed_parts(vec![uploaded(1, 0, 5)]);
    let total = refusal(upload.prepare(11, 5, 0));
    assert_eq!(
        total.msg(),
        "presigned plan total_size mismatch: plan=10 task=11"
    );
    let chunk = refusal(upload.prepare(10, 6, 0));
    assert_eq!(
        chunk.msg(),
        "presigned plan chunk_size mismatch: plan=5 task=6"
    );
    let info = upload.prepare(10, 5, 0).expect("prepared");
    assert_eq!(info.next_byte, Some(5));
    assert_eq!(info.provider_upload_id.as_deref(), Some("u-1"));
    assert_eq!(info.completed_file_id, None);
    assert_eq!(upload.prepare(10, 5, 7).unwrap().next_byte, Some(7));
}

#[test]
fn uploaded_parts_are_taken_account_of_by_offset() {
    let mut upload = PresignedMultipartUpload::new(two_part_plan());
    let part = upload.plan().part_for_offset(5).unwrap().clone();
    let size = refusal(PresignedMultipartUpload::check_chunk(&part, 4));
    assert_eq!(size.code(), InnerErrorCode::InvalidRange);
    assert_eq!(
        size.msg(),
        "presigned part size mismatch: part=5 chunk=4"
    );
    PresignedMultipartUpload::check_chunk(&part, 5).expect("whole part");
    let response = |status_code: u16| PartResponse {
        status_code,
        status: "403 Forbidden".to_string(),
        etag: Some("tag".to_string()),
        body: "denied".to_string(),
    };
    let failed = refusal(upload.on_part_response(&part, response(403)));
    assert_eq!(failed.code(), InnerErrorCode::ResponseStatusError);
    assert_eq!(
        failed.msg(),
        "presigned upload part failed: 403 Forbidden, body: denied"
    );
    assert_eq!(failed.http_status(), Some(403));
    assert!(!is_transport_retryable(&failed), "a known refusal is final");
    assert!(upload.uploaded_parts().is_empty());
    let info = upload.on_part_response(&part, response(201)).expect("sent");
    assert_eq!(info.next_byte, Some(10));
    let parts = upload.uploaded_parts();
    assert_eq!(parts.len(), 1);
    assert_eq!((parts[0].part_number, parts[0].offset), (2, 5));
    assert_eq!(parts[0].etag.as_deref(), Some("tag"));
}

#[test]
fn completion_bodies_follow_the_request() {
    let with = |request: Option<CompletionRequest>, builder: bool| {
        let plan = match request {
            Some(request) => two_part_plan().with_complete_request(request),
            None => two_part_plan(),
        };
        PresignedMultipartUpload::new(plan)
            .with_resumed_parts(vec![uploaded(2, 5, 5), uploaded(1, 0, 5)])
            .completion_body(builder)
    };
    let request = || CompletionRequest::new("POST", "https://e/complete");
    assert!(with(None, true).is_none());
    assert!(matches!(
        with(Some(request().with_body(b"x".to_vec())), true),
        Some(CompletionBody::Fixed(body)) if body == b"x".to_vec()
    ));
    match with(Some(request()), true) {
        Some(CompletionBody::Custom(parts)) => {
            let numbers: Vec<u64> = parts.iter().map(|p| p.part_number).collect();
            assert_eq!(numbers, vec![1, 2]);
        }
        _ => panic!("a builder makes the body"),
    }
    assert!(matches!(
        with(Some(request().with_uploaded_parts_json_body()), false),
        Some(CompletionBody::UploadedParts(_))
    ));
    assert!(matches!(
        with(Some(request()), false),
        Some(CompletionBody::Empty)
    ));
}

#[test]
fn callbacks_succeed_by_their_status() {
    assert_eq!(
        callback_result("complete", 200, "200 OK", "done".to_string()).unwrap(),
        Some("done".to_string())
    );
    let error = refusal(callback_result(
        "complete",
        500,
        "500 Internal Server Error",
        "oops".to_string(),
    ));
    assert_eq!(error.code(), InnerErrorCode::ResponseStatusError);
    assert!(error.msg().contains("oops"));
    assert_eq!(error.http_status(), Some(500));
    for (code, met) in [(199, false), (200, true), (299, true), (300, false)] {
        assert_eq!(is_success(code), met);
    }
}

#[test]
fn plans_keep_their_settings() {
    let upload = PresignedMultipartUpload::new(
        two_part_plan()
            .with_metadata("key".to_string(), "prefix/file.bin".to_string())
            .with_abort_request(
                CompletionRequest::new("DELETE", "https://e/abort")
                    .with_headers(headers_from_pairs(&[("x-a", "1")]).unwrap()),
            ),
    );
    assert_eq!(upload.plan().metadata.get("key"), Some("prefix/file.bin"));
    assert_eq!(upload.plan().metadata.get("other"), None);
    let abort = upload.abort_request().expect("abort request");
    assert_eq!(abort.method, "DELETE");
    assert_eq!(abort.headers.get("x-a").unwrap(), "1");
    assert!(PresignedMultipartUpload::new(two_part_plan())
        .abort_request()
        .is_none());
}

#[test]
fn metadata_is_kept_in_order_of_its_names() {
    let mut metadata = Metadata::new();
    for (name, value) in [("b", "1"), ("a", "2"), ("b", "3")] {
        metadata.insert(name.to_string(), value.to_string());
    }
    assert_eq!(metadata.len(), 2);
    assert_eq!(metadata.entry(0), ("a", "2"));
    assert_eq!(metadata.entry(1), ("b", "3"));
}

// Range downloads

#[test]
fn indirect_same_thread_refresh_reentry_is_rejected() {
    let mut active = ActiveRefreshes::new();
    active.enter(11).expect("enter first refresher");
    active.enter(22).expect("enter nested refresher");
    let error = active.enter(11).expect_err("A -> B -> A must be rejected");
    assert!(error.msg().contains("re-entered"));
    active.leave(22);
    active.leave(11);
    active
        .enter(11)
        .expect("guards must clean up their stack on drop");
}

struct SnapshotRefresher;

impl PresignedDownloadUrlRefresher for SnapshotRefresher {
    fn refresh_range_download(
        &self,
        plan: &PresignedRangeDownloadPlan,
    ) -> Result<PresignedRangeDownloadPlan, MeowError> {
        let mut refreshed = plan.clone();
        refreshed.range_url = "https://new.example.com/object".to_owned();
        refreshed.range_headers.insert(
            HeaderName::from_static("x-plan-generation"),
            HeaderValue::from_static("new"),
        );
        refreshed.range_expires_at_unix_secs = Some(now_unix_secs()? + 3600);
        Ok(refreshed)
    }
}

#[test]
fn range_url_and_headers_are_built_from_one_refreshed_snapshot() {
    let mut download = PresignedRangeDownload::new(
        1,
        PresignedRangeDownloadPlan::new("https://old.example.com/object")
            .with_range_expires_at_unix_secs(1),
    );
    let mut active = ActiveRefreshes::new();
    if download
        .ensure_fresh_plan(Some(&asking(&SnapshotRefresher)), &mut active)
        .is_err()
    {
        panic!("fresh plan");
    }
    let (url, headers) = download
        .range_request("bytes=0-9", HeaderMap::new())
        .expect("range request");
    assert_eq!(url, "https://new.example.com/object");
    assert_eq!(headers.get("x-plan-generation").unwrap(), "new");
    assert_eq!(headers.get(RANGE).unwrap(), "bytes=0-9");

    let mut pending = PendingRangeUrl::new();
    pending.remember(1, url);
    let later = PresignedRangeDownload::new(
        1,
        PresignedRangeDownloadPlan::new("https://later.example.com/object")
            .with_range_expires_at_unix_secs(now_unix_secs().unwrap() + 7200),
    );
    assert_eq!(
        later.range_url(&mut pending),
        "https://new.example.com/object",
        "the URL paired with the headers must survive a concurrent plan publication"
    );
    assert!(pending.take(1).is_none());
    assert_eq!(
        later.range_url(&mut pending),
        "https://later.example.com/object"
    );
}

#[test]
fn remembered_urls_belong_to_one_download() {
    let mut pending = PendingRangeUrl::new();
    pending.remember(1, "https://one".to_string());
    assert!(pending.take(2).is_none());
    pending.remember(3, "https://three".to_string());
    assert_eq!(pending.take(3).as_deref(), Some("https://three"));
}

#[test]
fn refresher_reentry_returns_error_instead_of_deadlocking() {
    let download = PresignedRangeDownload::new(
        1,
        PresignedRangeDownloadPlan::new("https://example.com/object")
            .with_range_expires_at_unix_secs(1),
    );
    let mut active = ActiveRefreshes::new();
    assert_eq!(
        download.begin_refresh(&mut active).expect("first refresh"),
        Freshness::Stale
    );
    let error = download
        .check_fresh(true, &active)
        .expect_err("reentrant refresh must fail");
    assert!(error.msg().contains("re-entered"));
}

struct CountingRefresher {
    calls: Cell<usize>,
}

impl PresignedDownloadUrlRefresher for CountingRefresher {
    fn refresh_range_download(
        &self,
        plan: &PresignedRangeDownloadPlan,
    ) -> Result<PresignedRangeDownloadPlan, MeowError> {
        self.calls.set(self.calls.get() + 1);
        Ok(plan
            .clone()
            .with_range_expires_at_unix_secs(now_unix_secs()? + 3600))
    }
}

#[test]
fn concurrent_expired_readers_refresh_only_once_and_see_complete_snapshot() {
    let refresher = CountingRefresher {
        calls: Cell::new(0),
    };
    let mut download = PresignedRangeDownload::new(
        1,
        PresignedRangeDownloadPlan::new("https://example.com/object")
            .with_total_size(42)
            .with_range_expires_at_unix_secs(1)
            .with_refresh_before_secs(60),
    );
    for _ in 0..16 {
        let plan = match download
            .ensure_fresh_plan(Some(&asking(&refresher)), &mut ActiveRefreshes::new())
        {
            Ok(plan) => plan,
            Err(_) => panic!("fresh plan"),
        };
        assert_eq!(plan.total_size, Some(42));
        assert_eq!(plan.range_url, "https://example.com/object");
        assert!(plan.range_expires_at_unix_secs.unwrap_or(0) > 1);
    }
    assert_eq!(refresher.calls.get(), 1);
}

#[test]
fn a_refresh_that_fails_changes_nothing() {
    let expired = || {
        PresignedRangeDownload::new(
            1,
            PresignedRangeDownloadPlan::new("https://example.com/object")
                .with_total_size(42)
                .with_range_expires_at_unix_secs(100),
        )
    };
    let outcomes = [
        RefreshOutcome::Panicked,
        RefreshOutcome::Failed(MeowError::from_code_str(InnerErrorCode::HttpError, "down")),
        RefreshOutcome::Refreshed(
            PresignedRangeDownloadPlan::new("https://other").with_total_size(43),
        ),
    ];
    for outcome in outcomes {
        let mut download = expired();
        let mut active = ActiveRefreshes::new();
        assert_eq!(
            download.begin_refresh_at(&mut active, Ok(100)).unwrap(),
            Freshness::Stale
        );
        assert!(download.finish_refresh(&mut active, outcome).is_err());
        assert!(!active.contains(1));
        assert_eq!(download.plan().range_url, "https://example.com/object");
    }
    let without = expired().check_fresh_at(false, &ActiveRefreshes::new(), Ok(100), Ok(100));
    assert_eq!(
        without.unwrap_err().code(),
        InnerErrorCode::InvalidTaskState
    );
}

#[test]
fn downloads_fall_back_to_the_task_url_for_their_head() {
    let plain = PresignedRangeDownload::new(1, PresignedRangeDownloadPlan::new("https://r"));
    assert_eq!(plain.head_url("https://task"), "https://task");
    assert_eq!(plain.total_size_hint(), None);
    let full = PresignedRangeDownload::new(
        2,
        PresignedRangeDownloadPlan::new("https://r")
            .with_head_url("https://h".to_string())
            .with_total_size(9)
            .with_head_headers(headers_from_pairs(&[("x-h", "1")]).unwrap()),
    );
    assert_eq!(full.head_url("https://task"), "https://h");
    assert_eq!(full.total_size_hint(), Some(9));
    let mut base = HeaderMap::new();
    assert!(full.merge_head_headers(&mut base));
    assert_eq!(base.get("x-h").unwrap(), "1");
    let request = full.range_request("bytes=0-1", HeaderMap::new());
    assert!(matches!(request, Ok((url, _)) if url == "https://r"));
}

#[test]
fn plans_are_renewed_by_the_readings_of_the_clock() {
    let plan = || {
        PresignedRangeDownloadPlan::new("https://e/object").with_range_expires_at_unix_secs(1000)
    };
    let margin = plan().refresh_before_secs;
    let run = |first: Result<u64, MeowError>, second: Result<u64, MeowError>, refresh: bool| {
        let mut download = PresignedRangeDownload::new(1, plan());
        let mut active = ActiveRefreshes::new();
        let ask = asking(&TestDownloadRefresher);
        let chosen = if refresh { Some(&ask) } else { None };
        let result = download.ensure_fresh_plan_at(chosen, &mut active, first, second);
        assert!(!active.contains(1));
        result.map(|plan| plan.range_headers.contains_key("x-refreshed"))
    };
    let broken = || Err(MeowError::from_code_str(InnerErrorCode::InvalidTaskState, "no clock"));
    assert!(!run(Ok(999 - margin), Ok(5000), true).unwrap(), "not due");
    assert!(run(Ok(1000), Ok(1000), true).unwrap(), "due");
    assert!(!run(Ok(1000), Ok(0), true).unwrap(), "renewed meanwhile");
    assert!(!run(Ok(999), Ok(999), false).unwrap(), "not expired yet");
    assert_eq!(
        run(Ok(1000), Ok(1000), false).unwrap_err().msg(),
        "presigned range URL expired and no refresher is configured"
    );
    assert_eq!(run(broken(), Ok(0), true).unwrap_err().msg(), "no clock");
    assert_eq!(run(Ok(1000), broken(), true).unwrap_err().msg(), "no clock");
    let mut download = PresignedRangeDownload::new(1, plan());
    let mut active = ActiveRefreshes::new();
    active.enter(1).unwrap();
    let ask = asking(&TestDownloadRefresher);
    let reentered =
        download.ensure_fresh_plan_at(Some(&ask), &mut active, Ok(1000), Ok(1000));
    assert_eq!(
        refusal(reentered).msg(),
        "presigned range URL refresher re-entered the same download"
    );
}

#[test]
fn a_clock_that_fails_matters_only_where_it_decides() {
    let broken = || Err(MeowError::from_code_str(InnerErrorCode::InvalidTaskState, "no clock"));
    let upload = PresignedMultipartUpload::new(
        PresignedMultipartUploadPlan::new(
            10,
            5,
            vec![
                PresignedUploadPart::put(1, 0, 5, "https://e/1").with_expires_at_unix_secs(100),
                PresignedUploadPart::put(2, 5, 5, "https://e/2"),
            ],
        )
        .with_refresh_before_secs(10),
    );
    let sent = |choice| matches!(choice, Ok(PartChoice::Send(_)));
    assert!(sent(upload.part_for_upload_at(0, false, Ok(89), broken())), "not due");
    assert!(sent(upload.part_for_upload_at(5, false, broken(), broken())), "no expiry");
    assert!(matches!(
        upload.part_for_upload_at(0, true, Ok(90), broken()),
        Ok(PartChoice::Refresh(_))
    ));
    assert_eq!(
        refusal(upload.part_for_upload_at(0, false, Ok(90), broken())).msg(),
        "no clock"
    );
    assert_eq!(
        refusal(upload.part_for_upload_at(0, true, broken(), Ok(0))).msg(),
        "no clock"
    );

    let download = PresignedRangeDownload::new(
        1,
        PresignedRangeDownloadPlan::new("https://e/object")
            .with_range_expires_at_unix_secs(100)
            .with_refresh_before_secs(10),
    );
    let none = ActiveRefreshes::new();
    assert_eq!(
        download.check_fresh_at(false, &none, Ok(89), broken()).unwrap(),
        Freshness::Fresh
    );
    assert_eq!(
        download.check_fresh_at(true, &none, Ok(90), broken()).unwrap(),
        Freshness::Stale
    );
    assert!(download.check_fresh_at(false, &none, Ok(90), broken()).is_err());
    let mut active = ActiveRefreshes::new();
    assert!(download.begin_refresh_at(&mut active, broken()).is_err());
    assert!(!active.contains(1), "nothing began");
}

#[test]
fn a_refresher_that_panics_is_an_error_and_leaves_nothing_under_way() {
    let mut download = PresignedRangeDownload::new(
        1,
        PresignedRangeDownloadPlan::new("https://e/object").with_range_expires_at_unix_secs(1),
    );
    let mut active = ActiveRefreshes::new();
    let panicking = |_: &PresignedRangeDownloadPlan| RefreshOutcome::Panicked;
    let error = refusal(download.ensure_fresh_plan(Some(&panicking), &mut active));
    assert_eq!(error.code(), InnerErrorCode::InvalidTaskState);
    assert_eq!(error.msg(), "presigned range URL refresher panicked");
    assert!(!active.contains(1));
    assert_eq!(download.plan().range_url, "https://e/object");
}

#[test]
fn uploads_go_on_where_their_parts_leave_off() {
    let upload = PresignedMultipartUpload::new(two_part_plan());
    assert_eq!(upload.resumed_offset_from(&vec![]), 0);
    assert_eq!(upload.resumed_offset_from(&vec![uploaded(1, 0, 5)]), 5);
    let swapped = vec![uploaded(2, 5, 5), uploaded(1, 0, 5)];
    assert_eq!(upload.resumed_offset_from(&swapped), 10);
    assert_eq!(upload.resumed_offset_from(&vec![uploaded(2, 5, 5)]), 0);
}

#[test]
fn completion_lists_keep_the_least_number_and_are_settled() {
    let list = sort_dedup_completion_parts(vec![
        uploaded(9, 5, 5),
        uploaded(2, 5, 5),
        uploaded(1, 0, 5),
    ]);
    let numbers =
        |list: &[PresignedUploadedPart]| -> Vec<u64> { list.iter().map(|p| p.part_number).collect() };
    assert_eq!(numbers(&list), vec![1, 2]);
    assert_eq!(numbers(&sort_dedup_completion_parts(list)), vec![1, 2]);
}
