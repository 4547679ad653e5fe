//! What holds of the runs of calls by which signed uploads and downloads are
//! carried out.

use vstd::prelude::*;

use reqwest::header::{HeaderMap, HeaderValue};

use crate::clock::ClockReading;
use crate::error::{InnerErrorCode, MeowError};
use crate::headers;
use crate::order;
use crate::presigned::completion_request::CompletionRequest;
use crate::presigned::laws;
use crate::presigned::metadata::Metadata;
use crate::presigned::multipart_upload;
use crate::presigned::multipart_upload::{CompletionBody, PartChoice, PartResponse, PresignedMultipartUpload, UploadResumeInfo};
use crate::presigned::multipart_upload_plan;
use crate::presigned::multipart_upload_plan::PresignedMultipartUploadPlan;
use crate::presigned::range_download;
use crate::presigned::range_download::{ActiveRefreshes, Freshness, PendingRangeUrl, PresignedDownloadUrlRefresher, PresignedRangeDownload, RefreshOutcome};
use crate::presigned::range_download_plan::PresignedRangeDownloadPlan;
use crate::presigned::time;
use crate::presigned::upload_part::PresignedUploadPart;
use crate::presigned::uploaded_part;
use crate::presigned::uploaded_part::PresignedUploadedPart;
use crate::text;

verus! {

// ---------------------------------------------------------------------------
// Uploads
// ---------------------------------------------------------------------------

/// The body of the completing request of an upload. Without such a request
/// there is none; a body that the request has is sent as it is. Otherwise a
/// builder of the application gets the uploaded parts, or they are sent as JSON
/// where the request asks for that: every offset that was uploaded is among
/// them, each is one that was uploaded, and they ascend by part number.
pub proof fn law_completing_requests_carry_the_uploaded_parts(
    upload: &PresignedMultipartUpload,
    has_body_builder: bool,
    body: Option<CompletionBody>,
    recorded: int,
    listed: int,
    later: int,
)
    requires
        call_ensures(
            PresignedMultipartUpload::completion_body,
            (upload, has_body_builder),
            body,
        ),
    ensures
        body is None <==> upload.spec_plan().complete_request is None,
        upload.spec_plan().complete_request matches Some(request) ==> {
            let uploaded = upload.spec_uploaded();
            let list = laws::carried(body);
            let own = request.body is Some;
            let listing = !own && (has_body_builder || request.uploaded_parts_json_body);
            &&& own ==> (body matches Some(CompletionBody::Fixed(bytes)) && bytes@
                == request.body->Some_0@)
            &&& !own && has_body_builder ==> body->Some_0 is Custom
            &&& listing && !has_body_builder ==> body->Some_0 is UploadedParts
            &&& !own && !listing ==> body->Some_0 is Empty
            &&& listing && uploaded.len() > 0 ==> list.len() > 0
            &&& listing && 0 <= recorded < uploaded.len() ==> exists|i: int|
                0 <= i < list.len() && (#[trigger] laws::carried(body)[i]).offset
                    == uploaded[recorded].offset
            &&& listing && 0 <= listed < list.len() ==> exists|j: int|
                0 <= j < uploaded.len() && (#[trigger] uploaded[j]).offset == list[listed].offset
                    && uploaded[j].part_number == list[listed].part_number && uploaded[j].etag
                    == list[listed].etag && uploaded[j].size == list[listed].size
                    && uploaded[j].provider_part_id == list[listed].provider_part_id
            &&& listing && 0 <= listed < later < list.len() ==> list[listed].part_number
                <= list[later].part_number && list[listed].offset != list[later].offset
        },
{
    laws::law_completion_body_carries_the_uploaded_parts(
        upload.spec_plan(),
        has_body_builder,
        upload.spec_uploaded(),
        body,
        recorded,
        listed,
        later,
    );
}

/// A part that the server accepted is recorded with its entity tag, and the
/// upload goes on behind it; one that it refused is an error with the status
/// and changes nothing.
pub proof fn law_answers_to_parts_are_recorded(
    upload: &mut PresignedMultipartUpload,
    part: &PresignedUploadPart,
    response: PartResponse,
    result: Result<UploadResumeInfo, MeowError>,
)
    requires
        forall|i: int, j: int|
            0 <= i < old(upload).spec_uploaded().len() && 0 <= j < old(upload).spec_uploaded().len() && i != j ==> (
            #[trigger] old(upload).spec_uploaded()[i]).offset != (
            #[trigger] old(upload).spec_uploaded()[j]).offset,
        part.offset + part.size <= u64::MAX,
        call_ensures(PresignedMultipartUpload::on_part_response, (upload, part, response), result),
    ensures
        final(upload).spec_plan() == old(upload).spec_plan(),
        result is Ok <==> 200 <= response.status_code < 300,
        result matches Err(e) ==> {
            &&& final(upload).spec_uploaded() == old(upload).spec_uploaded()
            &&& e.code == InnerErrorCode::ResponseStatusError
            &&& e.http_status == Some(response.status_code)
            &&& e.msg@ == "presigned upload part failed: "@ + response.status@ + ", body: "@
                + response.body@
        },
        result matches Ok(info) ==> {
            let new = final(upload).spec_uploaded();
            let list = old(upload).spec_uploaded();
            &&& info.next_byte == Some((part.offset + part.size) as u64)
            &&& info.completed_file_id is None
            &&& info.provider_upload_id == old(upload).spec_plan().upload_id
            &&& exists|i: int|
                0 <= i < new.len() && (#[trigger] new[i]).offset == part.offset && new[i].size
                    == part.size && new[i].part_number == part.part_number && new[i].etag
                    == response.etag && new[i].provider_part_id == part.provider_part_id
            &&& forall|i: int|
                0 <= i < list.len() && (#[trigger] list[i]).offset != part.offset ==> new[i]
                    == list[i]
        },
{
    if result is Ok {
        laws::law_recording_replaces_or_adds(
            old(upload).spec_uploaded(),
            multipart_upload::uploaded_as(*part, response.etag),
        );
        let new = final(upload).spec_uploaded();
        let made = multipart_upload::uploaded_as(*part, response.etag);
        let i = choose|i: int| 0 <= i < new.len() && #[trigger] new[i] == made;
        assert(new[i].offset == part.offset);
    }
}

/// An upload is prepared exactly where its plan can be carried out and is for
/// the size and the chunks of the task; it goes on at the offset it is given or
/// behind what was uploaded without a gap, whichever lies further on.
pub proof fn law_uploads_are_prepared_by_their_plan(
    upload: &PresignedMultipartUpload,
    total_size: u64,
    chunk_size: u64,
    local_offset: u64,
    result: Result<UploadResumeInfo, MeowError>,
    resumed: u64,
    uploaded: &Vec<PresignedUploadedPart>,
)
    requires
        call_ensures(
            PresignedMultipartUpload::prepare,
            (upload, total_size, chunk_size, local_offset),
            result,
        ),
        uploaded@ == upload.spec_uploaded(),
        call_ensures(PresignedMultipartUpload::resumed_offset_from, (upload, uploaded), resumed),
    ensures
        result is Ok ==> upload.spec_plan().total_size == total_size
            && upload.spec_plan().chunk_size == chunk_size && chunk_size > 0,
        result matches Ok(info) ==> {
            &&& info.next_byte is Some
            &&& info.next_byte->Some_0 >= local_offset
            &&& info.next_byte->Some_0 >= resumed
            &&& info.next_byte->Some_0 == local_offset || info.next_byte->Some_0 == resumed
            &&& info.completed_file_id is None
            &&& info.provider_upload_id == upload.spec_plan().upload_id
        },
        upload.spec_plan().is_valid() && upload.spec_plan().total_size == total_size
            && upload.spec_plan().chunk_size == chunk_size ==> result is Ok,
        upload.spec_plan().is_valid() && upload.spec_plan().total_size != total_size
            ==> result->Err_0.code == InnerErrorCode::InvalidTaskState && result->Err_0.msg@
            == "presigned plan total_size mismatch: plan="@ + text::decimal(
            upload.spec_plan().total_size as nat,
        ) + " task="@ + text::decimal(total_size as nat),
        upload.spec_uploaded().len() == 0 ==> resumed == 0,
{
    if upload.spec_uploaded().len() == 0 {
        let sorted = uploaded_part::sorted(
            uploaded_part::PartKey::Offset,
            upload.spec_uploaded(),
        );
        uploaded_part::law_sorting_only_reorders(uploaded_part::PartKey::Offset, upload.spec_uploaded());
        assert(sorted.len() == 0);
    }
}

/// A chunk is sent for a part exactly where it has the part's size.
pub proof fn law_chunks_fit_their_part(
    part: &PresignedUploadPart,
    chunk_len: usize,
    result: Result<(), MeowError>,
)
    requires
        call_ensures(PresignedMultipartUpload::check_chunk, (part, chunk_len), result),
    ensures
        result is Ok <==> part.size == chunk_len,
        result matches Err(e) ==> e.code == InnerErrorCode::InvalidRange && e.msg@
            == "presigned part size mismatch: part="@ + text::decimal(part.size as nat)
            + " chunk="@ + text::decimal(chunk_len as nat),
{
}

/// A fresh URL is taken exactly where it is for the same part, and as it is.
pub proof fn law_fresh_urls_are_for_the_same_part(
    part: &PresignedUploadPart,
    refreshed: PresignedUploadPart,
    result: Result<PresignedUploadPart, MeowError>,
)
    requires
        call_ensures(PresignedMultipartUpload::accept_refreshed, (part, refreshed), result),
    ensures
        result is Ok <==> refreshed.part_number == part.part_number && refreshed.offset
            == part.offset && refreshed.size == part.size,
        result is Ok ==> result->Ok_0 == refreshed,
        result matches Err(e) ==> e.code == InnerErrorCode::InvalidTaskState,
{
}

/// A part is sent with the URL that the plan has for its offset while that can
/// be used, and a part that the plan does not have is refused.
pub proof fn law_parts_are_sent_by_their_plan(
    upload: &PresignedMultipartUpload,
    offset: u64,
    has_refresher: bool,
    first: Result<u64, MeowError>,
    second: Result<u64, MeowError>,
    result: Result<PartChoice, MeowError>,
    i: int,
)
    requires
        call_ensures(
            PresignedMultipartUpload::part_for_upload_at,
            (upload, offset, has_refresher, first, second),
            result,
        ),
    ensures
        ({
            let parts = upload.spec_plan().parts@;
            let first_there = 0 <= i < parts.len() && parts[i].offset == offset && (forall|j: int|
                0 <= j < i ==> (#[trigger] parts[j]).offset != offset);
            let none_there = forall|j: int|
                0 <= j < parts.len() ==> (#[trigger] parts[j]).offset != offset;
            &&& none_there ==> result is Err && result->Err_0.code == InnerErrorCode::InvalidRange
                && result->Err_0.msg@ == "missing presigned upload part for offset "@
                + text::decimal(offset as nat)
            &&& first_there && parts[i].expires_at_unix_secs is None ==> (result matches Ok(
                PartChoice::Send(sent),
            ) && sent.url@ == parts[i].url@ && sent.offset == offset && sent.size == parts[i].size
                && sent.part_number == parts[i].part_number && sent.method@ == parts[i].method@)
            &&& first_there ==> (parts[i].expires_at_unix_secs matches Some(expires) ==> (
            first matches Ok(now) ==> {
                let nears = now + upload.spec_plan().refresh_before_secs >= expires;
                &&& !nears ==> (result matches Ok(PartChoice::Send(sent)) && sent.url@
                    == parts[i].url@)
                &&& nears && has_refresher ==> (result matches Ok(PartChoice::Refresh(old))
                    && old.part_number == parts[i].part_number && old.offset == offset)
                &&& nears && !has_refresher ==> (second matches Ok(later) ==> (result is Ok
                    <==> later < expires))
            }))
        }),
{
    let parts = upload.spec_plan().parts@;
    laws::law_parts_are_found_by_offset(parts, offset);
    if 0 <= i < parts.len() && parts[i].offset == offset && (forall|j: int|
        0 <= j < i ==> (#[trigger] parts[j]).offset != offset) {
        lemma_first_part(parts, offset, i);
    }
}

/// The first part at an offset is the one that is found there.
proof fn lemma_first_part(parts: Seq<PresignedUploadPart>, offset: u64, i: int)
    requires
        0 <= i < parts.len(),
        parts[i].offset == offset,
        forall|j: int| 0 <= j < i ==> (#[trigger] parts[j]).offset != offset,
    ensures
        multipart_upload_plan::part_at(parts, offset) == Some(parts[i]),
    decreases parts.len(),
{
    if i > 0 {
        let rest = parts.skip(1);
        assert(parts[0].offset != offset);
        assert forall|j: int| 0 <= j < i - 1 implies (#[trigger] rest[j]).offset != offset by {
            assert(rest[j] == parts[j + 1]);
        }
        lemma_first_part(rest, offset, i - 1);
    }
}

/// The answer to a completing or aborting request is its text, unless that is
/// empty, where the request was met, and an error with the status otherwise.
pub proof fn law_answers_are_handed_on(
    label: &str,
    status_code: u16,
    status: &str,
    body: String,
    result: Result<Option<String>, MeowError>,
)
    requires
        call_ensures(multipart_upload::callback_result, (label, status_code, status, body), result),
    ensures
        result is Ok <==> 200 <= status_code < 300,
        result is Ok ==> (result->Ok_0 is Some <==> body@.len() > 0),
        result is Ok && body@.len() > 0 ==> result->Ok_0->Some_0@ == body@,
        result matches Err(e) ==> e.code == InnerErrorCode::ResponseStatusError && e.http_status
            == Some(status_code) && e.msg@ == label@ + " failed: "@ + status@ + ", body: "@ + body@,
{
}

/// An entity tag is told without the quotes around it and otherwise as it is.
pub proof fn law_tags_are_told_without_quotes(
    part: &PresignedUploadedPart,
    told: Option<String>,
    inner: Seq<char>,
)
    requires
        call_ensures(PresignedUploadedPart::etag_unquoted, (part,), told),
    ensures
        told is Some <==> part.etag is Some,
        part.etag matches Some(tag) ==> {
            &&& inner.len() > 0 && inner[0] != '"' && inner.last() != '"' && (tag@ == inner || tag@
                == seq!['"'] + inner + seq!['"']) ==> told->Some_0@ == inner
            &&& tag@.len() == 0 ==> told->Some_0@.len() == 0
            &&& told->Some_0@.len() > 0 ==> told->Some_0@[0] != '"' && told->Some_0@.last() != '"'
        },
{
    if let Some(tag) = part.etag {
        let plain = told->Some_0@;
        let (from, to) = choose|from: int, to: int| #[trigger]
            uploaded_part::quotes_around(tag@, from, to) && plain == tag@.subrange(from, to);
        if inner.len() > 0 && inner[0] != '"' && inner.last() != '"' {
            if tag@ == inner {
                assert(from == 0) by {
                    if from > 0 {
                        assert(tag@[0] == '"');
                    }
                }
                assert(to == inner.len()) by {
                    if to < inner.len() {
                        assert(tag@[inner.len() - 1] == '"');
                    }
                }
                assert(plain =~= inner);
            } else if tag@ == seq!['"'] + inner + seq!['"'] {
                assert(tag@[1] == inner[0]);
                assert(tag@[inner.len() as int] == inner.last());
                assert(tag@[0] == '"');
                assert(tag@[inner.len() as int + 1] == '"');
                assert(from <= 1) by {
                    if from > 1 {
                        assert(tag@[1] == '"');
                    }
                }
                assert(to >= inner.len() + 1) by {
                    if to < inner.len() + 1 {
                        assert(tag@[inner.len() as int] == '"');
                    }
                }
                assert(from == 1 && to == inner.len() + 1);
                assert(plain =~= inner);
            }
        }
    }
}

/// A new upload has uploaded nothing; one that resumes has what was recorded
/// last of each offset, in the order of offsets.
pub proof fn law_uploads_resume_what_was_recorded(
    plan: PresignedMultipartUploadPlan,
    made: PresignedMultipartUpload,
    parts: Vec<PresignedUploadedPart>,
    resumed: PresignedMultipartUpload,
    recorded: int,
    kept: int,
    later: int,
)
    requires
        call_ensures(PresignedMultipartUpload::new, (plan,), made),
        call_ensures(PresignedMultipartUpload::with_resumed_parts, (made, parts), resumed),
    ensures
        made.spec_plan() == plan,
        made.spec_uploaded().len() == 0,
        resumed.spec_plan() == plan,
        ({
            let list = resumed.spec_uploaded();
            &&& 0 <= kept < later < list.len() ==> list[kept].offset < list[later].offset
            &&& 0 <= kept < list.len() ==> parts@.contains(list[kept])
            &&& 0 <= recorded < parts@.len() && (forall|k: int|
                recorded < k < parts@.len() ==> (#[trigger] parts@[k]).offset
                    != parts@[recorded].offset) ==> list.contains(parts@[recorded])
        }),
{
    laws::law_resumed_parts_are_the_latest(
        parts@,
        resumed.spec_uploaded(),
        recorded,
        kept,
        later,
    );
}

/// What was asked of a plan is what it has.
pub proof fn law_plans_are_as_asked(
    total_size: u64,
    chunk_size: u64,
    parts: Vec<PresignedUploadPart>,
    made: PresignedMultipartUploadPlan,
    id: String,
    named: PresignedMultipartUploadPlan,
    request: CompletionRequest,
    completed: PresignedMultipartUploadPlan,
    aborting: PresignedMultipartUploadPlan,
)
    requires
        call_ensures(PresignedMultipartUploadPlan::new, (total_size, chunk_size, parts), made),
        call_ensures(PresignedMultipartUploadPlan::with_upload_id, (made, id), named),
        call_ensures(
            PresignedMultipartUploadPlan::with_complete_request,
            (named, request),
            completed,
        ),
        call_ensures(
            PresignedMultipartUploadPlan::with_abort_request,
            (completed, request),
            aborting,
        ),
    ensures
        made.upload_id is None,
        made.complete_request is None,
        made.abort_request is None,
        made.refresh_before_secs == 60,
        aborting.total_size == total_size,
        aborting.chunk_size == chunk_size,
        aborting.parts == parts,
        aborting.upload_id == Some(id),
        completed.complete_request == Some(request),
        completed.abort_request is None,
        aborting.complete_request == Some(request),
        aborting.abort_request == Some(request),
{
}

/// A request that completes an upload is as it was asked for.
pub proof fn law_requests_are_as_asked(
    method: &str,
    url: &str,
    made: CompletionRequest,
    body: Vec<u8>,
    with_body: CompletionRequest,
    listing: CompletionRequest,
)
    requires
        call_ensures(CompletionRequest::new, (method, url), made),
        call_ensures(CompletionRequest::with_body, (made, body), with_body),
        call_ensures(CompletionRequest::with_uploaded_parts_json_body, (made,), listing),
    ensures
        made.method@ == method@,
        made.url@ == url@,
        made.body is None,
        !made.uploaded_parts_json_body,
        with_body.body == Some(body),
        with_body.url == made.url,
        listing.uploaded_parts_json_body,
        listing.body is None,
{
}

/// What was put into the metadata comes out of it under its name; other names
/// keep what they had.
pub proof fn law_metadata_is_kept_by_name(
    made: Metadata,
    metadata: &mut Metadata,
    name: String,
    value: String,
    asked: &str,
    before: Option<&str>,
    after: Option<&str>,
)
    requires
        call_ensures(Metadata::new, (), made),
        call_ensures(Metadata::insert, (metadata, name, value), ()),
        call_ensures(Metadata::get, (old(metadata), asked), before),
        call_ensures(Metadata::get, (final(metadata), asked), after),
    ensures
        !made@.contains_key(asked@),
        asked@ == name@ ==> (after matches Some(found) && found@ == value@),
        asked@ != name@ ==> after is Some == before is Some,
        asked@ != name@ && before is Some ==> after->Some_0@ == before->Some_0@,
{
}

// ---------------------------------------------------------------------------
// Time
// ---------------------------------------------------------------------------

/// The time is the one that was read; a clock that cannot be read is an error.
pub proof fn law_time_is_what_was_read(
    reading: Result<ClockReading, String>,
    secs: Result<u64, MeowError>,
    expires_at: Option<u64>,
    margin: u64,
    now: u64,
    due: bool,
)
    requires
        call_ensures(time::unix_secs_from, (reading,), secs),
        call_ensures(time::due, (expires_at, margin, now), due),
    ensures
        secs is Ok <==> reading is Ok,
        reading matches Ok(read) ==> secs->Ok_0 == read.secs,
        reading matches Err(why) ==> secs->Err_0.code == InnerErrorCode::InvalidTaskState
            && secs->Err_0.msg@ == "system time before unix epoch: "@ + why@,
        due <==> expires_at is Some && now + margin >= expires_at->Some_0,
{
}

// ---------------------------------------------------------------------------
// Downloads
// ---------------------------------------------------------------------------

/// A renewal is entered once at a time, and can be entered again after it was
/// left.
pub proof fn law_renewals_exclude_themselves(
    entered: &mut ActiveRefreshes,
    key: u64,
    first: Result<(), MeowError>,
    again: &mut ActiveRefreshes,
    second: Result<(), MeowError>,
    left: &mut ActiveRefreshes,
    there: bool,
)
    requires
        !old(entered)@.contains(key),
        call_ensures(ActiveRefreshes::enter, (entered, key), first),
        *old(again) == *final(entered),
        call_ensures(ActiveRefreshes::enter, (again, key), second),
        *old(left) == *final(again),
        call_ensures(ActiveRefreshes::leave, (left, key), ()),
        call_ensures(ActiveRefreshes::contains, (final(left), key), there),
    ensures
        first is Ok,
        final(entered)@.contains(key),
        second is Err,
        second->Err_0.code == InnerErrorCode::InvalidTaskState,
        second->Err_0.msg@ == "presigned range URL refresher re-entered the same download"@,
        final(left)@ == old(entered)@,
        !there,
{
    let keys = final(entered)@;
    let last = keys.len() - 1;
    assert(keys[last] == key);
    assert(keys.contains(key));
    assert(final(again)@ == keys);
    let at = choose|at: int| #[trigger]
        range_download::last_place(keys, key, at) && final(left)@
            == keys.remove(at);
    assert(at == last) by {
        if at < last {
            assert(keys[last] != key);
        }
    }
    assert(final(left)@ =~= old(entered)@);
}

/// After a renewal the download has the fresh plan where there is one that does
/// not contradict the size; in every other case it keeps its plan and the
/// failure is reported.
pub proof fn law_downloads_go_on_with_fresh_plans(
    download: &mut PresignedRangeDownload,
    active: &mut ActiveRefreshes,
    outcome: RefreshOutcome,
    result: Result<(), MeowError>,
)
    requires
        call_ensures(PresignedRangeDownload::finish_refresh, (download, active, outcome), result),
    ensures
        final(download).spec_key() == old(download).spec_key(),
        result is Err ==> final(download).spec_plan() == old(download).spec_plan(),
        outcome is Panicked ==> result is Err && result->Err_0.code
            == InnerErrorCode::InvalidTaskState && result->Err_0.msg@
            == "presigned range URL refresher panicked"@,
        outcome matches RefreshOutcome::Failed(e) ==> result is Err && result->Err_0 == e,
        outcome matches RefreshOutcome::Refreshed(fresh) ==> {
            let known = old(download).spec_plan().total_size;
            let next = final(download).spec_plan();
            &&& result is Err <==> known is Some && fresh.total_size is Some && known->Some_0
                != fresh.total_size->Some_0
            &&& result is Err ==> result->Err_0.msg@ == "refreshed range total_size mismatch: old="@
                + text::decimal(known->Some_0 as nat) + " new="@ + text::decimal(
                fresh.total_size->Some_0 as nat,
            )
            &&& result is Ok ==> next.range_url == fresh.range_url && next.head_url
                == fresh.head_url && next.range_expires_at_unix_secs
                == fresh.range_expires_at_unix_secs && next.range_headers == fresh.range_headers
                && next.head_headers == fresh.head_headers
            &&& result is Ok && known is Some ==> next.total_size == known
            &&& result is Ok && known is None ==> next.total_size == fresh.total_size
        },
{
}

/// Whether a plan has to be renewed before it is used, and whether it may be
/// used at all, goes by its expiry and the clock.
pub proof fn law_downloads_check_their_plan(
    download: &PresignedRangeDownload,
    has_refresher: bool,
    active: &ActiveRefreshes,
    first: Result<u64, MeowError>,
    second: Result<u64, MeowError>,
    result: Result<Freshness, MeowError>,
    entered: &mut ActiveRefreshes,
    begun: Result<Freshness, MeowError>,
)
    requires
        call_ensures(
            PresignedRangeDownload::check_fresh_at,
            (download, has_refresher, active, first, second),
            result,
        ),
        call_ensures(
            PresignedRangeDownload::begin_refresh_at,
            (download, entered, first),
            begun,
        ),
    ensures
        ({
            let expires = download.spec_plan().range_expires_at_unix_secs;
            let nears = expires is Some && first is Ok && first->Ok_0
                + download.spec_plan().refresh_before_secs >= expires->Some_0;
            &&& expires is None ==> result is Ok && result->Ok_0 is Fresh
            &&& first is Ok && !nears ==> result is Ok && result->Ok_0 is Fresh && begun is Ok
                && begun->Ok_0 is Fresh
            &&& result is Ok && result->Ok_0 is Stale <==> nears && has_refresher
                && !active@.contains(download.spec_key())
            &&& nears && !has_refresher && second is Ok ==> (result is Ok <==> second->Ok_0
                < expires->Some_0)
            &&& begun is Ok && begun->Ok_0 is Stale <==> nears && !old(entered)@.contains(
                download.spec_key(),
            )
            &&& final(entered)@ == if begun is Ok && begun->Ok_0 is Stale {
                old(entered)@.push(download.spec_key())
            } else {
                old(entered)@
            }
        }),
{
    laws::law_expired_plans_are_not_used(
        download.spec_plan(),
        has_refresher,
        active@.contains(download.spec_key()),
        first,
        second,
        result,
    );
    laws::law_renewals_begin_once(
        download.spec_plan(),
        download.spec_key(),
        old(entered)@,
        first,
        final(entered)@,
        begun,
    );
}

/// A URL that was remembered for a download is the next it asks with, once;
/// another download goes by its own plan and leaves it.
pub proof fn law_remembered_urls_are_used_once(
    pending: &mut PendingRangeUrl,
    url: String,
    download: &PresignedRangeDownload,
    owner: u64,
    used: &mut PendingRangeUrl,
    first: String,
    again: &mut PendingRangeUrl,
    second: String,
)
    requires
        call_ensures(PendingRangeUrl::remember, (pending, owner, url), ()),
        *old(used) == *final(pending),
        call_ensures(PresignedRangeDownload::range_url, (download, used), first),
        *old(again) == *final(used),
        call_ensures(PresignedRangeDownload::range_url, (download, again), second),
    ensures
        owner == download.spec_key() ==> first@ == url@ && final(used)@ is None,
        owner != download.spec_key() ==> first@ == download.spec_plan().range_url@ && final(used)@
            == Some((owner, url@)),
        second@ == download.spec_plan().range_url@,
{
}

/// What a download says of its object is what its plan says.
pub proof fn law_downloads_tell_their_plan(
    key: u64,
    plan: PresignedRangeDownloadPlan,
    download: PresignedRangeDownload,
    size: Option<u64>,
    task_url: &str,
    head: String,
    copy: PresignedRangeDownloadPlan,
)
    requires
        call_ensures(PresignedRangeDownload::new, (key, plan), download),
        call_ensures(PresignedRangeDownload::total_size_hint, (&download,), size),
        call_ensures(PresignedRangeDownload::head_url, (&download, task_url), head),
        call_ensures(PresignedRangeDownload::plan, (&download,), copy),
    ensures
        size == plan.total_size,
        plan.head_url is None ==> head@ == task_url@,
        plan.head_url matches Some(url) ==> head@ == url@,
        copy.range_url@ == plan.range_url@,
        copy.total_size == plan.total_size,
        copy.range_expires_at_unix_secs == plan.range_expires_at_unix_secs,
        copy.refresh_before_secs == plan.refresh_before_secs,
        copy.head_url == plan.head_url,
{
}

/// The request for a range goes to the URL of the plan, names the range, and
/// carries what the plan adds; a range that no header can hold is refused.
pub proof fn law_range_requests_go_by_the_plan(
    download: &PresignedRangeDownload,
    range_value: &str,
    base: HeaderMap<HeaderValue>,
    result: Result<(String, HeaderMap<HeaderValue>), MeowError>,
)
    requires
        call_ensures(PresignedRangeDownload::range_request, (download, range_value, base), result),
    ensures
        result matches Ok((url, request)) ==> {
            let sent = headers::header_contents(request);
            let own = headers::header_contents(download.spec_plan().range_headers);
            &&& url@ == download.spec_plan().range_url@
            &&& !own.contains_key("range"@) ==> sent.contains_key("range"@) && sent["range"@]
                == seq![vstd::utf8::encode_utf8(range_value@)]
            &&& sent.contains_key("accept"@)
        },
        !headers::is_header_text(range_value@) ==> result is Err && result->Err_0.code
            == InnerErrorCode::ParameterEmpty && result->Err_0.msg@
            == "invalid range header value '"@ + range_value@ + "': "@
            + "failed to parse header value"@,
{
    laws::law_range_requests_name_the_range(
        headers::header_contents(base),
        range_value@,
        "range"@,
    );
}

// ---------------------------------------------------------------------------
// What is asked for and told
// ---------------------------------------------------------------------------

/// A signed part is as it was asked for: sent by PUT, without headers and
/// without an expiry unless it is given them.
pub proof fn law_signed_parts_are_as_asked(
    part_number: u64,
    offset: u64,
    size: u64,
    url: &str,
    made: PresignedUploadPart,
    id: String,
    named: PresignedUploadPart,
    expires: u64,
    expiring: PresignedUploadPart,
    headers: HeaderMap<HeaderValue>,
    sent: PresignedUploadPart,
)
    requires
        call_ensures(PresignedUploadPart::put, (part_number, offset, size, url), made),
        call_ensures(PresignedUploadPart::with_provider_part_id, (made, id), named),
        call_ensures(PresignedUploadPart::with_expires_at_unix_secs, (named, expires), expiring),
        call_ensures(PresignedUploadPart::with_headers, (expiring, headers), sent),
    ensures
        made.method@ == "PUT"@,
        made.expires_at_unix_secs is None,
        made.provider_part_id is None,
        headers::header_contents(made.headers).dom() == Set::<Seq<char>>::empty(),
        sent.part_number == part_number,
        sent.offset == offset,
        sent.size == size,
        sent.url@ == url@,
        sent.method == made.method,
        sent.provider_part_id == Some(id),
        sent.expires_at_unix_secs == Some(expires),
        sent.headers == headers,
{
}

/// A plan for a download is as it was asked for.
pub proof fn law_download_plans_are_as_asked(
    url: &str,
    made: PresignedRangeDownloadPlan,
    size: u64,
    a: PresignedRangeDownloadPlan,
    head: String,
    b: PresignedRangeDownloadPlan,
    expires: u64,
    c: PresignedRangeDownloadPlan,
    margin: u64,
    d: PresignedRangeDownloadPlan,
    head_headers: HeaderMap<HeaderValue>,
    e: PresignedRangeDownloadPlan,
    range_headers: HeaderMap<HeaderValue>,
    f: PresignedRangeDownloadPlan,
)
    requires
        call_ensures(PresignedRangeDownloadPlan::new, (url,), made),
        call_ensures(PresignedRangeDownloadPlan::with_total_size, (made, size), a),
        call_ensures(PresignedRangeDownloadPlan::with_head_url, (a, head), b),
        call_ensures(PresignedRangeDownloadPlan::with_range_expires_at_unix_secs, (b, expires), c),
        call_ensures(PresignedRangeDownloadPlan::with_refresh_before_secs, (c, margin), d),
        call_ensures(PresignedRangeDownloadPlan::with_head_headers, (d, head_headers), e),
        call_ensures(PresignedRangeDownloadPlan::with_range_headers, (e, range_headers), f),
    ensures
        made.total_size is None,
        made.head_url is None,
        made.range_expires_at_unix_secs is None,
        made.refresh_before_secs == 60,
        f.range_url@ == url@,
        f.total_size == Some(size),
        f.head_url == Some(head),
        f.range_expires_at_unix_secs == Some(expires),
        f.refresh_before_secs == margin,
        f.head_headers == head_headers,
        f.range_headers == range_headers,
{
}

/// The rest of a plan for an upload is as it was asked for, and its metadata
/// grows by what is added.
pub proof fn law_upload_plans_are_as_asked(
    plan: PresignedMultipartUploadPlan,
    secs: u64,
    a: PresignedMultipartUploadPlan,
    name: String,
    value: String,
    b: PresignedMultipartUploadPlan,
    request: CompletionRequest,
    headers: HeaderMap<HeaderValue>,
    with_headers: CompletionRequest,
)
    requires
        call_ensures(PresignedMultipartUploadPlan::with_refresh_before_secs, (plan, secs), a),
        call_ensures(PresignedMultipartUploadPlan::with_metadata, (a, name, value), b),
        call_ensures(CompletionRequest::with_headers, (request, headers), with_headers),
    ensures
        b.refresh_before_secs == secs,
        b.metadata@.contains_key(name@),
        b.metadata@[name@] == value@,
        b.parts == plan.parts,
        b.total_size == plan.total_size,
        b.chunk_size == plan.chunk_size,
        b.upload_id == plan.upload_id,
        b.complete_request == plan.complete_request,
        b.abort_request == plan.abort_request,
        with_headers.headers == headers,
        with_headers.url == request.url,
        with_headers.method == request.method,
        with_headers.body == request.body,
{
}

/// What an upload tells is what it has: its plan, what it uploaded, and the
/// request that aborts it. Its parts may be sent at the same time.
pub proof fn law_uploads_tell_what_they_have(
    upload: &PresignedMultipartUpload,
    plan: &PresignedMultipartUploadPlan,
    parts: Vec<PresignedUploadedPart>,
    parallel: bool,
    abort: Option<&CompletionRequest>,
)
    requires
        call_ensures(PresignedMultipartUpload::plan, (upload,), plan),
        call_ensures(PresignedMultipartUpload::uploaded_parts, (upload,), parts),
        call_ensures(PresignedMultipartUpload::supports_parallel_parts, (upload,), parallel),
        call_ensures(PresignedMultipartUpload::abort_request, (upload,), abort),
    ensures
        *plan == upload.spec_plan(),
        parts@ == upload.spec_uploaded(),
        parallel,
        abort is Some <==> upload.spec_plan().abort_request is Some,
        upload.spec_plan().abort_request matches Some(request) ==> *(abort->Some_0) == request,
{
}

/// By the clock of the machine, too, a part without an expiry is sent with its
/// URL, and one that the plan does not have is refused.
pub proof fn law_parts_are_sent_by_the_clock(
    upload: &PresignedMultipartUpload,
    offset: u64,
    has_refresher: bool,
    result: Result<PartChoice, MeowError>,
    i: int,
)
    requires
        call_ensures(
            PresignedMultipartUpload::part_for_upload,
            (upload, offset, has_refresher),
            result,
        ),
    ensures
        ({
            let parts = upload.spec_plan().parts@;
            let first_there = 0 <= i < parts.len() && parts[i].offset == offset && (forall|j: int|
                0 <= j < i ==> (#[trigger] parts[j]).offset != offset);
            let none_there = forall|j: int|
                0 <= j < parts.len() ==> (#[trigger] parts[j]).offset != offset;
            &&& none_there ==> result is Err && result->Err_0.code == InnerErrorCode::InvalidRange
            &&& first_there && parts[i].expires_at_unix_secs is None ==> (result matches Ok(
                PartChoice::Send(sent),
            ) && sent.url@ == parts[i].url@ && sent.part_number == parts[i].part_number)
            &&& first_there ==> (result matches Ok(PartChoice::Send(sent)) ==> sent.url@
                == parts[i].url@)
            &&& first_there ==> (result matches Ok(PartChoice::Refresh(old)) ==> has_refresher
                && old.part_number == parts[i].part_number)
        }),
{
    let parts = upload.spec_plan().parts@;
    laws::law_parts_are_found_by_offset(parts, offset);
    if 0 <= i < parts.len() && parts[i].offset == offset && (forall|j: int|
        0 <= j < i ==> (#[trigger] parts[j]).offset != offset) {
        lemma_first_part(parts, offset, i);
    }
}

/// By the clock of the machine, too, a plan without an expiry is fresh and is
/// never renewed; a renewal is entered only where it is to begin.
pub proof fn law_plans_without_expiry_stay(
    download: &PresignedRangeDownload,
    has_refresher: bool,
    active: &ActiveRefreshes,
    result: Result<Freshness, MeowError>,
    entered: &mut ActiveRefreshes,
    begun: Result<Freshness, MeowError>,
)
    requires
        call_ensures(
            PresignedRangeDownload::check_fresh,
            (download, has_refresher, active),
            result,
        ),
        call_ensures(PresignedRangeDownload::begin_refresh, (download, entered), begun),
    ensures
        download.spec_plan().range_expires_at_unix_secs is None ==> result is Ok && result->Ok_0
            is Fresh && begun is Ok && begun->Ok_0 is Fresh,
        result is Ok && result->Ok_0 is Stale ==> has_refresher && !active@.contains(
            download.spec_key(),
        ),
        final(entered)@ == if begun is Ok && begun->Ok_0 is Stale {
            old(entered)@.push(download.spec_key())
        } else {
            old(entered)@
        },
{
}

/// Making sure of a fresh plan leaves no renewal under way, hands out the plan
/// that the download then has, and keeps the plan where it fails; a plan that
/// changed is the refresher's.
pub proof fn law_downloads_hand_out_their_plan<
    F: Fn(&PresignedRangeDownloadPlan) -> RefreshOutcome,
>(
    download: &mut PresignedRangeDownload,
    ask: Option<&F>,
    active: &mut ActiveRefreshes,
    result: Result<PresignedRangeDownloadPlan, MeowError>,
)
    requires
        call_ensures(
            PresignedRangeDownload::ensure_fresh_plan::<F>,
            (download, ask, active),
            result,
        ),
    ensures
        final(active)@ == old(active)@,
        final(download).spec_key() == old(download).spec_key(),
        result is Err ==> final(download).spec_plan() == old(download).spec_plan(),
        result matches Ok(plan) ==> plan.range_url@ == final(download).spec_plan().range_url@
            && plan.total_size == final(download).spec_plan().total_size
            && plan.range_expires_at_unix_secs
            == final(download).spec_plan().range_expires_at_unix_secs,
        old(download).spec_plan().range_expires_at_unix_secs is None ==> result is Ok
            && final(download).spec_plan() == old(download).spec_plan(),
        ask is None ==> final(download).spec_plan() == old(download).spec_plan(),
        old(active)@.contains(old(download).spec_key()) ==> final(download).spec_plan()
            == old(download).spec_plan(),
        old(download).spec_plan().total_size is Some ==> final(download).spec_plan().total_size
            == old(download).spec_plan().total_size,
{
}

/// With the time given, making sure of a fresh plan never hands out a URL that
/// has expired and could not be renewed, and asks nobody before the margin.
pub proof fn law_expired_downloads_are_refused<
    F: Fn(&PresignedRangeDownloadPlan) -> RefreshOutcome,
>(
    download: &mut PresignedRangeDownload,
    ask: Option<&F>,
    active: &mut ActiveRefreshes,
    first: Result<u64, MeowError>,
    second: Result<u64, MeowError>,
    result: Result<PresignedRangeDownloadPlan, MeowError>,
)
    requires
        call_ensures(
            PresignedRangeDownload::ensure_fresh_plan_at::<F>,
            (download, ask, active, first, second),
            result,
        ),
    ensures
        ({
            let plan = old(download).spec_plan();
            let expires = plan.range_expires_at_unix_secs;
            let nears = expires is Some && first is Ok && first->Ok_0 + plan.refresh_before_secs
                >= expires->Some_0;
            &&& final(active)@ == old(active)@
            &&& expires is Some && first is Err ==> result is Err
            &&& first is Ok && !nears ==> result is Ok && final(download).spec_plan() == plan
                && result->Ok_0.range_url@ == plan.range_url@
            &&& nears && ask is None && second is Ok && second->Ok_0 >= expires->Some_0 ==> result
                is Err && result->Err_0.code == InnerErrorCode::InvalidTaskState
            &&& nears && ask is None && second is Ok && second->Ok_0 < expires->Some_0 ==> result
                is Ok && result->Ok_0.range_url@ == plan.range_url@
            &&& nears && ask is Some && old(active)@.contains(old(download).spec_key()) ==> result
                is Err
        }),
{
    laws::law_fresh_plans_are_handed_out(
        old(download).spec_plan(),
        ask,
        old(active)@.contains(old(download).spec_key()),
        first,
        second,
        final(download).spec_plan(),
        result,
    );
}

/// What the application answers is what comes of asking it.
pub proof fn law_refreshers_are_asked<R: PresignedDownloadUrlRefresher + ?Sized>(
    refresher: &R,
    plan: &PresignedRangeDownloadPlan,
    outcome: RefreshOutcome,
)
    requires
        call_ensures(range_download::ask_refresher::<R>, (refresher, plan), outcome),
    ensures
        !(outcome is Panicked),
        outcome matches RefreshOutcome::Refreshed(fresh) ==> call_ensures(
            R::refresh_range_download,
            (refresher, plan),
            Ok::<PresignedRangeDownloadPlan, MeowError>(fresh),
        ),
        outcome matches RefreshOutcome::Failed(e) ==> call_ensures(
            R::refresh_range_download,
            (refresher, plan),
            Err::<PresignedRangeDownloadPlan, MeowError>(e),
        ),
{
}

/// The headers that a plan has for asking about its object replace those of
/// their names and leave the others.
pub proof fn law_head_headers_are_merged(
    download: &PresignedRangeDownload,
    base: &mut HeaderMap<HeaderValue>,
    merged: bool,
    name: Seq<char>,
)
    requires
        call_ensures(PresignedRangeDownload::merge_head_headers, (download, base), merged),
    ensures
        ({
            let before = headers::header_contents(*old(base));
            let after = headers::header_contents(*final(base));
            let own = headers::header_contents(download.spec_plan().head_headers);
            &&& !merged ==> after == before
            &&& merged && own.contains_key(name) ==> after.contains_key(name) && after[name]
                == seq![own[name].last()]
            &&& merged && !own.contains_key(name) ==> after.contains_key(name)
                == before.contains_key(name)
            &&& merged && !own.contains_key(name) && before.contains_key(name) ==> after[name]
                == before[name]
        }),
{
}

/// A plan is accepted exactly where it can be carried out, and its part at an
/// offset is the first that starts there.
pub proof fn law_plans_are_validated(
    plan: &PresignedMultipartUploadPlan,
    result: Result<(), MeowError>,
    offset: u64,
    part: Option<&PresignedUploadPart>,
    i: int,
)
    requires
        call_ensures(PresignedMultipartUploadPlan::validate, (plan,), result),
        call_ensures(PresignedMultipartUploadPlan::part_for_offset, (plan, offset), part),
    ensures
        plan.chunk_size == 0 ==> result is Err && result->Err_0.code
            == InnerErrorCode::ParameterEmpty,
        result is Ok ==> (plan.total_size > 0 ==> plan.parts@.len() > 0),
        result is Ok && 0 <= i < plan.parts@.len() ==> plan.parts@[i].size > 0
            && plan.parts@[i].offset + plan.parts@[i].size <= plan.total_size,
        plan.chunk_size > 0 && plan.parts@.len() == 0 && plan.total_size == 0 ==> result is Ok,
        0 <= i < plan.parts@.len() && plan.parts@[i].offset == offset && (forall|j: int|
            0 <= j < i ==> (#[trigger] plan.parts@[j]).offset != offset) ==> (part matches Some(
            found,
        ) && *found == plan.parts@[i]),
        (forall|j: int| 0 <= j < plan.parts@.len() ==> (#[trigger] plan.parts@[j]).offset != offset)
            ==> part is None,
{
    let parts = plan.parts@;
    laws::law_parts_are_found_by_offset(parts, offset);
    if 0 <= i < parts.len() && parts[i].offset == offset && (forall|j: int|
        0 <= j < i ==> (#[trigger] parts[j]).offset != offset) {
        lemma_first_part(parts, offset, i);
    }
    if 0 <= i < parts.len() {
        laws::law_faulty_parts_are_named(parts, i, plan.total_size);
        assert(plan.is_valid() ==> multipart_upload_plan::part_fault(parts, i, plan.total_size)
            is None);
    }
    if plan.chunk_size == 0 {
        assert(!plan.is_valid());
    }
}

/// What completes an upload is listed once for each offset, in the order of part
/// numbers; what is recorded of a part is found at its offset; and a request is
/// met by a status of the two hundreds.
pub proof fn law_parts_are_accounted_for(
    parts: Vec<PresignedUploadedPart>,
    list: Vec<PresignedUploadedPart>,
    i: int,
    j: int,
    status: u16,
    success: bool,
)
    requires
        call_ensures(uploaded_part::sort_dedup_completion_parts, (parts,), list),
        call_ensures(multipart_upload::is_success, (status,), success),
        0 <= i < j < list@.len(),
    ensures
        list@[i].part_number <= list@[j].part_number,
        list@[i].offset != list@[j].offset,
        success <==> 200 <= status < 300,
{
    laws::law_completion_lists_the_uploaded_parts(parts@, 0, i, j);
}

/// Nothing is remembered and nothing is under way at first; a remembered URL is
/// taken once, by the download it was remembered for.
pub proof fn law_remembered_urls_are_taken_once(
    made: PendingRangeUrl,
    active: ActiveRefreshes,
    pending: &mut PendingRangeUrl,
    owner: u64,
    url: String,
    asked: &mut PendingRangeUrl,
    key: u64,
    taken: Option<String>,
    again: &mut PendingRangeUrl,
    second: Option<String>,
)
    requires
        call_ensures(PendingRangeUrl::new, (), made),
        call_ensures(ActiveRefreshes::new, (), active),
        call_ensures(PendingRangeUrl::remember, (pending, owner, url), ()),
        *old(asked) == *final(pending),
        call_ensures(PendingRangeUrl::take, (asked, key), taken),
        *old(again) == *final(asked),
        call_ensures(PendingRangeUrl::take, (again, key), second),
    ensures
        made@ is None,
        !active@.contains(key),
        taken is Some <==> key == owner,
        taken matches Some(found) ==> found@ == url@,
        second is None,
        key != owner ==> final(again)@ == Some((owner, url@)),
{
}

/// Metadata is told by ascending names, each with its value.
pub proof fn law_metadata_is_told_in_order(
    metadata: &Metadata,
    len: usize,
    i: usize,
    first: (&str, &str),
    j: usize,
    second: (&str, &str),
)
    requires
        call_ensures(Metadata::len, (metadata,), len),
        i < j < len,
        call_ensures(Metadata::entry, (metadata, i), first),
        call_ensures(Metadata::entry, (metadata, j), second),
    ensures
        metadata@.contains_key(first.0@),
        metadata@[first.0@] == first.1@,
        metadata@.contains_key(second.0@),
        metadata@[second.0@] == second.1@,
        exists|p: int|
            0 <= p <= first.0@.len() && p < second.0@.len() && (p == first.0@.len()
                || #[trigger] first.0@[p] < second.0@[p]) && (forall|q: int|
                0 <= q < p ==> first.0@[q] == second.0@[q]),
{
    let names = metadata.spec_names();
    assert(first.0@ == names[i as int]);
    assert(second.0@ == names[j as int]);
    assert(order::before(order::char_less(), names[i as int], names[j as int]));
    let p = choose|p: int| order::before_at(order::char_less(), first.0@, second.0@, p);
    assert(0 <= p <= first.0@.len() && p < second.0@.len());
    if p < first.0@.len() {
        assert(first.0@[p] < second.0@[p]);
    }
}

} // verus!
