//! What holds of signed uploads and downloads, told by what they are handed and
//! what they give back.

use vstd::prelude::*;

use crate::error;
use crate::error::{InnerErrorCode, MeowError};
use crate::headers;
use crate::presigned::multipart_upload;
use crate::presigned::multipart_upload::{CompletionBody, PartChoice};
use crate::presigned::multipart_upload_plan;
use crate::presigned::multipart_upload_plan::PresignedMultipartUploadPlan;
use crate::presigned::range_download;
use crate::presigned::range_download::{Freshness, PendingRangeUrl, RefreshOutcome};
use crate::presigned::range_download_plan;
use crate::presigned::range_download_plan::PresignedRangeDownloadPlan;
use crate::presigned::time;
use crate::presigned::upload_part;
use crate::presigned::upload_part::PresignedUploadPart;
use crate::presigned::uploaded_part;
use crate::presigned::uploaded_part::PresignedUploadedPart;
use crate::text;

verus! {

// ---------------------------------------------------------------------------
// Time
// ---------------------------------------------------------------------------

/// A URL is due from the moment on that lies the margin before it expires, and
/// a URL that does not expire never is.
pub proof fn law_due_from_the_margin_on(expires_at: u64, margin: u64, now: u64)
    ensures
        time::is_due(Some(expires_at), margin, now) <==> now >= expires_at - margin,
        !time::is_due(None, margin, now),
{
}

// ---------------------------------------------------------------------------
// What completes an upload
// ---------------------------------------------------------------------------

/// What completes an upload lists what was uploaded: every offset that was
/// uploaded once, with all that was recorded of it, in the order of part
/// numbers, and nothing else. Of several records for an offset the one with the
/// least number is listed. The list is empty only where nothing was uploaded.
pub proof fn law_completion_lists_the_uploaded_parts(
    uploaded: Seq<PresignedUploadedPart>,
    recorded: int,
    listed: int,
    later: int,
)
    ensures
        ({
            let list = uploaded_part::completion_parts(uploaded);
            &&& 0 <= listed < list.len() ==> exists|j: int|
                0 <= j < uploaded.len() && #[trigger] uploaded[j] == list[listed]
            &&& 0 <= recorded < uploaded.len() ==> exists|i: int|
                0 <= i < list.len() && (#[trigger] list[i]).offset == uploaded[recorded].offset
                    && list[i].part_number <= uploaded[recorded].part_number
            &&& 0 <= listed < later < list.len() ==> list[listed].offset != list[later].offset
                && list[listed].part_number <= list[later].part_number
            &&& uploaded.len() > 0 ==> list.len() > 0
        }),
{
    let list = uploaded_part::completion_parts(uploaded);
    uploaded_part::law_completion_list_is_sound(uploaded);
    uploaded_part::law_completion_list_is_settled(uploaded);
    if 0 <= listed < list.len() {
        assert(uploaded.contains(list[listed]));
    }
    if 0 <= recorded < uploaded.len() {
        let offset = uploaded[recorded].offset;
        assert(uploaded_part::has_offset(uploaded, offset));
        assert(uploaded_part::has_offset(list, offset));
        let i = choose|i: int| 0 <= i < list.len() && (#[trigger] list[i]).offset == offset;
        assert(list[i].part_number <= uploaded[recorded].part_number);
    }
    if 0 <= listed < later < list.len() {
        assert(uploaded_part::not_after(
            uploaded_part::PartKey::Number,
            list[listed],
            list[later],
        ));
    }
    if uploaded.len() > 0 {
        assert(uploaded_part::has_offset(uploaded, uploaded[0].offset));
        assert(uploaded_part::has_offset(list, uploaded[0].offset));
    }
}

/// Where no offset was recorded twice, every part that was uploaded is listed
/// as it was recorded.
pub proof fn law_completion_lists_all_parts(uploaded: Seq<PresignedUploadedPart>, recorded: int)
    requires
        forall|i: int, j: int|
            0 <= i < j < uploaded.len() ==> (#[trigger] uploaded[i]).offset != (
            #[trigger] uploaded[j]).offset,
        0 <= recorded < uploaded.len(),
    ensures
        uploaded_part::completion_parts(uploaded).contains(uploaded[recorded]),
{
    let list = uploaded_part::completion_parts(uploaded);
    law_completion_lists_the_uploaded_parts(uploaded, recorded, 0, 0);
    let i = choose|i: int|
        0 <= i < list.len() && (#[trigger] list[i]).offset == uploaded[recorded].offset
            && list[i].part_number <= uploaded[recorded].part_number;
    law_completion_lists_the_uploaded_parts(uploaded, recorded, i, 0);
    let m = choose|m: int| 0 <= m < uploaded.len() && #[trigger] uploaded[m] == list[i];
    if m < recorded {
        assert(uploaded[m].offset != uploaded[recorded].offset);
    } else if recorded < m {
        assert(uploaded[recorded].offset != uploaded[m].offset);
    }
    assert(list[i] == uploaded[recorded]);
}

/// The parts that a body carries.
pub open spec fn carried(body: Option<CompletionBody>) -> Seq<PresignedUploadedPart> {
    match body {
        Some(CompletionBody::Custom(parts)) => parts@,
        Some(CompletionBody::UploadedParts(parts)) => parts@,
        _ => Seq::empty(),
    }
}

/// The body of the request that completes an upload. Without such a request
/// there is none, and a body of the request's own is sent as it is. Otherwise
/// the uploaded parts go to the application's builder where there is one, and
/// else as JSON where the request asks for it: every offset that was uploaded
/// is listed once, with its number, size and entity tag as recorded, by
/// ascending part number. The list is empty only where nothing was uploaded.
pub proof fn law_completion_body_carries_the_uploaded_parts(
    plan: PresignedMultipartUploadPlan,
    has_body_builder: bool,
    uploaded: Seq<PresignedUploadedPart>,
    body: Option<CompletionBody>,
    recorded: int,
    listed: int,
    later: int,
)
    requires
        multipart_upload::is_completion_body(
            plan,
            has_body_builder,
            uploaded_part::completion_parts(uploaded),
            body,
        ),
    ensures
        plan.complete_request is None <==> body is None,
        plan.complete_request matches Some(request) ==> {
            let open = request.body is None;
            let list = carried(body);
            &&& body->Some_0 is Fixed <==> !open
            &&& request.body matches Some(bytes) ==> (body matches Some(
                CompletionBody::Fixed(sent),
            ) && sent@ == bytes@)
            &&& body->Some_0 is Custom <==> open && has_body_builder
            &&& body->Some_0 is UploadedParts <==> open && !has_body_builder
                && request.uploaded_parts_json_body
            &&& body->Some_0 is Empty <==> open && !has_body_builder
                && !request.uploaded_parts_json_body
            &&& body->Some_0 is Custom || body->Some_0 is UploadedParts ==> {
                &&& uploaded.len() > 0 ==> list.len() > 0
                &&& 0 <= listed < list.len() ==> exists|j: int|
                    0 <= j < uploaded.len() && (#[trigger] uploaded[j]).offset
                        == list[listed].offset && uploaded[j].part_number
                        == list[listed].part_number && uploaded[j].size == list[listed].size
                        && uploaded[j].etag == list[listed].etag && uploaded[j].provider_part_id
                        == list[listed].provider_part_id
                &&& 0 <= recorded < uploaded.len() ==> exists|i: int|
                    0 <= i < list.len() && (#[trigger] carried(body)[i]).offset
                        == uploaded[recorded].offset
                &&& 0 <= listed < later < list.len() ==> list[listed].offset != list[later].offset
                    && list[listed].part_number <= list[later].part_number
            }
        },
{
    law_completion_lists_the_uploaded_parts(uploaded, recorded, listed, later);
    let made = uploaded_part::completion_parts(uploaded);
    if body is Some && (body->Some_0 is Custom || body->Some_0 is UploadedParts) {
        assert(carried(body) == made);
    }
    if 0 <= listed < made.len() {
        let j = choose|j: int| 0 <= j < uploaded.len() && #[trigger] uploaded[j] == made[listed];
        assert(uploaded[j].offset == made[listed].offset);
    }
    if 0 <= recorded < uploaded.len() {
        let i = choose|i: int|
            0 <= i < made.len() && (#[trigger] made[i]).offset == uploaded[recorded].offset;
        assert(made[i].offset == uploaded[recorded].offset);
    }
}

/// The application's builder gets the very list that is sent as JSON where
/// there is no builder.
pub proof fn law_builders_get_the_same_list(
    plan: PresignedMultipartUploadPlan,
    uploaded: Seq<PresignedUploadedPart>,
    built: Option<CompletionBody>,
    sent: Option<CompletionBody>,
)
    requires
        multipart_upload::is_completion_body(
            plan,
            true,
            uploaded_part::completion_parts(uploaded),
            built,
        ),
        multipart_upload::is_completion_body(
            plan,
            false,
            uploaded_part::completion_parts(uploaded),
            sent,
        ),
    ensures
        built is Some <==> sent is Some,
        sent matches Some(CompletionBody::UploadedParts(list)) ==> (built matches Some(
            CompletionBody::Custom(same),
        ) && same@ == list@),
        sent matches Some(CompletionBody::Fixed(bytes)) ==> (built matches Some(
            CompletionBody::Fixed(same),
        ) && same@ == bytes@),
{
}

// ---------------------------------------------------------------------------
// Uploaded parts
// ---------------------------------------------------------------------------

/// A request was met exactly where its status is one of the two hundreds.
pub proof fn law_success_is_a_two_hundred(status_code: u16)
    ensures
        multipart_upload::met(status_code) <==> status_code / 100 == 2,
{
}

/// What is recorded of a part that was accepted is the part as planned, with
/// the entity tag of the answer.
pub proof fn law_accepted_parts_are_recorded_as_planned(
    part: PresignedUploadPart,
    etag: Option<String>,
)
    ensures
        ({
            let recorded = multipart_upload::uploaded_as(part, etag);
            &&& recorded.part_number == part.part_number
            &&& recorded.provider_part_id == part.provider_part_id
            &&& recorded.offset == part.offset
            &&& recorded.size == part.size
            &&& recorded.etag == etag
        }),
{
}

/// A recorded part is found as it is at its offset; what was recorded of other
/// offsets stays, in its place, and nothing is recorded beyond that.
pub proof fn law_recording_replaces_or_adds(
    list: Seq<PresignedUploadedPart>,
    part: PresignedUploadedPart,
)
    requires
        forall|i: int, j: int|
            0 <= i < list.len() && 0 <= j < list.len() && i != j ==> (#[trigger] list[i]).offset
                != (#[trigger] list[j]).offset,
    ensures
        ({
            let new = uploaded_part::with_recorded(list, part);
            let known = exists|i: int|
                0 <= i < list.len() && (#[trigger] list[i]).offset == part.offset;
            &&& new.len() == list.len() + if known {
                0int
            } else {
                1int
            }
            &&& forall|i: int|
                0 <= i < list.len() && (#[trigger] list[i]).offset != part.offset ==> new[i]
                    == list[i]
            &&& forall|i: int|
                0 <= i < new.len() && (#[trigger] new[i]).offset == part.offset ==> new[i] == part
            &&& exists|i: int| 0 <= i < new.len() && #[trigger] new[i] == part
        }),
{
    uploaded_part::law_recording_keeps_offsets_distinct(list, part);
    let new = uploaded_part::with_recorded(list, part);
    let at = lemma_place(list, part);
    assert(new[at] == part);
    assert forall|i: int| 0 <= i < new.len() && (#[trigger] new[i]).offset
        == part.offset implies new[i] == part by {
        if i != at {
            assert(new[i].offset != new[at].offset);
        }
    }
}

/// Where a part is recorded.
proof fn lemma_place(list: Seq<PresignedUploadedPart>, part: PresignedUploadedPart) -> (at: int)
    ensures
        0 <= at <= list.len(),
        at == uploaded_part::place_of_offset(list, part.offset),
        forall|i: int| 0 <= i < at ==> (#[trigger] list[i]).offset != part.offset,
        at < list.len() ==> list[at].offset == part.offset,
    decreases list.len(),
{
    if list.len() > 0 && list[0].offset != part.offset {
        let rest = list.skip(1);
        let at = lemma_place(rest, part);
        assert forall|i: int| 0 <= i < at + 1 implies (#[trigger] list[i]).offset
            != part.offset by {
            if i > 0 {
                assert(rest[i - 1] == list[i]);
            }
        }
        at + 1
    } else {
        0
    }
}

/// Parts that an earlier process uploaded are taken over by offset, each offset
/// once and with the last that was recorded of it, in the order of offsets.
pub proof fn law_resumed_parts_are_the_latest(
    all: Seq<PresignedUploadedPart>,
    list: Seq<PresignedUploadedPart>,
    recorded: int,
    kept: int,
    later: int,
)
    requires
        uploaded_part::is_latest_by_offset(all, list),
    ensures
        0 <= kept < later < list.len() ==> list[kept].offset < list[later].offset,
        0 <= kept < list.len() ==> all.contains(list[kept]),
        0 <= recorded < all.len() && (forall|k: int|
            recorded < k < all.len() ==> (#[trigger] all[k]).offset != all[recorded].offset)
            ==> list.contains(all[recorded]),
{
    if 0 <= kept < list.len() {
        let m = choose|m: int| #[trigger]
            uploaded_part::is_last_at_offset(all, m) && all[m] == list[kept];
        assert(all[m] == list[kept]);
    }
    if 0 <= recorded < all.len() && (forall|k: int|
        recorded < k < all.len() ==> (#[trigger] all[k]).offset != all[recorded].offset) {
        let offset = all[recorded].offset;
        assert(uploaded_part::has_offset(all, offset));
        assert(uploaded_part::has_offset(list, offset));
        let i = choose|i: int| 0 <= i < list.len() && (#[trigger] list[i]).offset == offset;
        let m = choose|m: int| #[trigger]
            uploaded_part::is_last_at_offset(all, m) && all[m] == list[i];
        if m < recorded {
            assert(all[recorded].offset != all[m].offset);
        } else if recorded < m {
            assert(all[m].offset != all[recorded].offset);
        }
        assert(list[i] == all[recorded]);
    }
}

// ---------------------------------------------------------------------------
// Plans of uploads
// ---------------------------------------------------------------------------

/// The part that is found at an offset is the first of the plan that starts
/// there; where none does, none is found.
pub proof fn law_parts_are_found_by_offset(parts: Seq<PresignedUploadPart>, offset: u64)
    ensures
        match multipart_upload_plan::part_at(parts, offset) {
            Some(part) => exists|i: int|
                0 <= i < parts.len() && #[trigger] parts[i] == part && part.offset == offset
                    && forall|j: int| 0 <= j < i ==> (#[trigger] parts[j]).offset != offset,
            None => forall|i: int| 0 <= i < parts.len() ==> (#[trigger] parts[i]).offset != offset,
        },
    decreases parts.len(),
{
    if parts.len() > 0 {
        if parts[0].offset == offset {
            assert(parts[0] == parts[0]);
        } else {
            let rest = parts.skip(1);
            law_parts_are_found_by_offset(rest, offset);
            match multipart_upload_plan::part_at(rest, offset) {
                Some(part) => {
                    let i = choose|i: int|
                        0 <= i < rest.len() && #[trigger] rest[i] == part && forall|j: int|
                            0 <= j < i ==> (#[trigger] rest[j]).offset != offset;
                    assert(parts[i + 1] == part);
                    assert forall|j: int| 0 <= j < i + 1 implies (#[trigger] parts[j]).offset
                        != offset by {
                        if j > 0 {
                            assert(rest[j - 1] == parts[j]);
                        }
                    }
                },
                None => {
                    assert forall|i: int| 0 <= i < parts.len() implies (
                    #[trigger] parts[i]).offset != offset by {
                        if i > 0 {
                            assert(rest[i - 1] == parts[i]);
                        }
                    }
                },
            }
        }
    }
}

/// A plan is valid exactly where its chunks have a size, an upload with bytes
/// has parts, every part has a byte and ends within the upload, and no two
/// parts start at the same offset.
pub proof fn law_valid_plans_can_be_carried_out(plan: PresignedMultipartUploadPlan)
    ensures
        plan.is_valid() <==> {
            &&& plan.chunk_size > 0
            &&& plan.total_size > 0 ==> plan.parts@.len() > 0
            &&& forall|i: int|
                0 <= i < plan.parts@.len() ==> (#[trigger] plan.parts@[i]).size > 0
                    && plan.parts@[i].offset + plan.parts@[i].size <= plan.total_size
            &&& forall|i: int, j: int|
                0 <= i < j < plan.parts@.len() ==> (#[trigger] plan.parts@[i]).offset != (
                #[trigger] plan.parts@[j]).offset
        },
{
    let parts = plan.parts@;
    if plan.is_valid() {
        assert forall|i: int| 0 <= i < parts.len() implies (#[trigger] parts[i]).size > 0
            && parts[i].offset + parts[i].size <= plan.total_size by {
            assert(multipart_upload_plan::part_fault(parts, i, plan.total_size) is None);
        }
        assert forall|i: int, j: int| 0 <= i < j < parts.len() implies (
        #[trigger] parts[i]).offset != (#[trigger] parts[j]).offset by {
            assert(multipart_upload_plan::part_fault(parts, j, plan.total_size) is None);
            assert(!multipart_upload_plan::repeats_offset(parts, j));
        }
    } else if plan.chunk_size > 0 && (plan.total_size > 0 ==> parts.len() > 0) {
        let i = choose|i: int|
            0 <= i < parts.len() && !(#[trigger] multipart_upload_plan::part_fault(
                parts,
                i,
                plan.total_size,
            ) is None);
        if multipart_upload_plan::repeats_offset(parts, i) {
            let j = choose|j: int| 0 <= j < i && (#[trigger] parts[j]).offset == parts[i].offset;
            assert(parts[j].offset == parts[i].offset);
        }
        assert(parts[i].size == parts[i].size);
    }
}

/// The refusal of a plan tells what is missing from what is out of range.
pub proof fn law_refused_plans_say_why(plan: PresignedMultipartUploadPlan, result: Result<(), MeowError>)
    requires
        plan.is_refused(result),
    ensures
        result is Err,
        result->Err_0.http_status is None,
        plan.chunk_size == 0 ==> result->Err_0.code == InnerErrorCode::ParameterEmpty
            && result->Err_0.msg@ == "presigned plan chunk_size must be greater than zero"@,
        plan.chunk_size > 0 && plan.total_size > 0 && plan.parts@.len() == 0 ==> result->Err_0.code
            == InnerErrorCode::ParameterEmpty && result->Err_0.msg@
            == "presigned plan parts must not be empty for non-empty upload"@,
        plan.chunk_size > 0 && !(plan.total_size > 0 && plan.parts@.len() == 0)
            ==> result->Err_0.code == InnerErrorCode::InvalidRange,
{
}

/// A part that cannot be carried out is named with its number and what is wrong
/// with it, or with the offset that it shares with an earlier one.
pub proof fn law_faulty_parts_are_named(parts: Seq<PresignedUploadPart>, i: int, total_size: u64)
    requires
        0 <= i < parts.len(),
    ensures
        ({
            let part = parts[i];
            let number = text::decimal(part.part_number as nat);
            let end = part.offset + part.size;
            let fault = multipart_upload_plan::part_fault(parts, i, total_size);
            let repeats = exists|j: int|
                0 <= j < i && (#[trigger] parts[j]).offset == part.offset;
            &&& part.size == 0 ==> fault == Some("presigned part "@ + number + " has zero size"@)
            &&& part.size > 0 && end > u64::MAX ==> fault == Some(
                "presigned part "@ + number + " range overflow"@,
            )
            &&& part.size > 0 && total_size < end <= u64::MAX ==> fault == Some(
                "presigned part "@ + number + " out of range: end="@ + text::decimal(end as nat)
                    + " total="@ + text::decimal(total_size as nat),
            )
            &&& part.size > 0 && end <= total_size && repeats ==> fault == Some(
                "duplicate presigned part offset: "@ + text::decimal(part.offset as nat),
            )
            &&& part.size > 0 && end <= total_size && !repeats ==> fault is None
        }),
{
}

/// An uploaded part counts where the plan has a part of its size at its offset.
pub proof fn law_uploaded_parts_count_as_planned(
    plan: PresignedMultipartUploadPlan,
    part: PresignedUploadedPart,
)
    requires
        plan.is_valid(),
    ensures
        multipart_upload::agrees(plan, part) <==> exists|i: int|
            0 <= i < plan.parts@.len() && (#[trigger] plan.parts@[i]).offset == part.offset
                && plan.parts@[i].size == part.size,
{
    law_parts_are_found_by_offset(plan.parts@, part.offset);
    law_valid_plans_can_be_carried_out(plan);
}

/// Every byte before the offset at which an upload goes on lies in a part that
/// was uploaded as planned; with parts that share no byte, none that was
/// uploaded as planned begins at that offset, and the upload goes on at most at
/// its end.
pub proof fn law_an_upload_goes_on_where_its_parts_leave_off(
    plan: PresignedMultipartUploadPlan,
    uploaded: Seq<PresignedUploadedPart>,
    byte: int,
    at: int,
)
    requires
        plan.is_valid(),
    ensures
        ({
            let resumed = multipart_upload::resumed_offset(plan, uploaded);
            &&& 0 <= resumed <= plan.total_size
            &&& uploaded.len() == 0 ==> resumed == 0
            &&& 0 <= byte < resumed ==> exists|i: int, j: int|
                0 <= i < uploaded.len() && 0 <= j < plan.parts@.len() && (
                #[trigger] uploaded[i]).offset <= byte < uploaded[i].offset + uploaded[i].size && (
                #[trigger] plan.parts@[j]).offset == uploaded[i].offset && plan.parts@[j].size
                    == uploaded[i].size
            &&& (forall|i: int, j: int|
                0 <= i < uploaded.len() && 0 <= j < uploaded.len() && i != j ==> (
                #[trigger] uploaded[i]).offset + uploaded[i].size <= (
                #[trigger] uploaded[j]).offset || uploaded[j].offset + uploaded[j].size
                    <= uploaded[i].offset) && (forall|i: int|
                0 <= i < uploaded.len() ==> (#[trigger] uploaded[i]).size > 0) && 0 <= at
                < uploaded.len() && uploaded[at].offset == resumed ==> forall|j: int|
                0 <= j < plan.parts@.len() && (#[trigger] plan.parts@[j]).offset == resumed
                    ==> plan.parts@[j].size != uploaded[at].size
        }),
{
    let resumed = multipart_upload::resumed_offset(plan, uploaded);
    multipart_upload::law_resume_stays_within_the_object(plan, uploaded);
    if 0 <= byte < resumed {
        multipart_upload::law_resume_skips_nothing(plan, uploaded, byte);
        let i = choose|i: int|
            0 <= i < uploaded.len() && multipart_upload::agrees(plan, #[trigger] uploaded[i])
                && uploaded[i].offset <= byte < uploaded[i].offset + uploaded[i].size;
        law_uploaded_parts_count_as_planned(plan, uploaded[i]);
        let j = choose|j: int|
            0 <= j < plan.parts@.len() && (#[trigger] plan.parts@[j]).offset == uploaded[i].offset
                && plan.parts@[j].size == uploaded[i].size;
        assert(uploaded[i].offset <= byte && plan.parts@[j].offset == uploaded[i].offset);
    }
    if multipart_upload::apart(uploaded) {
        multipart_upload::law_resume_is_maximal(plan, uploaded);
        if 0 <= at < uploaded.len() && uploaded[at].offset == resumed {
            law_uploaded_parts_count_as_planned(plan, uploaded[at]);
        }
    }
    if uploaded.len() == 0 {
        assert(multipart_upload::apart(uploaded));
    }
}

/// Two parts that hold the same agree in every field, and in their headers.
pub proof fn law_same_parts_agree(a: PresignedUploadPart, b: PresignedUploadPart)
    ensures
        upload_part::same_part(a, b) <==> a.part_number == b.part_number && a.offset == b.offset
            && a.size == b.size && a.method@ == b.method@ && a.url@ == b.url@
            && a.provider_part_id == b.provider_part_id && a.expires_at_unix_secs
            == b.expires_at_unix_secs && headers::header_contents(a.headers)
            == headers::header_contents(b.headers),
{
}

/// Which URL a part is sent to. A part that the plan does not have is refused.
/// A URL that does not expire, or not before the margin is up, is used as it
/// is, without a question. One that is about to expire is renewed wherever that
/// is possible and never used then; where it is not, it is used until it has
/// expired and refused from then on. A clock that cannot be read is never taken
/// for a time.
pub proof fn law_expired_urls_are_not_used(
    plan: PresignedMultipartUploadPlan,
    offset: u64,
    has_refresher: bool,
    first: Result<u64, MeowError>,
    second: Result<u64, MeowError>,
    result: Result<PartChoice, MeowError>,
    at: int,
)
    requires
        plan.is_valid(),
        multipart_upload::is_part_choice(plan, offset, has_refresher, first, second, result),
    ensures
        (forall|i: int| 0 <= i < plan.parts@.len() ==> (#[trigger] plan.parts@[i]).offset != offset)
            ==> result is Err && result->Err_0.code == InnerErrorCode::InvalidRange
            && result->Err_0.msg@ == "missing presigned upload part for offset "@ + text::decimal(
            offset as nat,
        ),
        0 <= at < plan.parts@.len() && plan.parts@[at].offset == offset ==> {
            let part = plan.parts@[at];
            let expires = part.expires_at_unix_secs;
            let waits = expires is None || (first is Ok && first->Ok_0 + plan.refresh_before_secs
                < expires->Some_0);
            let nears = expires is Some && first is Ok && first->Ok_0 + plan.refresh_before_secs
                >= expires->Some_0;
            &&& waits ==> result is Ok && result->Ok_0 is Send
            &&& expires is Some && first is Err ==> result is Err && result->Err_0 == first->Err_0
            &&& nears && has_refresher ==> result is Ok && result->Ok_0 is Refresh
            &&& nears && !has_refresher && second is Err ==> result is Err && result->Err_0
                == second->Err_0
            &&& nears && !has_refresher && second is Ok && second->Ok_0 < expires->Some_0
                ==> result is Ok && result->Ok_0 is Send
            &&& nears && !has_refresher && second is Ok && second->Ok_0 >= expires->Some_0
                ==> result is Err && result->Err_0.code == InnerErrorCode::InvalidTaskState
            &&& result matches Ok(PartChoice::Send(chosen)) ==> upload_part::same_part(chosen, part)
            &&& result matches Ok(PartChoice::Refresh(chosen)) ==> upload_part::same_part(
                chosen,
                part,
            )
        },
{
    law_parts_are_found_by_offset(plan.parts@, offset);
    law_valid_plans_can_be_carried_out(plan);
}

// ---------------------------------------------------------------------------
// Downloads
// ---------------------------------------------------------------------------

/// Two plans that hold the same agree in every field, and in their headers.
pub proof fn law_same_plans_agree(a: PresignedRangeDownloadPlan, b: PresignedRangeDownloadPlan)
    ensures
        range_download_plan::same_plan(a, b) <==> a.total_size == b.total_size && a.head_url
            == b.head_url && a.range_url@ == b.range_url@ && a.range_expires_at_unix_secs
            == b.range_expires_at_unix_secs && a.refresh_before_secs == b.refresh_before_secs
            && headers::header_contents(a.head_headers) == headers::header_contents(b.head_headers)
            && headers::header_contents(a.range_headers) == headers::header_contents(
            b.range_headers,
        ),
{
}

/// Before a plan is used: a URL that does not expire, or not before the margin
/// is up, is fresh. One that is about to expire is renewed wherever that is
/// possible, but not from within its own renewal; where it is not possible, it
/// is fresh until it has expired and refused from then on. A clock that cannot
/// be read is never taken for a time.
pub proof fn law_expired_plans_are_not_used(
    plan: PresignedRangeDownloadPlan,
    has_refresher: bool,
    under_way: bool,
    first: Result<u64, MeowError>,
    second: Result<u64, MeowError>,
    result: Result<Freshness, MeowError>,
)
    requires
        range_download::is_freshness(plan, has_refresher, under_way, first, second, result),
    ensures
        ({
            let expires = plan.range_expires_at_unix_secs;
            let nears = expires is Some && first is Ok && first->Ok_0 + plan.refresh_before_secs
                >= expires->Some_0;
            &&& expires is None || (first is Ok && !nears) ==> result is Ok && result->Ok_0 is Fresh
            &&& expires is Some && first is Err ==> result is Err && result->Err_0 == first->Err_0
            &&& result is Ok && result->Ok_0 is Stale <==> nears && has_refresher && !under_way
            &&& nears && has_refresher && under_way ==> result is Err && result->Err_0.code
                == InnerErrorCode::InvalidTaskState && result->Err_0.msg@
                == "presigned range URL refresher re-entered the same download"@
            &&& nears && !has_refresher && second is Ok && second->Ok_0 < expires->Some_0
                ==> result is Ok && result->Ok_0 is Fresh
            &&& nears && !has_refresher && second is Ok && second->Ok_0 >= expires->Some_0
                ==> result is Err && result->Err_0.code == InnerErrorCode::InvalidTaskState
                && result->Err_0.msg@
                == "presigned range URL expired and no refresher is configured"@
            &&& nears && !has_refresher && second is Err ==> result is Err && result->Err_0
                == second->Err_0
        }),
{
}

/// A renewal begins exactly where the plan is still about to expire and the
/// same renewal is not under way; only then is it entered, behind those that
/// are under way.
pub proof fn law_renewals_begin_once(
    plan: PresignedRangeDownloadPlan,
    key: u64,
    before: Seq<u64>,
    now: Result<u64, MeowError>,
    after: Seq<u64>,
    result: Result<Freshness, MeowError>,
)
    requires
        range_download::is_refresh_start(plan, key, before, now, after, result),
    ensures
        ({
            let expires = plan.range_expires_at_unix_secs;
            let nears = expires is Some && now is Ok && now->Ok_0 + plan.refresh_before_secs
                >= expires->Some_0;
            &&& result is Ok && result->Ok_0 is Stale <==> nears && !before.contains(key)
            &&& result is Ok && result->Ok_0 is Stale ==> after == before.push(key)
            &&& !(result is Ok && result->Ok_0 is Stale) ==> after == before
            &&& nears && before.contains(key) ==> result is Err && result->Err_0.code
                == InnerErrorCode::InvalidTaskState
            &&& expires is None || (now is Ok && !nears) ==> result is Ok && result->Ok_0 is Fresh
            &&& expires is Some && now is Err ==> result is Err && result->Err_0 == now->Err_0
        }),
{
}

/// A renewed plan is the fresh one in everything but a size that it does not
/// give, which is kept.
pub proof fn law_fresh_plans_take_over(
    current: PresignedRangeDownloadPlan,
    fresh: PresignedRangeDownloadPlan,
)
    ensures
        ({
            let next = range_download::succeeding_plan(current, fresh);
            &&& next.range_url == fresh.range_url
            &&& next.head_url == fresh.head_url
            &&& next.range_expires_at_unix_secs == fresh.range_expires_at_unix_secs
            &&& next.refresh_before_secs == fresh.refresh_before_secs
            &&& next.head_headers == fresh.head_headers
            &&& next.range_headers == fresh.range_headers
            &&& fresh.total_size is Some ==> next.total_size == fresh.total_size
            &&& fresh.total_size is None ==> next.total_size == current.total_size
        }),
        range_download::sizes_differ(current, fresh) <==> current.total_size is Some
            && fresh.total_size is Some && current.total_size->Some_0 != fresh.total_size->Some_0,
{
}

/// What came of asking for a fresh plan decides: an answer whose size does not
/// contradict the one that is known takes over and is handed out. In every
/// other case the plan stays, and the failure, the panic or the contradiction
/// is reported.
pub proof fn law_renewals_follow_the_answer(
    plan: PresignedRangeDownloadPlan,
    outcome: RefreshOutcome,
    after: PresignedRangeDownloadPlan,
    result: Result<PresignedRangeDownloadPlan, MeowError>,
)
    requires
        range_download::follows_outcome(plan, outcome, after, result),
    ensures
        result is Err ==> after == plan,
        outcome is Panicked ==> error::fails_with(
            result,
            InnerErrorCode::InvalidTaskState,
            "presigned range URL refresher panicked"@,
        ),
        outcome matches RefreshOutcome::Failed(e) ==> result is Err && result->Err_0 == e,
        outcome matches RefreshOutcome::Refreshed(fresh) ==> {
            let contradicts = plan.total_size is Some && fresh.total_size is Some
                && plan.total_size->Some_0 != fresh.total_size->Some_0;
            &&& result is Err <==> contradicts
            &&& contradicts ==> result->Err_0.code == InnerErrorCode::InvalidTaskState
            &&& !contradicts ==> {
                &&& after.range_url == fresh.range_url
                &&& after.range_expires_at_unix_secs == fresh.range_expires_at_unix_secs
                &&& after.range_headers == fresh.range_headers
                &&& after.head_headers == fresh.head_headers
                &&& after.head_url == fresh.head_url
                &&& result->Ok_0.range_url@ == fresh.range_url@
                &&& result->Ok_0.range_expires_at_unix_secs == fresh.range_expires_at_unix_secs
                &&& headers::header_contents(result->Ok_0.range_headers)
                    == headers::header_contents(fresh.range_headers)
                &&& result->Ok_0.total_size == after.total_size
                &&& plan.total_size is Some ==> after.total_size == plan.total_size
                &&& plan.total_size is None ==> after.total_size == fresh.total_size
            }
        },
{
}

/// Making sure of a fresh plan never hands out one that had expired where it
/// could not be renewed, and asks nobody where the plan is not about to expire:
/// then the plan stays and is handed out as it is.
pub proof fn law_fresh_plans_are_handed_out<F: Fn(&PresignedRangeDownloadPlan) -> RefreshOutcome>(
    plan: PresignedRangeDownloadPlan,
    ask: Option<&F>,
    under_way: bool,
    first: Result<u64, MeowError>,
    second: Result<u64, MeowError>,
    after: PresignedRangeDownloadPlan,
    result: Result<PresignedRangeDownloadPlan, MeowError>,
)
    requires
        range_download::is_fresh_plan(plan, ask, under_way, first, second, after, result),
    ensures
        ({
            let expires = plan.range_expires_at_unix_secs;
            let margin = plan.refresh_before_secs;
            let nears = expires is Some && first is Ok && first->Ok_0 + margin >= expires->Some_0;
            let still = second is Ok && second->Ok_0 + margin >= expires->Some_0;
            &&& expires is None || (first is Ok && !nears) ==> after == plan && result is Ok
                && result->Ok_0.range_url@ == plan.range_url@ && result->Ok_0.total_size
                == plan.total_size && headers::header_contents(result->Ok_0.range_headers)
                == headers::header_contents(plan.range_headers)
            &&& expires is Some && first is Err ==> after == plan && result is Err
            &&& nears && ask is Some && under_way ==> after == plan && result is Err
                && result->Err_0.code == InnerErrorCode::InvalidTaskState
            &&& nears && second is Err ==> after == plan && result is Err
            &&& nears && ask is None && second is Ok && second->Ok_0 >= expires->Some_0 ==> after
                == plan && result is Err && result->Err_0.code == InnerErrorCode::InvalidTaskState
            &&& nears && ask is None && second is Ok && second->Ok_0 < expires->Some_0 ==> after
                == plan && result is Ok && result->Ok_0.range_url@ == plan.range_url@
            &&& nears && ask is Some && !under_way && second is Ok && !still ==> after == plan
                && result is Ok && result->Ok_0.range_url@ == plan.range_url@
            &&& nears && still && !under_way ==> (ask matches Some(f) ==> exists|
                outcome: RefreshOutcome,
            | #[trigger]
                call_ensures(*f, (&plan,), outcome) && range_download::follows_outcome(
                    plan,
                    outcome,
                    after,
                    result,
                ))
        }),
{
}

/// A request for a range says which range; it accepts bytes unless it said
/// already what it accepts, and leaves every other header as it was.
pub proof fn law_range_requests_name_the_range(
    base: Map<Seq<char>, Seq<Seq<u8>>>,
    range: Seq<char>,
    name: Seq<char>,
)
    ensures
        ({
            let request = range_download::ranged_headers(base, range);
            &&& request.contains_key("range"@)
            &&& request["range"@] == seq![vstd::utf8::encode_utf8(range)]
            &&& request.contains_key("accept"@)
            &&& base.contains_key("accept"@) ==> request["accept"@] == base["accept"@]
            &&& !base.contains_key("accept"@) ==> request["accept"@] == seq![
                vstd::utf8::encode_utf8("application/octet-stream"@),
            ]
            &&& name != "range"@ && name != "accept"@ ==> request.contains_key(name)
                == base.contains_key(name) && request[name] == base[name]
        }),
{
    reveal_strlit("range");
    reveal_strlit("accept");
    assert("range"@.len() != "accept"@.len());
    let ranged = base.insert("range"@, seq![vstd::utf8::encode_utf8(range)]);
    assert(ranged.contains_key("accept"@) == base.contains_key("accept"@));
}

/// The URL that goes with headers is handed out once, to the download that it
/// was remembered for; another download neither gets it nor takes it away.
pub proof fn law_pending_urls_are_handed_out_once(pending: PendingRangeUrl, key: u64)
    ensures
        pending@ is None ==> pending.taken(key) is None && pending.left(key) is None,
        pending@ matches Some((owner, url)) ==> {
            &&& owner == key ==> pending.taken(key) == Some(url) && pending.left(key) is None
            &&& owner != key ==> pending.taken(key) is None && pending.left(key) == Some(
                (owner, url),
            )
        },
{
}

} // verus!
