//! Uploads in parts over URLs that a server signed.

use vstd::prelude::*;
use vstd::string::*;

use crate::error;
use crate::error::{InnerErrorCode, MeowError};
use crate::presigned::completion_request::CompletionRequest;
use crate::presigned::multipart_upload_plan;
use crate::presigned::multipart_upload_plan::PresignedMultipartUploadPlan;
use crate::presigned::time;
use crate::presigned::time::{due, now_unix_secs};
use crate::presigned::upload_part;
use crate::presigned::upload_part::PresignedUploadPart;
use crate::presigned::uploaded_part;
use crate::presigned::uploaded_part::{copy_text, latest_by_offset, record_part, sort_dedup_completion_parts, sort_parts, PartKey, PresignedUploadedPart};
use crate::text;
use crate::text::push_decimal;

verus! {

/// Where an upload stands on the remote side.
#[derive(Debug)]
pub struct UploadResumeInfo {
    /// The result of an upload that is complete already.
    pub completed_file_id: Option<String>,
    /// The first byte that is still to be sent.
    pub next_byte: Option<u64>,
    /// The provider's name for the upload.
    pub provider_upload_id: Option<String>,
}

/// What to do with the URL of a part.
pub enum PartChoice {
    /// Send the part to it.
    Send(PresignedUploadPart),
    /// Ask for a fresh one first.
    Refresh(PresignedUploadPart),
}

/// Whether a status says that a request was met.
pub open spec fn met(status_code: u16) -> bool {
    200 <= status_code < 300
}

/// See [`met`].
pub fn is_success(status_code: u16) -> (success: bool)
    ensures
        success == (200 <= status_code < 300),
{
    200 <= status_code && status_code < 300
}

/// What a provider answered to a part.
#[derive(Debug)]
pub struct PartResponse {
    pub status_code: u16,
    /// The status as shown in messages.
    pub status: String,
    pub etag: Option<String>,
    /// The body, where the part was refused.
    pub body: String,
}

/// What the body of a completion request is.
#[derive(Debug)]
pub enum CompletionBody {
    Fixed(Vec<u8>),
    /// What the application makes of these parts.
    Custom(Vec<PresignedUploadedPart>),
    /// These parts as JSON.
    UploadedParts(Vec<PresignedUploadedPart>),
    Empty,
}

/// An upload in parts and the parts that were uploaded so far.
pub struct PresignedMultipartUpload {
    plan: PresignedMultipartUploadPlan,
    uploaded_parts: Vec<PresignedUploadedPart>,
}

/// Whether an uploaded part is what the plan has at its offset.
pub open spec fn agrees(
    plan: PresignedMultipartUploadPlan,
    part: PresignedUploadedPart,
) -> bool {
    multipart_upload_plan::part_at(plan.parts@, part.offset) matches Some(planned) && planned.size
        == part.size
}

/// From the part at a place on, how far parts follow each other without a gap
/// and as planned, starting at a given offset.
pub open spec fn prefix_end(
    plan: PresignedMultipartUploadPlan,
    parts: Seq<PresignedUploadedPart>,
    i: int,
    offset: int,
) -> int
    decreases parts.len() - i,
{
    if i < 0 || i >= parts.len() || parts[i].offset != offset || !agrees(plan, parts[i]) {
        offset
    } else {
        prefix_end(plan, parts, i + 1, end_of(parts[i]))
    }
}

/// The end of a part, as far as it can be told.
pub open spec fn end_of(part: PresignedUploadedPart) -> int {
    if part.offset + part.size <= u64::MAX {
        part.offset + part.size
    } else {
        u64::MAX as int
    }
}

/// Where an upload goes on: at the end of the longest run of parts that starts
/// at byte zero, has no gap, and agrees with the plan.
pub open spec fn resumed_offset(
    plan: PresignedMultipartUploadPlan,
    parts: Seq<PresignedUploadedPart>,
) -> int {
    prefix_end(plan, uploaded_part::sorted(PartKey::Offset, parts), 0, 0)
}

/// Whether a byte lies in an uploaded part that agrees with the plan.
pub open spec fn byte_uploaded(
    plan: PresignedMultipartUploadPlan,
    parts: Seq<PresignedUploadedPart>,
    byte: int,
) -> bool {
    exists|i: int|
        0 <= i < parts.len() && agrees(plan, #[trigger] parts[i]) && parts[i].offset <= byte
            < parts[i].offset + parts[i].size
}

proof fn lemma_prefix_end(
    plan: PresignedMultipartUploadPlan,
    parts: Seq<PresignedUploadedPart>,
    i: int,
    offset: int,
)
    requires
        0 <= i <= parts.len(),
        0 <= offset <= u64::MAX,
        forall|byte: int| 0 <= byte < offset ==> #[trigger] byte_uploaded(plan, parts, byte),
    ensures
        offset <= prefix_end(plan, parts, i, offset) <= u64::MAX,
        forall|byte: int|
            0 <= byte < prefix_end(plan, parts, i, offset) ==> #[trigger] byte_uploaded(
                plan,
                parts,
                byte,
            ),
    decreases parts.len() - i,
{
    if i < parts.len() && parts[i].offset == offset && agrees(plan, parts[i]) {
        let next = end_of(parts[i]);
        assert forall|byte: int| 0 <= byte < next implies #[trigger] byte_uploaded(
            plan,
            parts,
            byte,
        ) by {
            if byte >= offset {
                assert(agrees(plan, parts[i]));
            }
        }
        lemma_prefix_end(plan, parts, i + 1, next);
    }
}

/// Resuming never skips a byte: every byte before the offset at which an upload
/// goes on lies in an uploaded part that agrees with the plan.
pub proof fn law_resume_skips_nothing(
    plan: PresignedMultipartUploadPlan,
    parts: Seq<PresignedUploadedPart>,
    byte: int,
)
    requires
        0 <= byte < resumed_offset(plan, parts),
    ensures
        byte_uploaded(plan, parts, byte),
{
    let ordered = uploaded_part::sorted(PartKey::Offset, parts);
    lemma_prefix_end(plan, ordered, 0, 0);
    uploaded_part::law_sorting_only_reorders(PartKey::Offset, parts);
    assert(byte_uploaded(plan, ordered, byte));
    let i = choose|i: int|
        0 <= i < ordered.len() && agrees(plan, #[trigger] ordered[i]) && ordered[i].offset <= byte
            < ordered[i].offset + ordered[i].size;
    assert(ordered.contains(ordered[i]));
    vstd::seq_lib::to_multiset_contains(ordered, ordered[i]);
    vstd::seq_lib::to_multiset_contains(parts, ordered[i]);
    let j = choose|j: int| 0 <= j < parts.len() && parts[j] == ordered[i];
    assert(agrees(plan, parts[j]));
}

proof fn lemma_part_at_is_part(parts: Seq<PresignedUploadPart>, offset: u64)
    ensures
        multipart_upload_plan::part_at(parts, offset) matches Some(part) ==> part.offset == offset
            && exists|i: int| 0 <= i < parts.len() && parts[i] == part,
    decreases parts.len(),
{
    if parts.len() > 0 {
        if parts[0].offset != offset {
            let rest = parts.skip(1);
            lemma_part_at_is_part(rest, offset);
            if let Some(part) = multipart_upload_plan::part_at(rest, offset) {
                let i = choose|i: int| 0 <= i < rest.len() && rest[i] == part;
                assert(parts[i + 1] == part);
            }
        } else {
            assert(parts[0] == parts[0]);
        }
    }
}

proof fn lemma_prefix_within(
    plan: PresignedMultipartUploadPlan,
    parts: Seq<PresignedUploadedPart>,
    i: int,
    offset: int,
)
    requires
        plan.is_valid(),
        0 <= i <= parts.len(),
        0 <= offset <= plan.total_size,
    ensures
        prefix_end(plan, parts, i, offset) <= plan.total_size,
    decreases parts.len() - i,
{
    if i < parts.len() && parts[i].offset == offset && agrees(plan, parts[i]) {
        lemma_part_at_is_part(plan.parts@, parts[i].offset);
        let planned = multipart_upload_plan::part_at(plan.parts@, parts[i].offset)->Some_0;
        let k = choose|k: int| 0 <= k < plan.parts@.len() && plan.parts@[k] == planned;
        assert(multipart_upload_plan::part_fault(plan.parts@, k, plan.total_size) is None);
        lemma_prefix_within(plan, parts, i + 1, end_of(parts[i]));
    }
}

/// With a valid plan an upload never goes on beyond its end.
pub proof fn law_resume_stays_within_the_object(
    plan: PresignedMultipartUploadPlan,
    parts: Seq<PresignedUploadedPart>,
)
    requires
        plan.is_valid(),
    ensures
        0 <= resumed_offset(plan, parts) <= plan.total_size,
{
    let ordered = uploaded_part::sorted(PartKey::Offset, parts);
    lemma_prefix_within(plan, ordered, 0, 0);
    lemma_prefix_end(plan, ordered, 0, 0);
}

/// Where the first `n` parts of a list end.
pub open spec fn run_end(list: Seq<PresignedUploadedPart>, n: int) -> int {
    if n == 0 {
        0
    } else {
        list[n - 1].offset + list[n - 1].size
    }
}

/// Whether the first `n` parts of a list follow each other from byte zero up to
/// `end`, without a gap and as planned.
pub open spec fn tiles(
    plan: PresignedMultipartUploadPlan,
    list: Seq<PresignedUploadedPart>,
    n: int,
    end: int,
) -> bool {
    &&& 0 <= n <= list.len()
    &&& forall|i: int|
        0 <= i < n ==> list[i].offset == #[trigger] run_end(list, i) && agrees(plan, list[i])
    &&& end == run_end(list, n)
}

/// Whether every part has a byte and no two parts share one.
pub open spec fn apart(list: Seq<PresignedUploadedPart>) -> bool {
    &&& forall|i: int| 0 <= i < list.len() ==> (#[trigger] list[i]).size > 0
    &&& forall|i: int, j: int|
        0 <= i < list.len() && 0 <= j < list.len() && i != j ==> (#[trigger] list[i]).offset
            + list[i].size <= (#[trigger] list[j]).offset || list[j].offset + list[j].size
            <= list[i].offset
}

/// Where the run of parts ends, and why.
proof fn lemma_prefix_stops(
    plan: PresignedMultipartUploadPlan,
    list: Seq<PresignedUploadedPart>,
    i: int,
    offset: int,
) -> (n: int)
    requires
        plan.is_valid(),
        tiles(plan, list, i, offset),
        offset <= plan.total_size,
    ensures
        i <= n,
        tiles(plan, list, n, prefix_end(plan, list, i, offset)),
        n < list.len() ==> list[n].offset != prefix_end(plan, list, i, offset) || !agrees(
            plan,
            list[n],
        ),
    decreases list.len() - i,
{
    if i < list.len() && list[i].offset == offset && agrees(plan, list[i]) {
        lemma_part_at_is_part(plan.parts@, list[i].offset);
        let planned = multipart_upload_plan::part_at(plan.parts@, list[i].offset)->Some_0;
        let k = choose|k: int| 0 <= k < plan.parts@.len() && plan.parts@[k] == planned;
        assert(multipart_upload_plan::part_fault(plan.parts@, k, plan.total_size) is None);
        lemma_prefix_stops(plan, list, i + 1, end_of(list[i]))
    } else {
        i
    }
}

/// In a run of parts every part ends within the run.
proof fn lemma_tiles_within(
    plan: PresignedMultipartUploadPlan,
    list: Seq<PresignedUploadedPart>,
    n: int,
    end: int,
    i: int,
)
    requires
        tiles(plan, list, n, end),
        0 <= i < n,
    ensures
        list[i].offset + list[i].size <= end,
    decreases n - i,
{
    if i < n - 1 {
        lemma_tiles_within(plan, list, n, end, i + 1);
        assert(list[i + 1].offset == run_end(list, i + 1));
    }
}

/// A byte within a run of parts lies in one of them.
proof fn lemma_tiles_cover(
    plan: PresignedMultipartUploadPlan,
    list: Seq<PresignedUploadedPart>,
    n: int,
    end: int,
    byte: int,
) -> (i: int)
    requires
        tiles(plan, list, n, end),
        0 <= byte < end,
    ensures
        0 <= i < n,
        list[i].offset <= byte < list[i].offset + list[i].size,
    decreases n,
{
    assert(list[n - 1].offset == run_end(list, n - 1));
    if byte >= list[n - 1].offset {
        n - 1
    } else {
        lemma_tiles_cover(plan, list, n - 1, list[n - 1].offset as int, byte)
    }
}

/// An upload goes on exactly where the recorded parts leave off: with parts that
/// share no byte, those before that offset follow each other from byte zero
/// without a gap and as planned, and no recorded part that agrees with the plan
/// begins there. Without parts an upload starts at byte zero.
pub proof fn law_resume_is_maximal(
    plan: PresignedMultipartUploadPlan,
    parts: Seq<PresignedUploadedPart>,
)
    requires
        plan.is_valid(),
        apart(parts),
    ensures
        exists|n: int| #[trigger]
            tiles(
                plan,
                uploaded_part::sorted(PartKey::Offset, parts),
                n,
                resumed_offset(plan, parts),
            ),
        forall|i: int|
            0 <= i < parts.len() && (#[trigger] parts[i]).offset == resumed_offset(plan, parts)
                ==> !agrees(plan, parts[i]),
        parts.len() == 0 ==> resumed_offset(plan, parts) == 0,
{
    let list = uploaded_part::sorted(PartKey::Offset, parts);
    let r = resumed_offset(plan, parts);
    uploaded_part::law_sorting_only_reorders(PartKey::Offset, parts);
    let n = lemma_prefix_stops(plan, list, 0, 0);
    assert(tiles(plan, list, n, r));
    assert forall|i: int|
        0 <= i < parts.len() && (#[trigger] parts[i]).offset == r implies !agrees(
        plan,
        parts[i],
    ) by {
        assert(parts.contains(parts[i]));
        vstd::seq_lib::to_multiset_contains(parts, parts[i]);
        vstd::seq_lib::to_multiset_contains(list, parts[i]);
        let j = choose|j: int| 0 <= j < list.len() && list[j] == parts[i];
        if j < n {
            lemma_tiles_within(plan, list, n, r, j);
        } else {
            if n < j {
                assert(uploaded_part::not_after(PartKey::Offset, list[n], list[j]));
            }
            assert(list.contains(list[n]));
            vstd::seq_lib::to_multiset_contains(list, list[n]);
            vstd::seq_lib::to_multiset_contains(parts, list[n]);
            let m = choose|m: int| 0 <= m < parts.len() && parts[m] == list[n];
            if list[n].offset < r {
                let t = lemma_tiles_cover(plan, list, n, r, list[n].offset as int);
                assert(list.contains(list[t]));
                vstd::seq_lib::to_multiset_contains(list, list[t]);
                vstd::seq_lib::to_multiset_contains(parts, list[t]);
                let q = choose|q: int| 0 <= q < parts.len() && parts[q] == list[t];
                assert(uploaded_part::not_after(PartKey::Offset, list[t], list[n]));
                assert(parts[q].size > 0 && parts[m].size > 0);
                assert(q != m ==> parts[q].offset + parts[q].size <= parts[m].offset
                    || parts[m].offset + parts[m].size <= parts[q].offset);
                if q == m {
                    uploaded_part::lemma_listed_twice(list, parts, t, n);
                }
            } else if m != i {
                assert(parts[m].offset + parts[m].size <= parts[i].offset
                    || parts[i].offset + parts[i].size <= parts[m].offset);
            }
        }
    }
}

/// It does not matter in which order parts were uploaded, as long as no two
/// start at the same offset.
pub proof fn law_resume_is_order_independent(
    plan: PresignedMultipartUploadPlan,
    a: Seq<PresignedUploadedPart>,
    b: Seq<PresignedUploadedPart>,
)
    requires
        a.to_multiset() == b.to_multiset(),
        uploaded_part::distinct_offsets(a),
        uploaded_part::distinct_offsets(b),
    ensures
        resumed_offset(plan, a) == resumed_offset(plan, b),
{
    uploaded_part::law_accounting_is_order_independent(a, b);
}

/// Whether `result` is what becomes of the part at an offset, with two readings
/// of the clock. A clock that cannot be read is an error where its reading
/// decides: the first for every URL that expires, the second only for one that
/// is about to and cannot be renewed.
pub open spec fn is_part_choice(
    plan: PresignedMultipartUploadPlan,
    offset: u64,
    has_refresher: bool,
    first: Result<u64, MeowError>,
    second: Result<u64, MeowError>,
    result: Result<PartChoice, MeowError>,
) -> bool {
    match multipart_upload_plan::part_at(plan.parts@, offset) {
        None => error::fails_with(
            result,
            InnerErrorCode::InvalidRange,
            "missing presigned upload part for offset "@ + text::decimal(offset as nat),
        ),
        Some(part) => if part.expires_at_unix_secs is None {
            result matches Ok(PartChoice::Send(chosen)) && upload_part::same_part(chosen, part)
        } else if first is Err {
            result == Err::<PartChoice, MeowError>(first->Err_0)
        } else if !time::is_due(
            part.expires_at_unix_secs,
            plan.refresh_before_secs,
            first->Ok_0,
        ) {
            result matches Ok(PartChoice::Send(chosen)) && upload_part::same_part(chosen, part)
        } else if has_refresher {
            result matches Ok(PartChoice::Refresh(chosen)) && upload_part::same_part(chosen, part)
        } else if second is Err {
            result == Err::<PartChoice, MeowError>(second->Err_0)
        } else if time::is_due(part.expires_at_unix_secs, 0, second->Ok_0) {
            error::fails_with(
                result,
                InnerErrorCode::InvalidTaskState,
                "presigned upload part "@ + text::decimal(part.part_number as nat)
                    + " URL expired and no refresher is configured"@,
            )
        } else {
            result matches Ok(PartChoice::Send(chosen)) && upload_part::same_part(chosen, part)
        },
    }
}

impl PresignedMultipartUpload {
    pub closed spec fn spec_plan(self) -> PresignedMultipartUploadPlan {
        self.plan
    }

    /// The parts that were uploaded.
    pub closed spec fn spec_uploaded(self) -> Seq<PresignedUploadedPart> {
        self.uploaded_parts@
    }

    /// An upload of which nothing was sent yet.
    pub fn new(plan: PresignedMultipartUploadPlan) -> (upload: Self)
        ensures
            upload.spec_plan() == plan,
            upload.spec_uploaded() == Seq::<PresignedUploadedPart>::empty(),
    {
        PresignedMultipartUpload { plan, uploaded_parts: Vec::new() }
    }

    /// An upload of which parts were sent by an earlier process. For each
    /// offset the last part counts.
    pub fn with_resumed_parts(self, parts: Vec<PresignedUploadedPart>) -> (upload: Self)
        ensures
            upload.spec_plan() == self.spec_plan(),
            uploaded_part::is_latest_by_offset(parts@, upload.spec_uploaded()),
    {
        PresignedMultipartUpload { plan: self.plan, uploaded_parts: latest_by_offset(parts) }
    }

    pub fn plan(&self) -> (plan: &PresignedMultipartUploadPlan)
        ensures
            *plan == self.spec_plan(),
    {
        &self.plan
    }

    /// The parts that were uploaded so far.
    pub fn uploaded_parts(&self) -> (parts: Vec<PresignedUploadedPart>)
        ensures
            parts@ == self.spec_uploaded(),
    {
        copy_parts(&self.uploaded_parts)
    }

    /// Parts may be sent side by side: they are taken account of by offset.
    pub fn supports_parallel_parts(&self) -> (supported: bool)
        ensures
            supported,
    {
        true
    }

    /// Where an upload with these parts goes on.
    pub fn resumed_offset_from(&self, parts: &Vec<PresignedUploadedPart>) -> (offset: u64)
        ensures
            offset == resumed_offset(self.spec_plan(), parts@),
    {
        let ordered = sort_parts(copy_parts(parts), PartKey::Offset);
        let ghost plan = self.plan;
        let mut running: u64 = 0;
        let mut i: usize = 0;
        while i < ordered.len()
            invariant
                plan == self.plan,
                i <= ordered@.len(),
                prefix_end(plan, ordered@, i as int, running as int) == prefix_end(
                    plan,
                    ordered@,
                    0,
                    0,
                ),
            ensures
                running == prefix_end(plan, ordered@, 0, 0),
            decreases ordered@.len() - i,
        {
            let part = &ordered[i];
            if part.offset != running {
                break;
            }
            match self.plan.part_for_offset(part.offset) {
                Some(planned) => {
                    if planned.size != part.size {
                        break;
                    }
                },
                None => {
                    break;
                },
            }
            running = running.saturating_add(part.size);
            i += 1;
        }
        running
    }

    /// Which URL the part at an offset is sent to, with two readings of the
    /// clock: a URL that is about to expire is renewed where that is possible;
    /// without that one that has expired is an error.
    pub fn part_for_upload_at(
        &self,
        offset: u64,
        has_refresher: bool,
        first: Result<u64, MeowError>,
        second: Result<u64, MeowError>,
    ) -> (result: Result<PartChoice, MeowError>)
        ensures
            is_part_choice(self.spec_plan(), offset, has_refresher, first, second, result),
    {
        let part = match self.plan.part_for_offset(offset) {
            Some(part) => part,
            None => {
                let mut text = "missing presigned upload part for offset ".to_owned();
                push_decimal(&mut text, offset as u128);
                return Err(MeowError::from_code(InnerErrorCode::InvalidRange, text));
            },
        };
        if part.expires_at_unix_secs.is_none() {
            return Ok(PartChoice::Send(part.clone()));
        }
        let now: u64 = match first {
            Ok(now) => now,
            Err(e) => {
                return Err(e);
            },
        };
        if !due(part.expires_at_unix_secs, self.plan.refresh_before_secs, now) {
            return Ok(PartChoice::Send(part.clone()));
        }
        if has_refresher {
            return Ok(PartChoice::Refresh(part.clone()));
        }
        let later: u64 = match second {
            Ok(later) => later,
            Err(e) => {
                return Err(e);
            },
        };
        if due(part.expires_at_unix_secs, 0, later) {
            let mut text = "presigned upload part ".to_owned();
            push_decimal(&mut text, part.part_number as u128);
            text.append(" URL expired and no refresher is configured");
            return Err(MeowError::from_code(InnerErrorCode::InvalidTaskState, text));
        }
        Ok(PartChoice::Send(part.clone()))
    }

    /// Which URL the part at an offset is sent to now; see
    /// [`PresignedMultipartUpload::part_for_upload_at`]. The clock is read only
    /// for a URL that expires, and once more only for one that is about to and
    /// cannot be renewed.
    pub fn part_for_upload(&self, offset: u64, has_refresher: bool) -> (result: Result<
        PartChoice,
        MeowError,
    >)
        ensures
            exists|first: Result<u64, MeowError>, second: Result<u64, MeowError>|
                time::is_clock_answer(first) && time::is_clock_answer(second)
                    && #[trigger] is_part_choice(
                    self.spec_plan(),
                    offset,
                    has_refresher,
                    first,
                    second,
                    result,
                ),
    {
        let (expires, margin): (Option<u64>, u64) = match self.plan.part_for_offset(offset) {
            Some(part) => (part.expires_at_unix_secs, self.plan.refresh_before_secs),
            None => (None, 0),
        };
        let first: Result<u64, MeowError> = if expires.is_some() {
            now_unix_secs()
        } else {
            Ok(0)
        };
        let again = match &first {
            Ok(now) => !has_refresher && due(expires, margin, *now),
            Err(_) => false,
        };
        let second: Result<u64, MeowError> = if again {
            now_unix_secs()
        } else {
            Ok(0)
        };
        let result = self.part_for_upload_at(offset, has_refresher, first, second);
        assert(is_part_choice(self.spec_plan(), offset, has_refresher, first, second, result));
        result
    }

    /// A fresh URL has to be for the same part.
    pub fn accept_refreshed(
        part: &PresignedUploadPart,
        refreshed: PresignedUploadPart,
    ) -> (result: Result<PresignedUploadPart, MeowError>)
        ensures
            refreshed.part_number == part.part_number && refreshed.offset == part.offset
                && refreshed.size == part.size ==> result is Ok && result->Ok_0 == refreshed,
            !(refreshed.part_number == part.part_number && refreshed.offset == part.offset
                && refreshed.size == part.size) ==> error::fails_with(
                result,
                InnerErrorCode::InvalidTaskState,
                "refreshed presigned part mismatch: old=("@ + text::decimal(
                    part.part_number as nat,
                ) + ", "@ + text::decimal(part.offset as nat) + ", "@ + text::decimal(
                    part.size as nat,
                ) + ") new=("@ + text::decimal(refreshed.part_number as nat) + ", "@
                    + text::decimal(refreshed.offset as nat) + ", "@ + text::decimal(
                    refreshed.size as nat,
                ) + ")"@,
            ),
    {
        if refreshed.part_number != part.part_number || refreshed.offset != part.offset
            || refreshed.size != part.size {
            let mut text = "refreshed presigned part mismatch: old=(".to_owned();
            push_decimal(&mut text, part.part_number as u128);
            text.append(", ");
            push_decimal(&mut text, part.offset as u128);
            text.append(", ");
            push_decimal(&mut text, part.size as u128);
            text.append(") new=(");
            push_decimal(&mut text, refreshed.part_number as u128);
            text.append(", ");
            push_decimal(&mut text, refreshed.offset as u128);
            text.append(", ");
            push_decimal(&mut text, refreshed.size as u128);
            text.append(")");
            return Err(MeowError::from_code(InnerErrorCode::InvalidTaskState, text));
        }
        Ok(refreshed)
    }

    /// Prepares the upload for a task: the plan has to be valid and to fit the
    /// task, and the upload goes on behind what was uploaded already.
    pub fn prepare(&self, total_size: u64, chunk_size: u64, local_offset: u64) -> (result: Result<
        UploadResumeInfo,
        MeowError,
    >)
        ensures
            !self.spec_plan().is_valid() ==> self.spec_plan().is_refused(result),
            self.spec_plan().is_valid() && self.spec_plan().total_size != total_size
                ==> error::fails_with(
                result,
                InnerErrorCode::InvalidTaskState,
                "presigned plan total_size mismatch: plan="@ + text::decimal(
                    self.spec_plan().total_size as nat,
                ) + " task="@ + text::decimal(total_size as nat),
            ),
            self.spec_plan().is_valid() && self.spec_plan().total_size == total_size
                && self.spec_plan().chunk_size != chunk_size ==> error::fails_with(
                result,
                InnerErrorCode::InvalidTaskState,
                "presigned plan chunk_size mismatch: plan="@ + text::decimal(
                    self.spec_plan().chunk_size as nat,
                ) + " task="@ + text::decimal(chunk_size as nat),
            ),
            result is Ok <==> self.spec_plan().is_valid() && self.spec_plan().total_size
                == total_size && self.spec_plan().chunk_size == chunk_size,
            result matches Ok(info) ==> {
                let resumed = resumed_offset(self.spec_plan(), self.spec_uploaded());
                &&& info.completed_file_id is None
                &&& info.provider_upload_id == self.spec_plan().upload_id
                &&& info.next_byte == Some(
                    if local_offset >= resumed {
                        local_offset
                    } else {
                        resumed as u64
                    },
                )
            },
    {
        match self.plan.validate() {
            Ok(()) => {},
            Err(e) => {
                return Err(e);
            },
        }
        if self.plan.total_size != total_size {
            let mut text = "presigned plan total_size mismatch: plan=".to_owned();
            push_decimal(&mut text, self.plan.total_size as u128);
            text.append(" task=");
            push_decimal(&mut text, total_size as u128);
            return Err(MeowError::from_code(InnerErrorCode::InvalidTaskState, text));
        }
        if self.plan.chunk_size != chunk_size {
            let mut text = "presigned plan chunk_size mismatch: plan=".to_owned();
            push_decimal(&mut text, self.plan.chunk_size as u128);
            text.append(" task=");
            push_decimal(&mut text, chunk_size as u128);
            return Err(MeowError::from_code(InnerErrorCode::InvalidTaskState, text));
        }
        let resumed: u64 = self.resumed_offset_from(&self.uploaded_parts);
        Ok(
            UploadResumeInfo {
                completed_file_id: None,
                next_byte: Some(
                    if local_offset >= resumed {
                        local_offset
                    } else {
                        resumed
                    },
                ),
                provider_upload_id: copy_text(&self.plan.upload_id),
            },
        )
    }

    /// A chunk has to be as long as the part that it is sent as.
    pub fn check_chunk(part: &PresignedUploadPart, chunk_len: usize) -> (result: Result<
        (),
        MeowError,
    >)
        ensures
            result is Ok <==> part.size == chunk_len,
            result is Err ==> error::fails_with(
                result,
                InnerErrorCode::InvalidRange,
                "presigned part size mismatch: part="@ + text::decimal(part.size as nat)
                    + " chunk="@ + text::decimal(chunk_len as nat),
            ),
    {
        if part.size != chunk_len as u64 {
            let mut text = "presigned part size mismatch: part=".to_owned();
            push_decimal(&mut text, part.size as u128);
            text.append(" chunk=");
            push_decimal(&mut text, chunk_len as u128);
            return Err(MeowError::from_code(InnerErrorCode::InvalidRange, text));
        }
        Ok(())
    }

    /// The provider answered to a part. A part that was accepted is taken
    /// account of; one that was sent again replaces what was known of it.
    pub fn on_part_response(&mut self, part: &PresignedUploadPart, response: PartResponse) -> (result:
        Result<UploadResumeInfo, MeowError>)
        requires
            part.offset + part.size <= u64::MAX,
        ensures
            final(self).spec_plan() == old(self).spec_plan(),
            result is Ok <==> met(response.status_code),
            !met(response.status_code) ==> final(self).spec_uploaded() == old(self).spec_uploaded()
                && error::fails_with_status(
                result,
                refused_part_text(response.status@, response.body@),
                response.status_code,
            ),
            met(response.status_code) ==> final(self).spec_uploaded()
                == uploaded_part::with_recorded(
                old(self).spec_uploaded(),
                uploaded_as(*part, response.etag),
            ),
            result matches Ok(info) ==> info.completed_file_id is None && info.provider_upload_id
                == old(self).spec_plan().upload_id && info.next_byte == Some(
                (part.offset + part.size) as u64,
            ),
    {
        if !is_success(response.status_code) {
            let mut text = "presigned upload part failed: ".to_owned();
            text.append(response.status.as_str());
            text.append(", body: ");
            text.append(response.body.as_str());
            let refused = MeowError::from_code(InnerErrorCode::ResponseStatusError, text);
            return Err(refused.with_http_status(response.status_code));
        }
        let uploaded = PresignedUploadedPart {
            part_number: part.part_number,
            provider_part_id: copy_text(&part.provider_part_id),
            offset: part.offset,
            size: part.size,
            etag: response.etag,
        };
        record_part(&mut self.uploaded_parts, uploaded);
        Ok(
            UploadResumeInfo {
                completed_file_id: None,
                next_byte: Some(part.offset + part.size),
                provider_upload_id: copy_text(&self.plan.upload_id),
            },
        )
    }

    /// The body of the request that completes the upload; `None` where the plan
    /// has no such request. A body of the request's own comes first, then what
    /// the application makes of the parts, then the parts as JSON.
    pub fn completion_body(&self, has_body_builder: bool) -> (body: Option<CompletionBody>)
        ensures
            is_completion_body(
                self.spec_plan(),
                has_body_builder,
                uploaded_part::completion_parts(self.spec_uploaded()),
                body,
            ),
    {
        let request = match &self.plan.complete_request {
            Some(request) => request,
            None => {
                return None;
            },
        };
        match &request.body {
            Some(body) => {
                let copy = body.clone();
                assert(copy@ =~= body@);
                return Some(CompletionBody::Fixed(copy));
            },
            None => {},
        }
        let parts = sort_dedup_completion_parts(copy_parts(&self.uploaded_parts));
        if has_body_builder {
            Some(CompletionBody::Custom(parts))
        } else if request.uploaded_parts_json_body {
            Some(CompletionBody::UploadedParts(parts))
        } else {
            Some(CompletionBody::Empty)
        }
    }

    /// The request that aborts the upload, if the plan has one.
    pub fn abort_request(&self) -> (request: Option<&CompletionRequest>)
        ensures
            match self.spec_plan().abort_request {
                Some(found) => request == Some(&found),
                None => request is None,
            },
    {
        match &self.plan.abort_request {
            Some(request) => Some(request),
            None => None,
        }
    }
}

/// What is said of a part that the provider refused.
pub open spec fn refused_part_text(status: Seq<char>, body: Seq<char>) -> Seq<char> {
    "presigned upload part failed: "@ + status + ", body: "@ + body
}

/// What is taken account of when a part was accepted.
pub open spec fn uploaded_as(
    part: PresignedUploadPart,
    etag: Option<String>,
) -> PresignedUploadedPart {
    PresignedUploadedPart {
        part_number: part.part_number,
        provider_part_id: part.provider_part_id,
        offset: part.offset,
        size: part.size,
        etag,
    }
}

/// Whether `body` is the body of the request that completes an upload.
pub open spec fn is_completion_body(
    plan: PresignedMultipartUploadPlan,
    has_body_builder: bool,
    parts: Seq<PresignedUploadedPart>,
    body: Option<CompletionBody>,
) -> bool {
    match plan.complete_request {
        None => body is None,
        Some(request) => match request.body {
            Some(fixed) => body matches Some(CompletionBody::Fixed(bytes)) && bytes@ == fixed@,
            None => if has_body_builder {
                body matches Some(CompletionBody::Custom(list)) && list@ == parts
            } else if request.uploaded_parts_json_body {
                body matches Some(CompletionBody::UploadedParts(list)) && list@ == parts
            } else {
                body == Some(CompletionBody::Empty)
            },
        },
    }
}

/// A copy of a list of parts.
pub fn copy_parts(parts: &Vec<PresignedUploadedPart>) -> (copy: Vec<PresignedUploadedPart>)
    ensures
        copy@ == parts@,
{
    let mut copy: Vec<PresignedUploadedPart> = Vec::new();
    let mut i: usize = 0;
    while i < parts.len()
        invariant
            i <= parts@.len(),
            copy@ == parts@.take(i as int),
        decreases parts@.len() - i,
    {
        copy.push(parts[i].clone());
        i += 1;
        assert(copy@ =~= parts@.take(i as int));
    }
    assert(parts@.take(i as int) =~= parts@);
    copy
}

/// What a completion or abort request was answered: a refusal is an error, and
/// an empty body is none.
pub fn callback_result(
    label: &str,
    status_code: u16,
    status: &str,
    body: String,
) -> (result: Result<Option<String>, MeowError>)
    ensures
        result is Ok <==> met(status_code),
        !met(status_code) ==> error::fails_with_status(
            result,
            label@ + " failed: "@ + status@ + ", body: "@ + body@,
            status_code,
        ),
        met(status_code) ==> result->Ok_0 == if body@.len() == 0 {
            None
        } else {
            Some(body)
        },
{
    if !is_success(status_code) {
        let mut text = label.to_owned();
        text.append(" failed: ");
        text.append(status);
        text.append(", body: ");
        text.append(body.as_str());
        let refused = MeowError::from_code(InnerErrorCode::ResponseStatusError, text);
        return Err(refused.with_http_status(status_code));
    }
    if body.as_str().is_empty() {
        Ok(None)
    } else {
        Ok(Some(body))
    }
}

} // verus!
