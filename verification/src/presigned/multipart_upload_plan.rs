//! Plans for uploads in parts.

use vstd::prelude::*;
use vstd::string::*;

use crate::error;
use crate::error::{InnerErrorCode, MeowError};
use crate::presigned::completion_request::CompletionRequest;
use crate::presigned::metadata::Metadata;
use crate::presigned::upload_part::PresignedUploadPart;
use crate::text;
use crate::text::push_decimal;

verus! {

/// An upload in parts, as a server planned it.
pub struct PresignedMultipartUploadPlan {
    /// The provider's name for the upload.
    pub upload_id: Option<String>,
    pub metadata: Metadata,
    pub total_size: u64,
    pub chunk_size: u64,
    pub parts: Vec<PresignedUploadPart>,
    pub complete_request: Option<CompletionRequest>,
    pub abort_request: Option<CompletionRequest>,
    /// How many seconds before a URL expires it is renewed.
    pub refresh_before_secs: u64,
}

/// The first part at an offset, if there is one.
pub open spec fn part_at(parts: Seq<PresignedUploadPart>, offset: u64) -> Option<
    PresignedUploadPart,
>
    decreases parts.len(),
{
    if parts.len() == 0 {
        None
    } else if parts[0].offset == offset {
        Some(parts[0])
    } else {
        part_at(parts.skip(1), offset)
    }
}

/// What is wrong with the part at a place, if anything is.
pub open spec fn part_fault(
    parts: Seq<PresignedUploadPart>,
    i: int,
    total_size: u64,
) -> Option<Seq<char>> {
    let part = parts[i];
    let number = text::decimal(part.part_number as nat);
    if part.size == 0 {
        Some("presigned part "@ + number + " has zero size"@)
    } else if part.offset + part.size > u64::MAX {
        Some("presigned part "@ + number + " range overflow"@)
    } else if part.offset + part.size > total_size {
        Some(
            "presigned part "@ + number + " out of range: end="@ + text::decimal(
                (part.offset + part.size) as nat,
            ) + " total="@ + text::decimal(total_size as nat),
        )
    } else if repeats_offset(parts, i) {
        Some("duplicate presigned part offset: "@ + text::decimal(part.offset as nat))
    } else {
        None
    }
}

/// Whether an earlier part starts where the part at a place starts.
pub open spec fn repeats_offset(parts: Seq<PresignedUploadPart>, i: int) -> bool {
    exists|j: int| 0 <= j < i && (#[trigger] parts[j]).offset == parts[i].offset
}

/// The first place at which something is wrong.
pub open spec fn first_fault(
    parts: Seq<PresignedUploadPart>,
    i: int,
    total_size: u64,
) -> bool {
    &&& 0 <= i < parts.len()
    &&& part_fault(parts, i, total_size) is Some
    &&& forall|j: int| 0 <= j < i ==> #[trigger] part_fault(parts, j, total_size) is None
}

impl PresignedMultipartUploadPlan {
    /// A plan without requests or metadata, with a renewal margin of a minute.
    pub fn new(total_size: u64, chunk_size: u64, parts: Vec<PresignedUploadPart>) -> (plan: Self)
        ensures
            plan.upload_id is None,
            plan.metadata@ == Map::<Seq<char>, Seq<char>>::empty(),
            plan.total_size == total_size,
            plan.chunk_size == chunk_size,
            plan.parts == parts,
            plan.complete_request is None,
            plan.abort_request is None,
            plan.refresh_before_secs == 60,
    {
        PresignedMultipartUploadPlan {
            upload_id: None,
            metadata: Metadata::new(),
            total_size,
            chunk_size,
            parts,
            complete_request: None,
            abort_request: None,
            refresh_before_secs: 60,
        }
    }

    pub fn with_upload_id(self, upload_id: String) -> (plan: Self)
        ensures
            plan == (PresignedMultipartUploadPlan { upload_id: Some(upload_id), ..self }),
    {
        let mut plan = self;
        plan.upload_id = Some(upload_id);
        plan
    }

    /// Sets the metadata under a name.
    pub fn with_metadata(self, key: String, value: String) -> (plan: Self)
        ensures
            plan.metadata@ == self.metadata@.insert(key@, value@),
            plan == (PresignedMultipartUploadPlan { metadata: plan.metadata, ..self }),
    {
        let mut plan = self;
        plan.metadata.insert(key, value);
        plan
    }

    pub fn with_complete_request(self, request: CompletionRequest) -> (plan: Self)
        ensures
            plan == (PresignedMultipartUploadPlan { complete_request: Some(request), ..self }),
    {
        let mut plan = self;
        plan.complete_request = Some(request);
        plan
    }

    pub fn with_abort_request(self, request: CompletionRequest) -> (plan: Self)
        ensures
            plan == (PresignedMultipartUploadPlan { abort_request: Some(request), ..self }),
    {
        let mut plan = self;
        plan.abort_request = Some(request);
        plan
    }

    pub fn with_refresh_before_secs(self, secs: u64) -> (plan: Self)
        ensures
            plan == (PresignedMultipartUploadPlan { refresh_before_secs: secs, ..self }),
    {
        let mut plan = self;
        plan.refresh_before_secs = secs;
        plan
    }

    /// Whether the plan can be carried out at all: chunks and parts are not
    /// empty, no part reaches beyond the end, and no two parts start at the
    /// same offset.
    pub open spec fn is_valid(self) -> bool {
        &&& self.chunk_size > 0
        &&& self.total_size > 0 ==> self.parts@.len() > 0
        &&& forall|i: int|
            0 <= i < self.parts@.len() ==> #[trigger] part_fault(self.parts@, i, self.total_size)
                is None
    }

    /// Whether `result` reports the first mistake of the plan.
    pub open spec fn is_refused<T>(self, result: Result<T, MeowError>) -> bool {
        if self.chunk_size == 0 {
            error::fails_with(
                result,
                InnerErrorCode::ParameterEmpty,
                "presigned plan chunk_size must be greater than zero"@,
            )
        } else if self.total_size > 0 && self.parts@.len() == 0 {
            error::fails_with(
                result,
                InnerErrorCode::ParameterEmpty,
                "presigned plan parts must not be empty for non-empty upload"@,
            )
        } else {
            exists|i: int| #[trigger]
                first_fault(self.parts@, i, self.total_size) && error::fails_with(
                    result,
                    InnerErrorCode::InvalidRange,
                    part_fault(self.parts@, i, self.total_size)->Some_0,
                )
        }
    }

    /// Looks for mistakes in the plan; the first one is reported.
    pub fn validate(&self) -> (result: Result<(), MeowError>)
        ensures
            result is Ok <==> self.is_valid(),
            !self.is_valid() ==> self.is_refused(result),
    {
        if self.chunk_size == 0 {
            return Err(
                MeowError::from_code_str(
                    InnerErrorCode::ParameterEmpty,
                    "presigned plan chunk_size must be greater than zero",
                ),
            );
        }
        if self.total_size > 0 && self.parts.len() == 0 {
            return Err(
                MeowError::from_code_str(
                    InnerErrorCode::ParameterEmpty,
                    "presigned plan parts must not be empty for non-empty upload",
                ),
            );
        }
        let mut i: usize = 0;
        while i < self.parts.len()
            invariant
                i <= self.parts@.len(),
                self.chunk_size > 0,
                self.total_size > 0 ==> self.parts@.len() > 0,
                forall|j: int|
                    0 <= j < i ==> #[trigger] part_fault(self.parts@, j, self.total_size) is None,
            decreases self.parts@.len() - i,
        {
            match self.fault_text(i) {
                Some(text) => {
                    let e = MeowError::from_code(InnerErrorCode::InvalidRange, text);
                    assert(first_fault(self.parts@, i as int, self.total_size));
                    return Err(e);
                },
                None => {},
            }
            i += 1;
        }
        Ok(())
    }

    fn fault_text(&self, i: usize) -> (fault: Option<String>)
        requires
            i < self.parts@.len(),
        ensures
            match part_fault(self.parts@, i as int, self.total_size) {
                Some(text) => fault matches Some(fault) && fault@ == text,
                None => fault is None,
            },
    {
        let part = &self.parts[i];
        if part.size == 0 {
            let mut text = "presigned part ".to_owned();
            push_decimal(&mut text, part.part_number as u128);
            text.append(" has zero size");
            return Some(text);
        }
        let end: u64 = match part.offset.checked_add(part.size) {
            Some(end) => end,
            None => {
                let mut text = "presigned part ".to_owned();
                push_decimal(&mut text, part.part_number as u128);
                text.append(" range overflow");
                return Some(text);
            },
        };
        if end > self.total_size {
            let mut text = "presigned part ".to_owned();
            push_decimal(&mut text, part.part_number as u128);
            text.append(" out of range: end=");
            push_decimal(&mut text, end as u128);
            text.append(" total=");
            push_decimal(&mut text, self.total_size as u128);
            return Some(text);
        }
        let mut j: usize = 0;
        while j < i
            invariant
                j <= i < self.parts@.len(),
                *part == self.parts@[i as int],
                part.size > 0,
                part.offset + part.size <= self.total_size,
                forall|k: int| 0 <= k < j ==> (#[trigger] self.parts@[k]).offset != part.offset,
            decreases i - j,
        {
            if self.parts[j].offset == part.offset {
                assert(self.parts@[j as int].offset == self.parts@[i as int].offset);
                let mut text = "duplicate presigned part offset: ".to_owned();
                push_decimal(&mut text, part.offset as u128);
                return Some(text);
            }
            j += 1;
        }
        None
    }

    /// The part that starts at an offset, if there is one.
    pub fn part_for_offset(&self, offset: u64) -> (part: Option<&PresignedUploadPart>)
        ensures
            match part_at(self.parts@, offset) {
                Some(found) => part == Some(&found),
                None => part is None,
            },
    {
        let mut i: usize = 0;
        assert(self.parts@.skip(0) =~= self.parts@);
        while i < self.parts.len()
            invariant
                i <= self.parts@.len(),
                part_at(self.parts@, offset) == part_at(self.parts@.skip(i as int), offset),
            decreases self.parts@.len() - i,
        {
            assert(self.parts@.skip(i as int)[0] == self.parts@[i as int]);
            if self.parts[i].offset == offset {
                return Some(&self.parts[i]);
            }
            assert(self.parts@.skip(i as int).skip(1) =~= self.parts@.skip(i + 1));
            i += 1;
        }
        None
    }
}

} // verus!
