//! Parts that were uploaded, and lists of them.

use vstd::prelude::*;
use vstd::string::*;

use crate::text::{from_chars, to_chars};

verus! {

/// What is known of a part once it was uploaded.
#[derive(Debug)]
pub struct PresignedUploadedPart {
    pub part_number: u64,
    /// The provider's own name for the part.
    pub provider_part_id: Option<String>,
    pub offset: u64,
    pub size: u64,
    /// The entity tag that the provider answered with.
    pub etag: Option<String>,
}

/// A text without the quotes around it: what is cut off at both ends is quotes,
/// and what is left neither starts nor ends with one.
pub open spec fn is_unquoted(quoted: Seq<char>, plain: Seq<char>) -> bool {
    exists|from: int, to: int| #[trigger] quotes_around(quoted, from, to) && plain == quoted.subrange(
        from,
        to,
    )
}

pub open spec fn quotes_around(quoted: Seq<char>, from: int, to: int) -> bool {
    &&& 0 <= from <= to <= quoted.len()
    &&& forall|i: int| 0 <= i < from || to <= i < quoted.len() ==> quoted[i] == '"'
    &&& from < to ==> quoted[from] != '"' && quoted[to - 1] != '"'
}

/// A copy of an optional text.
pub fn copy_text(text: &Option<String>) -> (copy: Option<String>)
    ensures
        copy == *text,
{
    match text {
        Some(text) => Some(text.clone()),
        None => None,
    }
}

impl Clone for PresignedUploadedPart {
    fn clone(&self) -> (copy: Self)
        ensures
            copy == *self,
    {
        PresignedUploadedPart {
            part_number: self.part_number,
            provider_part_id: copy_text(&self.provider_part_id),
            offset: self.offset,
            size: self.size,
            etag: copy_text(&self.etag),
        }
    }
}

impl PresignedUploadedPart {
    /// The entity tag without the quotes around it.
    pub fn etag_unquoted(&self) -> (etag: Option<String>)
        ensures
            etag is Some == self.etag is Some,
            etag matches Some(plain) ==> is_unquoted(self.etag->Some_0@, plain@),
    {
        let quoted = match &self.etag {
            Some(etag) => to_chars(etag.as_str()),
            None => {
                return None;
            },
        };
        let mut from: usize = 0;
        while from < quoted.len() && quoted[from] == '"'
            invariant
                from <= quoted@.len(),
                forall|i: int| 0 <= i < from ==> quoted@[i] == '"',
            decreases quoted@.len() - from,
        {
            from += 1;
        }
        let mut to: usize = quoted.len();
        while to > from && quoted[to - 1] == '"'
            invariant
                from <= to <= quoted@.len(),
                forall|i: int| to <= i < quoted@.len() ==> quoted@[i] == '"',
            decreases to,
        {
            to -= 1;
        }
        let plain = from_chars(vstd::slice::slice_subrange(quoted.as_slice(), from, to));
        proof {
            assert(quotes_around(quoted@, from as int, to as int));
        }
        Some(plain)
    }
}

// ---------------------------------------------------------------------------
// Order
// ---------------------------------------------------------------------------

/// By what parts are put in order.
#[derive(Debug, Clone, Copy, PartialEq, Eq, Structural)]
pub enum PartKey {
    Offset,
    OffsetThenNumber,
    Number,
}

pub open spec fn rank(key: PartKey, part: PresignedUploadedPart) -> (u64, u64) {
    match key {
        PartKey::Offset => (part.offset, 0),
        PartKey::OffsetThenNumber => (part.offset, part.part_number),
        PartKey::Number => (part.part_number, 0),
    }
}

/// Whether `a` may stand before `b`.
pub open spec fn not_after(
    key: PartKey,
    a: PresignedUploadedPart,
    b: PresignedUploadedPart,
) -> bool {
    rank(key, a).0 < rank(key, b).0 || (rank(key, a).0 == rank(key, b).0 && rank(key, a).1 <= rank(
        key,
        b,
    ).1)
}

/// A list with one more part, behind all that may stand before it.
pub open spec fn inserted(
    key: PartKey,
    list: Seq<PresignedUploadedPart>,
    part: PresignedUploadedPart,
) -> Seq<PresignedUploadedPart>
    decreases list.len(),
{
    if list.len() == 0 || not_after(key, list.last(), part) {
        list.push(part)
    } else {
        inserted(key, list.drop_last(), part).push(list.last())
    }
}

/// A list put in order. Parts of equal rank keep their order.
pub open spec fn sorted(
    key: PartKey,
    list: Seq<PresignedUploadedPart>,
) -> Seq<PresignedUploadedPart>
    decreases list.len(),
{
    if list.len() == 0 {
        list
    } else {
        inserted(key, sorted(key, list.drop_last()), list.last())
    }
}

/// Whether a list is in order.
pub open spec fn is_sorted(key: PartKey, list: Seq<PresignedUploadedPart>) -> bool {
    forall|i: int, j: int|
        0 <= i < j < list.len() ==> not_after(key, #[trigger] list[i], #[trigger] list[j])
}

proof fn lemma_inserted_at(
    key: PartKey,
    list: Seq<PresignedUploadedPart>,
    part: PresignedUploadedPart,
    at: int,
)
    requires
        0 <= at <= list.len(),
        at > 0 ==> not_after(key, list[at - 1], part),
        forall|j: int| at <= j < list.len() ==> !not_after(key, #[trigger] list[j], part),
    ensures
        inserted(key, list, part) == list.insert(at, part),
    decreases list.len(),
{
    if at == list.len() {
        assert(list.insert(at, part) =~= list.push(part));
    } else {
        assert(!not_after(key, list[list.len() - 1], part));
        assert forall|j: int| at <= j < list.drop_last().len() implies !not_after(
            key,
            #[trigger] list.drop_last()[j],
            part,
        ) by {
            assert(list.drop_last()[j] == list[j]);
        }
        lemma_inserted_at(key, list.drop_last(), part, at);
        assert(list.insert(at, part) =~= list.drop_last().insert(at, part).push(list.last()));
    }
}

/// Inserting keeps a list in order and adds exactly the part.
proof fn lemma_inserted(
    key: PartKey,
    list: Seq<PresignedUploadedPart>,
    part: PresignedUploadedPart,
)
    requires
        is_sorted(key, list),
    ensures
        is_sorted(key, inserted(key, list, part)),
        inserted(key, list, part).to_multiset() == list.to_multiset().insert(part),
        inserted(key, list, part).len() == list.len() + 1,
    decreases list.len(),
{
    broadcast use vstd::seq_lib::group_to_multiset_ensures;

    let new = inserted(key, list, part);
    if list.len() == 0 || not_after(key, list.last(), part) {
        assert forall|i: int, j: int| 0 <= i < j < new.len() implies not_after(
            key,
            #[trigger] new[i],
            #[trigger] new[j],
        ) by {
            if j == list.len() {
                assert(new[i] == list[i]);
                if i < list.len() - 1 {
                    assert(not_after(key, list[i], list[list.len() - 1]));
                }
            } else {
                assert(not_after(key, list[i], list[j]));
            }
        }
    } else {
        let shorter = list.drop_last();
        let rest = inserted(key, shorter, part);
        assert(is_sorted(key, shorter)) by {
            assert forall|i: int, j: int| 0 <= i < j < shorter.len() implies not_after(
                key,
                #[trigger] shorter[i],
                #[trigger] shorter[j],
            ) by {
                assert(not_after(key, list[i], list[j]));
            }
        }
        lemma_inserted(key, shorter, part);
        assert(list =~= shorter.push(list.last()));
        assert forall|i: int, j: int| 0 <= i < j < new.len() implies not_after(
            key,
            #[trigger] new[i],
            #[trigger] new[j],
        ) by {
            if j == rest.len() {
                assert(new[i] == rest[i]);
                assert(rest.to_multiset().contains(rest[i]));
                assert(shorter.to_multiset().insert(part).contains(rest[i]));
                if rest[i] != part {
                    assert(shorter.to_multiset().contains(rest[i]));
                    assert(shorter.contains(rest[i]));
                    let k = choose|k: int| 0 <= k < shorter.len() && shorter[k] == rest[i];
                    assert(not_after(key, list[k], list[list.len() - 1]));
                }
            } else {
                assert(not_after(key, rest[i], rest[j]));
            }
        }
        assert(new.to_multiset() =~= list.to_multiset().insert(part));
    }
}

/// Putting a list in order only reorders it.
pub proof fn law_sorting_only_reorders(key: PartKey, list: Seq<PresignedUploadedPart>)
    ensures
        is_sorted(key, sorted(key, list)),
        sorted(key, list).to_multiset() == list.to_multiset(),
        sorted(key, list).len() == list.len(),
    decreases list.len(),
{
    broadcast use vstd::seq_lib::group_to_multiset_ensures;

    if list.len() > 0 {
        law_sorting_only_reorders(key, list.drop_last());
        lemma_inserted(key, sorted(key, list.drop_last()), list.last());
        assert(list =~= list.drop_last().push(list.last()));
        assert(sorted(key, list).to_multiset() =~= list.to_multiset());
    }
}

fn comes_after(key: PartKey, a: &PresignedUploadedPart, b: &PresignedUploadedPart) -> (after: bool)
    ensures
        after == !not_after(key, *a, *b),
{
    match key {
        PartKey::Offset => a.offset > b.offset,
        PartKey::OffsetThenNumber => a.offset > b.offset || (a.offset == b.offset && a.part_number
            > b.part_number),
        PartKey::Number => a.part_number > b.part_number,
    }
}

/// Puts a list in order.
pub fn sort_parts(parts: Vec<PresignedUploadedPart>, key: PartKey) -> (list: Vec<
    PresignedUploadedPart,
>)
    ensures
        list@ == sorted(key, parts@),
{
    let mut rest = parts;
    let ghost all = parts@;
    let mut list: Vec<PresignedUploadedPart> = Vec::new();
    assert(all.take(0) =~= Seq::empty());
    assert(rest@ =~= all.skip(0));
    let ghost mut done: int = 0;
    while rest.len() > 0
        invariant
            0 <= done <= all.len(),
            rest@ == all.skip(done),
            list@ == sorted(key, all.take(done)),
        decreases rest@.len(),
    {
        let part = rest.remove(0);
        proof {
            assert(part == all[done]);
            assert(rest@ =~= all.skip(done + 1));
            assert(all.take(done + 1).drop_last() =~= all.take(done));
        }
        let mut at: usize = list.len();
        while at > 0 && comes_after(key, &list[at - 1], &part)
            invariant
                at <= list@.len(),
                forall|j: int| at <= j < list@.len() ==> !not_after(key, #[trigger] list@[j], part),
            decreases at,
        {
            at -= 1;
        }
        proof {
            lemma_inserted_at(key, list@, part, at as int);
        }
        list.insert(at, part);
        proof {
            done = done + 1;
        }
    }
    assert(all.take(done) =~= all);
    list
}

// ---------------------------------------------------------------------------
// One part per offset
// ---------------------------------------------------------------------------

/// Whether no two parts of a list start at the same offset.
pub open spec fn distinct_offsets(list: Seq<PresignedUploadedPart>) -> bool {
    forall|i: int, j: int|
        0 <= i < list.len() && 0 <= j < list.len() && i != j ==> (#[trigger] list[i]).offset != (
        #[trigger] list[j]).offset
}

/// Whether a list has a part at an offset.
pub open spec fn has_offset(list: Seq<PresignedUploadedPart>, offset: u64) -> bool {
    exists|i: int| 0 <= i < list.len() && (#[trigger] list[i]).offset == offset
}

/// A list without the parts that start where the part before them starts.
pub open spec fn without_repeats(list: Seq<PresignedUploadedPart>) -> Seq<PresignedUploadedPart>
    decreases list.len(),
{
    if list.len() == 0 {
        list
    } else if list.len() > 1 && list[list.len() - 2].offset == list.last().offset {
        without_repeats(list.drop_last())
    } else {
        without_repeats(list.drop_last()).push(list.last())
    }
}

fn drop_repeats(parts: Vec<PresignedUploadedPart>) -> (list: Vec<PresignedUploadedPart>)
    ensures
        list@ == without_repeats(parts@),
{
    let mut rest = parts;
    let ghost all = parts@;
    let mut list: Vec<PresignedUploadedPart> = Vec::new();
    let ghost mut done: int = 0;
    let mut last_offset: Option<u64> = None;
    assert(all.take(0) =~= Seq::empty());
    assert(rest@ =~= all.skip(0));
    while rest.len() > 0
        invariant
            0 <= done <= all.len(),
            rest@ == all.skip(done),
            list@ == without_repeats(all.take(done)),
            last_offset == if done == 0 {
                None
            } else {
                Some(all[done - 1].offset)
            },
        decreases rest@.len(),
    {
        let part = rest.remove(0);
        proof {
            assert(part == all[done]);
            assert(rest@ =~= all.skip(done + 1));
            assert(all.take(done + 1).drop_last() =~= all.take(done));
            assert(all.take(done + 1).last() == part);
        }
        let offset: u64 = part.offset;
        let repeats = match last_offset {
            Some(last) => last == offset,
            None => false,
        };
        if !repeats {
            list.push(part);
        }
        last_offset = Some(offset);
        proof {
            done = done + 1;
        }
    }
    assert(all.take(done) =~= all);
    list
}

/// In a list that is ordered by offset, dropping repeats leaves each offset
/// once.
proof fn lemma_without_repeats(key: PartKey, list: Seq<PresignedUploadedPart>)
    requires
        is_sorted(key, list),
        key != PartKey::Number,
    ensures
        ({
            let kept = without_repeats(list);
            &&& forall|i: int, j: int|
                0 <= i < j < kept.len() ==> (#[trigger] kept[i]).offset < (#[trigger] kept[j]).offset
            &&& forall|i: int| 0 <= i < kept.len() ==> list.contains(#[trigger] kept[i])
            &&& forall|offset: u64| #[trigger] has_offset(list, offset) ==> has_offset(kept, offset)
            &&& list.len() > 0 ==> kept.len() > 0 && kept.last().offset == list.last().offset
        }),
    decreases list.len(),
{
    if list.len() > 0 {
        let shorter = list.drop_last();
        assert forall|i: int, j: int| 0 <= i < j < shorter.len() implies not_after(
            key,
            #[trigger] shorter[i],
            #[trigger] shorter[j],
        ) by {
            assert(not_after(key, list[i], list[j]));
        }
        lemma_without_repeats(key, shorter);
        let before = without_repeats(shorter);
        let kept = without_repeats(list);
        let repeats = list.len() > 1 && list[list.len() - 2].offset == list.last().offset;
        assert forall|i: int| 0 <= i < before.len() implies list.contains(#[trigger] before[i]) by {
            assert(shorter.contains(before[i]));
            let k = choose|k: int| 0 <= k < shorter.len() && shorter[k] == before[i];
            assert(list[k] == before[i]);
        }
        if shorter.len() > 0 {
            assert(shorter.last() == list[list.len() - 2]);
            assert(not_after(key, list[list.len() - 2], list[list.len() - 1]));
        }
        if !repeats {
            assert forall|i: int, j: int| 0 <= i < j < kept.len() implies (#[trigger] kept[i]).offset
                < (#[trigger] kept[j]).offset by {
                if j == before.len() {
                    assert(kept[i] == before[i]);
                    if i < before.len() - 1 {
                        assert(before[i].offset < before[before.len() - 1].offset);
                    }
                } else {
                    assert(before[i].offset < before[j].offset);
                }
            }
            assert forall|i: int| 0 <= i < kept.len() implies list.contains(#[trigger] kept[i]) by {
                if i == before.len() {
                    assert(list[list.len() - 1] == kept[i]);
                } else {
                    assert(kept[i] == before[i]);
                }
            }
        }
        assert forall|offset: u64| #[trigger] has_offset(list, offset) implies has_offset(
            kept,
            offset,
        ) by {
            let k = choose|k: int| 0 <= k < list.len() && (#[trigger] list[k]).offset == offset;
            if k < shorter.len() {
                assert(shorter[k].offset == offset);
                assert(has_offset(shorter, offset));
                let m = choose|m: int|
                    0 <= m < before.len() && (#[trigger] before[m]).offset == offset;
                assert(kept[m].offset == offset);
            } else {
                assert(kept[kept.len() - 1].offset == offset);
            }
        }
    }
}

/// The list that completes an upload: one part per offset (where several were
/// recorded, the one with the smallest number), in the order of part numbers.
pub open spec fn completion_parts(parts: Seq<PresignedUploadedPart>) -> Seq<PresignedUploadedPart> {
    sorted(PartKey::Number, without_repeats(sorted(PartKey::OffsetThenNumber, parts)))
}

/// Makes the list that completes an upload.
pub fn sort_dedup_completion_parts(parts: Vec<PresignedUploadedPart>) -> (list: Vec<
    PresignedUploadedPart,
>)
    ensures
        list@ == completion_parts(parts@),
{
    sort_parts(drop_repeats(sort_parts(parts, PartKey::OffsetThenNumber)), PartKey::Number)
}

proof fn lemma_same_members(a: Seq<PresignedUploadedPart>, b: Seq<PresignedUploadedPart>)
    requires
        a.to_multiset() == b.to_multiset(),
    ensures
        forall|p: PresignedUploadedPart| #[trigger] a.contains(p) <==> b.contains(p),
        forall|offset: u64| #[trigger] has_offset(a, offset) <==> has_offset(b, offset),
{
    broadcast use vstd::seq_lib::group_to_multiset_ensures;

    assert forall|p: PresignedUploadedPart| #[trigger] a.contains(p) <==> b.contains(p) by {
        vstd::seq_lib::to_multiset_contains(a, p);
        vstd::seq_lib::to_multiset_contains(b, p);
    }
    assert forall|offset: u64| #[trigger] has_offset(a, offset) <==> has_offset(b, offset) by {
        if has_offset(a, offset) {
            let i = choose|i: int| 0 <= i < a.len() && (#[trigger] a[i]).offset == offset;
            assert(a.contains(a[i]));
            assert(b.contains(a[i]));
            let j = choose|j: int| 0 <= j < b.len() && b[j] == a[i];
            assert(b[j].offset == offset);
        }
        if has_offset(b, offset) {
            let i = choose|i: int| 0 <= i < b.len() && (#[trigger] b[i]).offset == offset;
            assert(b.contains(b[i]));
            assert(a.contains(b[i]));
            let j = choose|j: int| 0 <= j < a.len() && a[j] == b[i];
            assert(a[j].offset == offset);
        }
    }
}

/// A part that stands twice in a reordered list stands twice in the list.
pub proof fn lemma_listed_twice(
    a: Seq<PresignedUploadedPart>,
    b: Seq<PresignedUploadedPart>,
    i: int,
    j: int,
)
    requires
        a.to_multiset() == b.to_multiset(),
        0 <= i < j < a.len(),
        a[i] == a[j],
    ensures
        exists|k: int, l: int|
            0 <= k < l < b.len() && #[trigger] b[k] == a[i] && #[trigger] b[l] == a[i],
{
    broadcast use vstd::seq_lib::group_to_multiset_ensures;

    lemma_counted_twice(a, i, j);
    assert(b.to_multiset().count(a[i]) >= 2);
    assert(b.contains(a[i]));
    let k = choose|k: int| 0 <= k < b.len() && b[k] == a[i];
    let rest = b.remove(k);
    vstd::seq_lib::to_multiset_remove(b, k);
    assert(rest.to_multiset().count(a[i]) >= 1);
    assert(rest.contains(a[i]));
    let m = choose|m: int| 0 <= m < rest.len() && rest[m] == a[i];
    if m < k {
        assert(b[m] == a[i] && b[k] == a[i]);
    } else {
        assert(b[k] == a[i] && b[m + 1] == a[i]);
    }
}

/// In a list that is ordered by offset and number, dropping repeats leaves of
/// each offset the part with the least number.
proof fn lemma_least_is_kept(list: Seq<PresignedUploadedPart>)
    requires
        is_sorted(PartKey::OffsetThenNumber, list),
    ensures
        forall|i: int, m: int|
            0 <= i < without_repeats(list).len() && 0 <= m < list.len()
                && (#[trigger] without_repeats(list)[i]).offset == (#[trigger] list[m]).offset
                ==> without_repeats(list)[i].part_number <= list[m].part_number,
    decreases list.len(),
{
    if list.len() > 0 {
        let key = PartKey::OffsetThenNumber;
        let shorter = list.drop_last();
        assert forall|i: int, j: int| 0 <= i < j < shorter.len() implies not_after(
            key,
            #[trigger] shorter[i],
            #[trigger] shorter[j],
        ) by {
            assert(not_after(key, list[i], list[j]));
        }
        lemma_least_is_kept(shorter);
        lemma_without_repeats(key, shorter);
        lemma_without_repeats(key, list);
        let before = without_repeats(shorter);
        let kept = without_repeats(list);
        let last = list.len() - 1;
        assert forall|i: int, m: int|
            0 <= i < kept.len() && 0 <= m < list.len() && (#[trigger] kept[i]).offset == (
            #[trigger] list[m]).offset implies kept[i].part_number <= list[m].part_number by {
            if i < before.len() {
                assert(kept[i] == before[i]);
                if m < last {
                    assert(shorter[m] == list[m]);
                } else {
                    assert(shorter.contains(before[i]));
                    let k = choose|k: int| 0 <= k < shorter.len() && shorter[k] == before[i];
                    assert(not_after(key, list[k], list[last]));
                }
            } else if m < last {
                assert(not_after(key, list[m], list[last]));
                assert(not_after(key, list[m], list[last - 1]) || m == last - 1);
                assert(not_after(key, list[last - 1], list[last]));
            }
        }
    }
}

/// Where every part begins behind the one before it, there is nothing to drop.
proof fn lemma_nothing_repeats(list: Seq<PresignedUploadedPart>)
    requires
        forall|i: int, j: int|
            0 <= i < j < list.len() ==> (#[trigger] list[i]).offset < (#[trigger] list[j]).offset,
    ensures
        without_repeats(list) == list,
    decreases list.len(),
{
    if list.len() > 0 {
        let shorter = list.drop_last();
        assert forall|i: int, j: int| 0 <= i < j < shorter.len() implies (
        #[trigger] shorter[i]).offset < (#[trigger] shorter[j]).offset by {
            assert(list[i].offset < list[j].offset);
        }
        lemma_nothing_repeats(shorter);
        if list.len() > 1 {
            assert(list[list.len() - 2].offset < list[list.len() - 1].offset);
        }
        assert(shorter.push(list.last()) =~= list);
    }
}

/// Of the parts that were recorded for an offset, the one with the least number
/// completes the upload, each at most as often as it was recorded; and making
/// the list anew changes nothing.
pub proof fn law_completion_list_is_settled(parts: Seq<PresignedUploadedPart>)
    ensures
        forall|i: int, m: int|
            0 <= i < completion_parts(parts).len() && 0 <= m < parts.len()
                && (#[trigger] completion_parts(parts)[i]).offset == (#[trigger] parts[m]).offset
                ==> completion_parts(parts)[i].part_number <= parts[m].part_number,
        completion_parts(parts).to_multiset().subset_of(parts.to_multiset()),
        completion_parts(completion_parts(parts)) == completion_parts(parts),
{
    broadcast use vstd::seq_lib::group_to_multiset_ensures;

    let ordered = sorted(PartKey::OffsetThenNumber, parts);
    let kept = without_repeats(ordered);
    let list = completion_parts(parts);
    law_sorting_only_reorders(PartKey::OffsetThenNumber, parts);
    lemma_without_repeats(PartKey::OffsetThenNumber, ordered);
    lemma_least_is_kept(ordered);
    law_sorting_only_reorders(PartKey::Number, kept);
    lemma_same_members(ordered, parts);
    lemma_same_members(list, kept);
    assert forall|i: int, m: int|
        0 <= i < list.len() && 0 <= m < parts.len() && (#[trigger] list[i]).offset == (
        #[trigger] parts[m]).offset implies list[i].part_number <= parts[m].part_number by {
        assert(list.contains(list[i]));
        let k = choose|k: int| 0 <= k < kept.len() && kept[k] == list[i];
        assert(parts.contains(parts[m]));
        assert(ordered.contains(parts[m]));
        let o = choose|o: int| 0 <= o < ordered.len() && ordered[o] == parts[m];
        assert(kept[k].part_number <= ordered[o].part_number);
    }
    assert forall|p: PresignedUploadedPart| list.to_multiset().count(p)
        <= parts.to_multiset().count(p) by {
        assert(list.to_multiset().count(p) == kept.to_multiset().count(p));
        if kept.contains(p) {
            let k = choose|k: int| 0 <= k < kept.len() && kept[k] == p;
            lemma_counted_once(kept, k);
            assert(ordered.contains(kept[k]));
            assert(parts.contains(p));
            assert(parts.to_multiset().count(p) >= 1);
        } else {
            assert(kept.to_multiset().count(p) == 0);
        }
    }
    law_completion_list_is_sound(parts);
    let again = sorted(PartKey::OffsetThenNumber, list);
    law_sorting_only_reorders(PartKey::OffsetThenNumber, list);
    lemma_strictly_sorted(PartKey::OffsetThenNumber, list);
    lemma_strict_order_is_unique(again, kept);
    lemma_nothing_repeats(again);
}

/// What completes an upload is in the order of part numbers, has no offset
/// twice, leaves no offset out, and holds nothing that was not recorded.
pub proof fn law_completion_list_is_sound(parts: Seq<PresignedUploadedPart>)
    ensures
        is_sorted(PartKey::Number, completion_parts(parts)),
        distinct_offsets(completion_parts(parts)),
        forall|i: int|
            0 <= i < completion_parts(parts).len() ==> parts.contains(
                #[trigger] completion_parts(parts)[i],
            ),
        forall|offset: u64| #[trigger]
            has_offset(parts, offset) ==> has_offset(completion_parts(parts), offset),
{
    broadcast use vstd::seq_lib::group_to_multiset_ensures;

    let ordered = sorted(PartKey::OffsetThenNumber, parts);
    let kept = without_repeats(ordered);
    let list = completion_parts(parts);
    law_sorting_only_reorders(PartKey::OffsetThenNumber, parts);
    lemma_without_repeats(PartKey::OffsetThenNumber, ordered);
    law_sorting_only_reorders(PartKey::Number, kept);
    lemma_same_members(ordered, parts);
    lemma_same_members(parts, ordered);
    lemma_same_members(list, kept);
    lemma_same_members(kept, list);
    assert forall|i: int| 0 <= i < list.len() implies parts.contains(#[trigger] list[i]) by {
        assert(list.contains(list[i]));
        assert(kept.contains(list[i]));
        let k = choose|k: int| 0 <= k < kept.len() && kept[k] == list[i];
        assert(ordered.contains(kept[k]));
    }
    assert forall|i: int, j: int|
        0 <= i < list.len() && 0 <= j < list.len() && i != j implies (#[trigger] list[i]).offset != (
    #[trigger] list[j]).offset by {
        if list[i].offset == list[j].offset {
            lemma_distinct_survives(kept, list, i, j);
        }
    }
}

/// Reordering a list with distinct offsets cannot bring an offset twice.
proof fn lemma_distinct_survives(
    a: Seq<PresignedUploadedPart>,
    b: Seq<PresignedUploadedPart>,
    i: int,
    j: int,
)
    requires
        a.to_multiset() == b.to_multiset(),
        forall|i: int, j: int|
            0 <= i < j < a.len() ==> (#[trigger] a[i]).offset < (#[trigger] a[j]).offset,
        0 <= i < b.len(),
        0 <= j < b.len(),
        i != j,
    ensures
        b[i].offset != b[j].offset,
{
    broadcast use vstd::seq_lib::group_to_multiset_ensures;

    lemma_same_members(b, a);
    assert(b.contains(b[i]));
    assert(b.contains(b[j]));
    let k = choose|k: int| 0 <= k < a.len() && a[k] == b[i];
    let l = choose|l: int| 0 <= l < a.len() && a[l] == b[j];
    if b[i].offset == b[j].offset {
        assert(k == l) by {
            if k < l {
                assert(a[k].offset < a[l].offset);
            } else if l < k {
                assert(a[l].offset < a[k].offset);
            }
        }
        assert(b[i] == b[j]);
        assert(a.to_multiset().count(b[i]) == b.to_multiset().count(b[i]));
        lemma_counted_twice(b, i, j);
        lemma_counted_once(a, k);
    }
}

proof fn lemma_counted_twice(b: Seq<PresignedUploadedPart>, i: int, j: int)
    requires
        0 <= i < b.len(),
        0 <= j < b.len(),
        i != j,
        b[i] == b[j],
    ensures
        b.to_multiset().count(b[i]) >= 2,
{
    broadcast use vstd::seq_lib::group_to_multiset_ensures;

    let lo = if i < j {
        i
    } else {
        j
    };
    let hi = if i < j {
        j
    } else {
        i
    };
    let rest = b.remove(hi);
    assert(rest[lo] == b[lo]);
    assert(rest.contains(b[i]));
    assert(rest.to_multiset().count(b[i]) >= 1);
    vstd::seq_lib::to_multiset_remove(b, hi);
}

proof fn lemma_counted_once(a: Seq<PresignedUploadedPart>, k: int)
    requires
        0 <= k < a.len(),
        forall|i: int, j: int|
            0 <= i < j < a.len() ==> (#[trigger] a[i]).offset < (#[trigger] a[j]).offset,
    ensures
        a.to_multiset().count(a[k]) == 1,
{
    broadcast use vstd::seq_lib::group_to_multiset_ensures;

    let rest = a.remove(k);
    assert(!rest.contains(a[k])) by {
        if rest.contains(a[k]) {
            let i = choose|i: int| 0 <= i < rest.len() && rest[i] == a[k];
            if i < k {
                assert(a[i].offset < a[k].offset);
            } else {
                assert(a[k].offset < a[i + 1].offset);
            }
        }
    }
    assert(rest.to_multiset().count(a[k]) == 0);
    vstd::seq_lib::to_multiset_remove(a, k);
}

/// In a list with distinct offsets that is ordered by offset, every part lies
/// strictly before the next.
proof fn lemma_strictly_sorted(key: PartKey, list: Seq<PresignedUploadedPart>)
    requires
        key != PartKey::Number,
        distinct_offsets(list),
    ensures
        forall|i: int, j: int|
            0 <= i < j < sorted(key, list).len() ==> (#[trigger] sorted(key, list)[i]).offset < (
            #[trigger] sorted(key, list)[j]).offset,
{
    broadcast use vstd::seq_lib::group_to_multiset_ensures;

    let ordered = sorted(key, list);
    law_sorting_only_reorders(key, list);
    assert forall|i: int, j: int| 0 <= i < j < ordered.len() implies (#[trigger] ordered[i]).offset < (
    #[trigger] ordered[j]).offset by {
        assert(not_after(key, ordered[i], ordered[j]));
        if ordered[i].offset == ordered[j].offset {
            lemma_same_members(ordered, list);
            assert(ordered.contains(ordered[i]));
            assert(ordered.contains(ordered[j]));
            let k = choose|k: int| 0 <= k < list.len() && list[k] == ordered[i];
            let l = choose|l: int| 0 <= l < list.len() && list[l] == ordered[j];
            assert(k == l);
            lemma_counted_twice(ordered, i, j);
            assert(ordered.to_multiset().count(list[k]) == list.to_multiset().count(list[k]));
            let rest = list.remove(k);
            assert(!rest.contains(list[k])) by {
                if rest.contains(list[k]) {
                    let m = choose|m: int| 0 <= m < rest.len() && rest[m] == list[k];
                    if m < k {
                        assert(list[m].offset != list[k].offset);
                    } else {
                        assert(list[m + 1].offset != list[k].offset);
                    }
                }
            }
            vstd::seq_lib::to_multiset_remove(list, k);
            assert(rest.to_multiset().count(list[k]) == 0);
        }
    }
}

/// Two strictly ordered lists with the same members are the same list.
proof fn lemma_strict_order_is_unique(a: Seq<PresignedUploadedPart>, b: Seq<PresignedUploadedPart>)
    requires
        a.to_multiset() == b.to_multiset(),
        forall|i: int, j: int|
            0 <= i < j < a.len() ==> (#[trigger] a[i]).offset < (#[trigger] a[j]).offset,
        forall|i: int, j: int|
            0 <= i < j < b.len() ==> (#[trigger] b[i]).offset < (#[trigger] b[j]).offset,
    ensures
        a == b,
    decreases a.len(),
{
    broadcast use vstd::seq_lib::group_to_multiset_ensures;

    assert(a.len() == a.to_multiset().len());
    assert(b.len() == b.to_multiset().len());
    if a.len() == 0 {
        assert(a =~= b);
    } else {
        lemma_same_members(a, b);
        lemma_same_members(b, a);
        assert(a.contains(a.last()));
        assert(b.contains(b.last()));
        let k = choose|k: int| 0 <= k < b.len() && b[k] == a.last();
        let l = choose|l: int| 0 <= l < a.len() && a[l] == b.last();
        if k < b.len() - 1 {
            assert(b[k].offset < b[b.len() - 1].offset);
            if l < a.len() - 1 {
                assert(a[l].offset < a[a.len() - 1].offset);
            }
            assert(false);
        }
        let p = a.drop_last();
        let q = b.drop_last();
        vstd::seq_lib::to_multiset_remove(a, a.len() - 1);
        vstd::seq_lib::to_multiset_remove(b, b.len() - 1);
        assert(a.remove(a.len() - 1) =~= p);
        assert(b.remove(b.len() - 1) =~= q);
        assert forall|i: int, j: int| 0 <= i < j < p.len() implies (#[trigger] p[i]).offset < (
        #[trigger] p[j]).offset by {
            assert(a[i].offset < a[j].offset);
        }
        assert forall|i: int, j: int| 0 <= i < j < q.len() implies (#[trigger] q[i]).offset < (
        #[trigger] q[j]).offset by {
            assert(b[i].offset < b[j].offset);
        }
        lemma_strict_order_is_unique(p, q);
        assert(a =~= p.push(a.last()));
        assert(b =~= q.push(b.last()));
    }
}

/// It does not matter in which order parts were uploaded: as long as no two
/// start at the same offset, the ordered list and the completion list are the
/// same.
pub proof fn law_accounting_is_order_independent(
    a: Seq<PresignedUploadedPart>,
    b: Seq<PresignedUploadedPart>,
)
    requires
        a.to_multiset() == b.to_multiset(),
        distinct_offsets(a),
        distinct_offsets(b),
    ensures
        sorted(PartKey::Offset, a) == sorted(PartKey::Offset, b),
        completion_parts(a) == completion_parts(b),
{
    law_sorting_only_reorders(PartKey::Offset, a);
    law_sorting_only_reorders(PartKey::Offset, b);
    lemma_strictly_sorted(PartKey::Offset, a);
    lemma_strictly_sorted(PartKey::Offset, b);
    lemma_strict_order_is_unique(sorted(PartKey::Offset, a), sorted(PartKey::Offset, b));
    law_sorting_only_reorders(PartKey::OffsetThenNumber, a);
    law_sorting_only_reorders(PartKey::OffsetThenNumber, b);
    lemma_strictly_sorted(PartKey::OffsetThenNumber, a);
    lemma_strictly_sorted(PartKey::OffsetThenNumber, b);
    lemma_strict_order_is_unique(
        sorted(PartKey::OffsetThenNumber, a),
        sorted(PartKey::OffsetThenNumber, b),
    );
}

// ---------------------------------------------------------------------------
// Taking account of parts
// ---------------------------------------------------------------------------

/// Whether a part is the last of a list that starts at its offset.
pub open spec fn is_last_at_offset(list: Seq<PresignedUploadedPart>, at: int) -> bool {
    0 <= at < list.len() && forall|k: int|
        at < k < list.len() ==> (#[trigger] list[k]).offset != list[at].offset
}

/// Whether a list holds, in the order of offsets, the last part of another list
/// for each offset.
pub open spec fn is_latest_by_offset(
    all: Seq<PresignedUploadedPart>,
    list: Seq<PresignedUploadedPart>,
) -> bool {
    &&& forall|i: int, j: int|
        0 <= i < j < list.len() ==> (#[trigger] list[i]).offset < (#[trigger] list[j]).offset
    &&& forall|i: int|
        0 <= i < list.len() ==> exists|at: int| #[trigger]
            is_last_at_offset(all, at) && all[at] == #[trigger] list[i]
    &&& forall|offset: u64| #[trigger] has_offset(all, offset) ==> has_offset(list, offset)
}

/// Whether `after` is a list ordered by offset with a part put in place of the
/// part that was at its offset, or between its neighbours.
spec fn put_at(
    before: Seq<PresignedUploadedPart>,
    part: PresignedUploadedPart,
    after: Seq<PresignedUploadedPart>,
    at: int,
) -> bool {
    &&& 0 <= at <= before.len()
    &&& forall|j: int| 0 <= j < at ==> (#[trigger] before[j]).offset < part.offset
    &&& if at < before.len() && before[at].offset == part.offset {
        after == before.update(at, part)
    } else {
        &&& forall|j: int| at <= j < before.len() ==> (#[trigger] before[j]).offset > part.offset
        &&& after == before.insert(at, part)
    }
}

/// Puts a part where its offset belongs, in place of the part that is there.
fn put_by_offset(list: &mut Vec<PresignedUploadedPart>, part: PresignedUploadedPart)
    requires
        forall|i: int, j: int|
            0 <= i < j < old(list)@.len() ==> (#[trigger] old(list)@[i]).offset < (
            #[trigger] old(list)@[j]).offset,
    ensures
        exists|at: int| put_at(old(list)@, part, final(list)@, at),
{
    let mut at: usize = 0;
    while at < list.len() && list[at].offset < part.offset
        invariant
            list@ == old(list)@,
            at <= list@.len(),
            forall|j: int| 0 <= j < at ==> (#[trigger] list@[j]).offset < part.offset,
        decreases list@.len() - at,
    {
        at += 1;
    }
    if at < list.len() && list[at].offset == part.offset {
        list.set(at, part);
    } else {
        assert forall|j: int| at <= j < list@.len() implies (#[trigger] list@[j]).offset
            > part.offset by {
            if j > at {
                assert(list@[at as int].offset < list@[j].offset);
            }
        }
        list.insert(at, part);
    }
    assert(put_at(old(list)@, part, list@, at as int));
}

proof fn lemma_put_keeps_latest(
    all: Seq<PresignedUploadedPart>,
    part: PresignedUploadedPart,
    before: Seq<PresignedUploadedPart>,
    after: Seq<PresignedUploadedPart>,
    at: int,
)
    requires
        is_latest_by_offset(all, before),
        put_at(before, part, after, at),
    ensures
        is_latest_by_offset(all.push(part), after),
{
    let longer = all.push(part);
    let replaces = at < before.len() && before[at].offset == part.offset;
    assert forall|i: int, j: int| 0 <= i < j < after.len() implies (#[trigger] after[i]).offset < (
    #[trigger] after[j]).offset by {
        let a = if replaces || i < at {
            i
        } else {
            i - 1
        };
        let b = if replaces || j < at {
            j
        } else {
            j - 1
        };
        if i != at && j != at {
            assert(after[i] == before[a] && after[j] == before[b]);
            assert(before[a].offset < before[b].offset);
        } else if replaces {
            assert(before[i].offset < before[j].offset);
        } else if i == at {
            assert(after[j] == before[j - 1]);
        } else {
            assert(after[i] == before[i]);
        }
    }
    assert forall|i: int| 0 <= i < after.len() implies exists|k: int| #[trigger]
        is_last_at_offset(longer, k) && longer[k] == #[trigger] after[i] by {
        if i == at {
            assert(is_last_at_offset(longer, all.len() as int));
            assert(longer[all.len() as int] == after[i]);
        } else {
            let b = if replaces || i < at {
                i
            } else {
                i - 1
            };
            assert(after[i] == before[b]);
            let k = choose|k: int| #[trigger] is_last_at_offset(all, k) && all[k] == before[b];
            assert(before[b].offset != part.offset) by {
                if replaces {
                    if b < at {
                        assert(before[b].offset < before[at].offset);
                    } else {
                        assert(before[at].offset < before[b].offset);
                    }
                }
            }
            assert(is_last_at_offset(longer, k)) by {
                assert forall|m: int| k < m < longer.len() implies (#[trigger] longer[m]).offset
                    != longer[k].offset by {
                    if m < all.len() {
                        assert(longer[m] == all[m]);
                    }
                }
            }
            assert(longer[k] == after[i]);
        }
    }
    assert forall|offset: u64| #[trigger] has_offset(longer, offset) implies has_offset(
        after,
        offset,
    ) by {
        if offset == part.offset {
            assert(after[at].offset == offset);
        } else {
            let m = choose|m: int| 0 <= m < longer.len() && (#[trigger] longer[m]).offset == offset;
            assert(all[m].offset == offset);
            assert(has_offset(all, offset));
            let n = choose|n: int| 0 <= n < before.len() && (#[trigger] before[n]).offset == offset;
            if replaces || n < at {
                assert(after[n].offset == offset);
            } else {
                assert(after[n + 1].offset == offset);
            }
        }
    }
}

/// Keeps the last part for each offset, in the order of offsets.
pub fn latest_by_offset(parts: Vec<PresignedUploadedPart>) -> (list: Vec<PresignedUploadedPart>)
    ensures
        is_latest_by_offset(parts@, list@),
{
    let mut rest = parts;
    let ghost all = parts@;
    let ghost mut done: int = 0;
    let mut list: Vec<PresignedUploadedPart> = Vec::new();
    assert(rest@ =~= all.skip(0));
    while rest.len() > 0
        invariant
            0 <= done <= all.len(),
            rest@ == all.skip(done),
            is_latest_by_offset(all.take(done), list@),
        decreases rest@.len(),
    {
        let ghost before = list@;
        let part = rest.remove(0);
        put_by_offset(&mut list, part);
        proof {
            assert(part == all[done]);
            assert(rest@ =~= all.skip(done + 1));
            assert(all.take(done + 1) =~= all.take(done).push(part));
            let at = choose|at: int| put_at(before, part, list@, at);
            lemma_put_keeps_latest(all.take(done), part, before, list@, at);
            done = done + 1;
        }
    }
    assert(all.take(done) =~= all);
    list
}

/// Where the first part of a list with an offset stands; the length of the list
/// where there is none.
pub open spec fn place_of_offset(list: Seq<PresignedUploadedPart>, offset: u64) -> int
    decreases list.len(),
{
    if list.len() == 0 {
        0
    } else if list[0].offset == offset {
        0
    } else {
        1 + place_of_offset(list.skip(1), offset)
    }
}

/// A list after one more part was uploaded: a part at the same offset is
/// replaced where it stands, otherwise the part comes last.
pub open spec fn with_recorded(
    list: Seq<PresignedUploadedPart>,
    part: PresignedUploadedPart,
) -> Seq<PresignedUploadedPart> {
    let at = place_of_offset(list, part.offset);
    if at < list.len() {
        list.update(at, part)
    } else {
        list.push(part)
    }
}

proof fn lemma_place_of_offset(list: Seq<PresignedUploadedPart>, offset: u64)
    ensures
        0 <= place_of_offset(list, offset) <= list.len(),
        forall|i: int|
            0 <= i < place_of_offset(list, offset) ==> (#[trigger] list[i]).offset != offset,
        place_of_offset(list, offset) < list.len() ==> list[place_of_offset(list, offset)].offset
            == offset,
    decreases list.len(),
{
    if list.len() > 0 && list[0].offset != offset {
        let rest = list.skip(1);
        lemma_place_of_offset(rest, offset);
        assert forall|i: int| 0 <= i < place_of_offset(list, offset) implies (
        #[trigger] list[i]).offset != offset by {
            if i > 0 {
                assert(rest[i - 1] == list[i]);
            }
        }
    }
}

/// Takes account of a part that was uploaded.
pub fn record_part(list: &mut Vec<PresignedUploadedPart>, part: PresignedUploadedPart)
    ensures
        final(list)@ == with_recorded(old(list)@, part),
{
    proof {
        lemma_place_of_offset(list@, part.offset);
    }
    let mut at: usize = 0;
    while at < list.len()
        invariant
            list@ == old(list)@,
            at <= list@.len(),
            forall|i: int| 0 <= i < at ==> (#[trigger] list@[i]).offset != part.offset,
            at <= place_of_offset(list@, part.offset) <= list@.len(),
            place_of_offset(list@, part.offset) < list@.len() ==> list@[place_of_offset(
                list@,
                part.offset,
            )].offset == part.offset,
            forall|i: int|
                0 <= i < place_of_offset(list@, part.offset) ==> (#[trigger] list@[i]).offset
                    != part.offset,
        decreases list@.len() - at,
    {
        if list[at].offset == part.offset {
            assert(at == place_of_offset(list@, part.offset));
            list.set(at, part);
            return ;
        }
        at += 1;
    }
    list.push(part);
}

/// However often parts are uploaded again, no offset is taken account of twice.
pub proof fn law_recording_keeps_offsets_distinct(
    list: Seq<PresignedUploadedPart>,
    part: PresignedUploadedPart,
)
    requires
        distinct_offsets(list),
    ensures
        distinct_offsets(with_recorded(list, part)),
        has_offset(with_recorded(list, part), part.offset),
{
    lemma_place_of_offset(list, part.offset);
    let at = place_of_offset(list, part.offset);
    let new = with_recorded(list, part);
    assert(new[at].offset == part.offset);
    assert forall|i: int, j: int|
        0 <= i < new.len() && 0 <= j < new.len() && i != j implies (#[trigger] new[i]).offset != (
    #[trigger] new[j]).offset by {
        if i != at && j != at {
            assert(new[i] == list[i] && new[j] == list[j]);
        } else if at < list.len() {
            let other = if i == at {
                j
            } else {
                i
            };
            assert(list[other].offset != list[at].offset);
        } else {
            let other = if i == at {
                j
            } else {
                i
            };
            assert(new[other] == list[other]);
        }
    }
}

} // verus!
