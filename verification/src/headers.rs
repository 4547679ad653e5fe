//! HTTP header maps.
//!
//! The maps themselves are those of the HTTP stack (`reqwest::header`, which
//! re-exports the `http` crate). This module names what such a map holds and
//! states what the operations used here do to it.

use vstd::prelude::*;
use vstd::string::*;

use reqwest::header::{HeaderMap, HeaderName, HeaderValue, InvalidHeaderName, InvalidHeaderValue};

use crate::error;
use crate::error::{InnerErrorCode, MeowError};
use crate::log;

verus! {

/// `http::HeaderMap`, opaque; see [`header_contents`] for what it holds.
#[verifier::external_type_specification]
#[verifier::external_body]
#[verifier::reject_recursive_types(T)]
pub struct ExHeaderMap<T>(HeaderMap<T>);

/// `http::header::HeaderValue`, opaque; see [`header_value_bytes`].
#[verifier::external_type_specification]
#[verifier::external_body]
pub struct ExHeaderValue(HeaderValue);

/// `http::header::InvalidHeaderName`, the error of a refused header name.
#[verifier::external_type_specification]
#[verifier::external_body]
pub struct ExInvalidHeaderName(InvalidHeaderName);

/// `http::header::InvalidHeaderValue`, the error of a refused header value.
#[verifier::external_type_specification]
#[verifier::external_body]
pub struct ExInvalidHeaderValue(InvalidHeaderValue);

/// What a header map holds: under each lower-case name the bytes of its
/// values, in the order in which they were added.
pub uninterp spec fn header_contents(headers: HeaderMap<HeaderValue>) -> Map<Seq<char>, Seq<Seq<u8>>>;

/// The bytes of a header value.
pub uninterp spec fn header_value_bytes(value: HeaderValue) -> Seq<u8>;

/// Up to this many names a header map takes another one whatever the names
/// are. Above it, it still does as long as it can grow: only enough colliding
/// names make it refuse earlier than its size does.
pub const MAX_HEADER_NAMES: usize = 6553;

/// The characters of an HTTP token.
pub open spec fn header_name_char(c: char) -> bool {
    ||| '0' <= c && c <= '9'
    ||| 'A' <= c && c <= 'Z'
    ||| 'a' <= c && c <= 'z'
    ||| c == '!'
    ||| c == '#'
    ||| c == '$'
    ||| c == '%'
    ||| c == '&'
    ||| c == '\''
    ||| c == '*'
    ||| c == '+'
    ||| c == '-'
    ||| c == '.'
    ||| c == '^'
    ||| c == '_'
    ||| c == '`'
    ||| c == '|'
    ||| c == '~'
}

/// A header name: a token of 1 to 65535 characters.
pub open spec fn is_header_name(s: Seq<char>) -> bool {
    0 < s.len() <= 65535 && forall|i: int| 0 <= i < s.len() ==> header_name_char(#[trigger] s[i])
}

/// A header name in lower case.
pub open spec fn is_lower_name(s: Seq<char>) -> bool {
    is_header_name(s) && log::lower_text(s) == s
}

/// The characters of the names that maps hold. Names that were made from
/// lower-case text may hold a double quote, which is no character of a token.
pub open spec fn stored_name_char(c: char) -> bool {
    c == '"' || (header_name_char(c) && !('A' <= c && c <= 'Z'))
}

/// A header name in the form in which maps hold it.
pub open spec fn is_stored_name(s: Seq<char>) -> bool {
    0 < s.len() <= 65535 && forall|i: int| 0 <= i < s.len() ==> stored_name_char(#[trigger] s[i])
}

/// The text of a header value: no control characters but the tab.
pub open spec fn is_header_text(s: Seq<char>) -> bool {
    forall|i: int|
        0 <= i < s.len() ==> (#[trigger] s[i] == '\t' || (s[i] as u32 >= 32 && s[i] as u32 != 127))
}

/// The values that a list of pairs gives for a name, in order.
pub open spec fn values_for(pairs: Seq<(String, HeaderValue)>, name: Seq<char>) -> Seq<Seq<u8>>
    decreases pairs.len(),
{
    if pairs.len() == 0 {
        Seq::empty()
    } else if pairs.last().0@ == name {
        values_for(pairs.drop_last(), name).push(header_value_bytes(pairs.last().1))
    } else {
        values_for(pairs.drop_last(), name)
    }
}

/// What an empty map holds.
pub open spec fn no_headers() -> Map<Seq<char>, Seq<Seq<u8>>> {
    Map::empty()
}

/// `HeaderMap::new`: the map holds nothing.
#[verifier::external_body]
pub(crate) fn header_map_new() -> (headers: HeaderMap<HeaderValue>)
    ensures
        header_contents(headers) == no_headers(),
{
    HeaderMap::new()
}

/// `HeaderMap::clone`: the copy holds the same.
#[verifier::external_body]
pub(crate) fn header_map_clone(headers: &HeaderMap<HeaderValue>) -> (copy: HeaderMap<HeaderValue>)
    ensures
        header_contents(copy) == header_contents(*headers),
{
    headers.clone()
}

/// Whether `names` can be listed and has `count` members.
pub open spec fn counts_names(names: Set<Seq<char>>, count: nat) -> bool {
    names.finite() && names.len() == count
}

/// `HeaderMap::keys_len`: the number of names, which can be listed.
#[verifier::external_body]
pub(crate) fn header_map_keys_len(headers: &HeaderMap<HeaderValue>) -> (len: usize)
    ensures
        counts_names(header_contents(*headers).dom(), len as nat),
{
    headers.keys_len()
}

/// `HeaderMap::contains_key`, for a lower-case name: whether the map holds a
/// value under it.
#[verifier::external_body]
pub(crate) fn header_map_contains(headers: &HeaderMap<HeaderValue>, name: &str) -> (contains: bool)
    requires
        is_lower_name(name@),
    ensures
        contains == header_contents(*headers).contains_key(name@),
{
    headers.contains_key(name)
}

/// `HeaderMap::try_insert`, for a name in the form in which maps hold it: the
/// value replaces all values under that name, and no other name is touched. A
/// map that would have to grow beyond its limit refuses and stays as it was,
/// which cannot happen with few names.
#[verifier::external_body]
pub(crate) fn header_map_insert(
    headers: &mut HeaderMap<HeaderValue>,
    name: &str,
    value: HeaderValue,
) -> (inserted: bool)
    requires
        is_stored_name(name@),
    ensures
        header_contents(*old(headers)).dom().len() <= MAX_HEADER_NAMES ==> inserted,
        inserted ==> header_contents(*final(headers)) == header_contents(*old(headers)).insert(
            name@,
            seq![header_value_bytes(value)],
        ),
        !inserted ==> header_contents(*final(headers)) == header_contents(*old(headers)),
{
    headers.try_insert(HeaderName::from_lowercase(name.as_bytes()).unwrap(), value).is_ok()
}

/// `HeaderMap::iter`, with every item copied out: each name occurs once per
/// value, its values come in the order in which they were added, and names are
/// in the form in which maps hold them. The order among names is left open.
#[verifier::external_body]
pub(crate) fn header_map_pairs(headers: &HeaderMap<HeaderValue>) -> (pairs: Vec<
    (String, HeaderValue),
>)
    ensures
        forall|i: int| 0 <= i < pairs@.len() ==> is_stored_name((#[trigger] pairs@[i]).0@),
        forall|name: Seq<char>|
            header_contents(*headers).contains_key(name) == (#[trigger] values_for(
                pairs@,
                name,
            ).len() > 0),
        forall|name: Seq<char>|
            header_contents(*headers).contains_key(name) ==> #[trigger] values_for(pairs@, name)
                == header_contents(*headers)[name],
{
    headers.iter().map(|(name, value)| (name.as_str().to_owned(), value.clone())).collect()
}

/// `HeaderName::from_bytes`: accepts exactly the header names and puts them in
/// lower case.
#[verifier::external_body]
pub(crate) fn parse_header_name(name: &str) -> (parsed: Result<String, InvalidHeaderName>)
    ensures
        parsed is Ok == is_header_name(name@),
        parsed is Ok ==> parsed->Ok_0@ == log::lower_text(name@),
{
    HeaderName::from_bytes(name.as_bytes()).map(|parsed| parsed.as_str().to_owned())
}

/// `HeaderValue::from_str`: accepts every text without control characters
/// other than the tab and keeps its bytes.
#[verifier::external_body]
pub(crate) fn parse_header_value(value: &str) -> (parsed: Result<HeaderValue, InvalidHeaderValue>)
    ensures
        parsed is Ok == is_header_text(value@),
        parsed is Ok ==> header_value_bytes(parsed->Ok_0) == vstd::utf8::encode_utf8(value@),
{
    HeaderValue::from_str(value)
}

/// `InvalidHeaderName`'s `Display`: a fixed text.
#[verifier::external_body]
pub(crate) fn invalid_name_text(error: &InvalidHeaderName) -> (text: String)
    ensures
        text@ == "invalid HTTP header name"@,
{
    format!("{error}")
}

/// `InvalidHeaderValue`'s `Display`: a fixed text.
#[verifier::external_body]
pub(crate) fn invalid_value_text(error: &InvalidHeaderValue) -> (text: String)
    ensures
        text@ == "failed to parse header value"@,
{
    format!("{error}")
}

/// What a map holds after the pairs were inserted in turn into an empty one:
/// the last value of each name.
pub open spec fn headers_of(pairs: Seq<(Seq<char>, Seq<char>)>) -> Map<Seq<char>, Seq<Seq<u8>>>
    decreases pairs.len(),
{
    if pairs.len() == 0 {
        Map::empty()
    } else {
        headers_of(pairs.drop_last()).insert(
            log::lower_text(pairs.last().0),
            seq![vstd::utf8::encode_utf8(pairs.last().1)],
        )
    }
}

/// Whether a pair can be a header.
pub open spec fn is_header_pair(pair: (Seq<char>, Seq<char>)) -> bool {
    is_header_name(pair.0) && is_header_text(pair.1)
}

/// What a refused pair is answered: the name is looked at first.
pub open spec fn refused_pair_text(pair: (Seq<char>, Seq<char>)) -> Seq<char> {
    if !is_header_name(pair.0) {
        "invalid header name '"@ + pair.0 + "': "@ + "invalid HTTP header name"@
    } else {
        "invalid header value for '"@ + pair.0 + "': "@ + "failed to parse header value"@
    }
}

/// What is said of a header that a map has no room for.
pub open spec fn full_map_text() -> Seq<char> {
    "header map cannot hold more names"@
}

/// The refusal of a header that a map has no room for.
pub(crate) fn full_map_error() -> (e: MeowError)
    ensures
        error::is_error(e, InnerErrorCode::ParameterEmpty, full_map_text()),
{
    MeowError::from_code_str(InnerErrorCode::ParameterEmpty, "header map cannot hold more names")
}

/// Whether `result` is what building a map from `pairs` gives: the map where
/// every pair is a header, else the refusal of the first that is not. More than
/// [`MAX_HEADER_NAMES`] pairs may be too many for a map.
pub open spec fn built_headers(
    pairs: Seq<(Seq<char>, Seq<char>)>,
    result: Result<HeaderMap<HeaderValue>, MeowError>,
) -> bool {
    match result {
        Ok(headers) => {
            &&& forall|i: int| 0 <= i < pairs.len() ==> is_header_pair(#[trigger] pairs[i])
            &&& header_contents(headers) == headers_of(pairs)
        },
        Err(e) => {
            ||| exists|i: int|
                {
                    &&& 0 <= i < pairs.len()
                    &&& !is_header_pair(#[trigger] pairs[i])
                    &&& forall|j: int| 0 <= j < i ==> is_header_pair(#[trigger] pairs[j])
                    &&& error::is_error(
                        e,
                        InnerErrorCode::ParameterEmpty,
                        refused_pair_text(pairs[i]),
                    )
                }
            ||| {
                &&& pairs.len() > MAX_HEADER_NAMES
                &&& forall|j: int|
                    0 <= j <= MAX_HEADER_NAMES ==> is_header_pair(#[trigger] pairs[j])
                &&& error::is_error(e, InnerErrorCode::ParameterEmpty, full_map_text())
            }
        },
    }
}

/// The texts of owned pairs.
pub open spec fn pair_texts(pairs: Seq<(String, String)>) -> Seq<(Seq<char>, Seq<char>)> {
    Seq::new(pairs.len(), |i: int| (pairs[i].0@, pairs[i].1@))
}

/// The texts of borrowed pairs.
pub open spec fn str_pair_texts(pairs: Seq<(&str, &str)>) -> Seq<(Seq<char>, Seq<char>)> {
    Seq::new(pairs.len(), |i: int| (pairs[i].0@, pairs[i].1@))
}

proof fn lemma_lower_name(name: Seq<char>)
    requires
        is_header_name(name),
    ensures
        is_lower_name(log::lower_text(name)),
        is_stored_name(log::lower_text(name)),
{
    let low = log::lower_text(name);
    assert forall|i: int| 0 <= i < low.len() implies header_name_char(#[trigger] low[i])
        && stored_name_char(low[i]) && log::ascii_lower(low[i]) == low[i] by {
        assert(header_name_char(name[i]));
    }
    assert(log::lower_text(low) =~= low);
}

proof fn lemma_headers_of_size(pairs: Seq<(Seq<char>, Seq<char>)>)
    ensures
        headers_of(pairs).dom().finite(),
        headers_of(pairs).dom().len() <= pairs.len(),
    decreases pairs.len(),
{
    if pairs.len() > 0 {
        lemma_headers_of_size(pairs.drop_last());
    }
}

/// Builds a header map from name/value pairs. The first pair that is no header
/// is refused; a name that occurs again gets the later value.
pub fn headers_from_iter(pairs: Vec<(String, String)>) -> (result: Result<
    HeaderMap<HeaderValue>,
    MeowError,
>)
    ensures
        built_headers(pair_texts(pairs@), result),
{
    let ghost texts = pair_texts(pairs@);
    let mut headers = header_map_new();
    let mut i: usize = 0;
    assert(texts.take(0) == Seq::<(Seq<char>, Seq<char>)>::empty());
    while i < pairs.len()
        invariant
            i <= pairs@.len(),
            texts == pair_texts(pairs@),
            forall|j: int| 0 <= j < i ==> is_header_pair(#[trigger] texts[j]),
            header_contents(headers) == headers_of(texts.take(i as int)),
        decreases pairs@.len() - i,
    {
        let key = pairs[i].0.as_str();
        assert(texts[i as int] == (pairs@[i as int].0@, pairs@[i as int].1@));
        let name = match parse_header_name(key) {
            Ok(name) => name,
            Err(e) => {
                let mut text = "invalid header name '".to_owned();
                text.append(key);
                text.append("': ");
                text.append(invalid_name_text(&e).as_str());
                assert(!is_header_pair(texts[i as int]));
                return Err(MeowError::from_code(InnerErrorCode::ParameterEmpty, text));
            },
        };
        let value = match parse_header_value(pairs[i].1.as_str()) {
            Ok(value) => value,
            Err(e) => {
                let mut text = "invalid header value for '".to_owned();
                text.append(key);
                text.append("': ");
                text.append(invalid_value_text(&e).as_str());
                assert(!is_header_pair(texts[i as int]));
                return Err(MeowError::from_code(InnerErrorCode::ParameterEmpty, text));
            },
        };
        proof {
            lemma_lower_name(texts[i as int].0);
            lemma_headers_of_size(texts.take(i as int));
            assert(texts.take(i + 1).drop_last() == texts.take(i as int));
            assert(is_header_pair(texts[i as int]));
        }
        if !header_map_insert(&mut headers, name.as_str(), value) {
            return Err(full_map_error());
        }
        i += 1;
    }
    assert(texts.take(pairs@.len() as int) == texts);
    Ok(headers)
}

/// Builds a header map from borrowed name/value pairs; see
/// [`headers_from_iter`].
pub fn headers_from_pairs(pairs: &[(&str, &str)]) -> (result: Result<
    HeaderMap<HeaderValue>,
    MeowError,
>)
    ensures
        built_headers(str_pair_texts(pairs@), result),
{
    let mut owned: Vec<(String, String)> = Vec::new();
    let mut i: usize = 0;
    while i < pairs.len()
        invariant
            i <= pairs@.len(),
            owned@.len() == i,
            forall|j: int|
                0 <= j < i ==> (#[trigger] owned@[j]).0@ == pairs@[j].0@ && owned@[j].1@
                    == pairs@[j].1@,
        decreases pairs@.len() - i,
    {
        owned.push((pairs[i].0.to_owned(), pairs[i].1.to_owned()));
        i += 1;
    }
    assert(pair_texts(owned@) =~= str_pair_texts(pairs@));
    headers_from_iter(owned)
}

/// What a map holds after every pair of another was inserted into it: under
/// the names of the other map, the last value there; elsewhere, what it held.
pub open spec fn merged_headers(
    target: Map<Seq<char>, Seq<Seq<u8>>>,
    extra: Map<Seq<char>, Seq<Seq<u8>>>,
) -> Map<Seq<char>, Seq<Seq<u8>>> {
    target.union_prefer_right(extra.map_values(|values: Seq<Seq<u8>>| seq![values.last()]))
}

/// The names that a list of pairs holds.
spec fn pair_names(pairs: Seq<(String, HeaderValue)>) -> Set<Seq<char>> {
    Set::new(|name: Seq<char>| values_for(pairs, name).len() > 0)
}

proof fn lemma_pair_names(pairs: Seq<(String, HeaderValue)>)
    ensures
        pair_names(pairs).finite(),
        pairs.len() > 0 ==> pair_names(pairs) == pair_names(pairs.drop_last()).insert(
            pairs.last().0@,
        ),
    decreases pairs.len(),
{
    if pairs.len() == 0 {
        assert(pair_names(pairs) =~= Set::empty());
    } else {
        lemma_pair_names(pairs.drop_last());
        assert(pair_names(pairs) =~= pair_names(pairs.drop_last()).insert(pairs.last().0@));
    }
}

/// Inserts every header of `extra` into `target`, and says whether there was
/// room for them; without it `target` stays as it was. Up to
/// [`MAX_HEADER_NAMES`] names in both maps together there always is.
pub fn merge_headers(target: &mut HeaderMap<HeaderValue>, extra: &HeaderMap<HeaderValue>) -> (merged:
    bool)
    ensures
        header_contents(*old(target)).dom().len() + header_contents(*extra).dom().len()
            <= MAX_HEADER_NAMES ==> merged,
        header_contents(*final(target)) == if merged {
            merged_headers(header_contents(*old(target)), header_contents(*extra))
        } else {
            header_contents(*old(target))
        },
{
    let pairs = header_map_pairs(extra);
    let ghost before = header_contents(*target);
    let ghost add = header_contents(*extra);
    let _ = header_map_keys_len(target);
    let mut grown = header_map_clone(target);
    let mut i: usize = 0;
    proof {
        lemma_pair_names(pairs@);
        assert(pair_names(pairs@) =~= add.dom());
        lemma_pair_names(pairs@.take(0));
        assert(pair_names(pairs@.take(0)) =~= Set::empty());
    }
    while i < pairs.len()
        invariant
            i <= pairs@.len(),
            before.dom().finite(),
            pair_names(pairs@) == add.dom(),
            pair_names(pairs@).finite(),
            *target == *old(target),
            before == header_contents(*old(target)),
            add == header_contents(*extra),
            forall|j: int| 0 <= j < pairs@.len() ==> is_stored_name((#[trigger] pairs@[j]).0@),
            header_contents(grown).dom() == before.dom().union(pair_names(pairs@.take(i as int))),
            forall|name: Seq<char>| #[trigger]
                header_contents(grown).contains_key(name) ==> header_contents(grown)[name]
                    == if values_for(pairs@.take(i as int), name).len() > 0 {
                    seq![values_for(pairs@.take(i as int), name).last()]
                } else {
                    before[name]
                },
        decreases pairs@.len() - i,
    {
        let ghost done = pairs@.take(i as int);
        let ghost next = pairs@.take(i + 1);
        proof {
            assert(next.drop_last() == done);
            lemma_pair_names(done);
            lemma_pair_names(next);
            lemma_prefix_names(pairs@, i as int);
            vstd::set_lib::lemma_len_subset(pair_names(done), pair_names(pairs@));
            vstd::set_lib::lemma_len_union(before.dom(), pair_names(done));
        }
        if !header_map_insert(&mut grown, pairs[i].0.as_str(), header_value_copy(&pairs[i].1)) {
            return false;
        }
        i += 1;
        assert(header_contents(grown).dom() =~= before.dom().union(pair_names(next)));
    }
    proof {
        assert(pairs@.take(i as int) == pairs@);
        assert(header_contents(grown) =~= merged_headers(before, add));
    }
    *target = grown;
    true
}

proof fn lemma_prefix_names(pairs: Seq<(String, HeaderValue)>, n: int)
    requires
        0 <= n <= pairs.len(),
    ensures
        pair_names(pairs.take(n)).subset_of(pair_names(pairs)),
    decreases pairs.len() - n,
{
    if n < pairs.len() {
        lemma_prefix_names(pairs, n + 1);
        lemma_pair_names(pairs.take(n + 1));
        assert(pairs.take(n + 1).drop_last() == pairs.take(n));
    } else {
        assert(pairs.take(n) == pairs);
    }
}

/// `HeaderValue::clone`: the copy has the same bytes.
#[verifier::external_body]
pub(crate) fn header_value_copy(value: &HeaderValue) -> (copy: HeaderValue)
    ensures
        header_value_bytes(copy) == header_value_bytes(*value),
{
    value.clone()
}

} // verus!
