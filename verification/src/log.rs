//! Diagnostic log entries, and the removal of secrets from what they carry.
//!
//! At most one listener is registered at a time; [`DebugLogSlot`] is the place
//! where it lives. Levels from [`LogLevel::Key`] upwards are meant to be kept.

use vstd::prelude::*;
use vstd::slice::slice_subrange;
use vstd::string::*;

use crate::clock::read_clock;
use crate::text;
use crate::text::{push_chars, push_decimal, push_signed_decimal, same_chars, to_chars};

verus! {

/// How a log entry should be treated, from hot-loop noise to failures.
#[derive(Debug, Clone, Copy, PartialEq, Eq, PartialOrd, Ord, Hash, Structural)]
pub enum LogLevel {
    Trace,
    Debug,
    Info,
    Key,
    Warn,
    Error,
}

impl LogLevel {
    pub open spec fn spec_label(self) -> Seq<char> {
        match self {
            LogLevel::Trace => "TRACE"@,
            LogLevel::Debug => "DEBUG"@,
            LogLevel::Info => "INFO"@,
            LogLevel::Key => "KEY"@,
            LogLevel::Warn => "WARN"@,
            LogLevel::Error => "ERROR"@,
        }
    }

    /// Whether entries of this level belong in a persistent troubleshooting
    /// stream.
    pub fn persist_recommended(self) -> (keep: bool)
        ensures
            keep == (self == LogLevel::Key || self == LogLevel::Warn || self == LogLevel::Error),
    {
        match self {
            LogLevel::Key | LogLevel::Warn | LogLevel::Error => true,
            _ => false,
        }
    }

    /// The upper-case label of the level.
    pub fn as_str(self) -> (label: &'static str)
        ensures
            label@ == self.spec_label(),
    {
        match self {
            LogLevel::Trace => "TRACE",
            LogLevel::Debug => "DEBUG",
            LogLevel::Info => "INFO",
            LogLevel::Key => "KEY",
            LogLevel::Warn => "WARN",
            LogLevel::Error => "ERROR",
        }
    }
}

// ---------------------------------------------------------------------------
// Secrets
// ---------------------------------------------------------------------------

/// The lower-case form of an ASCII letter; other characters stay as they are.
pub open spec fn ascii_lower(c: char) -> char {
    if 'A' <= c && c <= 'Z' {
        (c as u32 + 32) as char
    } else {
        c
    }
}

pub open spec fn lower_text(s: Seq<char>) -> Seq<char> {
    Seq::new(s.len(), |i: int| ascii_lower(s[i]))
}

/// Whether `part` stands in `s` at position `i`.
pub open spec fn stands_at(s: Seq<char>, part: Seq<char>, i: int) -> bool {
    0 <= i && i + part.len() <= s.len() && s.subrange(i, i + part.len()) == part
}

/// Whether `part` stands anywhere in `s`.
pub open spec fn contains_text(s: Seq<char>, part: Seq<char>) -> bool {
    exists|i: int| #[trigger] stands_at(s, part, i)
}

/// Whether a parameter name carries a secret: its lower-case form holds one of
/// six marker words. White space around the name cannot matter, since no
/// marker has any, and well-known names such as `x-amz-signature` or
/// `OSSAccessKeyId` each hold a marker.
pub open spec fn sensitive_name(name: Seq<char>) -> bool {
    let k = lower_text(name);
    ||| contains_text(k, "sig"@)
    ||| contains_text(k, "credential"@)
    ||| contains_text(k, "token"@)
    ||| contains_text(k, "secret"@)
    ||| contains_text(k, "password"@)
    ||| contains_text(k, "accesskey"@)
}

/// The first position at or after `from` that holds `c`; the length of `s`
/// where there is none.
pub open spec fn find_char(s: Seq<char>, c: char, from: int) -> int
    decreases s.len() - from,
{
    if from >= s.len() {
        s.len() as int
    } else if s[from] == c {
        from
    } else {
        find_char(s, c, from + 1)
    }
}

/// One `name=value` pair with the value of a sensitive name replaced.
pub open spec fn sanitized_pair(pair: Seq<char>) -> Seq<char> {
    let e = find_char(pair, '=', 0);
    if e < pair.len() && sensitive_name(pair.take(e)) {
        pair.take(e) + "=REDACTED"@
    } else {
        pair
    }
}

/// The `&`-separated pairs of a query, from position `from` on, each sanitized.
pub open spec fn sanitized_query(query: Seq<char>, from: int) -> Seq<char>
    decreases query.len() - from,
    when 0 <= from <= query.len()
    via sanitized_query_decreases
{
    let a = find_char(query, '&', from);
    if a >= query.len() {
        sanitized_pair(query.skip(from))
    } else {
        sanitized_pair(query.subrange(from, a)) + "&"@ + sanitized_query(query, a + 1)
    }
}

#[via_fn]
proof fn sanitized_query_decreases(query: Seq<char>, from: int) {
    lemma_find_char(query, '&', from);
}

/// A URL whose query keeps everything but the values of sensitive parameters.
pub open spec fn sanitized(url: Seq<char>) -> Seq<char> {
    let q = find_char(url, '?', 0);
    if q >= url.len() {
        url
    } else {
        url.take(q + 1) + sanitized_query(url, q + 1)
    }
}

pub proof fn lemma_find_char(s: Seq<char>, c: char, from: int)
    requires
        0 <= from <= s.len(),
    ensures
        from <= find_char(s, c, from) <= s.len(),
        forall|j: int| from <= j < find_char(s, c, from) ==> s[j] != c,
        find_char(s, c, from) < s.len() ==> s[find_char(s, c, from)] == c,
    decreases s.len() - from,
{
    if from < s.len() && s[from] != c {
        lemma_find_char(s, c, from + 1);
    }
}

/// A position with nothing but other characters before it and `c` (or the end)
/// at it is the first one.
pub proof fn lemma_find_char_is(s: Seq<char>, c: char, from: int, at: int)
    requires
        0 <= from <= at <= s.len(),
        forall|j: int| from <= j < at ==> s[j] != c,
        at < s.len() ==> s[at] == c,
    ensures
        find_char(s, c, from) == at,
    decreases at - from,
{
    if from < at {
        lemma_find_char_is(s, c, from + 1, at);
    }
}

/// Exec counterpart of the spec function of the same name.
fn find_char_from(s: &[char], c: char, from: usize) -> (at: usize)
    requires
        from <= s@.len(),
    ensures
        at == find_char(s@, c, from as int),
        from <= at <= s@.len(),
        at < s@.len() ==> s@[at as int] == c,
{
    let mut i: usize = from;
    while i < s.len()
        invariant
            from <= i <= s@.len(),
            find_char(s@, c, from as int) == find_char(s@, c, i as int),
        decreases s@.len() - i,
    {
        if s[i] == c {
            return i;
        }
        i += 1;
    }
    i
}

fn to_ascii_lower(c: char) -> (lower: char)
    ensures
        lower == ascii_lower(c),
{
    if 'A' <= c && c <= 'Z' {
        let code: u8 = (c as u32 + 32) as u8;
        code as char
    } else {
        c
    }
}

fn has_text(s: &[char], part: &str) -> (has: bool)
    ensures
        has == contains_text(s@, part@),
{
    let wanted = to_chars(part);
    let mut i: usize = 0;
    while wanted.len() <= s.len() - i
        invariant
            i <= s@.len(),
            wanted@ == part@,
            forall|j: int| 0 <= j < i ==> !stands_at(s@, part@, j),
        decreases s@.len() - i,
    {
        let here = slice_subrange(s, i, i + wanted.len());
        if same_chars(here, wanted.as_slice()) {
            assert(stands_at(s@, part@, i as int));
            return true;
        }
        assert(wanted@.len() == 0 ==> here@ == wanted@);
        i += 1;
    }
    assert forall|j: int| !stands_at(s@, part@, j) by {}
    false
}

/// Whether a parameter name carries a secret that must never be logged.
pub fn is_sensitive_param(name: &[char]) -> (sensitive: bool)
    ensures
        sensitive == sensitive_name(name@),
{
    let mut k: Vec<char> = Vec::new();
    let mut i: usize = 0;
    while i < name.len()
        invariant
            i <= name@.len(),
            k@ == lower_text(name@.take(i as int)),
        decreases name@.len() - i,
    {
        k.push(to_ascii_lower(name[i]));
        i += 1;
        assert(k@ == lower_text(name@.take(i as int)));
    }
    assert(name@.take(name@.len() as int) == name@);
    let k = k.as_slice();
    has_text(k, "sig") || has_text(k, "credential") || has_text(k, "token") || has_text(k, "secret")
        || has_text(k, "password") || has_text(k, "accesskey")
}

/// Redacts secret query parameters from a URL so that it is safe to log or
/// persist. Path and other parameters stay; a URL without a query is returned
/// unchanged.
pub fn sanitize_url(url: &str) -> (safe: String)
    ensures
        safe@ == sanitized(url@),
{
    let chars = to_chars(url);
    let q = find_char_from(chars.as_slice(), '?', 0);
    if q >= chars.len() {
        return url.to_owned();
    }
    let mut out = String::new();
    push_chars(&mut out, slice_subrange(chars.as_slice(), 0, q + 1));
    assert(out@ == url@.take(q + 1));
    let mut from: usize = q + 1;
    loop
        invariant
            chars@ == url@,
            q < from <= chars@.len(),
            sanitized(url@) == out@ + sanitized_query(url@, from as int),
        decreases chars@.len() - from,
    {
        let a = find_char_from(chars.as_slice(), '&', from);
        let pair = slice_subrange(chars.as_slice(), from, a);
        let e = find_char_from(pair, '=', 0);
        let ghost before = out@;
        if e < pair.len() && is_sensitive_param(slice_subrange(pair, 0, e)) {
            push_chars(&mut out, slice_subrange(pair, 0, e));
            out.append("=REDACTED");
            assert(pair@.subrange(0, e as int) == pair@.take(e as int));
        } else {
            push_chars(&mut out, pair);
        }
        assert(out@ == before + sanitized_pair(pair@));
        if a >= chars.len() {
            assert(url@.skip(from as int) == pair@);
            return out;
        }
        out.append("&");
        from = a + 1;
        assert(out@ + sanitized_query(url@, from as int) == before + (sanitized_pair(pair@) + "&"@
            + sanitized_query(url@, from as int)));
    }
}

/// Whether a character can be part of a parameter name in free text.
pub open spec fn token_char(c: char) -> bool {
    ||| '0' <= c && c <= '9'
    ||| 'A' <= c && c <= 'Z'
    ||| 'a' <= c && c <= 'z'
    ||| c == '_'
    ||| c == '-'
}

/// The characters with the Unicode property `White_Space`.
pub open spec fn white_space(c: char) -> bool {
    let u = c as u32;
    ||| 0x9 <= u <= 0xd
    ||| u == 0x20
    ||| u == 0x85
    ||| u == 0xa0
    ||| u == 0x1680
    ||| 0x2000 <= u <= 0x200a
    ||| u == 0x2028
    ||| u == 0x2029
    ||| u == 0x202f
    ||| u == 0x205f
    ||| u == 0x3000
}

/// Whether a character ends a parameter value in free text.
pub open spec fn value_delim(c: char) -> bool {
    white_space(c) || c == '&' || c == '"' || c == '\'' || c == ',' || c == ';' || c == ')' || c
        == '}' || c == ']' || c == '<' || c == '>' || c == '|'
}

fn is_token_char(c: char) -> (is: bool)
    ensures
        is == token_char(c),
{
    ('0' <= c && c <= '9') || ('A' <= c && c <= 'Z') || ('a' <= c && c <= 'z') || c == '_' || c
        == '-'
}

fn is_white_space(c: char) -> (is: bool)
    ensures
        is == white_space(c),
{
    let u: u32 = c as u32;
    (0x9 <= u && u <= 0xd) || u == 0x20 || u == 0x85 || u == 0xa0 || u == 0x1680 || (0x2000 <= u
        && u <= 0x200a) || u == 0x2028 || u == 0x2029 || u == 0x202f || u == 0x205f || u == 0x3000
}

fn is_value_delim(c: char) -> (is: bool)
    ensures
        is == value_delim(c),
{
    is_white_space(c) || c == '&' || c == '"' || c == '\'' || c == ',' || c == ';' || c == ')' || c
        == '}' || c == ']' || c == '<' || c == '>' || c == '|'
}

/// Where the run of name characters that starts at `from` ends.
pub open spec fn token_end(s: Seq<char>, from: int) -> int
    decreases s.len() - from,
{
    if from >= s.len() || !token_char(s[from]) {
        from
    } else {
        token_end(s, from + 1)
    }
}

/// Where the parameter value that starts at `from` ends.
pub open spec fn value_end(s: Seq<char>, from: int) -> int
    decreases s.len() - from,
{
    if from >= s.len() || value_delim(s[from]) {
        from
    } else {
        value_end(s, from + 1)
    }
}

pub proof fn lemma_token_end(s: Seq<char>, from: int)
    requires
        0 <= from <= s.len(),
    ensures
        from <= token_end(s, from) <= s.len(),
        forall|j: int| from <= j < token_end(s, from) ==> token_char(s[j]),
        token_end(s, from) < s.len() ==> !token_char(s[token_end(s, from)]),
    decreases s.len() - from,
{
    if from < s.len() && token_char(s[from]) {
        lemma_token_end(s, from + 1);
    }
}

pub proof fn lemma_value_end(s: Seq<char>, from: int)
    requires
        0 <= from <= s.len(),
    ensures
        from <= value_end(s, from) <= s.len(),
        forall|j: int| from <= j < value_end(s, from) ==> !value_delim(s[j]),
        value_end(s, from) < s.len() ==> value_delim(s[value_end(s, from)]),
    decreases s.len() - from,
{
    if from < s.len() && !value_delim(s[from]) {
        lemma_value_end(s, from + 1);
    }
}

/// Free text from position `from` on, read as runs of name characters with one
/// other character behind each: where that character is `=` and the run is a
/// sensitive name, the value behind it is replaced; the rest is kept.
pub open spec fn redacted(s: Seq<char>, from: int) -> Seq<char>
    decreases s.len() - from,
    when 0 <= from <= s.len()
    via redacted_decreases
{
    let e = token_end(s, from);
    let token = s.subrange(from, e);
    if e >= s.len() {
        token
    } else if s[e] == '=' && sensitive_name(token) {
        token + "=REDACTED"@ + redacted(s, value_end(s, e + 1))
    } else {
        token + seq![s[e]] + redacted(s, e + 1)
    }
}

#[via_fn]
proof fn redacted_decreases(s: Seq<char>, from: int) {
    lemma_token_end(s, from);
    if token_end(s, from) < s.len() {
        lemma_value_end(s, token_end(s, from) + 1);
    }
}

/// Redacts secret `key=value` pairs from arbitrary text, such as an error
/// message or a provider response that may echo a signed URL.
pub fn redact_secrets(text: &str) -> (safe: String)
    ensures
        safe@ == redacted(text@, 0),
{
    let chars = to_chars(text);
    let mut out = String::new();
    let mut from: usize = 0;
    loop
        invariant
            chars@ == text@,
            from <= chars@.len(),
            redacted(text@, 0) == out@ + redacted(text@, from as int),
        decreases chars@.len() - from,
    {
        let ghost before = out@;
        proof {
            lemma_token_end(text@, from as int);
        }
        let mut e: usize = from;
        while e < chars.len() && is_token_char(chars[e])
            invariant
                chars@ == text@,
                from <= e <= chars@.len(),
                token_end(text@, from as int) == token_end(text@, e as int),
            decreases chars@.len() - e,
        {
            e += 1;
        }
        let token = slice_subrange(chars.as_slice(), from, e);
        push_chars(&mut out, token);
        if e >= chars.len() {
            return out;
        }
        if chars[e] == '=' && is_sensitive_param(token) {
            out.append("=REDACTED");
            let mut v: usize = e + 1;
            while v < chars.len() && !is_value_delim(chars[v])
                invariant
                    chars@ == text@,
                    e < v <= chars@.len(),
                    value_end(text@, e + 1) == value_end(text@, v as int),
                decreases chars@.len() - v,
            {
                v += 1;
            }
            from = v;
            assert(out@ + redacted(text@, from as int) == before + (token@ + "=REDACTED"@
                + redacted(text@, from as int)));
        } else {
            out.push(chars[e]);
            from = e + 1;
            assert(out@ + redacted(text@, from as int) == before + (token@ + seq![text@[e as int]]
                + redacted(text@, from as int)));
        }
    }
}

// ---------------------------------------------------------------------------
// Entries
// ---------------------------------------------------------------------------

/// One diagnostic entry.
#[derive(Debug)]
pub struct Log {
    timestamp_ms: u64,
    level: LogLevel,
    tag: &'static str,
    message: String,
    task_id: Option<String>,
    object_key: Option<String>,
    part_index: Option<u64>,
    offset: Option<u64>,
    byte_len: Option<u64>,
    http_status: Option<u16>,
    attempt: Option<u32>,
    max_retries: Option<u32>,
    error_code: Option<i32>,
    url: Option<String>,
}

/// What an entry holds.
#[verifier::ext_equal]
pub struct LogView {
    pub timestamp_ms: u64,
    pub level: LogLevel,
    pub tag: Seq<char>,
    pub message: Seq<char>,
    pub task_id: Option<Seq<char>>,
    pub object_key: Option<Seq<char>>,
    pub part_index: Option<u64>,
    pub offset: Option<u64>,
    pub byte_len: Option<u64>,
    pub http_status: Option<u16>,
    pub attempt: Option<u32>,
    pub max_retries: Option<u32>,
    pub error_code: Option<i32>,
    pub url: Option<Seq<char>>,
}

spec fn option_text(text: Option<String>) -> Option<Seq<char>> {
    match text {
        Some(text) => Some(text@),
        None => None,
    }
}

impl View for Log {
    type V = LogView;

    closed spec fn view(&self) -> LogView {
        LogView {
            timestamp_ms: self.timestamp_ms,
            level: self.level,
            tag: self.tag@,
            message: self.message@,
            task_id: option_text(self.task_id),
            object_key: option_text(self.object_key),
            part_index: self.part_index,
            offset: self.offset,
            byte_len: self.byte_len,
            http_status: self.http_status,
            attempt: self.attempt,
            max_retries: self.max_retries,
            error_code: self.error_code,
            url: option_text(self.url),
        }
    }
}

/// An entry without any of the optional parts.
pub open spec fn bare_entry(
    timestamp_ms: u64,
    level: LogLevel,
    tag: Seq<char>,
    message: Seq<char>,
) -> LogView {
    LogView {
        timestamp_ms,
        level,
        tag,
        message,
        task_id: None,
        object_key: None,
        part_index: None,
        offset: None,
        byte_len: None,
        http_status: None,
        attempt: None,
        max_retries: None,
        error_code: None,
        url: None,
    }
}

/// A named part of an entry's text: nothing where it is missing.
pub open spec fn text_field(name: Seq<char>, value: Option<Seq<char>>) -> Seq<char> {
    match value {
        Some(value) => name + value,
        None => Seq::empty(),
    }
}

/// A named number of an entry's text: nothing where it is missing.
pub open spec fn number_field(name: Seq<char>, value: Option<nat>) -> Seq<char> {
    match value {
        Some(value) => name + text::decimal(value),
        None => Seq::empty(),
    }
}

/// An optional number as a natural number.
pub open spec fn opt_nat_u64(value: Option<u64>) -> Option<nat> {
    match value {
        Some(value) => Some(value as nat),
        None => None,
    }
}

pub open spec fn opt_nat_u32(value: Option<u32>) -> Option<nat> {
    match value {
        Some(value) => Some(value as nat),
        None => None,
    }
}

pub open spec fn opt_nat_u16(value: Option<u16>) -> Option<nat> {
    match value {
        Some(value) => Some(value as nat),
        None => None,
    }
}

/// The text of an entry: time, level, tag and message, then what else it holds.
pub open spec fn entry_text(entry: LogView) -> Seq<char> {
    "["@ + text::decimal(entry.timestamp_ms as nat) + "] "@ + entry.level.spec_label() + " ["@
        + entry.tag + "] "@ + entry.message + text_field(" task_id="@, entry.task_id) + text_field(
        " key="@,
        entry.object_key,
    ) + number_field(" part="@, opt_nat_u64(entry.part_index)) + number_field(
        " offset="@,
        opt_nat_u64(entry.offset),
    ) + number_field(" len="@, opt_nat_u64(entry.byte_len)) + number_field(
        " http_status="@,
        opt_nat_u16(entry.http_status),
    ) + number_field(" attempt="@, opt_nat_u32(entry.attempt)) + number_field(
        " max_retries="@,
        opt_nat_u32(entry.max_retries),
    ) + (match entry.error_code {
        Some(code) => " error_code="@ + text::signed_decimal(code as int),
        None => Seq::empty(),
    }) + text_field(" url="@, entry.url)
}

fn push_text_field(out: &mut String, name: &str, value: &Option<String>)
    ensures
        final(out)@ == old(out)@ + text_field(name@, option_text(*value)),
{
    match value {
        Some(value) => {
            out.append(name);
            out.append(value.as_str());
            assert(out@ =~= old(out)@ + (name@ + value@));
        },
        None => {
            assert(out@ =~= old(out)@ + Seq::<char>::empty());
        },
    }
}

fn push_number_field(out: &mut String, name: &str, value: Option<u64>)
    ensures
        final(out)@ == old(out)@ + number_field(name@, opt_nat_u64(value)),
{
    match value {
        Some(value) => {
            out.append(name);
            push_decimal(out, value as u128);
            assert(out@ =~= old(out)@ + (name@ + text::decimal(value as nat)));
        },
        None => {
            assert(out@ =~= old(out)@ + Seq::<char>::empty());
        },
    }
}

/// The text of an optional part.
fn borrowed(text: &Option<String>) -> (borrowed: Option<&str>)
    ensures
        match option_text(*text) {
            Some(text) => borrowed matches Some(borrowed) && borrowed@ == text,
            None => borrowed is None,
        },
{
    match text {
        Some(text) => Some(text.as_str()),
        None => None,
    }
}

/// Whether an optional text is a given value.
pub open spec fn is_text(text: Option<&str>, value: Option<Seq<char>>) -> bool {
    match value {
        Some(value) => text matches Some(text) && text@ == value,
        None => text is None,
    }
}

impl Log {
    /// An entry with a given time.
    pub fn at(timestamp_ms: u64, level: LogLevel, tag: &'static str, message: String) -> (log: Log)
        ensures
            log@ == bare_entry(timestamp_ms, level, tag@, message@),
    {
        Log {
            timestamp_ms,
            level,
            tag,
            message,
            task_id: None,
            object_key: None,
            part_index: None,
            offset: None,
            byte_len: None,
            http_status: None,
            attempt: None,
            max_retries: None,
            error_code: None,
            url: None,
        }
    }

    /// An entry of this moment; its time is zero where the clock stands before
    /// the epoch.
    pub fn new(level: LogLevel, tag: &'static str, message: String) -> (log: Log)
        ensures
            log@ == bare_entry(log@.timestamp_ms, level, tag@, message@),
    {
        let timestamp_ms: u64 = match read_clock() {
            Ok(reading) => reading.millis(),
            Err(_) => 0,
        };
        Log::at(timestamp_ms, level, tag, message)
    }

    pub fn trace(tag: &'static str, message: String) -> (log: Log)
        ensures
            log@ == bare_entry(log@.timestamp_ms, LogLevel::Trace, tag@, message@),
    {
        Log::new(LogLevel::Trace, tag, message)
    }

    pub fn debug(tag: &'static str, message: String) -> (log: Log)
        ensures
            log@ == bare_entry(log@.timestamp_ms, LogLevel::Debug, tag@, message@),
    {
        Log::new(LogLevel::Debug, tag, message)
    }

    pub fn info(tag: &'static str, message: String) -> (log: Log)
        ensures
            log@ == bare_entry(log@.timestamp_ms, LogLevel::Info, tag@, message@),
    {
        Log::new(LogLevel::Info, tag, message)
    }

    pub fn key(tag: &'static str, message: String) -> (log: Log)
        ensures
            log@ == bare_entry(log@.timestamp_ms, LogLevel::Key, tag@, message@),
    {
        Log::new(LogLevel::Key, tag, message)
    }

    pub fn warn(tag: &'static str, message: String) -> (log: Log)
        ensures
            log@ == bare_entry(log@.timestamp_ms, LogLevel::Warn, tag@, message@),
    {
        Log::new(LogLevel::Warn, tag, message)
    }

    pub fn error(tag: &'static str, message: String) -> (log: Log)
        ensures
            log@ == bare_entry(log@.timestamp_ms, LogLevel::Error, tag@, message@),
    {
        Log::new(LogLevel::Error, tag, message)
    }

    #[must_use]
    pub fn with_task_id(self, task_id: String) -> (log: Log)
        ensures
            log@ == (LogView { task_id: Some(task_id@), ..self@ }),
    {
        let mut log = self;
        log.task_id = Some(task_id);
        log
    }

    #[must_use]
    pub fn with_key(self, key: String) -> (log: Log)
        ensures
            log@ == (LogView { object_key: Some(key@), ..self@ }),
    {
        let mut log = self;
        log.object_key = Some(key);
        log
    }

    #[must_use]
    pub fn with_part(self, part_index: u64) -> (log: Log)
        ensures
            log@ == (LogView { part_index: Some(part_index), ..self@ }),
    {
        let mut log = self;
        log.part_index = Some(part_index);
        log
    }

    #[must_use]
    pub fn with_offset(self, offset: u64) -> (log: Log)
        ensures
            log@ == (LogView { offset: Some(offset), ..self@ }),
    {
        let mut log = self;
        log.offset = Some(offset);
        log
    }

    #[must_use]
    pub fn with_byte_len(self, byte_len: u64) -> (log: Log)
        ensures
            log@ == (LogView { byte_len: Some(byte_len), ..self@ }),
    {
        let mut log = self;
        log.byte_len = Some(byte_len);
        log
    }

    #[must_use]
    pub fn with_range(self, offset: u64, byte_len: u64) -> (log: Log)
        ensures
            log@ == (LogView { offset: Some(offset), byte_len: Some(byte_len), ..self@ }),
    {
        let mut log = self;
        log.offset = Some(offset);
        log.byte_len = Some(byte_len);
        log
    }

    #[must_use]
    pub fn with_http_status(self, status: u16) -> (log: Log)
        ensures
            log@ == (LogView { http_status: Some(status), ..self@ }),
    {
        let mut log = self;
        log.http_status = Some(status);
        log
    }

    #[must_use]
    pub fn with_attempt(self, attempt: u32) -> (log: Log)
        ensures
            log@ == (LogView { attempt: Some(attempt), ..self@ }),
    {
        let mut log = self;
        log.attempt = Some(attempt);
        log
    }

    #[must_use]
    pub fn with_max_retries(self, max_retries: u32) -> (log: Log)
        ensures
            log@ == (LogView { max_retries: Some(max_retries), ..self@ }),
    {
        let mut log = self;
        log.max_retries = Some(max_retries);
        log
    }

    #[must_use]
    pub fn with_error_code(self, code: i32) -> (log: Log)
        ensures
            log@ == (LogView { error_code: Some(code), ..self@ }),
    {
        let mut log = self;
        log.error_code = Some(code);
        log
    }

    /// Sets the URL; its secrets are taken out first.
    #[must_use]
    pub fn with_url(self, url: &str) -> (log: Log)
        ensures
            log@ == (LogView { url: Some(sanitized(url@)), ..self@ }),
    {
        let mut log = self;
        log.url = Some(sanitize_url(url));
        log
    }

    pub fn timestamp_ms(&self) -> (timestamp_ms: u64)
        ensures
            timestamp_ms == self@.timestamp_ms,
    {
        self.timestamp_ms
    }

    pub fn level(&self) -> (level: LogLevel)
        ensures
            level == self@.level,
    {
        self.level
    }

    pub fn tag(&self) -> (tag: &'static str)
        ensures
            tag@ == self@.tag,
    {
        self.tag
    }

    pub fn message(&self) -> (message: &str)
        ensures
            message@ == self@.message,
    {
        self.message.as_str()
    }

    pub fn task_id(&self) -> (task_id: Option<&str>)
        ensures
            is_text(task_id, self@.task_id),
    {
        borrowed(&self.task_id)
    }

    pub fn object_key(&self) -> (object_key: Option<&str>)
        ensures
            is_text(object_key, self@.object_key),
    {
        borrowed(&self.object_key)
    }

    pub fn part_index(&self) -> (part_index: Option<u64>)
        ensures
            part_index == self@.part_index,
    {
        self.part_index
    }

    pub fn offset(&self) -> (offset: Option<u64>)
        ensures
            offset == self@.offset,
    {
        self.offset
    }

    pub fn byte_len(&self) -> (byte_len: Option<u64>)
        ensures
            byte_len == self@.byte_len,
    {
        self.byte_len
    }

    pub fn http_status(&self) -> (http_status: Option<u16>)
        ensures
            http_status == self@.http_status,
    {
        self.http_status
    }

    pub fn attempt(&self) -> (attempt: Option<u32>)
        ensures
            attempt == self@.attempt,
    {
        self.attempt
    }

    pub fn max_retries(&self) -> (max_retries: Option<u32>)
        ensures
            max_retries == self@.max_retries,
    {
        self.max_retries
    }

    pub fn error_code(&self) -> (error_code: Option<i32>)
        ensures
            error_code == self@.error_code,
    {
        self.error_code
    }

    pub fn url(&self) -> (url: Option<&str>)
        ensures
            is_text(url, self@.url),
    {
        borrowed(&self.url)
    }

    pub fn into_message(self) -> (message: String)
        ensures
            message@ == self@.message,
    {
        self.message
    }

    /// The entry as one line.
    pub fn to_text(&self) -> (line: String)
        ensures
            line@ == entry_text(self@),
    {
        let mut line = "[".to_owned();
        push_decimal(&mut line, self.timestamp_ms as u128);
        line.append("] ");
        line.append(self.level.as_str());
        line.append(" [");
        line.append(self.tag);
        line.append("] ");
        line.append(self.message.as_str());
        push_text_field(&mut line, " task_id=", &self.task_id);
        push_text_field(&mut line, " key=", &self.object_key);
        push_number_field(&mut line, " part=", self.part_index);
        push_number_field(&mut line, " offset=", self.offset);
        push_number_field(&mut line, " len=", self.byte_len);
        push_number_field(
            &mut line,
            " http_status=",
            match self.http_status {
                Some(status) => Some(status as u64),
                None => None,
            },
        );
        push_number_field(
            &mut line,
            " attempt=",
            match self.attempt {
                Some(attempt) => Some(attempt as u64),
                None => None,
            },
        );
        push_number_field(
            &mut line,
            " max_retries=",
            match self.max_retries {
                Some(retries) => Some(retries as u64),
                None => None,
            },
        );
        let ghost before = line@;
        match self.error_code {
            Some(code) => {
                line.append(" error_code=");
                push_signed_decimal(&mut line, code);
                assert(line@ =~= before + (" error_code="@ + text::signed_decimal(code as int)));
            },
            None => {
                assert(line@ =~= before + Seq::<char>::empty());
            },
        }
        push_text_field(&mut line, " url=", &self.url);
        line
    }
}

// ---------------------------------------------------------------------------
// The listener
// ---------------------------------------------------------------------------

/// Why a listener could not be set.
#[derive(Debug, Clone, Copy, PartialEq, Eq, Structural)]
pub struct DebugLogListenerError;

impl DebugLogListenerError {
    pub fn text(&self) -> (text: &'static str)
        ensures
            text@ == "debug log listener already set"@,
    {
        "debug log listener already set"
    }
}

/// The place of the one listener.
#[derive(Debug)]
pub struct DebugLogSlot<L> {
    pub listener: Option<L>,
}

impl<L> DebugLogSlot<L> {
    pub fn new() -> (slot: Self)
        ensures
            slot.listener is None,
    {
        DebugLogSlot { listener: None }
    }
}

/// Whether anyone listens.
pub fn debug_log_listener_active<L>(slot: &DebugLogSlot<L>) -> (active: bool)
    ensures
        active == slot.listener is Some,
{
    slot.listener.is_some()
}

/// Sets or removes the listener, whatever was there.
pub fn set_debug_log_listener<L>(slot: &mut DebugLogSlot<L>, listener: Option<L>) -> (result: Result<
    (),
    DebugLogListenerError,
>)
    ensures
        result is Ok,
        final(slot).listener == listener,
{
    slot.listener = listener;
    Ok(())
}

/// Sets the listener where there is none; one that is there stays.
pub fn try_set_debug_log_listener<L>(slot: &mut DebugLogSlot<L>, listener: L) -> (result: Result<
    (),
    DebugLogListenerError,
>)
    ensures
        result is Ok <==> old(slot).listener is None,
        result is Ok ==> final(slot).listener == Some(listener),
        result is Err ==> *final(slot) == *old(slot) && result->Err_0 == DebugLogListenerError,
{
    if slot.listener.is_some() {
        return Err(DebugLogListenerError);
    }
    slot.listener = Some(listener);
    Ok(())
}

/// Makes an entry only where someone listens.
pub fn emit_lazy<L, F: FnOnce() -> Log>(slot: &DebugLogSlot<L>, make: F) -> (log: Option<Log>)
    requires
        slot.listener is Some ==> make.requires(()),
    ensures
        log is Some <==> slot.listener is Some,
        log matches Some(log) ==> make.ensures((), log),
{
    if !debug_log_listener_active(slot) {
        return None;
    }
    Some(make())
}

} // verus!
