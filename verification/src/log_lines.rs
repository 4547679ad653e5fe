//! Lines of the log: what an entry says, whenever it is made.
//!
//! An entry carries the time at which it was made, which is up to the clock. All
//! else in it is its line, and what is logged of the library is stated in lines.
//! Keys get into a line without the secrets of a URL, and texts of errors without
//! any secrets.

use vstd::prelude::*;
use vstd::string::*;

use crate::direction;
use crate::direction::{safe_key, KeyView, UniqueId};
use crate::error::MeowError;
use crate::ids::TaskId;
use crate::log;
use crate::log::{redact_secrets, Log, LogLevel, LogView};
use crate::text;
use crate::text::push_decimal;

verus! {

/// What an entry says, whenever it was made.
pub open spec fn line_of(entry: LogView) -> LogView {
    LogView { timestamp_ms: 0, ..entry }
}

/// What entries say, in order.
pub open spec fn lines_of(logs: Seq<Log>) -> Seq<LogView> {
    Seq::new(logs.len(), |i: int| line_of(logs[i]@))
}

/// A line without fields.
pub open spec fn line(level: LogLevel, tag: Seq<char>, message: Seq<char>) -> LogView {
    log::bare_entry(0, level, tag, message)
}

/// A line about a task.
pub open spec fn task_line(
    level: LogLevel,
    tag: Seq<char>,
    message: Seq<char>,
    task_id: TaskId,
) -> LogView {
    LogView { task_id: Some(task_id.spec_text()), ..line(level, tag, message) }
}

/// A line with what an error carries: its number, where it has one, and the
/// status of the response that caused it, if one did.
pub open spec fn error_fields(entry: LogView, e: MeowError) -> LogView {
    LogView {
        error_code: match e.code.spec_number() {
            Some(number) => Some(number),
            None => entry.error_code,
        },
        http_status: match e.http_status {
            Some(status) => Some(status),
            None => entry.http_status,
        },
        ..entry
    }
}

/// How an error reads in a line.
pub open spec fn error_words(e: MeowError) -> Seq<char> {
    log::redacted(e.msg@, 0)
}

/// How a key reads in a line.
pub open spec fn key_words(k: KeyView) -> Seq<char> {
    direction::safe_key_text(k)
}

/// How a condition reads in a line.
pub open spec fn flag_words(flag: bool) -> Seq<char> {
    if flag {
        "true"@
    } else {
        "false"@
    }
}

/// Makes the entry of a line without fields.
pub fn entry(level: LogLevel, tag: &'static str, message: String) -> (log: Log)
    ensures
        line_of(log@) == line(level, tag@, message@),
{
    Log::new(level, tag, message)
}

/// Adds what an error carries.
pub fn with_error(log: Log, e: &MeowError) -> (with: Log)
    ensures
        with@ == error_fields(log@, *e),
        line_of(with@) == error_fields(line_of(log@), *e),
{
    let numbered = match e.code.number() {
        Some(number) => log.with_error_code(number),
        None => log,
    };
    match e.http_status {
        Some(status) => numbered.with_http_status(status),
        None => numbered,
    }
}

/// A label with a number behind it.
pub fn number_text(label: &str, value: u64) -> (text: String)
    ensures
        text@ == label@ + text::decimal(value as nat),
{
    let mut text = label.to_owned();
    push_decimal(&mut text, value as u128);
    text
}

/// A label with a key behind it.
pub fn key_text(label: &str, key: &UniqueId) -> (text: String)
    ensures
        text@ == label@ + key_words(direction::key_view(*key)),
{
    let mut text = label.to_owned();
    text.append(safe_key(key).as_str());
    text
}

/// A label with a task behind it.
pub fn task_text(label: &str, task_id: TaskId) -> (text: String)
    ensures
        text@ == label@ + task_id.spec_text(),
{
    let mut text = label.to_owned();
    text.append(task_id.text().as_str());
    text
}

/// A label with an error behind it.
pub fn error_text(label: &str, e: &MeowError) -> (text: String)
    ensures
        text@ == label@ + error_words(*e),
{
    let mut text = label.to_owned();
    text.append(redact_secrets(e.msg.as_str()).as_str());
    text
}

/// A text with a labelled text behind it.
pub fn and_text(text: String, label: &str, value: &str) -> (longer: String)
    ensures
        longer@ == text@ + label@ + value@,
{
    let mut text = text;
    text.append(label);
    text.append(value);
    text
}

/// A text with a labelled number behind it.
pub fn and_number(text: String, label: &str, value: u64) -> (longer: String)
    ensures
        longer@ == text@ + label@ + text::decimal(value as nat),
{
    let mut text = text;
    text.append(label);
    push_decimal(&mut text, value as u128);
    text
}

/// A text with a labelled count behind it.
pub fn and_count(text: String, label: &str, count: u128) -> (longer: String)
    ensures
        longer@ == text@ + label@ + text::decimal(count as nat),
{
    let mut text = text;
    text.append(label);
    push_decimal(&mut text, count);
    text
}

/// A text with a labelled key behind it.
pub fn and_key(text: String, label: &str, key: &UniqueId) -> (longer: String)
    ensures
        longer@ == text@ + label@ + key_words(direction::key_view(*key)),
{
    and_text(text, label, safe_key(key).as_str())
}

/// A text with a labelled task behind it.
pub fn and_task(text: String, label: &str, task_id: TaskId) -> (longer: String)
    ensures
        longer@ == text@ + label@ + task_id.spec_text(),
{
    and_text(text, label, task_id.text().as_str())
}

/// A text with a labelled condition behind it.
pub fn and_flag(text: String, label: &str, flag: bool) -> (longer: String)
    ensures
        longer@ == text@ + label@ + flag_words(flag),
{
    if flag {
        and_text(text, label, "true")
    } else {
        and_text(text, label, "false")
    }
}

/// A text with a labelled error behind it.
pub fn and_error(text: String, label: &str, e: &MeowError) -> (longer: String)
    ensures
        longer@ == text@ + label@ + error_words(*e),
{
    and_text(text, label, redact_secrets(e.msg.as_str()).as_str())
}

/// Adding an entry adds its line.
pub broadcast proof fn lemma_push_line(logs: Seq<Log>, log: Log)
    ensures
        #[trigger] lines_of(logs.push(log)) == lines_of(logs).push(line_of(log@)),
{
    assert(lines_of(logs.push(log)) =~= lines_of(logs).push(line_of(log@)));
}

/// No entries yet.
pub fn no_entries() -> (logs: Vec<Log>)
    ensures
        lines_of(logs@) == Seq::<LogView>::empty(),
{
    let logs: Vec<Log> = Vec::new();
    assert(lines_of(logs@) =~= Seq::<LogView>::empty());
    logs
}

/// Adds an entry.
pub fn push_entry(logs: &mut Vec<Log>, log: Log)
    ensures
        lines_of(final(logs)@) == lines_of(old(logs)@) + seq![line_of(log@)],
{
    broadcast use lemma_push_line;

    logs.push(log);
    assert(lines_of(logs@) =~= lines_of(old(logs)@) + seq![line_of(log@)]);
}

} // verus!
