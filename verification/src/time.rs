//! Expiration times as text, read and written through `chrono`.

use std::fmt::Write;
use vstd::prelude::*;
use crate::dto::text_of;

verus! {

/// What `chrono` reads from `text` under `format`: the seconds since the
/// Unix epoch of the moment that the text names, or the words of its error.
pub uninterp spec fn datetime_parse(text: Seq<char>, format: Seq<char>) -> Result<int, Seq<char>>;

/// What `chrono` writes under `format` for the moment `seconds` after the
/// Unix epoch, in UTC; `None` where it has no such moment or cannot write it.
pub uninterp spec fn timestamp_text(seconds: int, format: Seq<char>) -> Option<Seq<char>>;

/// Seconds or the words of an error, by mathematical value.
pub open spec fn seconds_view(r: Result<i64, String>) -> Result<int, Seq<char>> {
    match r {
        Ok(seconds) => Ok(seconds as int),
        Err(words) => Err(words@),
    }
}

/// `chrono::DateTime::parse_from_str`, then `DateTime::timestamp` on the
/// moment read, or the error's `to_string`: the result is a function of the
/// text and the format, here given a name.
#[verifier::external_body]
fn parse_datetime(text: &str, format: &str) -> (r: Result<i64, String>)
    ensures
        seconds_view(r) == datetime_parse(text@, format@),
{
    match chrono::DateTime::parse_from_str(text, format) {
        Ok(moment) => Ok(moment.timestamp()),
        Err(e) => Err(e.to_string()),
    }
}

/// `chrono::DateTime::from_timestamp` with no nanoseconds, then
/// `DateTime::format` written into a string: the result is a function of
/// the seconds and the format, here given a name. `None` stands for seconds
/// out of range and for a format that cannot be written.
#[verifier::external_body]
fn format_timestamp(seconds: i64, format: &str) -> (r: Option<String>)
    ensures
        text_of(r) == timestamp_text(seconds as int, format@),
{
    let moment = chrono::DateTime::from_timestamp(seconds, 0)?;
    let mut text = String::new();
    match write!(text, "{}", moment.format(format)) {
        Ok(()) => Some(text),
        Err(_) => None,
    }
}

/// The format of an expiration: date, time and offset from UTC, as in
/// `1970-01-01 00:00:00 +0000`.
pub open spec fn expiration_format() -> Seq<char> {
    "%Y-%m-%d %H:%M:%S %z"@
}

/// Reads an expiration: the seconds since the Unix epoch of the moment that
/// `text` names, or the words that say why it names none.
pub fn parse_expiration(text: &str) -> (r: Result<i64, String>)
    ensures
        seconds_view(r) == datetime_parse(text@, expiration_format()),
{
    parse_datetime(text, "%Y-%m-%d %H:%M:%S %z")
}

/// Writes an expiration as the form shows it, in UTC; `None` for seconds
/// that name no moment that can be written.
pub fn expiration_text(seconds: i64) -> (r: Option<String>)
    ensures
        text_of(r) == timestamp_text(seconds as int, expiration_format()),
{
    format_timestamp(seconds, "%Y-%m-%d %H:%M:%S %z")
}

} // verus!
