//! Instants written as RFC 3339 timestamps.

use crate::text::{chars_of, is_blank, lemma_trim_blank, scan_whitespace, scan_whitespace_back, trim};
use vstd::prelude::*;
use vstd::string::*;

verus! {

/// An instant with the offset from UTC that it was written in.
#[derive(Clone, Copy, Debug, PartialEq, Eq, Structural)]
pub struct OffsetDateTime {
    /// Nanoseconds since 1970-01-01T00:00:00Z.
    pub unix_timestamp_nanos: i128,
    /// Seconds east of UTC.
    pub offset_seconds: i32,
}

#[verifier::external_type_specification]
#[verifier::external_body]
pub struct ExParse(time::error::Parse);

/// The instant that `text` spells as a complete RFC 3339 timestamp, as the
/// `time` crate reads it; `None` where it reads none.
pub uninterp spec fn rfc3339_instant(text: Seq<char>) -> Option<OffsetDateTime>;

/// What `s` amounts to as a timestamp: nothing for a blank text, else the
/// instant that its trimmed form spells, else that trimmed form, which spells
/// none.
pub open spec fn parse_timestamp(s: Seq<char>) -> Result<Option<OffsetDateTime>, Seq<char>> {
    if is_blank(s) {
        Ok(None)
    } else {
        match rfc3339_instant(trim(s)) {
            Some(instant) => Ok(Some(instant)),
            None => Err(trim(s)),
        }
    }
}

/// Why a text is no timestamp.
#[derive(Debug)]
pub struct OffsetDateTimeValueParserError {
    /// What the RFC 3339 reader objected to.
    pub source: time::error::Parse,
    /// The text that was read, trimmed.
    pub value: String,
}

/// `time::OffsetDateTime::parse` with the format `Rfc3339`. What it reads is
/// a function of the text alone; the contract gives that result its name and
/// says nothing else of it. The instant is read back as nanoseconds since the
/// epoch and the offset as whole seconds.
#[verifier::external_body]
fn time_parse_rfc3339(text: &str) -> (r: Result<OffsetDateTime, time::error::Parse>)
    ensures
        match r {
            Ok(instant) => rfc3339_instant(text@) == Some(instant),
            Err(_) => rfc3339_instant(text@) is None,
        },
{
    match time::OffsetDateTime::parse(text, &time::format_description::well_known::Rfc3339) {
        Ok(t) => Ok(
            OffsetDateTime {
                unix_timestamp_nanos: t.unix_timestamp_nanos(),
                offset_seconds: t.offset().whole_seconds(),
            },
        ),
        Err(e) => Err(e),
    }
}

/// What a trimmed, non-blank text amounts to once the RFC 3339 reader has
/// spoken: the instant it read, or its objection together with the text.
pub fn timestamp_outcome(value: String, parsed: Result<OffsetDateTime, time::error::Parse>) -> (r:
    Result<Option<OffsetDateTime>, OffsetDateTimeValueParserError>)
    ensures
        match parsed {
            Ok(instant) => r == Ok::<Option<OffsetDateTime>, OffsetDateTimeValueParserError>(
                Some(instant),
            ),
            Err(source) => r == Err::<Option<OffsetDateTime>, OffsetDateTimeValueParserError>(
                OffsetDateTimeValueParserError { source, value },
            ),
        },
{
    match parsed {
        Ok(instant) => Ok(Some(instant)),
        Err(source) => Err(OffsetDateTimeValueParserError { source, value }),
    }
}

/// Reads `source` as a timestamp: none for a blank text, else the instant
/// that its trimmed form spells in RFC 3339.
pub fn parse_offset_date_time_value(source: &str) -> (r: Result<
    Option<OffsetDateTime>,
    OffsetDateTimeValueParserError,
>)
    ensures
        match parse_timestamp(source@) {
            Ok(instant) => r == Ok::<Option<OffsetDateTime>, OffsetDateTimeValueParserError>(
                instant,
            ),
            Err(text) => r is Err && r->Err_0.value@ == text,
        },
{
    let v = chars_of(source);
    let start = scan_whitespace(&v, 0);
    proof {
        lemma_trim_blank(source@);
    }
    if start == v.len() {
        return Ok(None);
    }
    let end = scan_whitespace_back(&v, start, v.len());
    let trimmed = source.substring_char(start, end);
    let parsed = time_parse_rfc3339(trimmed);
    timestamp_outcome(trimmed.to_owned(), parsed)
}

} // verus!
