//! Rich value to optional timestamp.

use crate::parse_rich_value::strip_fence;
use crate::parse_rich_value::to_string::{
    rich_string, rich_text, ConvertRichValueRefToStringError, ConvertRichValueToStringError,
};
use crate::timestamp::{parse_offset_date_time_value, parse_timestamp, OffsetDateTime};
use crate::value::RichValue;
use std::convert::TryFrom;
use vstd::prelude::*;
use vstd::std_specs::convert::TryFromSpecImpl;

verus! {

/// Why a borrowed rich value is no optional timestamp.
#[derive(Debug)]
#[allow(inconsistent_fields)]
pub enum ConvertRichValueRefToOptionOffsetDateTimeError {
    /// The value is no text.
    ConvertStringFailed { source: ConvertRichValueRefToStringError },
    /// The trimmed text, given as `value`, is no complete RFC 3339 timestamp.
    OffsetDateTimeParseFailed { source: time::error::Parse, value: String },
}

/// Why a rich value is no optional timestamp.
#[derive(Debug)]
#[allow(inconsistent_fields)]
pub enum ConvertRichValueToOptionOffsetDateTimeError {
    /// The value is no text; it comes back inside `source`.
    ConvertStringFailed { source: ConvertRichValueToStringError },
    /// The trimmed text, given as `value`, is no complete RFC 3339 timestamp.
    OffsetDateTimeParseFailed { source: time::error::Parse, value: String },
}

impl<'a> TryFrom<&'a RichValue> for Option<OffsetDateTime> {
    type Error = ConvertRichValueRefToOptionOffsetDateTimeError;

    /// The instant that the trimmed text of the value spells, fence taken
    /// off; `None` for a blank text.
    fn try_from(value: &'a RichValue) -> (r: Result<
        Option<OffsetDateTime>,
        ConvertRichValueRefToOptionOffsetDateTimeError,
    >)
        ensures
            match rich_string(*value) {
                Err(e) => r == Err::<
                    Option<OffsetDateTime>,
                    ConvertRichValueRefToOptionOffsetDateTimeError,
                >(ConvertRichValueRefToOptionOffsetDateTimeError::ConvertStringFailed { source: e }),
                Ok(text) => match parse_timestamp(text) {
                    Ok(instant) => r == Ok::<
                        Option<OffsetDateTime>,
                        ConvertRichValueRefToOptionOffsetDateTimeError,
                    >(instant),
                    Err(trimmed) => r matches Err(
                        ConvertRichValueRefToOptionOffsetDateTimeError::OffsetDateTimeParseFailed {
                            value,
                            ..
                        },
                    ) && value@ == trimmed,
                },
            },
    {
        let string = match String::try_from(value) {
            Ok(string) => string,
            Err(source) => {
                return Err(
                    ConvertRichValueRefToOptionOffsetDateTimeError::ConvertStringFailed { source },
                );
            },
        };
        match parse_offset_date_time_value(string.as_str()) {
            Ok(instant) => Ok(instant),
            Err(e) => Err(
                ConvertRichValueRefToOptionOffsetDateTimeError::OffsetDateTimeParseFailed {
                    source: e.source,
                    value: e.value,
                },
            ),
        }
    }
}

/// The result may hold what the RFC 3339 reader objected to, of which
/// nothing is known: what `try_from` returns is stated in its own `ensures`,
/// and no more is claimed here.
impl<'a> TryFromSpecImpl<&'a RichValue> for Option<OffsetDateTime> {
    open spec fn obeys_try_from_spec() -> bool {
        false
    }

    open spec fn try_from_spec(value: &'a RichValue) -> Result<
        Option<OffsetDateTime>,
        ConvertRichValueRefToOptionOffsetDateTimeError,
    > {
        arbitrary()
    }
}

impl TryFrom<RichValue> for Option<OffsetDateTime> {
    type Error = ConvertRichValueToOptionOffsetDateTimeError;

    /// The instant that the trimmed text of the value spells, fence taken
    /// off; `None` for a blank text.
    fn try_from(value: RichValue) -> (r: Result<
        Option<OffsetDateTime>,
        ConvertRichValueToOptionOffsetDateTimeError,
    >)
        ensures
            match rich_text(value) {
                Err(e) => r == Err::<
                    Option<OffsetDateTime>,
                    ConvertRichValueToOptionOffsetDateTimeError,
                >(ConvertRichValueToOptionOffsetDateTimeError::ConvertStringFailed { source: e }),
                Ok(text) => match parse_timestamp(strip_fence(text@)) {
                    Ok(instant) => r == Ok::<
                        Option<OffsetDateTime>,
                        ConvertRichValueToOptionOffsetDateTimeError,
                    >(instant),
                    Err(trimmed) => r matches Err(
                        ConvertRichValueToOptionOffsetDateTimeError::OffsetDateTimeParseFailed {
                            value,
                            ..
                        },
                    ) && value@ == trimmed,
                },
            },
    {
        let string = match String::try_from(value) {
            Ok(string) => string,
            Err(source) => {
                return Err(
                    ConvertRichValueToOptionOffsetDateTimeError::ConvertStringFailed { source },
                );
            },
        };
        match parse_offset_date_time_value(string.as_str()) {
            Ok(instant) => Ok(instant),
            Err(e) => Err(
                ConvertRichValueToOptionOffsetDateTimeError::OffsetDateTimeParseFailed {
                    source: e.source,
                    value: e.value,
                },
            ),
        }
    }
}

/// The result may hold what the RFC 3339 reader objected to, of which
/// nothing is known: what `try_from` returns is stated in its own `ensures`,
/// and no more is claimed here.
impl TryFromSpecImpl<RichValue> for Option<OffsetDateTime> {
    open spec fn obeys_try_from_spec() -> bool {
        false
    }

    open spec fn try_from_spec(value: RichValue) -> Result<
        Option<OffsetDateTime>,
        ConvertRichValueToOptionOffsetDateTimeError,
    > {
        arbitrary()
    }
}

} // verus!
