//! Rich value to optional span of time.

use crate::duration::{parse_duration, parse_duration_value, Duration, DurationValueParserError};
use crate::parse_rich_value::strip_fence;
use crate::parse_rich_value::to_string::{
    rich_string, rich_text, ConvertRichValueRefToStringError, ConvertRichValueToStringError,
};
use crate::value::RichValue;
use std::convert::TryFrom;
use vstd::prelude::*;
use vstd::std_specs::convert::TryFromSpecImpl;

verus! {

/// Why a borrowed rich value is no optional span of time.
#[derive(Debug)]
#[allow(inconsistent_fields)]
pub enum ConvertRichValueRefToOptionDurationError {
    /// The value is no text.
    ConvertStringFailed { source: ConvertRichValueRefToStringError },
    /// The text spells no span.
    DurationParseFailed { source: DurationValueParserError },
}

/// Why a rich value is no optional span of time.
#[derive(Debug)]
#[allow(inconsistent_fields)]
pub enum ConvertRichValueToOptionDurationError {
    /// The value is no text; it comes back inside `source`.
    ConvertStringFailed { source: ConvertRichValueToStringError },
    /// The text, given as `value`, spells no span.
    DurationParseFailed { source: DurationValueParserError, value: String },
}

impl<'a> TryFrom<&'a RichValue> for Option<Duration> {
    type Error = ConvertRichValueRefToOptionDurationError;

    /// The span that the text of the value spells, fence taken off; `None`
    /// for a blank text.
    fn try_from(value: &'a RichValue) -> (r: Result<
        Option<Duration>,
        ConvertRichValueRefToOptionDurationError,
    >)
        ensures
            match rich_string(*value) {
                Err(e) => r == Err::<Option<Duration>, ConvertRichValueRefToOptionDurationError>(
                    ConvertRichValueRefToOptionDurationError::ConvertStringFailed { source: e },
                ),
                Ok(text) => match parse_duration(text) {
                    Ok(span) => r == Ok::<
                        Option<Duration>,
                        ConvertRichValueRefToOptionDurationError,
                    >(span),
                    Err(fault) => r matches Err(
                        ConvertRichValueRefToOptionDurationError::DurationParseFailed { source },
                    ) && source@ == fault,
                },
            },
    {
        let string = match String::try_from(value) {
            Ok(string) => string,
            Err(source) => {
                return Err(ConvertRichValueRefToOptionDurationError::ConvertStringFailed { source });
            },
        };
        match parse_duration_value(string.as_str()) {
            Ok(span) => Ok(span),
            Err(source) => Err(
                ConvertRichValueRefToOptionDurationError::DurationParseFailed { source },
            ),
        }
    }
}

/// The result may hold a text that is made anew, of which only the
/// characters are known: what `try_from` returns is stated in its own
/// `ensures`, and no more is claimed here.
impl<'a> TryFromSpecImpl<&'a RichValue> for Option<Duration> {
    open spec fn obeys_try_from_spec() -> bool {
        false
    }

    open spec fn try_from_spec(value: &'a RichValue) -> Result<
        Option<Duration>,
        ConvertRichValueRefToOptionDurationError,
    > {
        arbitrary()
    }
}

impl TryFrom<RichValue> for Option<Duration> {
    type Error = ConvertRichValueToOptionDurationError;

    /// The span that the text of the value spells, fence taken off; `None`
    /// for a blank text.
    fn try_from(value: RichValue) -> (r: Result<
        Option<Duration>,
        ConvertRichValueToOptionDurationError,
    >)
        ensures
            match rich_text(value) {
                Err(e) => r == Err::<Option<Duration>, ConvertRichValueToOptionDurationError>(
                    ConvertRichValueToOptionDurationError::ConvertStringFailed { source: e },
                ),
                Ok(text) => match parse_duration(strip_fence(text@)) {
                    Ok(span) => r == Ok::<Option<Duration>, ConvertRichValueToOptionDurationError>(
                        span,
                    ),
                    Err(fault) => r matches Err(
                        ConvertRichValueToOptionDurationError::DurationParseFailed { source, value },
                    ) && source@ == fault && value@ == strip_fence(text@),
                },
            },
    {
        let string = match String::try_from(value) {
            Ok(string) => string,
            Err(source) => {
                return Err(ConvertRichValueToOptionDurationError::ConvertStringFailed { source });
            },
        };
        match parse_duration_value(string.as_str()) {
            Ok(span) => Ok(span),
            Err(source) => Err(
                ConvertRichValueToOptionDurationError::DurationParseFailed { source, value: string },
            ),
        }
    }
}

/// The result may hold a text that is made anew, of which only the
/// characters are known: what `try_from` returns is stated in its own
/// `ensures`, and no more is claimed here.
impl TryFromSpecImpl<RichValue> for Option<Duration> {
    open spec fn obeys_try_from_spec() -> bool {
        false
    }

    open spec fn try_from_spec(value: RichValue) -> Result<
        Option<Duration>,
        ConvertRichValueToOptionDurationError,
    > {
        arbitrary()
    }
}

} // verus!
