//! From cell values, in either form, to native values.
//!
//! A text loses its fence in either form.

use crate::duration::{
    parse_duration, parse_duration_value, Duration, DurationFault, DurationValueParserError,
};
use crate::integer::IntErrorKind;
use crate::parse_rich_value::{normalize_owned_rich_string, strip_fence};
use crate::text::{is_blank, str_is_blank};
use crate::timestamp::{parse_offset_date_time_value, parse_timestamp, OffsetDateTime};
use crate::value::{CellValue, Number, RichSingleValue, RichValue, ScalarValue, Value};
use std::convert::TryFrom;
use vstd::prelude::*;
use vstd::std_specs::convert::TryFromSpecImpl;

verus! {

/// Why a cell value is no text.
#[derive(Debug)]
pub enum ConvertCellValueToStringError {
    /// The value, handed back here, is not a single scalar text.
    InvalidCellValue { cell_value: CellValue },
}

/// Why a cell value is no number.
#[derive(Debug)]
pub enum ConvertCellValueToF64Error {
    /// The value, handed back here, is not a single scalar number.
    InvalidCellValue { cell_value: CellValue },
}

/// Why a cell value is no boolean.
#[derive(Debug)]
pub enum ConvertCellValueToBoolError {
    /// The value, handed back here, is not a single scalar boolean (nor,
    /// where none is asked for, a blank text).
    InvalidCellValue { cell_value: CellValue },
}

/// Why a cell value is no optional span of time.
#[derive(Debug)]
#[allow(inconsistent_fields)]
pub enum ConvertCellValueToOptionDurationError {
    /// The value is no text.
    ConvertCellValueToStringFailed { source: ConvertCellValueToStringError },
    /// The text holds no number; never returned, see
    /// `DurationValueParserError::NumberNotFound`.
    NumberNotFound,
    /// The first token is no 64-bit integer, or too large for its unit.
    NumberParseFailed { source: IntErrorKind },
    /// The text holds a number and nothing after it.
    UnitNotFound,
    /// What follows the number, given here as written, names no unit: it is
    /// another word, or more than one token.
    UnitUnexpected { unit: String },
}

/// Why a cell value is no optional timestamp.
#[derive(Debug)]
#[allow(inconsistent_fields)]
pub enum ConvertCellValueToOptionOffsetDateTimeError {
    /// The value is no text.
    ConvertCellValueToStringFailed { source: ConvertCellValueToStringError },
    /// The trimmed text, given as `value`, is no complete RFC 3339 timestamp.
    OffsetDateTimeParseFailed { source: time::error::Parse, value: String },
}

/// Any of the refusals above, for callers that convert to several types.
#[derive(Debug)]
#[allow(inconsistent_fields)]
pub enum ConvertCellValueError {
    ConvertCellValueToStringFailed { source: ConvertCellValueToStringError },
    ConvertCellValueToF64Failed { source: ConvertCellValueToF64Error },
    ConvertCellValueToBoolFailed { source: ConvertCellValueToBoolError },
    ConvertCellValueToOffsetDateTimeFailed { source: ConvertCellValueToOptionOffsetDateTimeError },
}

/// The text that `value` stands for: its text without the fence, in either
/// form; `None` for any other value.
pub open spec fn cell_string(value: CellValue) -> Option<Seq<char>> {
    match value.scalar() {
        Some(ScalarValue::Text(text)) => Some(strip_fence(text@)),
        _ => None,
    }
}

/// The number that `value` is, in either form.
pub open spec fn cell_number(value: CellValue) -> Option<Number> {
    match value.scalar() {
        Some(ScalarValue::Number(number)) => Some(number),
        _ => None,
    }
}

/// The boolean that `value` is, in either form.
pub open spec fn cell_bool(value: CellValue) -> Option<bool> {
    match value.scalar() {
        Some(ScalarValue::Boolean(boolean)) => Some(boolean),
        _ => None,
    }
}

/// The optional boolean that `value` stands for: a boolean is itself, a
/// blank text is the absence of one; the outer `None` is for any other value.
pub open spec fn cell_option_bool(value: CellValue) -> Option<Option<bool>> {
    match value.scalar() {
        Some(ScalarValue::Boolean(boolean)) => Some(Some(boolean)),
        Some(ScalarValue::Text(text)) => if is_blank(text@) {
            Some(None)
        } else {
            None
        },
        _ => None,
    }
}

impl TryFrom<CellValue> for String {
    type Error = ConvertCellValueToStringError;

    /// The text of a single scalar text, without its fence; any other value
    /// comes back in the error.
    fn try_from(cell_value: CellValue) -> (r: Result<String, ConvertCellValueToStringError>)
        ensures
            match cell_string(cell_value) {
                Some(text) => r is Ok && r->Ok_0@ == text,
                None => r == Err::<String, ConvertCellValueToStringError>(
                    ConvertCellValueToStringError::InvalidCellValue { cell_value },
                ),
            },
    {
        match cell_value {
            CellValue::Value(Value::Single(ScalarValue::Text(text))) => Ok(
                normalize_owned_rich_string(text),
            ),
            CellValue::RichValue(
                RichValue::Single(RichSingleValue::Scalar(ScalarValue::Text(text))),
            ) => Ok(normalize_owned_rich_string(text)),
            cell_value => Err(ConvertCellValueToStringError::InvalidCellValue { cell_value }),
        }
    }
}

/// The result may hold a text that is made anew, of which only the
/// characters are known: what `try_from` returns is stated in its own
/// `ensures`, and no more is claimed here.
impl TryFromSpecImpl<CellValue> for String {
    open spec fn obeys_try_from_spec() -> bool {
        false
    }

    open spec fn try_from_spec(cell_value: CellValue) -> Result<
        String,
        ConvertCellValueToStringError,
    > {
        arbitrary()
    }
}

impl TryFrom<CellValue> for Number {
    type Error = ConvertCellValueToF64Error;

    /// The number of a single scalar number; any other value comes back in
    /// the error.
    fn try_from(cell_value: CellValue) -> (r: Result<Number, ConvertCellValueToF64Error>) {
        match cell_value {
            CellValue::Value(Value::Single(ScalarValue::Number(number))) => Ok(number),
            CellValue::RichValue(
                RichValue::Single(RichSingleValue::Scalar(ScalarValue::Number(number))),
            ) => Ok(number),
            cell_value => Err(ConvertCellValueToF64Error::InvalidCellValue { cell_value }),
        }
    }
}

impl TryFromSpecImpl<CellValue> for Number {
    open spec fn obeys_try_from_spec() -> bool {
        true
    }

    open spec fn try_from_spec(cell_value: CellValue) -> Result<Number, ConvertCellValueToF64Error> {
        match cell_number(cell_value) {
            Some(number) => Ok(number),
            None => Err(ConvertCellValueToF64Error::InvalidCellValue { cell_value }),
        }
    }
}

impl TryFrom<CellValue> for bool {
    type Error = ConvertCellValueToBoolError;

    /// The boolean of a single scalar boolean. An empty text is refused like
    /// anything else; any other value comes back in the error.
    fn try_from(cell_value: CellValue) -> (r: Result<bool, ConvertCellValueToBoolError>) {
        match cell_value {
            CellValue::Value(Value::Single(ScalarValue::Boolean(boolean))) => Ok(boolean),
            CellValue::RichValue(
                RichValue::Single(RichSingleValue::Scalar(ScalarValue::Boolean(boolean))),
            ) => Ok(boolean),
            cell_value => Err(ConvertCellValueToBoolError::InvalidCellValue { cell_value }),
        }
    }
}

impl TryFromSpecImpl<CellValue> for bool {
    open spec fn obeys_try_from_spec() -> bool {
        true
    }

    open spec fn try_from_spec(cell_value: CellValue) -> Result<bool, ConvertCellValueToBoolError> {
        match cell_bool(cell_value) {
            Some(boolean) => Ok(boolean),
            None => Err(ConvertCellValueToBoolError::InvalidCellValue { cell_value }),
        }
    }
}

/// Whether `cell_value` is a single scalar text that is blank.
fn is_blank_text(cell_value: &CellValue) -> (r: bool)
    ensures
        r == (cell_value.scalar() matches Some(ScalarValue::Text(text)) && is_blank(text@)),
{
    match cell_value {
        CellValue::Value(Value::Single(ScalarValue::Text(text))) => str_is_blank(text.as_str()),
        CellValue::RichValue(
            RichValue::Single(RichSingleValue::Scalar(ScalarValue::Text(text))),
        ) => str_is_blank(text.as_str()),
        _ => false,
    }
}

impl TryFrom<CellValue> for Option<bool> {
    type Error = ConvertCellValueToBoolError;

    /// A boolean as `Some`, a blank text as `None`; any other value comes
    /// back in the error.
    fn try_from(cell_value: CellValue) -> (r: Result<Option<bool>, ConvertCellValueToBoolError>) {
        if is_blank_text(&cell_value) {
            return Ok(None);
        }
        match cell_value {
            CellValue::Value(Value::Single(ScalarValue::Boolean(boolean))) => Ok(Some(boolean)),
            CellValue::RichValue(
                RichValue::Single(RichSingleValue::Scalar(ScalarValue::Boolean(boolean))),
            ) => Ok(Some(boolean)),
            cell_value => Err(ConvertCellValueToBoolError::InvalidCellValue { cell_value }),
        }
    }
}

impl TryFromSpecImpl<CellValue> for Option<bool> {
    open spec fn obeys_try_from_spec() -> bool {
        true
    }

    open spec fn try_from_spec(cell_value: CellValue) -> Result<
        Option<bool>,
        ConvertCellValueToBoolError,
    > {
        match cell_option_bool(cell_value) {
            Some(boolean) => Ok(boolean),
            None => Err(ConvertCellValueToBoolError::InvalidCellValue { cell_value }),
        }
    }
}

impl TryFrom<CellValue> for Option<OffsetDateTime> {
    type Error = ConvertCellValueToOptionOffsetDateTimeError;

    /// The instant that the trimmed text of the value spells; `None` for a
    /// blank text.
    fn try_from(value: CellValue) -> (r: Result<
        Option<OffsetDateTime>,
        ConvertCellValueToOptionOffsetDateTimeError,
    >)
        ensures
            match cell_string(value) {
                None => r == Err::<
                    Option<OffsetDateTime>,
                    ConvertCellValueToOptionOffsetDateTimeError,
                >(
                    ConvertCellValueToOptionOffsetDateTimeError::ConvertCellValueToStringFailed {
                        source: ConvertCellValueToStringError::InvalidCellValue {
                            cell_value: value,
                        },
                    },
                ),
                Some(text) => match parse_timestamp(text) {
                    Ok(instant) => r == Ok::<
                        Option<OffsetDateTime>,
                        ConvertCellValueToOptionOffsetDateTimeError,
                    >(instant),
                    Err(trimmed) => r matches Err(
                        ConvertCellValueToOptionOffsetDateTimeError::OffsetDateTimeParseFailed {
                            value,
                            ..
                        },
                    ) && value@ == trimmed,
                },
            },
    {
        let string = match String::try_from(value) {
            Ok(string) => string,
            Err(source) => {
                return Err(
                    ConvertCellValueToOptionOffsetDateTimeError::ConvertCellValueToStringFailed {
                        source,
                    },
                );
            },
        };
        match parse_offset_date_time_value(string.as_str()) {
            Ok(instant) => Ok(instant),
            Err(e) => Err(
                ConvertCellValueToOptionOffsetDateTimeError::OffsetDateTimeParseFailed {
                    source: e.source,
                    value: e.value,
                },
            ),
        }
    }
}

/// The result may hold what the RFC 3339 reader objected to, of which
/// nothing is known: what `try_from` returns is stated in its own `ensures`,
/// and no more is claimed here.
impl TryFromSpecImpl<CellValue> for Option<OffsetDateTime> {
    open spec fn obeys_try_from_spec() -> bool {
        false
    }

    open spec fn try_from_spec(value: CellValue) -> Result<
        Option<OffsetDateTime>,
        ConvertCellValueToOptionOffsetDateTimeError,
    > {
        arbitrary()
    }
}

impl View for ConvertCellValueToOptionDurationError {
    type V = Option<DurationFault>;

    /// What the text failed on; `None` where the value was no text.
    open spec fn view(&self) -> Option<DurationFault> {
        match self {
            ConvertCellValueToOptionDurationError::ConvertCellValueToStringFailed { .. } => None,
            ConvertCellValueToOptionDurationError::NumberNotFound => Some(
                DurationFault::NumberNotFound,
            ),
            ConvertCellValueToOptionDurationError::NumberParseFailed { source } => Some(
                DurationFault::NumberParseFailed(*source),
            ),
            ConvertCellValueToOptionDurationError::UnitNotFound => Some(
                DurationFault::UnitNotFound,
            ),
            ConvertCellValueToOptionDurationError::UnitUnexpected { unit } => Some(
                DurationFault::UnitUnexpected(unit@),
            ),
        }
    }
}

impl TryFrom<CellValue> for Option<Duration> {
    type Error = ConvertCellValueToOptionDurationError;

    /// The span that the text of the value spells; `None` for a blank text.
    fn try_from(value: CellValue) -> (r: Result<
        Option<Duration>,
        ConvertCellValueToOptionDurationError,
    >)
        ensures
            match cell_string(value) {
                None => r == Err::<Option<Duration>, ConvertCellValueToOptionDurationError>(
                    ConvertCellValueToOptionDurationError::ConvertCellValueToStringFailed {
                        source: ConvertCellValueToStringError::InvalidCellValue {
                            cell_value: value,
                        },
                    },
                ),
                Some(text) => match parse_duration(text) {
                    Ok(span) => r == Ok::<Option<Duration>, ConvertCellValueToOptionDurationError>(
                        span,
                    ),
                    Err(fault) => r is Err && r->Err_0@ == Some(fault),
                },
            },
    {
        let string = match String::try_from(value) {
            Ok(string) => string,
            Err(source) => {
                return Err(
                    ConvertCellValueToOptionDurationError::ConvertCellValueToStringFailed { source },
                );
            },
        };
        match parse_duration_value(string.as_str()) {
            Ok(span) => Ok(span),
            Err(DurationValueParserError::NumberNotFound) => Err(
                ConvertCellValueToOptionDurationError::NumberNotFound,
            ),
            Err(DurationValueParserError::UnitNotFound) => Err(
                ConvertCellValueToOptionDurationError::UnitNotFound,
            ),
            Err(DurationValueParserError::NumberParseFailed { source }) => Err(
                ConvertCellValueToOptionDurationError::NumberParseFailed { source },
            ),
            Err(DurationValueParserError::UnitUnexpected { unit }) => Err(
                ConvertCellValueToOptionDurationError::UnitUnexpected { unit },
            ),
        }
    }
}

/// The result may hold a text that is made anew, of which only the
/// characters are known: what `try_from` returns is stated in its own
/// `ensures`, and no more is claimed here.
impl TryFromSpecImpl<CellValue> for Option<Duration> {
    open spec fn obeys_try_from_spec() -> bool {
        false
    }

    open spec fn try_from_spec(value: CellValue) -> Result<
        Option<Duration>,
        ConvertCellValueToOptionDurationError,
    > {
        arbitrary()
    }
}

/// Every boolean cell converts to itself, in either form, and every blank
/// text, the empty one first of all, to the absence of a value. A cell that
/// is neither is refused and handed back.
pub proof fn lemma_cell_option_bool_cases(value: CellValue)
    ensures
        match value.scalar() {
            Some(ScalarValue::Boolean(boolean)) => cell_option_bool(value) == Some(Some(boolean)),
            Some(ScalarValue::Text(text)) => {
                &&& text@.len() == 0 ==> is_blank(text@)
                &&& is_blank(text@) ==> cell_option_bool(value) == Some(None::<bool>)
                &&& !is_blank(text@) ==> cell_option_bool(value) is None
            },
            _ => cell_option_bool(value) is None,
        },
{
}

/// A text wrapped in exactly three backticks on each side converts to what
/// is wrapped, in the plain form as in the rich one, and converting that
/// again gives the same.
pub proof fn lemma_cell_string_strips_one_fence(wrapped: String, inner: String)
    requires
        wrapped@ == crate::parse_rich_value::fence() + inner@ + crate::parse_rich_value::fence(),
        inner@.len() == 0 || (inner@.first() != '`' && inner@.last() != '`'),
    ensures
        cell_string(CellValue::Value(Value::Single(ScalarValue::Text(wrapped)))) == Some(inner@),
        cell_string(CellValue::Value(Value::Single(ScalarValue::Text(inner)))) == Some(inner@),
        cell_string(
            CellValue::RichValue(RichValue::Single(RichSingleValue::Scalar(ScalarValue::Text(wrapped)))),
        ) == Some(inner@),
        cell_string(
            CellValue::RichValue(RichValue::Single(RichSingleValue::Scalar(ScalarValue::Text(inner)))),
        ) == Some(inner@),
{
    crate::parse_rich_value::lemma_strip_fence_idempotent(inner@);
    crate::parse_rich_value::lemma_unfenced(inner@);
}

} // verus!
