//! Rich value to text.

use crate::parse_rich_value::{normalize_owned_rich_string, normalize_rich_string, strip_fence};
use crate::value::{RichSingleValue, RichValue, ScalarValue};
use std::convert::TryFrom;
use vstd::prelude::*;
use vstd::std_specs::convert::TryFromSpecImpl;

verus! {

/// Why a borrowed rich value is no text.
#[derive(Clone, Copy, Debug, PartialEq, Eq, Structural)]
pub enum ConvertRichValueRefToStringError {
    /// The value is a list.
    RichValueCollection,
    /// The value is single, but no scalar.
    RichSingleValueNotScalar,
    /// The value is a scalar, but no text.
    ScalarNotString,
}

/// Why a rich value is no text; each case hands back what was refused.
#[derive(Debug)]
pub enum ConvertRichValueToStringError {
    /// The value is a list.
    RichValueCollection { rich_value: RichValue },
    /// The value is single, but no scalar.
    RichSingleValueNotScalar { rich_single_value: RichSingleValue },
    /// The value is a scalar, but no text.
    ScalarNotString { scalar_value: ScalarValue },
}

/// The text that `value` holds as written, fence and all, or why it holds
/// none.
pub open spec fn rich_text(value: RichValue) -> Result<String, ConvertRichValueToStringError> {
    match value {
        RichValue::Single(RichSingleValue::Scalar(ScalarValue::Text(text))) => Ok(text),
        RichValue::Single(RichSingleValue::Scalar(scalar_value)) => Err(
            ConvertRichValueToStringError::ScalarNotString { scalar_value },
        ),
        RichValue::Single(rich_single_value) => Err(
            ConvertRichValueToStringError::RichSingleValueNotScalar { rich_single_value },
        ),
        RichValue::Collection(_) => Err(
            ConvertRichValueToStringError::RichValueCollection { rich_value: value },
        ),
    }
}

impl ConvertRichValueToStringError {
    /// The same refusal, without what was refused.
    pub open spec fn kind(self) -> ConvertRichValueRefToStringError {
        match self {
            ConvertRichValueToStringError::RichValueCollection { .. } => {
                ConvertRichValueRefToStringError::RichValueCollection
            },
            ConvertRichValueToStringError::RichSingleValueNotScalar { .. } => {
                ConvertRichValueRefToStringError::RichSingleValueNotScalar
            },
            ConvertRichValueToStringError::ScalarNotString { .. } => {
                ConvertRichValueRefToStringError::ScalarNotString
            },
        }
    }
}

/// The text that `value` stands for: its text without the fence.
pub open spec fn rich_string(value: RichValue) -> Result<Seq<char>, ConvertRichValueRefToStringError> {
    match rich_text(value) {
        Ok(text) => Ok(strip_fence(text@)),
        Err(e) => Err(e.kind()),
    }
}

impl<'a> TryFrom<&'a RichValue> for String {
    type Error = ConvertRichValueRefToStringError;

    /// The text of a single scalar text, without its fence.
    fn try_from(value: &'a RichValue) -> (r: Result<String, ConvertRichValueRefToStringError>)
        ensures
            match rich_string(*value) {
                Ok(text) => r is Ok && r->Ok_0@ == text,
                Err(e) => r == Err::<String, ConvertRichValueRefToStringError>(e),
            },
    {
        match value {
            RichValue::Single(single) => match single {
                RichSingleValue::Scalar(scalar) => match scalar {
                    ScalarValue::Text(text) => Ok(normalize_rich_string(text.as_str())),
                    _ => Err(ConvertRichValueRefToStringError::ScalarNotString),
                },
                _ => Err(ConvertRichValueRefToStringError::RichSingleValueNotScalar),
            },
            _ => Err(ConvertRichValueRefToStringError::RichValueCollection),
        }
    }
}

/// The result may hold a text that is made anew, of which only the
/// characters are known: what `try_from` returns is stated in its own
/// `ensures`, and no more is claimed here.
impl<'a> TryFromSpecImpl<&'a RichValue> for String {
    open spec fn obeys_try_from_spec() -> bool {
        false
    }

    open spec fn try_from_spec(value: &'a RichValue) -> Result<
        String,
        ConvertRichValueRefToStringError,
    > {
        arbitrary()
    }
}

impl TryFrom<RichValue> for String {
    type Error = ConvertRichValueToStringError;

    /// The text of a single scalar text, without its fence; any other value
    /// comes back in the error.
    fn try_from(value: RichValue) -> (r: Result<String, ConvertRichValueToStringError>)
        ensures
            match rich_text(value) {
                Ok(text) => r is Ok && r->Ok_0@ == strip_fence(text@),
                Err(e) => r == Err::<String, ConvertRichValueToStringError>(e),
            },
    {
        match value {
            RichValue::Single(single) => match single {
                RichSingleValue::Scalar(scalar) => match scalar {
                    ScalarValue::Text(text) => Ok(normalize_owned_rich_string(text)),
                    scalar_value => Err(
                        ConvertRichValueToStringError::ScalarNotString { scalar_value },
                    ),
                },
                rich_single_value => Err(
                    ConvertRichValueToStringError::RichSingleValueNotScalar { rich_single_value },
                ),
            },
            rich_value => Err(ConvertRichValueToStringError::RichValueCollection { rich_value }),
        }
    }
}

/// The result may hold a text that is made anew, of which only the
/// characters are known: what `try_from` returns is stated in its own
/// `ensures`, and no more is claimed here.
impl TryFromSpecImpl<RichValue> for String {
    open spec fn obeys_try_from_spec() -> bool {
        false
    }

    open spec fn try_from_spec(value: RichValue) -> Result<String, ConvertRichValueToStringError> {
        arbitrary()
    }
}

/// On a text wrapped in exactly three backticks on each side, conversion
/// takes off exactly that fence, and converting the result again gives the
/// same text.
pub proof fn lemma_to_string_strips_one_fence(wrapped: String, inner: String)
    requires
        wrapped@ == crate::parse_rich_value::fence() + inner@ + crate::parse_rich_value::fence(),
        inner@.len() == 0 || (inner@.first() != '`' && inner@.last() != '`'),
    ensures
        rich_string(RichValue::Single(RichSingleValue::Scalar(ScalarValue::Text(wrapped)))) == Ok::<
            Seq<char>,
            ConvertRichValueRefToStringError,
        >(inner@),
        rich_string(RichValue::Single(RichSingleValue::Scalar(ScalarValue::Text(inner)))) == Ok::<
            Seq<char>,
            ConvertRichValueRefToStringError,
        >(inner@),
{
    crate::parse_rich_value::lemma_strip_fence_idempotent(inner@);
    crate::parse_rich_value::lemma_unfenced(inner@);
}

} // verus!
