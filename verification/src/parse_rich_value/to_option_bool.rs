//! Rich value to optional boolean.
//!
//! A checkbox that was cleared comes as an empty text: that is no error, but
//! the absence of a value.

use crate::text::{is_blank, str_is_blank};
use crate::value::{RichSingleValue, RichValue, ScalarValue};
use std::convert::TryFrom;
use vstd::prelude::*;
use vstd::std_specs::convert::TryFromSpecImpl;

verus! {

/// Why a borrowed rich value is no optional boolean.
#[derive(Clone, Copy, Debug, PartialEq, Eq, Structural)]
pub enum ConvertRichValueRefToOptionBoolError {
    /// The value is a list.
    RichValueCollection,
    /// The value is single, but no scalar.
    RichSingleValueNotScalar,
    /// The value is a scalar, but neither boolean nor text.
    ScalarNotBoolean,
    /// The value is a text that is not blank.
    StringScalarNotEmpty,
}

/// Why a rich value is no optional boolean; each case hands back what was
/// refused.
#[derive(Debug)]
pub enum ConvertRichValueToOptionBoolError {
    /// The value is a list.
    RichValueCollection { rich_value: RichValue },
    /// The value is single, but no scalar.
    RichSingleValueNotScalar { rich_single_value: RichSingleValue },
    /// The value is a scalar, but neither boolean nor text.
    ScalarNotBoolean { scalar_value: ScalarValue },
    /// The value is a text that is not blank.
    StringScalarNotEmpty { text: String },
}

impl ConvertRichValueToOptionBoolError {
    /// The same refusal, without what was refused.
    pub open spec fn kind(self) -> ConvertRichValueRefToOptionBoolError {
        match self {
            ConvertRichValueToOptionBoolError::RichValueCollection { .. } => {
                ConvertRichValueRefToOptionBoolError::RichValueCollection
            },
            ConvertRichValueToOptionBoolError::RichSingleValueNotScalar { .. } => {
                ConvertRichValueRefToOptionBoolError::RichSingleValueNotScalar
            },
            ConvertRichValueToOptionBoolError::ScalarNotBoolean { .. } => {
                ConvertRichValueRefToOptionBoolError::ScalarNotBoolean
            },
            ConvertRichValueToOptionBoolError::StringScalarNotEmpty { .. } => {
                ConvertRichValueRefToOptionBoolError::StringScalarNotEmpty
            },
        }
    }
}

/// The optional boolean that `value` stands for: a boolean is itself, a
/// blank text is the absence of one, anything else is refused.
pub open spec fn rich_option_bool(value: RichValue) -> Result<
    Option<bool>,
    ConvertRichValueToOptionBoolError,
> {
    match value {
        RichValue::Single(RichSingleValue::Scalar(ScalarValue::Boolean(boolean))) => Ok(
            Some(boolean),
        ),
        RichValue::Single(RichSingleValue::Scalar(ScalarValue::Text(text))) => if is_blank(text@) {
            Ok(None)
        } else {
            Err(ConvertRichValueToOptionBoolError::StringScalarNotEmpty { text })
        },
        RichValue::Single(RichSingleValue::Scalar(scalar_value)) => Err(
            ConvertRichValueToOptionBoolError::ScalarNotBoolean { scalar_value },
        ),
        RichValue::Single(rich_single_value) => Err(
            ConvertRichValueToOptionBoolError::RichSingleValueNotScalar { rich_single_value },
        ),
        RichValue::Collection(_) => Err(
            ConvertRichValueToOptionBoolError::RichValueCollection { rich_value: value },
        ),
    }
}

impl<'a> TryFrom<&'a RichValue> for Option<bool> {
    type Error = ConvertRichValueRefToOptionBoolError;

    /// A boolean as `Some`, a blank text as `None`.
    fn try_from(value: &'a RichValue) -> (r: Result<
        Option<bool>,
        ConvertRichValueRefToOptionBoolError,
    >) {
        match value {
            RichValue::Single(single) => match single {
                RichSingleValue::Scalar(scalar) => match scalar {
                    ScalarValue::Boolean(boolean) => Ok(Some(*boolean)),
                    ScalarValue::Text(text) => if str_is_blank(text.as_str()) {
                        Ok(None)
                    } else {
                        Err(ConvertRichValueRefToOptionBoolError::StringScalarNotEmpty)
                    },
                    _ => Err(ConvertRichValueRefToOptionBoolError::ScalarNotBoolean),
                },
                _ => Err(ConvertRichValueRefToOptionBoolError::RichSingleValueNotScalar),
            },
            _ => Err(ConvertRichValueRefToOptionBoolError::RichValueCollection),
        }
    }
}

impl<'a> TryFromSpecImpl<&'a RichValue> for Option<bool> {
    open spec fn obeys_try_from_spec() -> bool {
        true
    }

    open spec fn try_from_spec(value: &'a RichValue) -> Result<
        Option<bool>,
        ConvertRichValueRefToOptionBoolError,
    > {
        match rich_option_bool(*value) {
            Ok(boolean) => Ok(boolean),
            Err(e) => Err(e.kind()),
        }
    }
}

impl TryFrom<RichValue> for Option<bool> {
    type Error = ConvertRichValueToOptionBoolError;

    /// A boolean as `Some`, a blank text as `None`; any other value comes
    /// back in the error.
    fn try_from(value: RichValue) -> (r: Result<Option<bool>, ConvertRichValueToOptionBoolError>) {
        match value {
            RichValue::Single(single) => match single {
                RichSingleValue::Scalar(scalar) => match scalar {
                    ScalarValue::Boolean(boolean) => Ok(Some(boolean)),
                    ScalarValue::Text(text) => {
                        if str_is_blank(text.as_str()) {
                            Ok(None)
                        } else {
                            Err(ConvertRichValueToOptionBoolError::StringScalarNotEmpty { text })
                        }
                    },
                    scalar_value => Err(
                        ConvertRichValueToOptionBoolError::ScalarNotBoolean { scalar_value },
                    ),
                },
                rich_single_value => Err(
                    ConvertRichValueToOptionBoolError::RichSingleValueNotScalar {
                        rich_single_value,
                    },
                ),
            },
            rich_value => Err(
                ConvertRichValueToOptionBoolError::RichValueCollection { rich_value },
            ),
        }
    }
}

impl TryFromSpecImpl<RichValue> for Option<bool> {
    open spec fn obeys_try_from_spec() -> bool {
        true
    }

    open spec fn try_from_spec(value: RichValue) -> Result<
        Option<bool>,
        ConvertRichValueToOptionBoolError,
    > {
        rich_option_bool(value)
    }
}

/// Every boolean converts to itself and every blank text, the empty one
/// first of all, to the absence of a value. What is neither is refused, and
/// the refusal tells a text that is not blank from a scalar of another kind,
/// from a single value that is no scalar, and from a list.
pub proof fn lemma_option_bool_cases(value: RichValue)
    ensures
        match value {
            RichValue::Single(RichSingleValue::Scalar(ScalarValue::Boolean(boolean))) => {
                rich_option_bool(value) == Ok::<Option<bool>, ConvertRichValueToOptionBoolError>(
                    Some(boolean),
                )
            },
            RichValue::Single(RichSingleValue::Scalar(ScalarValue::Text(text))) => {
                &&& text@.len() == 0 ==> is_blank(text@)
                &&& is_blank(text@) ==> rich_option_bool(value) == Ok::<
                    Option<bool>,
                    ConvertRichValueToOptionBoolError,
                >(None)
                &&& !is_blank(text@) ==> rich_option_bool(value) == Err::<
                    Option<bool>,
                    ConvertRichValueToOptionBoolError,
                >(ConvertRichValueToOptionBoolError::StringScalarNotEmpty { text })
            },
            RichValue::Single(RichSingleValue::Scalar(scalar_value)) => {
                rich_option_bool(value) == Err::<Option<bool>, ConvertRichValueToOptionBoolError>(
                    ConvertRichValueToOptionBoolError::ScalarNotBoolean { scalar_value },
                )
            },
            RichValue::Single(rich_single_value) => {
                rich_option_bool(value) == Err::<Option<bool>, ConvertRichValueToOptionBoolError>(
                    ConvertRichValueToOptionBoolError::RichSingleValueNotScalar {
                        rich_single_value,
                    },
                )
            },
            RichValue::Collection(_) => {
                rich_option_bool(value) == Err::<Option<bool>, ConvertRichValueToOptionBoolError>(
                    ConvertRichValueToOptionBoolError::RichValueCollection { rich_value: value },
                )
            },
        },
        rich_option_bool(value) matches Err(e) ==> e.kind() == match value {
            RichValue::Single(RichSingleValue::Scalar(ScalarValue::Text(_))) => {
                ConvertRichValueRefToOptionBoolError::StringScalarNotEmpty
            },
            RichValue::Single(RichSingleValue::Scalar(_)) => {
                ConvertRichValueRefToOptionBoolError::ScalarNotBoolean
            },
            RichValue::Single(_) => ConvertRichValueRefToOptionBoolError::RichSingleValueNotScalar,
            RichValue::Collection(_) => ConvertRichValueRefToOptionBoolError::RichValueCollection,
        },
{
}

} // verus!
