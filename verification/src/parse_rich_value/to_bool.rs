//! Rich value to boolean, strictly: nothing but a boolean will do.

use crate::value::{RichSingleValue, RichValue, ScalarValue};
use std::convert::TryFrom;
use vstd::prelude::*;
use vstd::std_specs::convert::TryFromSpecImpl;

verus! {

/// Why a borrowed rich value is no boolean.
#[derive(Clone, Copy, Debug, PartialEq, Eq, Structural)]
pub enum ConvertRichValueRefToBoolError {
    /// The value is not a single scalar boolean.
    InvalidInput,
}

/// Why a rich value is no boolean; it hands back what was refused.
#[derive(Debug)]
pub enum ConvertRichValueToBoolError {
    /// The value is not a single scalar boolean.
    InvalidInput { rich_value: RichValue },
}

/// The boolean that `value` is, if it is a single scalar boolean.
pub open spec fn rich_bool(value: RichValue) -> Option<bool> {
    match value {
        RichValue::Single(RichSingleValue::Scalar(ScalarValue::Boolean(boolean))) => Some(boolean),
        _ => None,
    }
}

impl<'a> TryFrom<&'a RichValue> for bool {
    type Error = ConvertRichValueRefToBoolError;

    /// The boolean of a single scalar boolean. An empty text is refused like
    /// anything else.
    fn try_from(value: &'a RichValue) -> (r: Result<bool, ConvertRichValueRefToBoolError>) {
        match value {
            RichValue::Single(RichSingleValue::Scalar(ScalarValue::Boolean(boolean))) => Ok(
                *boolean,
            ),
            _ => Err(ConvertRichValueRefToBoolError::InvalidInput),
        }
    }
}

impl<'a> TryFromSpecImpl<&'a RichValue> for bool {
    open spec fn obeys_try_from_spec() -> bool {
        true
    }

    open spec fn try_from_spec(value: &'a RichValue) -> Result<
        bool,
        ConvertRichValueRefToBoolError,
    > {
        match rich_bool(*value) {
            Some(boolean) => Ok(boolean),
            None => Err(ConvertRichValueRefToBoolError::InvalidInput),
        }
    }
}

impl TryFrom<RichValue> for bool {
    type Error = ConvertRichValueToBoolError;

    /// The boolean of a single scalar boolean; any other value comes back in
    /// the error.
    fn try_from(value: RichValue) -> (r: Result<bool, ConvertRichValueToBoolError>) {
        match value {
            RichValue::Single(RichSingleValue::Scalar(ScalarValue::Boolean(boolean))) => Ok(
                boolean,
            ),
            rich_value => Err(ConvertRichValueToBoolError::InvalidInput { rich_value }),
        }
    }
}

impl TryFromSpecImpl<RichValue> for bool {
    open spec fn obeys_try_from_spec() -> bool {
        true
    }

    open spec fn try_from_spec(value: RichValue) -> Result<bool, ConvertRichValueToBoolError> {
        match rich_bool(value) {
            Some(boolean) => Ok(boolean),
            None => Err(ConvertRichValueToBoolError::InvalidInput { rich_value: value }),
        }
    }
}

} // verus!
