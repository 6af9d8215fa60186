//! Rich value to row reference.

use crate::value::{RichRowReference, RichSingleValue, RichValue};
use std::convert::TryFrom;
use vstd::prelude::*;
use vstd::std_specs::convert::TryFromSpecImpl;

verus! {

/// Why a borrowed rich value is no row reference.
#[derive(Clone, Copy, Debug, PartialEq, Eq, Structural)]
pub enum ConvertRichValueRefToRichRowReferenceError {
    /// The value is not a single row reference.
    RichValueIsNotRichRowReference,
}

/// Why a rich value is no row reference; it hands back what was refused.
#[derive(Debug)]
pub enum ConvertRichValueToRichRowReferenceError {
    /// The value is not a single row reference.
    RichValueIsNotRichRowReference { rich_value: RichValue },
}

/// The row reference that `value` is, if it is a single one.
pub open spec fn rich_row_reference(value: RichValue) -> Option<RichRowReference> {
    match value {
        RichValue::Single(RichSingleValue::Row(reference)) => Some(reference),
        _ => None,
    }
}

/// A copy of `reference`, field by field.
fn copy_reference(reference: &RichRowReference) -> (r: RichRowReference)
    ensures
        r == *reference,
{
    RichRowReference {
        context: reference.context.clone(),
        type_: reference.type_,
        additional_type: reference.additional_type.clone(),
        name: reference.name.clone(),
        url: reference.url.clone(),
        table_id: reference.table_id.clone(),
        row_id: reference.row_id.clone(),
        table_url: reference.table_url.clone(),
    }
}

impl<'a> TryFrom<&'a RichValue> for RichRowReference {
    type Error = ConvertRichValueRefToRichRowReferenceError;

    /// A copy of the row reference that the value is.
    fn try_from(value: &'a RichValue) -> (r: Result<
        RichRowReference,
        ConvertRichValueRefToRichRowReferenceError,
    >) {
        match value {
            RichValue::Single(RichSingleValue::Row(reference)) => Ok(copy_reference(reference)),
            _ => Err(ConvertRichValueRefToRichRowReferenceError::RichValueIsNotRichRowReference),
        }
    }
}

impl<'a> TryFromSpecImpl<&'a RichValue> for RichRowReference {
    open spec fn obeys_try_from_spec() -> bool {
        true
    }

    open spec fn try_from_spec(value: &'a RichValue) -> Result<
        RichRowReference,
        ConvertRichValueRefToRichRowReferenceError,
    > {
        match rich_row_reference(*value) {
            Some(reference) => Ok(reference),
            None => Err(ConvertRichValueRefToRichRowReferenceError::RichValueIsNotRichRowReference),
        }
    }
}

impl TryFrom<RichValue> for RichRowReference {
    type Error = ConvertRichValueToRichRowReferenceError;

    /// The row reference that the value is; any other value comes back in
    /// the error.
    fn try_from(value: RichValue) -> (r: Result<
        RichRowReference,
        ConvertRichValueToRichRowReferenceError,
    >) {
        match value {
            RichValue::Single(RichSingleValue::Row(reference)) => Ok(reference),
            rich_value => Err(
                ConvertRichValueToRichRowReferenceError::RichValueIsNotRichRowReference {
                    rich_value,
                },
            ),
        }
    }
}

impl TryFromSpecImpl<RichValue> for RichRowReference {
    open spec fn obeys_try_from_spec() -> bool {
        true
    }

    open spec fn try_from_spec(value: RichValue) -> Result<
        RichRowReference,
        ConvertRichValueToRichRowReferenceError,
    > {
        match rich_row_reference(value) {
            Some(reference) => Ok(reference),
            None => Err(
                ConvertRichValueToRichRowReferenceError::RichValueIsNotRichRowReference {
                    rich_value: value,
                },
            ),
        }
    }
}

} // verus!
