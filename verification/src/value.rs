//! Cell values as the service hands them out: plain scalars and lists of
//! them, or rich values that carry linked data.

use vstd::prelude::*;
use vstd::std_specs::convert::FromSpecImpl;

verus! {

/// Identifier of a document; compared byte for byte.
pub type DocId = String;

/// Identifier of a table; compared byte for byte.
pub type TableId = String;

/// Identifier of a row; compared byte for byte.
pub type RowId = String;

/// A number as the service sends it: the bit pattern of an IEEE 754
/// double-precision value. Two numbers are equal when their bits are.
#[derive(Clone, Copy, Debug, PartialEq, Eq, Structural)]
pub struct Number {
    bits: u64,
}

impl Number {
    /// The bit pattern.
    pub closed spec fn bits(self) -> u64 {
        self.bits
    }

    /// The number with the given bit pattern.
    pub fn from_bits(bits: u64) -> (r: Number)
        ensures
            r.bits() == bits,
    {
        Number { bits }
    }

    /// The bit pattern of the number.
    pub fn to_bits(self) -> (r: u64)
        ensures
            r == self.bits(),
    {
        self.bits
    }
}

/// A single plain value.
#[derive(Clone, Debug, PartialEq)]
pub enum ScalarValue {
    Text(String),
    Number(Number),
    Boolean(bool),
}

/// One entry of a list of plain values.
#[derive(Clone, Debug, PartialEq)]
pub enum ValueEntry {
    Single(ScalarValue),
    Many(Vec<ScalarValue>),
}

/// A plain cell value.
#[derive(Clone, Debug, PartialEq)]
pub enum Value {
    Single(ScalarValue),
    Collection(Vec<ValueEntry>),
}

/// The linked-data type that a rich value declares.
#[derive(Clone, Copy, Debug, PartialEq, Eq, Structural)]
pub enum LinkedDataType {
    ImageObject,
    MonetaryAmount,
    Person,
    WebPage,
    StructuredValue,
}

/// What became of an image.
#[derive(Clone, Copy, Debug, PartialEq, Eq, Structural)]
pub enum ImageStatus {
    Live,
    Deleted,
    Failed,
}

/// An amount of money, as text or as a number.
#[derive(Clone, Debug, PartialEq)]
pub enum CurrencyAmount {
    Text(String),
    Number(Number),
}

/// An amount in a currency.
#[derive(Clone, Debug, PartialEq)]
pub struct RichCurrencyValue {
    pub context: String,
    pub type_: LinkedDataType,
    pub additional_type: Option<String>,
    pub currency: String,
    pub amount: CurrencyAmount,
}

/// An image.
#[derive(Clone, Debug, PartialEq)]
pub struct RichImageValue {
    pub context: String,
    pub type_: LinkedDataType,
    pub additional_type: Option<String>,
    pub name: Option<String>,
    pub url: Option<String>,
    pub width: Option<Number>,
    pub height: Option<Number>,
    pub status: Option<ImageStatus>,
}

/// A person.
#[derive(Clone, Debug, PartialEq)]
pub struct RichPersonValue {
    pub context: String,
    pub type_: LinkedDataType,
    pub additional_type: Option<String>,
    pub name: String,
    pub email: Option<String>,
}

/// A link.
#[derive(Clone, Debug, PartialEq)]
pub struct RichUrlValue {
    pub context: String,
    pub type_: LinkedDataType,
    pub additional_type: Option<String>,
    pub name: Option<String>,
    pub url: String,
}

/// A reference to a row of some table. It names the row; it does not hold it.
#[derive(Clone, Debug, PartialEq)]
pub struct RichRowReference {
    pub context: String,
    pub type_: LinkedDataType,
    pub additional_type: String,
    pub name: String,
    pub url: String,
    pub table_id: String,
    pub row_id: String,
    pub table_url: String,
}

/// A single rich value.
#[derive(Clone, Debug, PartialEq)]
pub enum RichSingleValue {
    Scalar(ScalarValue),
    Currency(RichCurrencyValue),
    Image(RichImageValue),
    Person(RichPersonValue),
    Url(RichUrlValue),
    Row(RichRowReference),
}

/// One entry of a list of rich values.
#[derive(Clone, Debug, PartialEq)]
pub enum RichValueEntry {
    Single(RichSingleValue),
    Many(Vec<RichSingleValue>),
}

/// A rich cell value.
#[derive(Clone, Debug, PartialEq)]
pub enum RichValue {
    Single(RichSingleValue),
    Collection(Vec<RichValueEntry>),
}

/// A cell value in either form.
#[derive(Clone, Debug, PartialEq)]
pub enum CellValue {
    Value(Value),
    RichValue(RichValue),
}

/// The form in which cell values are asked for.
#[derive(Clone, Copy, Debug, PartialEq, Eq, Structural)]
pub enum ValueFormat {
    Simple,
    SimpleWithArrays,
    Rich,
}

/// A row type that knows in which form its cell values come.
pub trait ValueFormatProvider {
    /// The form to ask for.
    fn value_format() -> ValueFormat;
}

impl RichValue {
    /// The scalar that this value is, if it is a single scalar.
    pub open spec fn scalar(self) -> Option<ScalarValue> {
        match self {
            RichValue::Single(RichSingleValue::Scalar(scalar)) => Some(scalar),
            _ => None,
        }
    }
}

impl CellValue {
    /// The scalar that this value is, if it is one, in either form.
    pub open spec fn scalar(self) -> Option<ScalarValue> {
        match self {
            CellValue::Value(Value::Single(scalar)) => Some(scalar),
            CellValue::RichValue(rich) => rich.scalar(),
            _ => None,
        }
    }
}

impl From<String> for ScalarValue {
    fn from(value: String) -> (r: ScalarValue) {
        ScalarValue::Text(value)
    }
}

impl FromSpecImpl<String> for ScalarValue {
    open spec fn obeys_from_spec() -> bool {
        true
    }

    open spec fn from_spec(value: String) -> ScalarValue {
        ScalarValue::Text(value)
    }
}

impl From<String> for Value {
    fn from(value: String) -> (r: Value) {
        Value::Single(ScalarValue::Text(value))
    }
}

impl FromSpecImpl<String> for Value {
    open spec fn obeys_from_spec() -> bool {
        true
    }

    open spec fn from_spec(value: String) -> Value {
        Value::Single(ScalarValue::Text(value))
    }
}

impl From<Number> for Value {
    fn from(value: Number) -> (r: Value) {
        Value::Single(ScalarValue::Number(value))
    }
}

impl FromSpecImpl<Number> for Value {
    open spec fn obeys_from_spec() -> bool {
        true
    }

    open spec fn from_spec(value: Number) -> Value {
        Value::Single(ScalarValue::Number(value))
    }
}

impl From<bool> for Value {
    fn from(value: bool) -> (r: Value) {
        Value::Single(ScalarValue::Boolean(value))
    }
}

impl FromSpecImpl<bool> for Value {
    open spec fn obeys_from_spec() -> bool {
        true
    }

    open spec fn from_spec(value: bool) -> Value {
        Value::Single(ScalarValue::Boolean(value))
    }
}

} // verus!
