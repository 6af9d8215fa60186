use coda_api::{
    CellValue, ConvertCellValueToBoolError, ConvertCellValueToF64Error,
    ConvertCellValueToOptionDurationError, ConvertCellValueToOptionOffsetDateTimeError,
    ConvertCellValueToStringError, Duration, IntErrorKind, LinkedDataType, Number,
    OffsetDateTime, RichSingleValue, RichUrlValue, RichValue, RichValueEntry, ScalarValue, Value,
    ValueEntry,
};

fn plain(scalar: ScalarValue) -> CellValue {
    CellValue::Value(Value::Single(scalar))
}

fn rich(scalar: ScalarValue) -> CellValue {
    CellValue::RichValue(RichValue::Single(RichSingleValue::Scalar(scalar)))
}

fn text(text: &str) -> ScalarValue {
    ScalarValue::Text(text.to_string())
}

fn number(number: f64) -> ScalarValue {
    ScalarValue::Number(Number::from_bits(number.to_bits()))
}

fn plain_list() -> CellValue {
    CellValue::Value(Value::Collection(vec![
        ValueEntry::Single(text("a")),
        ValueEntry::Many(vec![ScalarValue::Boolean(true), number(2.0)]),
    ]))
}

fn rich_list() -> CellValue {
    CellValue::RichValue(RichValue::Collection(vec![RichValueEntry::Single(
        RichSingleValue::Scalar(text("a")),
    )]))
}

fn rich_link() -> CellValue {
    CellValue::RichValue(RichValue::Single(RichSingleValue::Url(RichUrlValue {
        context: "http://schema.org/".to_string(),
        type_: LinkedDataType::WebPage,
        additional_type: None,
        name: Some("example".to_string()),
        url: "https://example.com".to_string(),
    })))
}

fn shapes_that_are_no_scalar() -> Vec<CellValue> {
    vec![plain_list(), rich_list(), rich_link()]
}

#[test]
fn cell_to_string() {
    assert_eq!(String::try_from(plain(text("hello"))).unwrap(), "hello");
    assert_eq!(String::try_from(rich(text("hello"))).unwrap(), "hello");
    assert_eq!(String::try_from(plain(text(""))).unwrap(), "");
}

#[test]
fn a_text_loses_its_fence_in_either_form() {
    assert_eq!(String::try_from(rich(text("```hello```"))).unwrap(), "hello");
    assert_eq!(String::try_from(plain(text("```hello```"))).unwrap(), "hello");
    assert_eq!(String::try_from(plain(text("```x```"))).unwrap(), "x");
    assert_eq!(String::try_from(plain(text("``````x``````"))).unwrap(), "```x```");
    assert_eq!(String::try_from(plain(text("```x``"))).unwrap(), "```x``");
}

#[test]
fn a_fenced_plain_text_is_read_without_its_fence() {
    let span = Some(Duration { seconds: 600, nanoseconds: 0 });
    assert_eq!(Option::<Duration>::try_from(plain(text("```10 minutes```"))).unwrap(), span);
    let instant = Some(OffsetDateTime { unix_timestamp_nanos: 0, offset_seconds: 0 });
    assert_eq!(
        Option::<OffsetDateTime>::try_from(plain(text("```1970-01-01T00:00:00Z```"))).unwrap(),
        instant
    );
}

#[test]
fn what_is_no_text_is_handed_back() {
    let mut others = shapes_that_are_no_scalar();
    others.push(plain(number(1.0)));
    others.push(rich(ScalarValue::Boolean(false)));
    for value in others {
        match String::try_from(value.clone()) {
            Err(ConvertCellValueToStringError::InvalidCellValue { cell_value }) => {
                assert_eq!(cell_value, value)
            }
            other => panic!("unexpected: {:?}", other),
        }
    }
}

#[test]
fn cell_to_number() {
    let n = Number::try_from(plain(number(2.5))).unwrap();
    assert_eq!(f64::from_bits(n.to_bits()), 2.5);
    let n = Number::try_from(rich(number(-0.0))).unwrap();
    assert_eq!(n.to_bits(), (-0.0f64).to_bits());
    let n = Number::try_from(plain(number(f64::NAN))).unwrap();
    assert!(f64::from_bits(n.to_bits()).is_nan());
}

#[test]
fn what_is_no_number_is_handed_back() {
    let mut others = shapes_that_are_no_scalar();
    others.push(plain(text("2.5")));
    others.push(rich(ScalarValue::Boolean(true)));
    for value in others {
        match Number::try_from(value.clone()) {
            Err(ConvertCellValueToF64Error::InvalidCellValue { cell_value }) => {
                assert_eq!(cell_value, value)
            }
            other => panic!("unexpected: {:?}", other),
        }
    }
}

#[test]
fn cell_to_strict_boolean() {
    assert!(matches!(bool::try_from(plain(ScalarValue::Boolean(true))), Ok(true)));
    assert!(matches!(bool::try_from(rich(ScalarValue::Boolean(false))), Ok(false)));
    let mut others = shapes_that_are_no_scalar();
    others.push(plain(text("")));
    others.push(rich(text("")));
    others.push(plain(text("true")));
    others.push(plain(number(1.0)));
    for value in others {
        match bool::try_from(value.clone()) {
            Err(ConvertCellValueToBoolError::InvalidCellValue { cell_value }) => {
                assert_eq!(cell_value, value)
            }
            other => panic!("unexpected: {:?}", other),
        }
    }
}

#[test]
fn cell_to_optional_boolean() {
    assert!(matches!(
        Option::<bool>::try_from(plain(ScalarValue::Boolean(true))),
        Ok(Some(true))
    ));
    assert!(matches!(
        Option::<bool>::try_from(rich(ScalarValue::Boolean(false))),
        Ok(Some(false))
    ));
    assert!(matches!(Option::<bool>::try_from(plain(text(""))), Ok(None)));
    assert!(matches!(Option::<bool>::try_from(plain(text("  "))), Ok(None)));
    assert!(matches!(Option::<bool>::try_from(rich(text(""))), Ok(None)));
}

#[test]
fn what_is_no_optional_boolean_is_handed_back() {
    let mut others = shapes_that_are_no_scalar();
    others.push(plain(text("yes")));
    others.push(rich(text("false")));
    others.push(plain(number(0.0)));
    for value in others {
        match Option::<bool>::try_from(value.clone()) {
            Err(ConvertCellValueToBoolError::InvalidCellValue { cell_value }) => {
                assert_eq!(cell_value, value)
            }
            other => panic!("unexpected: {:?}", other),
        }
    }
}

#[test]
fn cell_to_optional_duration() {
    let span = Some(Duration { seconds: 172_800, nanoseconds: 0 });
    assert_eq!(Option::<Duration>::try_from(plain(text("2 days"))).unwrap(), span);
    assert_eq!(Option::<Duration>::try_from(rich(text("```2 DAYS```"))).unwrap(), span);
    assert_eq!(Option::<Duration>::try_from(plain(text(""))).unwrap(), None);
    assert_eq!(Option::<Duration>::try_from(rich(text(" "))).unwrap(), None);
}

#[test]
fn cell_to_optional_duration_refusals() {
    match Option::<Duration>::try_from(plain_list()) {
        Err(ConvertCellValueToOptionDurationError::ConvertCellValueToStringFailed {
            source: ConvertCellValueToStringError::InvalidCellValue { cell_value },
        }) => assert_eq!(cell_value, plain_list()),
        other => panic!("unexpected: {:?}", other),
    }
    assert!(matches!(
        Option::<Duration>::try_from(plain(text("2"))),
        Err(ConvertCellValueToOptionDurationError::UnitNotFound)
    ));
    assert!(matches!(
        Option::<Duration>::try_from(plain(text("two days"))),
        Err(ConvertCellValueToOptionDurationError::NumberParseFailed {
            source: IntErrorKind::InvalidDigit
        })
    ));
    assert!(matches!(
        Option::<Duration>::try_from(plain(text("9223372036854775807 hours"))),
        Err(ConvertCellValueToOptionDurationError::NumberParseFailed {
            source: IntErrorKind::PosOverflow
        })
    ));
    match Option::<Duration>::try_from(plain(text("2 days ago"))) {
        Err(ConvertCellValueToOptionDurationError::UnitUnexpected { unit }) => {
            assert_eq!(unit, "days ago")
        }
        other => panic!("unexpected: {:?}", other),
    }
    match Option::<Duration>::try_from(plain(text("2 Weeks"))) {
        Err(ConvertCellValueToOptionDurationError::UnitUnexpected { unit }) => {
            assert_eq!(unit, "Weeks")
        }
        other => panic!("unexpected: {:?}", other),
    }
}

#[test]
fn cell_to_optional_timestamp() {
    let instant = Some(OffsetDateTime {
        unix_timestamp_nanos: 1_523_434_737i128 * 1_000_000_000,
        offset_seconds: -28_800,
    });
    let text_value = "2018-04-11T00:18:57-08:00";
    assert_eq!(Option::<OffsetDateTime>::try_from(plain(text(text_value))).unwrap(), instant);
    assert_eq!(Option::<OffsetDateTime>::try_from(rich(text(text_value))).unwrap(), instant);
    assert_eq!(Option::<OffsetDateTime>::try_from(plain(text(""))).unwrap(), None);
    assert_eq!(Option::<OffsetDateTime>::try_from(plain(text(" "))).unwrap(), None);
}

#[test]
fn cell_to_optional_timestamp_refusals() {
    match Option::<OffsetDateTime>::try_from(rich_link()) {
        Err(ConvertCellValueToOptionOffsetDateTimeError::ConvertCellValueToStringFailed {
            source: ConvertCellValueToStringError::InvalidCellValue { cell_value },
        }) => assert_eq!(cell_value, rich_link()),
        other => panic!("unexpected: {:?}", other),
    }
    match Option::<OffsetDateTime>::try_from(plain(text("11 April 2018 "))) {
        Err(ConvertCellValueToOptionOffsetDateTimeError::OffsetDateTimeParseFailed {
            value,
            ..
        }) => assert_eq!(value, "11 April 2018"),
        other => panic!("unexpected: {:?}", other),
    }
}

#[test]
fn plain_values_from_natives() {
    assert_eq!(Value::from("a".to_string()), Value::Single(text("a")));
    assert_eq!(Value::from(true), Value::Single(ScalarValue::Boolean(true)));
    assert_eq!(
        Value::from(Number::from_bits(1.25f64.to_bits())),
        Value::Single(number(1.25))
    );
    assert_eq!(ScalarValue::from("a".to_string()), text("a"));
    let value: Value = "b".to_string().into();
    assert_eq!(value, Value::Single(text("b")));
}
