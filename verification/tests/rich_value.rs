use coda_api::{
    normalize_owned_rich_string, normalize_rich_string, ConvertRichValueRefToBoolError,
    ConvertRichValueRefToOptionBoolError, ConvertRichValueRefToOptionDurationError,
    ConvertRichValueRefToOptionOffsetDateTimeError, ConvertRichValueRefToRichRowReferenceError,
    ConvertRichValueRefToStringError, ConvertRichValueToBoolError,
    ConvertRichValueToOptionBoolError, ConvertRichValueToOptionDurationError,
    ConvertRichValueToOptionOffsetDateTimeError, ConvertRichValueToRichRowReferenceError,
    ConvertRichValueToStringError, CurrencyAmount, Duration, DurationValueParserError,
    IntErrorKind, LinkedDataType, Number, OffsetDateTime, RichCurrencyValue, RichImageValue,
    RichPersonValue, RichRowReference, RichSingleValue, RichUrlValue, RichValue, RichValueEntry,
    ScalarValue,
};

fn rich_text(text: &str) -> RichValue {
    RichValue::Single(RichSingleValue::Scalar(ScalarValue::Text(text.to_string())))
}

fn rich_number(number: f64) -> RichValue {
    RichValue::Single(RichSingleValue::Scalar(ScalarValue::Number(Number::from_bits(
        number.to_bits(),
    ))))
}

fn rich_boolean(boolean: bool) -> RichValue {
    RichValue::Single(RichSingleValue::Scalar(ScalarValue::Boolean(boolean)))
}

fn reference() -> RichRowReference {
    RichRowReference {
        context: "http://schema.org/".to_string(),
        type_: LinkedDataType::StructuredValue,
        additional_type: "row".to_string(),
        name: "Apple".to_string(),
        url: "https://coda.io/d/_dAbCDeFGH#Teams-and-Tasks_tpqRst-U/_rui-tuVwxYz".to_string(),
        table_id: "grid-pqRst-U".to_string(),
        row_id: "i-tuVwxYz".to_string(),
        table_url: "https://coda.io/d/_dAbCDeFGH#Teams-and-Tasks_tpqRst-U".to_string(),
    }
}

fn rich_row() -> RichValue {
    RichValue::Single(RichSingleValue::Row(reference()))
}

fn rich_person() -> RichValue {
    RichValue::Single(RichSingleValue::Person(RichPersonValue {
        context: "http://schema.org/".to_string(),
        type_: LinkedDataType::Person,
        additional_type: None,
        name: "Alice Atkins".to_string(),
        email: Some("alice@atkins.example".to_string()),
    }))
}

fn rich_url() -> RichValue {
    RichValue::Single(RichSingleValue::Url(RichUrlValue {
        context: "http://schema.org/".to_string(),
        type_: LinkedDataType::WebPage,
        additional_type: None,
        name: None,
        url: "https://example.com".to_string(),
    }))
}

fn rich_currency() -> RichValue {
    RichValue::Single(RichSingleValue::Currency(RichCurrencyValue {
        context: "http://schema.org/".to_string(),
        type_: LinkedDataType::MonetaryAmount,
        additional_type: None,
        currency: "USD".to_string(),
        amount: CurrencyAmount::Number(Number::from_bits(42.5f64.to_bits())),
    }))
}

fn rich_image() -> RichValue {
    RichValue::Single(RichSingleValue::Image(RichImageValue {
        context: "http://schema.org/".to_string(),
        type_: LinkedDataType::ImageObject,
        additional_type: None,
        name: Some("Dogs Playing Poker".to_string()),
        url: Some("https://example.com/dogs-playing-poker.jpg".to_string()),
        width: Some(Number::from_bits(480f64.to_bits())),
        height: Some(Number::from_bits(600f64.to_bits())),
        status: None,
    }))
}

fn rich_collection() -> RichValue {
    RichValue::Collection(vec![
        RichValueEntry::Single(RichSingleValue::Scalar(ScalarValue::Text("a".to_string()))),
        RichValueEntry::Many(vec![RichSingleValue::Scalar(ScalarValue::Boolean(true))]),
    ])
}

fn non_scalars() -> Vec<RichValue> {
    vec![rich_row(), rich_person(), rich_url(), rich_currency(), rich_image()]
}

#[test]
fn a_fence_is_taken_off() {
    assert_eq!(normalize_rich_string("```hello```"), "hello");
    assert_eq!(normalize_owned_rich_string("```hello```".to_string()), "hello");
    assert_eq!(normalize_rich_string("``````"), "");
    assert_eq!(normalize_owned_rich_string("``````".to_string()), "");
    assert_eq!(normalize_rich_string("```a\n`b`\nc```"), "a\n`b`\nc");
    assert_eq!(normalize_rich_string("```\u{e9}t\u{e9}```"), "\u{e9}t\u{e9}");
}

#[test]
fn only_one_fence_is_taken_off() {
    assert_eq!(normalize_rich_string("``````x``````"), "```x```");
    assert_eq!(normalize_owned_rich_string("````x````".to_string()), "`x`");
}

#[test]
fn a_text_without_a_whole_fence_is_left_alone() {
    let samples = [
        "",
        "hello",
        "`",
        "```",
        "````",
        "`````",
        "```hello",
        "hello```",
        "``hello```",
        "```hello``",
        " ```hello```",
        "```hello``` ",
        "a ```b``` c",
        "'''hello'''",
    ];
    for sample in samples {
        assert_eq!(normalize_rich_string(sample), sample, "{:?}", sample);
        assert_eq!(normalize_owned_rich_string(sample.to_string()), sample, "{:?}", sample);
    }
}

#[test]
fn taking_the_fence_off_again_changes_nothing() {
    let inners = ["", "hello", "a`b", "x ``` y", " `` "];
    for inner in inners {
        let wrapped = format!("```{}```", inner);
        let once = normalize_rich_string(&wrapped);
        assert_eq!(once, inner);
        assert_eq!(normalize_rich_string(&once), once);
        assert_eq!(String::try_from(&rich_text(&wrapped)).unwrap(), inner);
        assert_eq!(String::try_from(rich_text(&once)).unwrap(), inner);
    }
}

#[test]
fn rich_text_to_string() {
    assert_eq!(String::try_from(&rich_text("plain")).unwrap(), "plain");
    assert_eq!(String::try_from(rich_text("plain")).unwrap(), "plain");
    assert_eq!(String::try_from(&rich_text("```fenced```")).unwrap(), "fenced");
    assert_eq!(String::try_from(rich_text("```fenced```")).unwrap(), "fenced");
    assert_eq!(String::try_from(rich_text("")).unwrap(), "");
}

#[test]
fn what_is_no_text_is_refused_as_string() {
    assert_eq!(
        String::try_from(&rich_number(1.5)),
        Err(ConvertRichValueRefToStringError::ScalarNotString)
    );
    assert_eq!(
        String::try_from(&rich_boolean(true)),
        Err(ConvertRichValueRefToStringError::ScalarNotString)
    );
    for value in non_scalars() {
        assert_eq!(
            String::try_from(&value),
            Err(ConvertRichValueRefToStringError::RichSingleValueNotScalar)
        );
    }
    assert_eq!(
        String::try_from(&rich_collection()),
        Err(ConvertRichValueRefToStringError::RichValueCollection)
    );
}

#[test]
fn what_is_no_text_comes_back_in_the_error() {
    match String::try_from(rich_number(1.5)) {
        Err(ConvertRichValueToStringError::ScalarNotString { scalar_value }) => {
            assert_eq!(scalar_value, ScalarValue::Number(Number::from_bits(1.5f64.to_bits())))
        }
        other => panic!("unexpected: {:?}", other),
    }
    match String::try_from(rich_person()) {
        Err(ConvertRichValueToStringError::RichSingleValueNotScalar { rich_single_value }) => {
            assert_eq!(RichValue::Single(rich_single_value), rich_person())
        }
        other => panic!("unexpected: {:?}", other),
    }
    match String::try_from(rich_collection()) {
        Err(ConvertRichValueToStringError::RichValueCollection { rich_value }) => {
            assert_eq!(rich_value, rich_collection())
        }
        other => panic!("unexpected: {:?}", other),
    }
}

#[test]
fn strict_boolean() {
    assert_eq!(bool::try_from(&rich_boolean(true)), Ok(true));
    assert_eq!(bool::try_from(&rich_boolean(false)), Ok(false));
    assert!(matches!(bool::try_from(rich_boolean(true)), Ok(true)));
    assert!(matches!(bool::try_from(rich_boolean(false)), Ok(false)));
}

#[test]
fn strict_boolean_takes_no_empty_text() {
    assert_eq!(bool::try_from(&rich_text("")), Err(ConvertRichValueRefToBoolError::InvalidInput));
    assert_eq!(
        bool::try_from(&rich_text("true")),
        Err(ConvertRichValueRefToBoolError::InvalidInput)
    );
    assert_eq!(
        bool::try_from(&rich_number(1.0)),
        Err(ConvertRichValueRefToBoolError::InvalidInput)
    );
    assert_eq!(bool::try_from(&rich_row()), Err(ConvertRichValueRefToBoolError::InvalidInput));
    assert_eq!(
        bool::try_from(&rich_collection()),
        Err(ConvertRichValueRefToBoolError::InvalidInput)
    );
    match bool::try_from(rich_text("")) {
        Err(ConvertRichValueToBoolError::InvalidInput { rich_value }) => {
            assert_eq!(rich_value, rich_text(""))
        }
        other => panic!("unexpected: {:?}", other),
    }
}

#[test]
fn optional_boolean_of_a_boolean() {
    assert_eq!(Option::<bool>::try_from(&rich_boolean(true)), Ok(Some(true)));
    assert_eq!(Option::<bool>::try_from(&rich_boolean(false)), Ok(Some(false)));
    assert!(matches!(Option::<bool>::try_from(rich_boolean(true)), Ok(Some(true))));
    assert!(matches!(Option::<bool>::try_from(rich_boolean(false)), Ok(Some(false))));
}

#[test]
fn optional_boolean_of_a_blank_text() {
    for blank in ["", " ", "\t\n", "\u{a0}"] {
        assert_eq!(Option::<bool>::try_from(&rich_text(blank)), Ok(None));
        assert!(matches!(Option::<bool>::try_from(rich_text(blank)), Ok(None)));
    }
}

#[test]
fn optional_boolean_refusals_differ() {
    assert_eq!(
        Option::<bool>::try_from(&rich_text("true")),
        Err(ConvertRichValueRefToOptionBoolError::StringScalarNotEmpty)
    );
    assert_eq!(
        Option::<bool>::try_from(&rich_number(0.0)),
        Err(ConvertRichValueRefToOptionBoolError::ScalarNotBoolean)
    );
    for value in non_scalars() {
        assert_eq!(
            Option::<bool>::try_from(&value),
            Err(ConvertRichValueRefToOptionBoolError::RichSingleValueNotScalar)
        );
    }
    assert_eq!(
        Option::<bool>::try_from(&rich_collection()),
        Err(ConvertRichValueRefToOptionBoolError::RichValueCollection)
    );
}

#[test]
fn optional_boolean_refusals_hand_back_the_value() {
    match Option::<bool>::try_from(rich_text(" no ")) {
        Err(ConvertRichValueToOptionBoolError::StringScalarNotEmpty { text }) => {
            assert_eq!(text, " no ")
        }
        other => panic!("unexpected: {:?}", other),
    }
    match Option::<bool>::try_from(rich_number(2.0)) {
        Err(ConvertRichValueToOptionBoolError::ScalarNotBoolean { scalar_value }) => {
            assert_eq!(scalar_value, ScalarValue::Number(Number::from_bits(2.0f64.to_bits())))
        }
        other => panic!("unexpected: {:?}", other),
    }
    match Option::<bool>::try_from(rich_url()) {
        Err(ConvertRichValueToOptionBoolError::RichSingleValueNotScalar {
            rich_single_value,
        }) => assert_eq!(RichValue::Single(rich_single_value), rich_url()),
        other => panic!("unexpected: {:?}", other),
    }
    match Option::<bool>::try_from(rich_collection()) {
        Err(ConvertRichValueToOptionBoolError::RichValueCollection { rich_value }) => {
            assert_eq!(rich_value, rich_collection())
        }
        other => panic!("unexpected: {:?}", other),
    }
}

#[test]
fn row_reference() {
    assert_eq!(RichRowReference::try_from(&rich_row()), Ok(reference()));
    match RichRowReference::try_from(rich_row()) {
        Ok(found) => assert_eq!(found, reference()),
        other => panic!("unexpected: {:?}", other),
    }
}

#[test]
fn what_is_no_row_reference_is_refused() {
    let others = vec![
        rich_text("i-tuVwxYz"),
        rich_boolean(true),
        rich_person(),
        rich_url(),
        rich_collection(),
    ];
    for value in others {
        assert_eq!(
            RichRowReference::try_from(&value),
            Err(ConvertRichValueRefToRichRowReferenceError::RichValueIsNotRichRowReference)
        );
        match RichRowReference::try_from(value.clone()) {
            Err(ConvertRichValueToRichRowReferenceError::RichValueIsNotRichRowReference {
                rich_value,
            }) => assert_eq!(rich_value, value),
            other => panic!("unexpected: {:?}", other),
        }
    }
}

#[test]
fn optional_duration_of_a_rich_text() {
    let span = Some(Duration { seconds: 5_400, nanoseconds: 0 });
    assert_eq!(Option::<Duration>::try_from(&rich_text("90 minutes")).unwrap(), span);
    assert_eq!(Option::<Duration>::try_from(rich_text("90 minutes")).unwrap(), span);
    assert_eq!(Option::<Duration>::try_from(&rich_text("```90 Minutes```")).unwrap(), span);
    assert_eq!(Option::<Duration>::try_from(rich_text("```90 Minutes```")).unwrap(), span);
    assert_eq!(Option::<Duration>::try_from(&rich_text("")).unwrap(), None);
    assert_eq!(Option::<Duration>::try_from(rich_text("  ")).unwrap(), None);
    assert_eq!(Option::<Duration>::try_from(rich_text("``````")).unwrap(), None);
}

#[test]
fn optional_duration_refusals() {
    assert!(matches!(
        Option::<Duration>::try_from(&rich_boolean(true)),
        Err(ConvertRichValueRefToOptionDurationError::ConvertStringFailed {
            source: ConvertRichValueRefToStringError::ScalarNotString
        })
    ));
    assert!(matches!(
        Option::<Duration>::try_from(&rich_collection()),
        Err(ConvertRichValueRefToOptionDurationError::ConvertStringFailed {
            source: ConvertRichValueRefToStringError::RichValueCollection
        })
    ));
    assert!(matches!(
        Option::<Duration>::try_from(&rich_text("3")),
        Err(ConvertRichValueRefToOptionDurationError::DurationParseFailed {
            source: DurationValueParserError::UnitNotFound
        })
    ));
    assert!(matches!(
        Option::<Duration>::try_from(&rich_text("three days")),
        Err(ConvertRichValueRefToOptionDurationError::DurationParseFailed {
            source: DurationValueParserError::NumberParseFailed {
                source: IntErrorKind::InvalidDigit
            }
        })
    ));
    match Option::<Duration>::try_from(&rich_text("3 moons")) {
        Err(ConvertRichValueRefToOptionDurationError::DurationParseFailed {
            source: DurationValueParserError::UnitUnexpected { unit },
        }) => assert_eq!(unit, "moons"),
        other => panic!("unexpected: {:?}", other),
    }
    match Option::<Duration>::try_from(rich_text("```3 moons```")) {
        Err(ConvertRichValueToOptionDurationError::DurationParseFailed {
            source: DurationValueParserError::UnitUnexpected { unit },
            value,
        }) => {
            assert_eq!(unit, "moons");
            assert_eq!(value, "3 moons");
        }
        other => panic!("unexpected: {:?}", other),
    }
    match Option::<Duration>::try_from(rich_text("3 days later")) {
        Err(ConvertRichValueToOptionDurationError::DurationParseFailed {
            source: DurationValueParserError::UnitUnexpected { unit },
            value,
        }) => {
            assert_eq!(unit, "days later");
            assert_eq!(value, "3 days later");
        }
        other => panic!("unexpected: {:?}", other),
    }
    match Option::<Duration>::try_from(rich_person()) {
        Err(ConvertRichValueToOptionDurationError::ConvertStringFailed {
            source: ConvertRichValueToStringError::RichSingleValueNotScalar { rich_single_value },
        }) => assert_eq!(RichValue::Single(rich_single_value), rich_person()),
        other => panic!("unexpected: {:?}", other),
    }
}

#[test]
fn optional_timestamp_of_a_rich_text() {
    let instant = Some(OffsetDateTime {
        unix_timestamp_nanos: 1_704_164_645i128 * 1_000_000_000,
        offset_seconds: 0,
    });
    let text = "2024-01-02T03:04:05Z";
    assert_eq!(Option::<OffsetDateTime>::try_from(&rich_text(text)).unwrap(), instant);
    assert_eq!(Option::<OffsetDateTime>::try_from(rich_text(text)).unwrap(), instant);
    let fenced = "``` 2024-01-02T03:04:05Z ```";
    assert_eq!(Option::<OffsetDateTime>::try_from(&rich_text(fenced)).unwrap(), instant);
    assert_eq!(Option::<OffsetDateTime>::try_from(rich_text(fenced)).unwrap(), instant);
    assert_eq!(Option::<OffsetDateTime>::try_from(&rich_text("")).unwrap(), None);
    assert_eq!(Option::<OffsetDateTime>::try_from(rich_text(" \n")).unwrap(), None);
}

#[test]
fn optional_timestamp_refusals() {
    assert!(matches!(
        Option::<OffsetDateTime>::try_from(&rich_number(1.0)),
        Err(ConvertRichValueRefToOptionOffsetDateTimeError::ConvertStringFailed {
            source: ConvertRichValueRefToStringError::ScalarNotString
        })
    ));
    match Option::<OffsetDateTime>::try_from(&rich_text("```tomorrow ```")) {
        Err(ConvertRichValueRefToOptionOffsetDateTimeError::OffsetDateTimeParseFailed {
            value,
            ..
        }) => assert_eq!(value, "tomorrow"),
        other => panic!("unexpected: {:?}", other),
    }
    match Option::<OffsetDateTime>::try_from(rich_text(" tomorrow ")) {
        Err(ConvertRichValueToOptionOffsetDateTimeError::OffsetDateTimeParseFailed {
            value,
            source,
        }) => {
            assert_eq!(value, "tomorrow");
            let expected = time::OffsetDateTime::parse(
                "tomorrow",
                &time::format_description::well_known::Rfc3339,
            )
            .unwrap_err();
            assert_eq!(source, expected);
        }
        other => panic!("unexpected: {:?}", other),
    }
    match Option::<OffsetDateTime>::try_from(rich_collection()) {
        Err(ConvertRichValueToOptionOffsetDateTimeError::ConvertStringFailed {
            source: ConvertRichValueToStringError::RichValueCollection { rich_value },
        }) => assert_eq!(rich_value, rich_collection()),
        other => panic!("unexpected: {:?}", other),
    }
}

#[test]
fn fences_are_found_as_the_standard_library_would_find_them() {
    let pieces = ["", "`", "``", "```", "````", "a", " ", "\n", "`a`", "\u{e9}", "```a```"];
    for first in pieces {
        for second in pieces {
            for third in pieces {
                let text = format!("{}{}{}", first, second, third);
                let expected = match text
                    .strip_prefix("```")
                    .and_then(|inner| inner.strip_suffix("```"))
                {
                    Some(stripped) => stripped.to_string(),
                    None => text.clone(),
                };
                assert_eq!(normalize_rich_string(&text), expected, "{:?}", text);
                let expected_owned =
                    if text.len() >= 6 && text.starts_with("```") && text.ends_with("```") {
                        text[3..text.len() - 3].to_string()
                    } else {
                        text.clone()
                    };
                assert_eq!(expected_owned, expected, "{:?}", text);
                assert_eq!(normalize_owned_rich_string(text.clone()), expected, "{:?}", text);
            }
        }
    }
}
