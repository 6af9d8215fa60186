use coda_api::integer::{char_is_digit, parse_i64_str, IntErrorKind};

fn parse(text: &str) -> Result<i64, IntErrorKind> {
    parse_i64_str(text)
}

fn expected(text: &str) -> Result<i64, IntErrorKind> {
    match text.parse::<i64>() {
        Ok(n) => Ok(n),
        Err(e) => Err(match e.kind() {
            std::num::IntErrorKind::Empty => IntErrorKind::Empty,
            std::num::IntErrorKind::InvalidDigit => IntErrorKind::InvalidDigit,
            std::num::IntErrorKind::PosOverflow => IntErrorKind::PosOverflow,
            std::num::IntErrorKind::NegOverflow => IntErrorKind::NegOverflow,
            other => panic!("unexpected kind {:?}", other),
        }),
    }
}

#[test]
fn digits_are_ascii_digits() {
    let mut code: u32 = 0;
    while code <= 0x10FFFF {
        if let Some(c) = char::from_u32(code) {
            assert_eq!(char_is_digit(c), c.is_ascii_digit(), "U+{:04X}", code);
        }
        code += 1;
    }
}

#[test]
fn integers_are_read_as_the_standard_library_reads_them() {
    let samples = [
        "",
        "0",
        "7",
        "-7",
        "+7",
        "+",
        "-",
        "--1",
        "+-1",
        "-+1",
        "007",
        "-007",
        "00000000000000000000000000000000000000012",
        "9223372036854775807",
        "9223372036854775808",
        "-9223372036854775808",
        "-9223372036854775809",
        "+9223372036854775807",
        "99999999999999999999",
        "-99999999999999999999",
        "99999999999999999999x",
        "-99999999999999999999x",
        "9223372036854775807x",
        "922337203685477580x7",
        "12a",
        "a12",
        "1 2",
        " 12",
        "12 ",
        "1.5",
        "1e3",
        "1_000",
        "\u{661}\u{662}",
        "12\u{e9}",
        "0x10",
        "-0",
        "+0",
    ];
    for sample in samples {
        assert_eq!(parse(sample), expected(sample), "{:?}", sample);
    }
}

#[test]
fn integer_limits() {
    assert_eq!(parse("9223372036854775807"), Ok(i64::MAX));
    assert_eq!(parse("-9223372036854775808"), Ok(i64::MIN));
    assert_eq!(parse("9223372036854775808"), Err(IntErrorKind::PosOverflow));
    assert_eq!(parse("-9223372036854775809"), Err(IntErrorKind::NegOverflow));
}

#[test]
fn each_integer_error_kind() {
    assert_eq!(parse(""), Err(IntErrorKind::Empty));
    assert_eq!(parse("-"), Err(IntErrorKind::InvalidDigit));
    assert_eq!(parse("4x"), Err(IntErrorKind::InvalidDigit));
    assert_eq!(parse("18446744073709551616"), Err(IntErrorKind::PosOverflow));
    assert_eq!(parse("-18446744073709551616"), Err(IntErrorKind::NegOverflow));
}

#[test]
fn overflow_before_a_stray_character_is_an_overflow() {
    assert_eq!(parse("99999999999999999999x"), Err(IntErrorKind::PosOverflow));
    assert_eq!(parse("9x9999999999999999999"), Err(IntErrorKind::InvalidDigit));
}
