use coda_api::timestamp::{parse_offset_date_time_value, timestamp_outcome, OffsetDateTime};

#[test]
fn the_epoch() {
    let instant = parse_offset_date_time_value("1970-01-01T00:00:00Z").unwrap();
    assert_eq!(instant, Some(OffsetDateTime { unix_timestamp_nanos: 0, offset_seconds: 0 }));
}

#[test]
fn a_timestamp_with_an_offset_and_a_fraction() {
    let instant = parse_offset_date_time_value("2024-01-02T03:04:05.25+01:30").unwrap();
    assert_eq!(
        instant,
        Some(OffsetDateTime {
            unix_timestamp_nanos: (1_704_164_645i128 - 5_400) * 1_000_000_000 + 250_000_000,
            offset_seconds: 5_400,
        })
    );
}

#[test]
fn a_timestamp_west_of_utc() {
    let instant = parse_offset_date_time_value("2018-04-11T00:18:57-08:00").unwrap().unwrap();
    assert_eq!(instant.offset_seconds, -28_800);
    assert_eq!(instant.unix_timestamp_nanos, 1_523_434_737i128 * 1_000_000_000);
}

#[test]
fn whitespace_around_a_timestamp_is_trimmed() {
    let instant = parse_offset_date_time_value("  2024-01-02T03:04:05Z\n").unwrap();
    assert_eq!(
        instant,
        Some(OffsetDateTime {
            unix_timestamp_nanos: 1_704_164_645i128 * 1_000_000_000,
            offset_seconds: 0,
        })
    );
}

#[test]
fn blank_timestamp_is_none() {
    assert_eq!(parse_offset_date_time_value("").unwrap(), None);
    assert_eq!(parse_offset_date_time_value(" \t\n").unwrap(), None);
}

#[test]
fn malformed_timestamps_are_refused_with_their_text() {
    let samples = [
        "yesterday",
        "2024-01-02",
        "2024-01-02T03:04:05",
        "2024-13-02T03:04:05Z",
        "2024-02-30T03:04:05Z",
        "2024-01-02T25:04:05Z",
        "2024-01-02T03:04:05Z trailing",
        "24-01-02T03:04:05Z",
    ];
    for sample in samples {
        let padded = format!("  {} ", sample);
        match parse_offset_date_time_value(&padded) {
            Err(e) => assert_eq!(e.value, sample),
            Ok(instant) => panic!("{:?} was read as {:?}", sample, instant),
        }
    }
}

#[test]
fn the_reader_is_the_one_of_the_time_crate() {
    let samples = [
        "1969-12-31T23:59:59.999999999Z",
        "2000-02-29T12:00:00+14:00",
        "9999-12-31T23:59:59-12:00",
        "0001-01-01T00:00:00Z",
        "2016-12-31T23:59:60Z",
        "2024-01-02 03:04:05Z",
        "2024-01-02t03:04:05z",
    ];
    for sample in samples {
        let expected = time::OffsetDateTime::parse(
            sample,
            &time::format_description::well_known::Rfc3339,
        );
        match (parse_offset_date_time_value(sample), expected) {
            (Ok(Some(instant)), Ok(expected)) => {
                assert_eq!(instant.unix_timestamp_nanos, expected.unix_timestamp_nanos());
                assert_eq!(instant.offset_seconds, expected.offset().whole_seconds());
            }
            (Err(e), Err(expected)) => assert_eq!(e.source, expected),
            (got, expected) => panic!("{:?}: {:?} against {:?}", sample, got, expected),
        }
    }
}

#[test]
fn rfc3339_round_trip() {
    let seconds = [
        -62_135_596_800i64,
        -1,
        0,
        1,
        951_782_400,
        1_704_164_645,
        253_402_300_799,
    ];
    let offsets = [0i32, 3_600, -28_800, 20_700, 50_400, -43_200];
    let nanos = [0i128, 1, 500_000_000, 999_999_999];
    for second in seconds {
        for offset in offsets {
            for nano in nanos {
                let unix = second as i128 * 1_000_000_000 + nano;
                let written = match time::OffsetDateTime::from_unix_timestamp_nanos(unix) {
                    Ok(t) => t,
                    Err(_) => continue,
                };
                let offset = time::UtcOffset::from_whole_seconds(offset).unwrap();
                let written = match written.checked_to_offset(offset) {
                    Some(t) => t,
                    None => continue,
                };
                let text = match written
                    .format(&time::format_description::well_known::Rfc3339)
                {
                    Ok(text) => text,
                    Err(_) => continue,
                };
                let read = parse_offset_date_time_value(&text).unwrap().unwrap();
                assert_eq!(read.unix_timestamp_nanos, unix, "{}", text);
                assert_eq!(read.offset_seconds, offset.whole_seconds(), "{}", text);
                let back = time::OffsetDateTime::from_unix_timestamp_nanos(
                    read.unix_timestamp_nanos,
                )
                .unwrap()
                .to_offset(time::UtcOffset::from_whole_seconds(read.offset_seconds).unwrap());
                assert_eq!(back, written);
                assert_eq!(
                    back.format(&time::format_description::well_known::Rfc3339).unwrap(),
                    text
                );
            }
        }
    }
}

#[test]
fn the_outcome_keeps_what_the_reader_said() {
    let instant = OffsetDateTime { unix_timestamp_nanos: 42, offset_seconds: -60 };
    assert_eq!(timestamp_outcome(String::from("x"), Ok(instant)).unwrap(), Some(instant));
    let refusal = time::OffsetDateTime::parse(
        "nope",
        &time::format_description::well_known::Rfc3339,
    )
    .unwrap_err();
    let e = timestamp_outcome(String::from("nope"), Err(refusal)).unwrap_err();
    assert_eq!(e.value, "nope");
    assert_eq!(e.source, refusal);
}
