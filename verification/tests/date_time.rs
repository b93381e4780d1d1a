use smithy_orchestrator::date_time::system_time::found_or_overflow;
use smithy_orchestrator::date_time::{DateTime, Format};
use std::time::{Duration, SystemTime, UNIX_EPOCH};

struct EpochMillisTestCase {
    _rfc3339: &'static str,
    epoch_millis: i64,
    epoch_seconds: i64,
    epoch_subsec_nanos: u32,
}

const EPOCH_MILLIS_TEST_CASES: &[EpochMillisTestCase] = &[
    EpochMillisTestCase {
        _rfc3339: "2021-07-30T21:20:04.123Z",
        epoch_millis: 1627680004123,
        epoch_seconds: 1627680004,
        epoch_subsec_nanos: 123000000,
    },
    EpochMillisTestCase {
        _rfc3339: "1918-06-04T02:39:55.877Z",
        epoch_millis: -1627680004123,
        epoch_seconds: -1627680005,
        epoch_subsec_nanos: 877000000,
    },
    EpochMillisTestCase {
        _rfc3339: "+292278994-08-17T07:12:55.807Z",
        epoch_millis: i64::MAX,
        epoch_seconds: 9223372036854775,
        epoch_subsec_nanos: 807000000,
    },
    EpochMillisTestCase {
        _rfc3339: "-292275055-05-16T16:47:04.192Z",
        epoch_millis: i64::MIN,
        epoch_seconds: -9223372036854776,
        epoch_subsec_nanos: 192000000,
    },
];

#[test]
fn to_millis() {
    for test_case in EPOCH_MILLIS_TEST_CASES {
        println!("Test case: {:?}", test_case._rfc3339);
        let date_time =
            DateTime::from_secs_and_nanos(test_case.epoch_seconds, test_case.epoch_subsec_nanos);
        assert_eq!(test_case.epoch_seconds, date_time.secs());
        assert_eq!(test_case.epoch_subsec_nanos, date_time.subsec_nanos());
        assert_eq!(test_case.epoch_millis, date_time.to_millis().unwrap());
    }

    assert!(DateTime::from_secs_and_nanos(i64::MAX, 0)
        .to_millis()
        .is_err());
}

#[test]
fn from_millis() {
    for test_case in EPOCH_MILLIS_TEST_CASES {
        println!("Test case: {:?}", test_case._rfc3339);
        let date_time = DateTime::from_millis(test_case.epoch_millis);
        assert_eq!(test_case.epoch_seconds, date_time.secs());
        assert_eq!(test_case.epoch_subsec_nanos, date_time.subsec_nanos());
    }
}

#[test]
fn to_from_millis_round_trip() {
    for millis in &[0, 1627680004123, -1627680004123, i64::MAX, i64::MIN] {
        assert_eq!(*millis, DateTime::from_millis(*millis).to_millis().unwrap());
    }
}

#[test]
fn as_nanos() {
    assert_eq!(
        -9_223_372_036_854_775_807_000_000_001_i128,
        DateTime::from_secs_and_nanos(i64::MIN, 999_999_999).as_nanos()
    );
    assert_eq!(
        -10_876_543_211,
        DateTime::from_secs_and_nanos(-11, 123_456_789).as_nanos()
    );
    assert_eq!(0, DateTime::from_secs_and_nanos(0, 0).as_nanos());
    assert_eq!(
        11_123_456_789,
        DateTime::from_secs_and_nanos(11, 123_456_789).as_nanos()
    );
    assert_eq!(
        9_223_372_036_854_775_807_999_999_999_i128,
        DateTime::from_secs_and_nanos(i64::MAX, 999_999_999).as_nanos()
    );
}

#[test]
fn from_nanos() {
    assert_eq!(
        DateTime::from_secs_and_nanos(i64::MIN, 999_999_999),
        DateTime::from_nanos(-9_223_372_036_854_775_807_000_000_001_i128).unwrap(),
    );
    assert_eq!(
        DateTime::from_secs_and_nanos(-11, 123_456_789),
        DateTime::from_nanos(-10_876_543_211).unwrap(),
    );
    assert_eq!(
        DateTime::from_secs_and_nanos(0, 0),
        DateTime::from_nanos(0).unwrap(),
    );
    assert_eq!(
        DateTime::from_secs_and_nanos(11, 123_456_789),
        DateTime::from_nanos(11_123_456_789).unwrap(),
    );
    assert_eq!(
        DateTime::from_secs_and_nanos(i64::MAX, 999_999_999),
        DateTime::from_nanos(9_223_372_036_854_775_807_999_999_999_i128).unwrap(),
    );
    assert!(DateTime::from_nanos(-10_000_000_000_000_000_000_999_999_999_i128).is_err());
    assert!(DateTime::from_nanos(10_000_000_000_000_000_000_999_999_999_i128).is_err());
}

#[test]
fn ord() {
    let first = DateTime::from_secs_and_nanos(-1, 0);
    let second = DateTime::from_secs_and_nanos(-1, 1);
    let third = DateTime::from_secs_and_nanos(0, 0);
    let fourth = DateTime::from_secs_and_nanos(0, 1);
    let fifth = DateTime::from_secs_and_nanos(1, 0);

    assert!(first == first);
    assert!(first < second);
    assert!(first < third);
    assert!(first < fourth);
    assert!(first < fifth);

    assert!(second > first);
    assert!(second == second);
    assert!(second < third);
    assert!(second < fourth);
    assert!(second < fifth);

    assert!(third > first);
    assert!(third > second);
    assert!(third == third);
    assert!(third < fourth);
    assert!(third < fifth);

    assert!(fourth > first);
    assert!(fourth > second);
    assert!(fourth > third);
    assert!(fourth == fourth);
    assert!(fourth < fifth);

    assert!(fifth > first);
    assert!(fifth > second);
    assert!(fifth > third);
    assert!(fifth > fourth);
    assert!(fifth == fifth);
}

#[test]
fn test_fmt() {
    let date_time = DateTime::from_secs(1576540098);
    assert_eq!(
        date_time.fmt(Format::DateTime).unwrap(),
        "2019-12-16T23:48:18Z"
    );
    assert_eq!(date_time.fmt(Format::EpochSeconds).unwrap(), "1576540098");
    assert_eq!(
        date_time.fmt(Format::HttpDate).unwrap(),
        "Mon, 16 Dec 2019 23:48:18 GMT"
    );

    let date_time =
        DateTime::from_secs_and_nanos(1576540098, (0.52 * 1_000_000_000_f64) as u32);
    assert_eq!(
        date_time.fmt(Format::DateTime).unwrap(),
        "2019-12-16T23:48:18.52Z"
    );
    assert_eq!(
        date_time.fmt(Format::EpochSeconds).unwrap(),
        "1576540098.52"
    );
    assert_eq!(
        date_time.fmt(Format::HttpDate).unwrap(),
        "Mon, 16 Dec 2019 23:48:18.52 GMT"
    );
}

#[test]
fn test_fmt_zero_seconds() {
    let date_time = DateTime::from_secs(1576540080);
    assert_eq!(
        date_time.fmt(Format::DateTime).unwrap(),
        "2019-12-16T23:48:00Z"
    );
    assert_eq!(date_time.fmt(Format::EpochSeconds).unwrap(), "1576540080");
    assert_eq!(
        date_time.fmt(Format::HttpDate).unwrap(),
        "Mon, 16 Dec 2019 23:48:00 GMT"
    );
}

#[test]
fn test_read_single_http_date() {
    let s = "Mon, 16 Dec 2019 23:48:18 GMT";
    let (_, next) = DateTime::read(s, Format::HttpDate, ',').expect("valid");
    assert_eq!(next, "");
}

#[test]
fn test_read_single_float() {
    let s = "1576540098.52";
    let (_, next) = DateTime::read(s, Format::EpochSeconds, ',').expect("valid");
    assert_eq!(next, "");
}

#[test]
fn test_read_many_float() {
    let s = "1576540098.52,1576540098.53";
    let (_, next) = DateTime::read(s, Format::EpochSeconds, ',').expect("valid");
    assert_eq!(next, "1576540098.53");
}

#[test]
fn test_ready_many_http_date() {
    let s = "Mon, 16 Dec 2019 23:48:18 GMT,Tue, 17 Dec 2019 23:48:18 GMT";
    let (_, next) = DateTime::read(s, Format::HttpDate, ',').expect("valid");
    assert_eq!(next, "Tue, 17 Dec 2019 23:48:18 GMT");
}

#[test]
fn parse_each_format() {
    let expected = DateTime::from_secs_and_nanos(1576540098, 520_000_000);
    assert_eq!(
        DateTime::from_str("2019-12-16T23:48:18.52Z", Format::DateTime).unwrap(),
        expected
    );
    assert_eq!(
        DateTime::from_str("2019-12-16T23:48:18.52Z", Format::DateTimeWithOffset).unwrap(),
        expected
    );
    assert_eq!(
        DateTime::from_str("2019-12-17T00:48:18.52+01:00", Format::DateTimeWithOffset).unwrap(),
        expected
    );
    assert_eq!(
        DateTime::from_str("2019-12-16t18:18:18.520000000999-05:30", Format::DateTimeWithOffset)
            .unwrap(),
        expected
    );
    assert_eq!(
        DateTime::from_str("Mon, 16 Dec 2019 23:48:18.52 GMT", Format::HttpDate).unwrap(),
        expected
    );
    assert_eq!(
        DateTime::from_str("  Mon, 16 Dec 2019 23:48:18.520 GMT ", Format::HttpDate).unwrap(),
        expected
    );
    assert_eq!(
        DateTime::from_str("1576540098.52", Format::EpochSeconds).unwrap(),
        expected
    );
    assert_eq!(
        DateTime::from_str("+1576540098.520000000", Format::EpochSeconds).unwrap(),
        expected
    );
    assert_eq!(
        DateTime::from_str("-1.5", Format::EpochSeconds).unwrap(),
        DateTime::from_secs_and_nanos(-1, 500_000_000)
    );
}

#[test]
fn parse_rejects_what_is_no_date_time() {
    // an offset where none is allowed
    assert!(DateTime::from_str("2019-12-17T00:48:18+01:00", Format::DateTime).is_err());
    assert!(DateTime::from_str("2019-12-16T23:48:18z", Format::DateTime).is_err());
    // a day that the month does not have
    assert!(DateTime::from_str("2019-02-29T00:00:00Z", Format::DateTime).is_err());
    assert!(DateTime::from_str("2020-02-29T00:00:00Z", Format::DateTime).is_ok());
    assert!(DateTime::from_str("1900-02-29T00:00:00Z", Format::DateTime).is_err());
    assert!(DateTime::from_str("2000-02-29T00:00:00Z", Format::DateTime).is_ok());
    assert!(DateTime::from_str("2019-13-01T00:00:00Z", Format::DateTime).is_err());
    assert!(DateTime::from_str("2019-12-16T24:00:00Z", Format::DateTime).is_err());
    assert!(DateTime::from_str("2019-12-16T23:60:00Z", Format::DateTime).is_err());
    assert!(DateTime::from_str("2019-12-16 23:48:18Z", Format::DateTime).is_err());
    assert!(DateTime::from_str("2019-12-16T23:48:18.Z", Format::DateTime).is_err());
    assert!(DateTime::from_str("2019-12-16T23:48:18", Format::DateTime).is_err());
    assert!(DateTime::from_str("2019-12-16T23:48:18+24:00", Format::DateTimeWithOffset).is_err());
    assert!(DateTime::from_str("", Format::DateTime).is_err());
    // HTTP dates
    assert!(DateTime::from_str("Mon, 16 Dec 2019 23:48:18 UTC", Format::HttpDate).is_err());
    assert!(DateTime::from_str("Mon, 16 Dex 2019 23:48:18 GMT", Format::HttpDate).is_err());
    assert!(DateTime::from_str("Mon, 16 Dec 2019 23:48:18.5200 GMT", Format::HttpDate).is_err());
    assert!(DateTime::from_str("Mon, 16 Dec 2019 23:48:18. GMT", Format::HttpDate).is_err());
    assert!(DateTime::from_str("Xyz, 16 Dec 2019 23:48:18 GMT", Format::HttpDate).is_err());
    assert!(DateTime::from_str("Mon, 31 Nov 2019 23:48:18 GMT", Format::HttpDate).is_err());
    // epoch seconds
    assert!(DateTime::from_str("", Format::EpochSeconds).is_err());
    assert!(DateTime::from_str("-", Format::EpochSeconds).is_err());
    assert!(DateTime::from_str("1.", Format::EpochSeconds).is_err());
    assert!(DateTime::from_str("1.+5", Format::EpochSeconds).is_err());
    assert!(DateTime::from_str("1.0000000001", Format::EpochSeconds).is_err());
    assert!(DateTime::from_str("1.5.5", Format::EpochSeconds).is_err());
    assert!(DateTime::from_str("9223372036854775808", Format::EpochSeconds).is_err());
    assert_eq!(
        DateTime::from_str("-9223372036854775808", Format::EpochSeconds).unwrap(),
        DateTime::from_secs(i64::MIN)
    );
    assert_eq!(
        DateTime::from_str("9223372036854775807", Format::EpochSeconds).unwrap(),
        DateTime::from_secs(i64::MAX)
    );
}

#[test]
fn fmt_bounds_of_the_calendar_formats() {
    let first = DateTime::from_secs(-62_167_219_200);
    assert_eq!(first.fmt(Format::DateTime).unwrap(), "0000-01-01T00:00:00Z");
    assert_eq!(first.fmt(Format::HttpDate).unwrap(), "Sat, 01 Jan 0000 00:00:00 GMT");
    let last = DateTime::from_secs_and_nanos(253_402_300_799, 999_999_999);
    assert_eq!(last.fmt(Format::DateTime).unwrap(), "9999-12-31T23:59:59.999999Z");
    assert_eq!(
        last.fmt(Format::DateTimeWithOffset).unwrap(),
        "9999-12-31T23:59:59.999999Z"
    );
    assert_eq!(last.fmt(Format::HttpDate).unwrap(), "Fri, 31 Dec 9999 23:59:59.999 GMT");
    assert!(DateTime::from_secs(-62_167_219_201).fmt(Format::DateTime).is_err());
    assert!(DateTime::from_secs(-62_167_219_201).fmt(Format::HttpDate).is_err());
    assert!(DateTime::from_secs(253_402_300_800).fmt(Format::DateTime).is_err());
    assert!(DateTime::from_secs(253_402_300_800).fmt(Format::HttpDate).is_err());
    assert_eq!(
        DateTime::from_secs(i64::MIN).fmt(Format::EpochSeconds).unwrap(),
        "-9223372036854775808"
    );
    assert_eq!(
        DateTime::from_secs_and_nanos(-1, 500_000_000).fmt(Format::EpochSeconds).unwrap(),
        "-1.5"
    );
    assert_eq!(
        DateTime::from_secs_and_nanos(0, 1).fmt(Format::EpochSeconds).unwrap(),
        "0.000000001"
    );
    assert_eq!(DateTime::from_secs(0).fmt(Format::DateTime).unwrap(), "1970-01-01T00:00:00Z");
    assert_eq!(
        DateTime::from_secs(0).fmt(Format::HttpDate).unwrap(),
        "Thu, 01 Jan 1970 00:00:00 GMT"
    );
    assert_eq!(
        DateTime::from_secs(-1).fmt(Format::DateTime).unwrap(),
        "1969-12-31T23:59:59Z"
    );
    assert_eq!(
        DateTime::from_secs(951_782_400).fmt(Format::HttpDate).unwrap(),
        "Tue, 29 Feb 2000 00:00:00 GMT"
    );
}

#[test]
fn fmt_then_from_str_gives_the_instant_back() {
    for seconds in [
        -62_167_219_200i64,
        -1_627_680_005,
        -86_401,
        -1,
        0,
        1,
        951_782_399,
        951_782_400,
        1_576_540_098,
        4_102_444_800,
        253_402_300_799,
    ] {
        for nanos in [0u32, 1_000_000, 520_000_000, 999_000_000] {
            let date_time = DateTime::from_secs_and_nanos(seconds, nanos);
            for format in [
                Format::DateTime,
                Format::DateTimeWithOffset,
                Format::HttpDate,
                Format::EpochSeconds,
            ] {
                let text = date_time.fmt(format).unwrap();
                assert_eq!(DateTime::from_str(&text, format).unwrap(), date_time, "{}", text);
            }
        }
    }
}

#[test]
fn read_needs_the_delimiter_or_the_end() {
    assert!(DateTime::read("1576540098.52;1576540098.53", Format::EpochSeconds, ',').is_err());
    let (first, rest) =
        DateTime::read("1576540098.52;1576540098.53", Format::EpochSeconds, ';').unwrap();
    assert_eq!(first, DateTime::from_secs_and_nanos(1576540098, 520_000_000));
    assert_eq!(rest, "1576540098.53");
    let (first, rest) =
        DateTime::read("2019-12-16T23:48:18Z,2019-12-17T23:48:18Z", Format::DateTime, ',').unwrap();
    assert_eq!(first, DateTime::from_secs(1576540098));
    assert_eq!(rest, "2019-12-17T23:48:18Z");
    let (second, rest) = DateTime::read(rest, Format::DateTime, ',').unwrap();
    assert_eq!(second, DateTime::from_secs(1576540098 + 86_400));
    assert_eq!(rest, "");
    assert!(DateTime::read("2019-12-16T23:48:18Z 2019-12-17T23:48:18Z", Format::DateTime, ',')
        .is_err());
    assert_eq!(
        DateTime::read("Mon, 16 Dec 2019 23:48:18", Format::HttpDate, ',').unwrap_err().message(),
        "date-time is not GMT"
    );
    assert_eq!(
        DateTime::read("Mon, 16 Dec 2019 23:48:18 GMT;x", Format::HttpDate, ',')
            .unwrap_err()
            .message(),
        "didn't find expected delimiter"
    );
    assert_eq!(
        DateTime::read("2019-12-16T23:48:18Z 2019-12-17T23:48:18Z", Format::DateTime, ',')
            .unwrap_err()
            .message(),
        "didn't find expected delimiter"
    );
    // a date that does not parse is not an error of the delimiter
    assert_ne!(
        DateTime::read("2019-13-16T23:48:18Z 2019", Format::DateTime, ',').unwrap_err().message(),
        "didn't find expected delimiter"
    );
}

#[test]
fn accessors_and_conversions() {
    let date_time = DateTime::from_secs_and_nanos(-11, 123_456_789);
    assert_eq!(date_time.secs(), -11);
    assert_eq!(date_time.subsec_nanos(), 123_456_789);
    assert!(date_time.has_subsec_nanos());
    assert!(!DateTime::from_secs(5).has_subsec_nanos());
    assert_eq!(DateTime::from_millis(-1), DateTime::from_secs_and_nanos(-1, 999_000_000));
    assert_eq!(DateTime::from_millis(1_500), DateTime::from_secs_and_nanos(1, 500_000_000));
    assert_eq!(DateTime::from_secs_and_nanos(-1, 999_999_999).to_millis().unwrap(), -1);
    assert_eq!(DateTime::from_secs_and_nanos(1, 999_999_999).to_millis().unwrap(), 1_999);
    assert!(DateTime::from_secs(i64::MIN).to_millis().is_err());
}

#[test]
fn system_time_round_trip() {
    let after = UNIX_EPOCH + Duration::new(2_203_975_390, 456_000_000);
    let date_time = DateTime::from(after);
    assert_eq!(date_time, DateTime::from_secs_and_nanos(2_203_975_390, 456_000_000));
    assert_eq!(SystemTime::try_from(date_time).unwrap(), after);
    let before = UNIX_EPOCH - Duration::new(30_610_139_809, 877_000_000);
    let date_time = DateTime::from(before);
    assert_eq!(date_time, DateTime::from_secs_and_nanos(-30_610_139_810, 123_000_000));
    assert_eq!(SystemTime::try_from(date_time).unwrap(), before);
    assert_eq!(DateTime::from(UNIX_EPOCH), DateTime::from_secs(0));
    let offset = DateTime::from_secs_and_nanos(-1, 1).epoch_offset();
    assert!(offset.before_epoch);
    assert_eq!((offset.secs, offset.subsec_nanos), (0, 999_999_999));
    assert_eq!(
        DateTime::from_epoch_offset(offset).unwrap(),
        DateTime::from_secs_and_nanos(-1, 1)
    );
    assert!(DateTime::from_secs(i64::MIN).epoch_offset().secs == 9_223_372_036_854_775_808);
}

#[test]
fn an_instant_that_the_platform_cannot_hold_is_an_overflow() {
    assert_eq!(found_or_overflow(false, Some(UNIX_EPOCH)).unwrap(), UNIX_EPOCH);
    assert_eq!(found_or_overflow(true, Some(UNIX_EPOCH)).unwrap(), UNIX_EPOCH);
    assert_eq!(
        found_or_overflow(true, None).unwrap_err().message(),
        "overflow occurred when subtracting duration from UNIX_EPOCH"
    );
    assert_eq!(
        found_or_overflow(false, None).unwrap_err().message(),
        "overflow occurred when adding duration to UNIX_EPOCH"
    );
    // beyond what this platform's clock can hold, in either direction
    match SystemTime::try_from(DateTime::from_secs_and_nanos(i64::MIN, 1)) {
        Ok(time) => assert_eq!(DateTime::from(time), DateTime::from_secs_and_nanos(i64::MIN, 1)),
        Err(error) => assert_eq!(
            error.message(),
            "overflow occurred when subtracting duration from UNIX_EPOCH"
        ),
    }
    match SystemTime::try_from(DateTime::from_secs_and_nanos(i64::MAX, 999_999_999)) {
        Ok(time) => assert_eq!(
            DateTime::from(time),
            DateTime::from_secs_and_nanos(i64::MAX, 999_999_999)
        ),
        Err(error) => assert_eq!(
            error.message(),
            "overflow occurred when adding duration to UNIX_EPOCH"
        ),
    }
}
