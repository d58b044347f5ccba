#[test]
fn str_to_latlon_should_parse_correctly() {
    let tests: Vec<(&str, bool, i64)> = vec![
        ("3000", false, 30000000),
        ("3156", false, 31560000),
        ("9234", true, -92340000),
        ("9000", true, -90000000),
        ("0156", true, -101560000),
        ("10156", true, -101560000),
    ];
    for (input, invert, expected) in tests {
        assert_eq!(sware::coord::str_to_latlon(input, invert), expected);
    }
}

#[test]
fn short_time_to_ticks_should_return_correct_ticks() {
    let short_time = "190522T2100Z";
    let result = sware::time_codec::short_time_to_ticks(short_time).unwrap();
    assert_eq!(result, 1558558800000000);
}

#[test]
fn ts_to_ticks_should_return_ticks() {
    let ts = "2018-11-25T22:46:23+00:00";
    let result = sware::time_codec::ts_to_ticks(ts).unwrap();
    assert_eq!(result, 1543185983000000);
}

#[test]
fn get_report_ticks_should_return_correct_ticks() {
    let time = "03/13/20190300 PM+0400";
    let result = sware::time_codec::get_report_ticks(time).unwrap();
    assert_eq!(result, 1552474800000000);
}

#[test]
fn get_system_micros_should_return_value_in_correct_range() {
    let result = sware::clock::get_system_micros();
    assert!(result > 1551209606990457);
    assert!(result < 1900000000000000);
}

#[test]
fn ts_to_ticks_rejects_malformed_stamps() {
    assert!(sware::time_codec::ts_to_ticks("invalid ts").is_none());
    assert!(sware::time_codec::ts_to_ticks("2018-13-25T22:46:23+00:00").is_none());
    assert!(sware::time_codec::ts_to_ticks("2018-02-30T22:46:23+00:00").is_none());
    assert!(sware::time_codec::ts_to_ticks("2018-11-25T22:46:23+01:00").is_none());
    assert!(sware::time_codec::ts_to_ticks("2018-11-25 22:46:23+00:00").is_none());
}

#[test]
fn short_time_rejects_malformed_stamps() {
    assert!(sware::time_codec::short_time_to_ticks("190522t2100z").is_none());
    assert!(sware::time_codec::short_time_to_ticks("190522T2100").is_none());
    assert!(sware::time_codec::short_time_to_ticks("191322T2100Z").is_none());
}

#[test]
fn tz_to_offset_resolves_known_abbreviations() {
    assert_eq!(sware::time_codec::tz_to_offset("CDT"), Ok("-0500"));
    assert_eq!(sware::time_codec::tz_to_offset("HST"), Ok("-1000"));
    assert_eq!(sware::time_codec::tz_to_offset("ADT"), Ok("-0300"));
    assert!(sware::time_codec::tz_to_offset("XYZ").is_err());
}

#[test]
fn leap_day_is_accepted_in_leap_years_only() {
    assert!(sware::time_codec::ts_to_ticks("2020-02-29T00:00:00+00:00").is_some());
    assert!(sware::time_codec::ts_to_ticks("2019-02-29T00:00:00+00:00").is_none());
    assert_eq!(sware::time_codec::ts_to_ticks("2020-02-29T00:00:00+00:00").unwrap(), 1582934400000000);
}
