use sware::domain::{EventType, HazardType, Units};
use sware::sn_parser::Hazard;

#[test]
fn normalize_line_should_zero_icon_digit() {
    let line = r#"Icon: 47.617706,-111.215248,000,4,4,"Reported By: Test User\nHail\nTime: 2018-09-20 22:49:29 UTC\nSize: 0.75" (Penny)\nNotes: None""#;
    let expected = r#"Icon: 47.617706,-111.215248,000,0,4,"Reported By: Test User\nHail\nTime: 2018-09-20 22:49:29 UTC\nSize: 0.75" (Penny)\nNotes: None""#;
    let normalized = sware::dedup::normalize_line(line);
    assert_eq!(normalized, expected);
}

#[test]
fn same_report_different_age_digit_should_be_deduped() {
    let body = r#"Icon: 47.617706,-111.215248,000,4,4,"Reported By: Test User\nHail\nTime: 2018-09-20 22:39:00 UTC\nSize: 0.75" (Penny)\nNotes: None""#;
    let comparison = sware::dedup::get_comparison(&body, &Vec::new());
    assert_eq!(comparison.latest_set.len(), 1);
    assert_eq!(comparison.new.len(), 1);

    let body = r#"Icon: 47.617706,-111.215248,000,5,4,"Reported By: Test User\nHail\nTime: 2018-09-20 22:39:00 UTC\nSize: 0.75" (Penny)\nNotes: None"
            Icon: 47.617706,-111.215248,000,6,4,"Reported By: Test User\nHail\nTime: 2018-09-20 22:39:00 UTC\nSize: 0.75" (Penny)\nNotes: None""#;
    let comparison = sware::dedup::get_comparison(&body, &comparison.latest_set);
    assert_eq!(comparison.latest_set.len(), 1);
    assert_eq!(comparison.new.len(), 0);
}

#[test]
fn sn_report_with_all_required_fields_is_parsed() {
    let report = r#"Icon: 43.112000,-94.639999,000,3,5,"Reported By: Test Human\nHigh Wind\nTime: 2018-09-20 22:52:00 UTC\n60 mph [Measured]\nNotes: Strong winds measured at 60mph with anemometer""#;
    let event = sware::sn_parser::parse(report).unwrap();
    assert_eq!(event.event_ts, 1537483920000000);
    assert!(matches!(event.event_type, EventType::SnReport));
    assert_eq!(event.title, "Report: 60mph Wind");
    let location = event.location.unwrap();
    let point = location.point.unwrap();
    assert_eq!((point.lat, point.lon), (43112000, -94639999));
    let r = event.report.unwrap();
    assert!(matches!(r.hazard, HazardType::Wind));
    assert_eq!(r.reporter, "Test Human");
    assert_eq!(r.magnitude, Some(6000));
    assert!(matches!(r.units, Some(Units::Mph)));
    assert_eq!(r.was_measured, Some(true));
    assert!(r.report_ts.is_none());
    assert_eq!(
        event.text.as_deref(),
        Some("Wind reported by Test Human. Strong winds measured at 60mph with anemometer")
    );
}

#[test]
fn sn_report_parses_optional_size() {
    let report = r#"Icon: 47.617706,-111.215248,000,4,4,"Reported By: Test Human\nHail\nTime: 2018-09-20 22:49:29 UTC\nSize: 0.75" (Penny)\nNotes: None""#;
    let r = sware::sn_parser::parse(report).unwrap().report.unwrap();
    assert_eq!(r.magnitude, Some(75));
    assert!(matches!(r.units, Some(Units::Inches)));
    assert!(r.was_measured.is_none());
}

#[test]
fn sn_report_skips_empty_other_reports() {
    let report = r#"Icon: 35.851399,-90.708198,000,0,8,"Reported By: Test Human\nOther - See Note\nTime: 2018-11-14 20:22:00 UTC\nNotes: None""#;
    assert!(sware::sn_parser::parse(report).is_none());
    let with_notes = r#"Icon: 35.851399,-90.708198,000,0,8,"Reported By: Test Human\nOther - See Note\nTime: 2018-11-14 20:22:00 UTC\nNotes: i got snow and a little of sleet""#;
    assert!(sware::sn_parser::parse(with_notes).is_some());
}

#[test]
fn sn_report_with_broken_line_is_rejected() {
    assert!(sware::sn_parser::parse("nothing like a report").is_none());
    assert!(sware::sn_parser::parse(r#"Icon: 43.112000,-94.639999,000,3,5,garbage"#).is_none());
}

#[test]
fn hazard_code_lookup_covers_the_table() {
    assert!(matches!(Hazard::get_by_code("1"), Hazard::Tornado));
    assert!(matches!(Hazard::get_by_code("5"), Hazard::Wind));
    assert!(matches!(Hazard::get_by_code("10"), Hazard::Snow));
    assert!(matches!(Hazard::get_by_code("77"), Hazard::Other));
}
