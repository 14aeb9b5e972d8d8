use burgonet::clock::{ClockTime, week_of_year_exec};
use burgonet::keys::extract_usage_keys;
use chrono::TimeZone;

fn ct(year: u64, month: u64, day: u64, hour: u64, minute: u64) -> ClockTime {
    ClockTime::new(year, month, day, hour, minute).expect("valid instant")
}

#[test]
fn clock_time_validity() {
    assert!(ClockTime::new(2024, 2, 29, 0, 0).is_some());
    assert!(ClockTime::new(2023, 2, 29, 0, 0).is_none());
    assert!(ClockTime::new(2024, 13, 1, 0, 0).is_none());
    assert!(ClockTime::new(2024, 4, 31, 0, 0).is_none());
    assert!(ClockTime::new(2024, 4, 30, 24, 0).is_none());
    assert!(ClockTime::new(2024, 4, 30, 23, 60).is_none());
    assert!(ClockTime::new(1969, 1, 1, 0, 0).is_none());
}

#[test]
fn week_number_matches_chrono() {
    let samples = [
        (2024u64, 1u64, 1u64),
        (2023, 1, 1),
        (2024, 3, 5),
        (2024, 12, 31),
        (2025, 6, 15),
        (2000, 2, 29),
        (1970, 1, 1),
        (2026, 10, 12),
    ];
    for (y, m, d) in samples {
        let t = ct(y, m, d, 12, 0);
        let dt = chrono::Utc
            .with_ymd_and_hms(y as i32, m as u32, d as u32, 12, 0, 0)
            .unwrap();
        let expected = dt.format("%W").to_string();
        let got = format!("{:02}", week_of_year_exec(&t));
        assert_eq!(got, expected, "week number for {y}-{m}-{d}");
    }
}

#[test]
fn usage_keys_exact() {
    let t = ct(2024, 3, 5, 14, 30);
    let keys = extract_usage_keys("alice", &t);
    assert_eq!(keys.input_minute, "M:202403051430:alice:in");
    assert_eq!(keys.output_minute, "M:202403051430:alice:out");
    assert_eq!(keys.input_hour, "H:2024030514:alice:in");
    assert_eq!(keys.output_hour, "H:2024030514:alice:out");
    assert_eq!(keys.input_day, "d:20240305:alice:in");
    assert_eq!(keys.output_day, "d:20240305:alice:out");
    assert_eq!(keys.input_month, "m:202403:alice:in");
    assert_eq!(keys.output_month, "m:202403:alice:out");
    let dt = chrono::Utc.with_ymd_and_hms(2024, 3, 5, 14, 30, 0).unwrap();
    let expected_week = format!("W:{}:alice:in", dt.format("%Y%W"));
    assert_eq!(keys.input_week, expected_week);
    let expected_week_out = format!("W:{}:alice:out", dt.format("%Y%W"));
    assert_eq!(keys.output_week, expected_week_out);
}

#[test]
fn usage_keys_match_chrono_formats() {
    let t = ct(2025, 12, 31, 23, 59);
    let keys = extract_usage_keys("bob", &t);
    let dt = chrono::Utc.with_ymd_and_hms(2025, 12, 31, 23, 59, 0).unwrap();
    assert_eq!(keys.input_minute, format!("M:{}:bob:in", dt.format("%Y%m%d%H%M")));
    assert_eq!(keys.input_hour, format!("H:{}:bob:in", dt.format("%Y%m%d%H")));
    assert_eq!(keys.input_day, format!("d:{}:bob:in", dt.format("%Y%m%d")));
    assert_eq!(keys.input_week, format!("W:{}:bob:in", dt.format("%Y%W")));
    assert_eq!(keys.input_month, format!("m:{}:bob:in", dt.format("%Y%m")));
}
