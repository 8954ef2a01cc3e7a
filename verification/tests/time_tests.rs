use rte_api::time::{parse_timestamp, DateRange, FormatToApiFmt, Timestamp};

fn ts(year: u32, month: u32, day: u32, hour: u32, minute: u32, second: u32) -> Timestamp {
    Timestamp { year, month, day, hour, minute, second, offset_minutes: 0 }
}

#[test]
fn api_format_is_zero_padded_with_utc_offset() {
    let t = ts(2023, 6, 1, 5, 4, 3);
    assert_eq!(t.api_format(), "2023-06-01T05:04:03+00:00");
}

#[test]
fn api_format_pads_small_years() {
    let t = ts(987, 12, 31, 23, 59, 59);
    assert_eq!(t.api_format(), "0987-12-31T23:59:59+00:00");
}

#[test]
fn trait_format_matches_inherent_format() {
    let t = ts(2024, 1, 2, 0, 0, 0);
    assert_eq!(t.to_api_format(), t.api_format());
}

#[test]
fn window_encodes_to_exactly_two_ordered_pairs() {
    let d = DateRange { start: ts(2023, 6, 1, 0, 0, 0), end: ts(2023, 6, 1, 23, 0, 0) };
    let q = d.to_query_string();
    assert_eq!(q.len(), 2);
    assert_eq!(q[0].0, "start_date");
    assert_eq!(q[0].1, "2023-06-01T00:00:00+00:00");
    assert_eq!(q[1].0, "end_date");
    assert_eq!(q[1].1, "2023-06-01T23:00:00+00:00");
}

#[test]
fn parse_accepts_utc_offset() {
    let t = parse_timestamp("2023-06-01T12:30:45+00:00").unwrap();
    assert_eq!(t, ts(2023, 6, 1, 12, 30, 45));
}

#[test]
fn parse_accepts_zulu() {
    let t = parse_timestamp("2023-06-01T12:30:45Z").unwrap();
    assert_eq!(t.offset_minutes, 0);
    assert_eq!(t.hour, 12);
}

#[test]
fn parse_keeps_positive_offset() {
    let t = parse_timestamp("2023-06-01T00:00:00+02:00").unwrap();
    assert_eq!(t.offset_minutes, 120);
    assert_eq!(t.hour, 0);
}

#[test]
fn parse_keeps_negative_offset() {
    let t = parse_timestamp("2023-06-01T06:00:00-05:30").unwrap();
    assert_eq!(t.offset_minutes, -330);
}

#[test]
fn parse_rejects_malformed_text() {
    assert!(parse_timestamp("").is_none());
    assert!(parse_timestamp("2023-06-01").is_none());
    assert!(parse_timestamp("2023-06-01 12:30:45+00:00").is_none());
    assert!(parse_timestamp("2023-06-01T12:30:45").is_none());
    assert!(parse_timestamp("2023-06-01T12:30:45+0000").is_none());
    assert!(parse_timestamp("not-a-timestamp-at-all-xx").is_none());
}

#[test]
fn parse_rejects_out_of_range_fields() {
    assert!(parse_timestamp("2023-13-01T12:30:45+00:00").is_none());
    assert!(parse_timestamp("2023-00-01T12:30:45+00:00").is_none());
    assert!(parse_timestamp("2023-06-32T12:30:45+00:00").is_none());
    assert!(parse_timestamp("2023-06-01T24:30:45+00:00").is_none());
    assert!(parse_timestamp("2023-06-01T12:60:45+00:00").is_none());
    assert!(parse_timestamp("2023-06-01T12:30:60+00:00").is_none());
    assert!(parse_timestamp("2023-06-01T12:30:45+24:00").is_none());
}

#[test]
fn format_then_parse_is_identity() {
    let t = ts(2023, 6, 1, 5, 4, 3);
    assert_eq!(parse_timestamp(&t.api_format()).unwrap(), t);
}
