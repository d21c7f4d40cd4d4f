use dcp::clock::{
    convert_str_time_to_timestamp, get_string_time, get_timestamp, read_stored_time, StoredTime,
    MAX_OFFSET_SECONDS, MAX_UNIX_TIMESTAMP, MIN_UNIX_TIMESTAMP,
};

#[test]
fn timestamp_of_epoch_is_zero() {
    assert_eq!(get_timestamp(time::OffsetDateTime::UNIX_EPOCH), 0);
}

#[test]
fn timestamp_of_known_instant() {
    let instant = time::OffsetDateTime::from_unix_timestamp(1_700_000_000).unwrap();
    assert_eq!(get_timestamp(instant), 1_700_000_000);
    let shifted = instant.to_offset(time::UtcOffset::from_whole_seconds(-18_000).unwrap());
    assert_eq!(get_timestamp(shifted), 1_700_000_000);
}

#[test]
fn string_time_of_epoch_in_utc() {
    assert_eq!(get_string_time(0, 0), "1970-01-01 00:00");
}

#[test]
fn string_time_is_local_wall_clock() {
    // 2023-11-14 22:13:20 UTC
    assert_eq!(get_string_time(1_700_000_000, 0), "2023-11-14 22:13");
    assert_eq!(get_string_time(1_700_000_000, 3_600), "2023-11-14 23:13");
    assert_eq!(get_string_time(1_700_000_000, -23 * 3_600), "2023-11-13 23:13");
}

#[test]
fn string_time_out_of_range_is_invalid() {
    assert_eq!(get_string_time(i64::MAX, 0), "Invalid date");
    assert_eq!(get_string_time(MAX_UNIX_TIMESTAMP + 1, 0), "Invalid date");
    assert_eq!(get_string_time(MIN_UNIX_TIMESTAMP - 1, 3_600), "Invalid date");
}

#[test]
fn string_time_at_range_edges() {
    assert_eq!(get_string_time(MAX_UNIX_TIMESTAMP, 0), "9999-12-31 23:59");
    assert_eq!(get_string_time(MIN_UNIX_TIMESTAMP, 0), "-9999-01-01 00:00");
}

#[test]
fn convert_reads_stored_time() {
    assert_eq!(convert_str_time_to_timestamp("2023-11-14 22:13:20", 0), Some(1_700_000_000));
    assert_eq!(convert_str_time_to_timestamp("1970-01-01 00:00:00", 0), Some(0));
}

#[test]
fn convert_ignores_offset() {
    let text = "2023-11-14 22:13:20";
    let at_utc = convert_str_time_to_timestamp(text, 0);
    assert_eq!(convert_str_time_to_timestamp(text, 7_200), at_utc);
    assert_eq!(convert_str_time_to_timestamp(text, -MAX_OFFSET_SECONDS), at_utc);
}

#[test]
fn convert_rejects_other_text() {
    assert_eq!(convert_str_time_to_timestamp("yesterday", 0), None);
    assert_eq!(convert_str_time_to_timestamp("2023-11-14 22:13", 0), None);
    assert_eq!(convert_str_time_to_timestamp("2023-13-14 22:13:20", 0), None);
    assert_eq!(convert_str_time_to_timestamp("", 3_600), None);
}

#[test]
fn read_stored_time_reports_each_case() {
    assert_eq!(read_stored_time("2023-11-14 22:13:20", 3_600), StoredTime::At(1_700_000_000));
    assert_eq!(read_stored_time("not a time", 3_600), StoredTime::Unreadable);
    assert_eq!(read_stored_time("9999-12-31 23:00:00", 7_200), StoredTime::OutsideLocalRange);
    assert_eq!(read_stored_time("9999-12-31 23:00:00", 0), StoredTime::At(253_402_297_200));
    assert_eq!(read_stored_time("-9999-01-01 00:30:00", -3_600), StoredTime::OutsideLocalRange);
}

#[test]
fn formatted_time_is_never_invalid_date() {
    for ts in [0, 1_700_000_000, MIN_UNIX_TIMESTAMP, MAX_UNIX_TIMESTAMP, -1, 86_399] {
        let text = get_string_time(ts, 0);
        assert!(text.chars().count() >= 16, "{:?}", text);
        assert_ne!(text, "Invalid date");
    }
}

#[test]
fn stored_row_reads_back() {
    // The text SQLite's datetime(1700000000, 'unixepoch') writes.
    for offset in [0, 3_600, -MAX_OFFSET_SECONDS, MAX_OFFSET_SECONDS] {
        assert_eq!(read_stored_time("2023-11-14 22:13:20", offset), StoredTime::At(1_700_000_000));
    }
}
