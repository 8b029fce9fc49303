use lc_backup::backup::backup_file_name;
use lc_backup::backup::is_backup_name;
use lc_backup::backup::restore_target_name;
use lc_backup::clock::Timestamp;
use lc_backup::clock::current_timestamp;
use lc_backup::clock::timestamp_from_fields;

fn stamp(year: u32, month: u32, day: u32, hour: u32, minute: u32, second: u32) -> Timestamp {
    Timestamp { year, month, day, hour, minute, second }
}

#[test]
fn backup_name_carries_save_name_and_timestamp() {
    let t = stamp(2024, 3, 16, 18, 21, 28);
    let name = backup_file_name("LCSaveFile2", &t);
    assert_eq!(name, "BKP_LCSaveFile2_2024-03-16_18-21-28");
}

#[test]
fn backup_name_zero_pads_every_field() {
    let t = stamp(987, 1, 2, 3, 4, 5);
    let name = backup_file_name("LCSaveFile1", &t);
    assert_eq!(name, "BKP_LCSaveFile1_0987-01-02_03-04-05");
}

#[test]
fn restore_target_is_second_segment() {
    let target = restore_target_name("BKP_LCSaveFile2_2024-03-16_18-21-28");
    assert_eq!(target, "LCSaveFile2");
}

#[test]
fn restore_target_without_further_separator() {
    assert_eq!(restore_target_name("BKP_abc"), "abc");
    assert_eq!(restore_target_name("BKP_"), "");
}

#[test]
fn round_trip_returns_to_the_same_save() {
    let t = stamp(2026, 10, 9, 7, 0, 59);
    let backup = backup_file_name("LCSaveFile3", &t);
    assert!(is_backup_name(backup.as_str()));
    assert_eq!(restore_target_name(backup.as_str()), "LCSaveFile3");
}

#[test]
fn plain_save_name_is_no_restore_argument() {
    assert!(!is_backup_name("LCSaveFile2"));
    assert!(!is_backup_name(""));
    assert!(!is_backup_name("BKP"));
    assert!(is_backup_name("BKP_LCSaveFile2_2024-03-16_18-21-28"));
}

#[test]
fn four_digit_years_make_a_timestamp() {
    let t = timestamp_from_fields(2024, 3, 16, 18, 21, 28).unwrap();
    assert_eq!(t, stamp(2024, 3, 16, 18, 21, 28));
    let earliest = timestamp_from_fields(0, 1, 1, 0, 0, 0).unwrap();
    assert_eq!(earliest.year, 0);
    let latest = timestamp_from_fields(9999, 12, 31, 23, 59, 59).unwrap();
    assert_eq!(latest.year, 9999);
}

#[test]
fn out_of_range_years_make_no_timestamp() {
    assert_eq!(timestamp_from_fields(-1, 3, 16, 18, 21, 28), None);
    assert_eq!(timestamp_from_fields(10000, 3, 16, 18, 21, 28), None);
}

#[test]
fn clock_reports_calendar_fields_in_range() {
    let t = current_timestamp().expect("the clock year fits four digits");
    assert!(t.year <= 9999);
    assert!((1..=12).contains(&t.month));
    assert!((1..=31).contains(&t.day));
    assert!(t.hour <= 23);
    assert!(t.minute <= 59);
    assert!(t.second <= 59);
    assert!(t.year >= 2024);
}
