// Tests of the text operations.

use cosmic_applet_notifications::manager::storage::STORAGE_FILE_MODE;
use cosmic_applet_notifications::text::{byte_slice, starts_with};
use cosmic_applet_notifications::time::Timestamp;

#[test]
fn prefixes_are_compared_by_characters() {
    assert!(starts_with("https://a", "https://"));
    assert!(starts_with("abc", ""));
    assert!(starts_with("", ""));
    assert!(starts_with("abc", "abc"));
    assert!(!starts_with("abc", "abcd"));
    assert!(!starts_with("abc", "b"));
    assert!(!starts_with("Abc", "a"));
    assert!(starts_with("éa", "é"));
    assert!(!starts_with("ea", "é"));
}

#[test]
fn slices_are_cut_at_byte_offsets() {
    assert_eq!(byte_slice("hello", 1, 3), "el");
    assert_eq!(byte_slice("hello", 0, 5), "hello");
    assert_eq!(byte_slice("hello", 2, 2), "");
    assert_eq!(byte_slice("aéb", 1, 3), "é");
    assert_eq!(byte_slice("aéb", 3, 4), "b");
    assert_eq!(byte_slice("", 0, 0), "");
}

#[test]
fn the_history_file_is_for_its_owner_only() {
    assert_eq!(STORAGE_FILE_MODE, 0o600);
}

#[test]
fn timestamps_from_nanoseconds() {
    assert_eq!(Timestamp::at_nanos(0), Timestamp::new(0, 0));
    assert_eq!(Timestamp::at_nanos(999_999_999), Timestamp::new(0, 999_999_999));
    assert_eq!(Timestamp::at_nanos(1_000_000_000), Timestamp::new(1, 0));
    assert_eq!(Timestamp::at_nanos(12_345_678_901), Timestamp::new(12, 345_678_901));
    let last = i64::MAX as u128 * 1_000_000_000 + 999_999_999;
    assert_eq!(Timestamp::at_nanos(last), Timestamp::new(i64::MAX, 999_999_999));
    assert_eq!(Timestamp::at_nanos(last + 1), Timestamp::new(i64::MAX, 999_999_999));
    assert_eq!(Timestamp::at_nanos(u128::MAX), Timestamp::new(i64::MAX, 999_999_999));
}

#[test]
fn the_clock_reads_the_present() {
    let before = chrono::Utc::now().timestamp();
    let now = Timestamp::now();
    let after = chrono::Utc::now().timestamp();
    assert!(before <= now.secs && now.secs <= after);
    assert!(now.nanos < 1_000_000_000);
}
