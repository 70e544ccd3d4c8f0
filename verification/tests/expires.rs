use token_cache::expires::{
    expires_header, expiry_wall_second, RFC2822_MAX_SECS, RFC2822_MIN_SECS,
};

#[test]
fn header_of_the_epoch() {
    assert_eq!(expires_header(0, 0, 0), Some(String::from("Thu, 1 Jan 1970 00:00:00 +0000")));
}

#[test]
fn header_adds_the_remaining_validity_to_the_wall_clock() {
    assert_eq!(
        expires_header(1_431_648_000, 0, 900_000_000_000),
        Some(String::from("Fri, 15 May 2015 00:15:00 +0000"))
    );
    assert_eq!(
        expires_header(1_057_056_757, 0, 0),
        Some(String::from("Tue, 1 Jul 2003 10:52:37 +0000"))
    );
}

#[test]
fn header_carries_nanoseconds_into_the_next_second() {
    assert_eq!(expiry_wall_second(10, 999_999_999, 1), Some(11));
    assert_eq!(expiry_wall_second(10, 999_999_999, 0), Some(10));
    assert_eq!(expiry_wall_second(10, 500_000_000, 1_499_999_999), Some(11));
    assert_eq!(expiry_wall_second(10, 500_000_000, 1_500_000_000), Some(12));
    assert_eq!(
        expires_header(0, 999_999_999, 1),
        Some(String::from("Thu, 1 Jan 1970 00:00:01 +0000"))
    );
}

#[test]
fn header_needs_a_proper_reading_of_the_wall_clock() {
    assert_eq!(expiry_wall_second(0, 1_000_000_000, 0), None);
    assert_eq!(expires_header(0, 1_000_000_000, 0), None);
    assert_eq!(expires_header(0, u32::MAX, 0), None);
}

#[test]
fn header_covers_the_years_zero_to_9999() {
    assert_eq!(
        expires_header(RFC2822_MIN_SECS, 0, 0),
        Some(String::from("Sat, 1 Jan 0000 00:00:00 +0000"))
    );
    assert_eq!(
        expires_header(RFC2822_MAX_SECS, 999_999_999, 0),
        Some(String::from("Fri, 31 Dec 9999 23:59:59 +0000"))
    );
    assert_eq!(expiry_wall_second(RFC2822_MAX_SECS - 1, 0, 1_000_000_000), Some(RFC2822_MAX_SECS));
}

#[test]
fn header_is_absent_outside_the_years_zero_to_9999() {
    assert_eq!(expires_header(RFC2822_MIN_SECS - 1, 0, 0), None);
    assert_eq!(expires_header(RFC2822_MAX_SECS, 0, 1_000_000_000), None);
    assert_eq!(expires_header(RFC2822_MAX_SECS, 999_999_999, 1), None);
    assert_eq!(expires_header(i64::MAX, 999_999_999, u64::MAX), None);
    assert_eq!(expires_header(i64::MIN, 0, u64::MAX), None);
}

#[test]
fn remaining_validity_can_bring_an_early_reading_into_range() {
    assert_eq!(
        expiry_wall_second(RFC2822_MIN_SECS - 5, 0, 10_000_000_000),
        Some(RFC2822_MIN_SECS + 5)
    );
}
