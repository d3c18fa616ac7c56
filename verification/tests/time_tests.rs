use modsupdater::time::{report_file_name, Timestamp, FILE_TIME_PATTERN, MAX_UNIX_SECS, MIN_UNIX_SECS, REPORT_TIME_PATTERN};

#[test]
fn range_matches_chrono() {
    assert_eq!(chrono::DateTime::<chrono::Utc>::MIN_UTC.timestamp(), MIN_UNIX_SECS);
    assert_eq!(chrono::DateTime::<chrono::Utc>::MAX_UTC.timestamp(), MAX_UNIX_SECS);
    assert!(Timestamp::from_unix(MIN_UNIX_SECS, 0).is_some());
    assert!(Timestamp::from_unix(MAX_UNIX_SECS, 999_999_999).is_some());
    assert!(Timestamp::from_unix(MIN_UNIX_SECS - 1, 0).is_none());
    assert!(Timestamp::from_unix(MAX_UNIX_SECS + 1, 0).is_none());
    assert!(chrono::DateTime::from_timestamp(MIN_UNIX_SECS - 1, 0).is_none());
    assert!(chrono::DateTime::from_timestamp(MAX_UNIX_SECS + 1, 0).is_none());
}

#[test]
fn leap_second_nanos() {
    assert!(Timestamp::from_unix(59, 1_500_000_000).is_some());
    assert!(Timestamp::from_unix(58, 1_500_000_000).is_none());
    assert!(Timestamp::from_unix(-1, 1_500_000_000).is_some());
    assert!(Timestamp::from_unix(59, 2_000_000_000).is_none());
    for secs in [-61i64, -1, 0, 59, 119] {
        for nanos in [0u32, 999_999_999, 1_000_000_000, 1_999_999_999, 2_000_000_000] {
            assert_eq!(
                Timestamp::from_unix(secs, nanos).is_some(),
                chrono::DateTime::from_timestamp(secs, nanos).is_some(),
                "{} {}", secs, nanos
            );
        }
    }
}

#[test]
fn formats_instants() {
    let t = Timestamp::from_unix(947_638_923, 4_000_000).unwrap();
    assert_eq!(t.format(REPORT_TIME_PATTERN), "2000-01-12 01:02:03 UTC");
    assert_eq!(t.format(FILE_TIME_PATTERN), "20000112-010203");
    assert_eq!(report_file_name(&t, ".json"), "report-20000112-010203.json");
    assert_eq!(t.unix_secs(), 947_638_923);
    assert_eq!(t.subsec_nanos(), 4_000_000);
}
