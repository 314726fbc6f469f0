use chrono::{TimeZone, Utc};
use zap::errors::ZapError;
use zap::file_time_util::{adjusted_times, AdjustableFileTime, FileTimeSpec, TimeUpdate};

fn jan_first_noon() -> chrono::DateTime<Utc> {
    Utc.with_ymd_and_hms(2023, 1, 1, 12, 0, 0).unwrap()
}

fn file_time(dt: chrono::DateTime<Utc>) -> AdjustableFileTime {
    AdjustableFileTime::from_unix_time(dt.timestamp(), dt.timestamp_subsec_nanos())
}

#[test]
fn test_datetime_conversion() {
    let dt = jan_first_noon();
    let adjustable = file_time(dt);
    let converted_back =
        Utc.timestamp_opt(adjustable.unix_seconds(), adjustable.nanoseconds()).unwrap();

    assert_eq!(dt.timestamp(), converted_back.timestamp());
}

#[test]
fn test_time_adjustment() {
    let dt = jan_first_noon();
    let adjustable = file_time(dt);

    let adjusted = adjustable.adjust_by_seconds(3600).unwrap();

    assert_eq!(adjusted.unix_seconds(), dt.timestamp() + 3600);
}

#[test]
fn test_negative_adjustment() {
    let dt = jan_first_noon();
    let adjustable = file_time(dt);

    let adjusted = adjustable.adjust_by_seconds(-1800).unwrap();

    assert_eq!(adjusted.unix_seconds(), dt.timestamp() - 1800);
}

#[test]
fn test_file_time_spec_both() {
    let dt = jan_first_noon();
    let spec = FileTimeSpec::both(file_time(dt));

    assert!(spec.atime.is_some());
    assert!(spec.mtime.is_some());
    assert_eq!(spec.atime.unwrap().unix_seconds(), dt.timestamp());
    assert_eq!(spec.mtime.unwrap().unix_seconds(), dt.timestamp());
}

#[test]
fn test_file_time_spec_access_only() {
    let dt = jan_first_noon();
    let spec = FileTimeSpec::access_only(file_time(dt));

    assert!(spec.atime.is_some());
    assert!(spec.mtime.is_none());
    assert_eq!(spec.atime.unwrap().unix_seconds(), dt.timestamp());
}

#[test]
fn test_file_time_spec_modification_only() {
    let dt = jan_first_noon();
    let spec = FileTimeSpec::modification_only(file_time(dt));

    assert!(spec.atime.is_none());
    assert!(spec.mtime.is_some());
    assert_eq!(spec.mtime.unwrap().unix_seconds(), dt.timestamp());
}

#[test]
fn test_file_time_spec_from_datetime() {
    let dt = jan_first_noon();
    let spec = FileTimeSpec::both(file_time(dt));

    assert!(spec.atime.is_some());
    assert!(spec.mtime.is_some());
    assert_eq!(spec.atime.unwrap().unix_seconds(), dt.timestamp());
    assert_eq!(spec.mtime.unwrap().unix_seconds(), dt.timestamp());
}

#[test]
fn test_file_time_spec_with_flags() {
    let spec = FileTimeSpec::both(file_time(jan_first_noon()));

    let access_only = spec.with_flags(true, false);
    assert!(access_only.atime.is_some());
    assert!(access_only.mtime.is_none());

    let mtime_only = spec.with_flags(false, true);
    assert!(mtime_only.atime.is_none());
    assert!(mtime_only.mtime.is_some());

    let both = spec.with_flags(true, true);
    assert!(both.atime.is_some());
    assert!(both.mtime.is_some());

    let neither = spec.with_flags(false, false);
    assert!(neither.atime.is_none());
    assert!(neither.mtime.is_none());
}

#[test]
fn test_file_time_spec_has_any_time() {
    let t = file_time(jan_first_noon());

    assert!(FileTimeSpec::both(t).has_any_time());
    assert!(FileTimeSpec::access_only(t).has_any_time());
    assert!(FileTimeSpec::modification_only(t).has_any_time());

    let neither = FileTimeSpec { atime: None, mtime: None };
    assert!(!neither.has_any_time());
}

#[test]
fn test_file_time_spec_adjust_by_string() {
    let dt = jan_first_noon();
    let spec = FileTimeSpec::both(file_time(dt));

    let adjusted = spec.adjust_by_string("010101").unwrap(); // 3661 seconds
    assert!(adjusted.atime.is_some());
    assert!(adjusted.mtime.is_some());
    assert_eq!(adjusted.atime.unwrap().unix_seconds(), dt.timestamp() + 3661);
    assert_eq!(adjusted.mtime.unwrap().unix_seconds(), dt.timestamp() + 3661);

    let access_only = FileTimeSpec::access_only(file_time(dt));
    let adjusted_access = access_only.adjust_by_string("-3001").unwrap(); // -1801 seconds
    assert!(adjusted_access.atime.is_some());
    assert!(adjusted_access.mtime.is_none());
    assert_eq!(adjusted_access.atime.unwrap().unix_seconds(), dt.timestamp() - 1801);
}

#[test]
fn adjustment_keeps_the_nanoseconds() {
    let t = AdjustableFileTime::from_unix_time(100, 250);
    let moved = t.adjust_by_seconds(20).unwrap();
    assert_eq!(moved, AdjustableFileTime::from_unix_time(120, 250));
}

#[test]
fn adjustment_past_the_range_overflows() {
    let t = AdjustableFileTime::from_unix_time(i64::MAX - 10, 0);
    assert!(matches!(t.adjust_by_seconds(11), Err(ZapError::TimeAdjustmentOverflow)));
    assert_eq!(t.adjust_by_seconds(10).unwrap().unix_seconds(), i64::MAX);

    let low = AdjustableFileTime::from_unix_time(i64::MIN + 5, 0);
    assert!(matches!(low.adjust_by_seconds(-6), Err(ZapError::TimeAdjustmentUnderflow)));
    assert!(matches!(
        FileTimeSpec::both(low).adjust_by_string("-10"),
        Err(ZapError::TimeAdjustmentUnderflow)
    ));
}

#[test]
fn malformed_adjustment_string_is_reported() {
    let t = AdjustableFileTime::from_unix_time(0, 0);
    match t.adjust_by_string("123") {
        Err(ZapError::TimeAdjustmentParse(input)) => assert_eq!(input, "123"),
        other => panic!("unexpected {:?}", other),
    }
    assert!(matches!(
        FileTimeSpec::both(t).adjust_by_string("1a"),
        Err(ZapError::TimeAdjustmentParse(_))
    ));
}

#[test]
fn adjusting_twice_equals_adjusting_by_the_sum() {
    let spec = FileTimeSpec::from_times(
        AdjustableFileTime::from_unix_time(1_000_000, 5),
        AdjustableFileTime::from_unix_time(2_000_000, 7),
    );
    let twice = spec.adjust_by_string("010000").unwrap().adjust_by_string("-3001").unwrap();
    let once = spec.adjust_by_seconds(3600 - 1801).unwrap();
    assert_eq!(twice, once);
}

#[test]
fn selection_is_idempotent_and_clears_modification() {
    let spec = FileTimeSpec::from_times(
        AdjustableFileTime::from_unix_time(10, 0),
        AdjustableFileTime::from_unix_time(20, 0),
    );
    let once = spec.with_flags(true, false);
    assert_eq!(once.mtime, None);
    assert_eq!(once.atime, Some(AdjustableFileTime::from_unix_time(10, 0)));
    assert_eq!(once.with_flags(true, false), once);
}

#[test]
fn adjustment_of_current_times_access_only() {
    // An existing file adjusted by an hour with only the access time selected.
    let current = FileTimeSpec::from_times(
        AdjustableFileTime::from_unix_time(1_672_574_400, 0),
        AdjustableFileTime::from_unix_time(1_672_000_000, 0),
    );
    let adjusted = adjusted_times(current, "010000", true, false).unwrap();
    assert_eq!(adjusted.atime, Some(AdjustableFileTime::from_unix_time(1_672_578_000, 0)));
    assert_eq!(adjusted.mtime, None);
    assert_eq!(
        adjusted.time_update(),
        TimeUpdate::AccessOnly { atime: AdjustableFileTime::from_unix_time(1_672_578_000, 0) }
    );
}

#[test]
fn time_update_picks_one_combined_call() {
    let a = AdjustableFileTime::from_unix_time(1, 0);
    let m = AdjustableFileTime::from_unix_time(2, 0);
    assert_eq!(FileTimeSpec::from_times(a, m).time_update(), TimeUpdate::Both { atime: a, mtime: m });
    assert_eq!(FileTimeSpec::modification_only(m).time_update(), TimeUpdate::ModificationOnly { mtime: m });
    assert_eq!(FileTimeSpec { atime: None, mtime: None }.time_update(), TimeUpdate::Nothing);
}

#[test]
fn now_reads_the_clock() {
    let before = Utc::now().timestamp();
    let spec = FileTimeSpec::now();
    let after = Utc::now().timestamp();
    let t = spec.atime.unwrap();
    assert_eq!(spec.atime, spec.mtime);
    assert!(before <= t.unix_seconds() && t.unix_seconds() <= after);
}
