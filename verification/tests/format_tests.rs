use vnox_ui::format::{fmt_audit_ts, fmt_ts, format_audit_age, status_label};

#[test]
fn fmt_ts_midnight() {
    assert_eq!(fmt_ts(0), "00:00");
}

#[test]
fn fmt_ts_afternoon() {
    // 13:45:30 after midnight, in milliseconds.
    let ts: i64 = (13 * 3600 + 45 * 60 + 30) * 1000;
    assert_eq!(fmt_ts(ts), "13:45");
}

#[test]
fn fmt_ts_wraps_days() {
    let ts: i64 = (86400 + 3600 + 60) * 1000 + 999;
    assert_eq!(fmt_ts(ts), "01:01");
}

#[test]
fn fmt_ts_negative_uses_magnitude() {
    // -(2h 5m) in ms: the magnitude of the whole seconds is shown.
    let ts: i64 = -((2 * 3600 + 5 * 60) * 1000 + 500);
    assert_eq!(fmt_ts(ts), "02:05");
}

#[test]
fn fmt_ts_extremes_have_five_chars() {
    assert_eq!(fmt_ts(i64::MIN).len(), 5);
    assert_eq!(fmt_ts(i64::MAX).len(), 5);
    assert_eq!(&fmt_ts(i64::MAX)[2..3], ":");
}

#[test]
fn audit_age_seconds() {
    assert_eq!(format_audit_age(1_000_000, 1_030), "30s ago");
}

#[test]
fn audit_age_minutes() {
    assert_eq!(format_audit_age(0, 125), "2m ago");
}

#[test]
fn audit_age_hours() {
    assert_eq!(format_audit_age(0, 7200), "2h ago");
}

#[test]
fn audit_age_days() {
    assert_eq!(format_audit_age(0, 3 * 86400 + 5), "3d ago");
}

#[test]
fn audit_age_future_is_zero() {
    assert_eq!(format_audit_age(10_000_000, 5), "0s ago");
}

#[test]
fn audit_age_boundaries() {
    assert_eq!(format_audit_age(0, 59), "59s ago");
    assert_eq!(format_audit_age(0, 60), "1m ago");
    assert_eq!(format_audit_age(0, 3599), "59m ago");
    assert_eq!(format_audit_age(0, 3600), "1h ago");
    assert_eq!(format_audit_age(0, 86399), "23h ago");
    assert_eq!(format_audit_age(0, 86400), "1d ago");
}

#[test]
fn audit_age_negative_timestamp_rounds_toward_zero() {
    // -1500 ms is -1 s (rounded toward zero), so at 10 s the age is 11 s.
    assert_eq!(format_audit_age(-1500, 10), "11s ago");
}

#[test]
fn audit_ts_reads_clock() {
    let s = fmt_audit_ts(0);
    assert!(s.ends_with("d ago"));
}

#[test]
fn status_labels() {
    assert_eq!(status_label("online"), "online");
    assert_eq!(status_label("idle"), "idle");
    assert_eq!(status_label("dnd"), "do not disturb");
    assert_eq!(status_label("offline"), "offline");
    assert_eq!(status_label("invisible"), "invisible");
    assert_eq!(status_label(""), "");
}
