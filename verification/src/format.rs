//! Short texts the client shows: message times, audit-log ages, status names.

use vstd::prelude::*;

use crate::clock::now_secs;
use crate::text::{decimal, push_char, push_decimal, push_str, push_two_digits, two_digits};

verus! {

/// The absolute value of `t`.
pub open spec fn magnitude(t: int) -> nat {
    if t < 0 {
        (-t) as nat
    } else {
        t as nat
    }
}

/// `a / b` as Rust computes it on integers: rounded toward zero.
pub open spec fn div_toward_zero(a: int, b: nat) -> int {
    if a >= 0 {
        a / (b as int)
    } else {
        -((-a) / (b as int))
    }
}

/// A second of the day as `HH:MM`.
pub open spec fn clock_text(secs: nat) -> Seq<char> {
    two_digits(secs / 3600) + seq![':'] + two_digits((secs % 3600) / 60)
}

/// The time of day of a millisecond timestamp, as a message row shows it.
pub open spec fn fmt_ts_spec(ts: i64) -> Seq<char> {
    clock_text(magnitude(div_toward_zero(ts as int, 1000)) % 86400)
}

/// The seconds from a millisecond timestamp to `now` (in seconds), never
/// below zero.
pub open spec fn age_secs(ts: i64, now: i64) -> nat {
    let d = now - div_toward_zero(ts as int, 1000);
    if d < 0 {
        0
    } else {
        d as nat
    }
}

/// How long ago a millisecond timestamp was, seen at `now` (in seconds).
pub open spec fn audit_age_text(ts: i64, now: i64) -> Seq<char> {
    let diff = age_secs(ts, now);
    if diff < 60 {
        decimal(diff) + "s ago"@
    } else if diff < 3600 {
        decimal(diff / 60) + "m ago"@
    } else if diff < 86400 {
        decimal(diff / 3600) + "h ago"@
    } else {
        decimal(diff / 86400) + "d ago"@
    }
}

/// The words shown for a presence status.
pub open spec fn status_label_spec(s: Seq<char>) -> Seq<char> {
    if s == "online"@ {
        "online"@
    } else if s == "idle"@ {
        "idle"@
    } else if s == "dnd"@ {
        "do not disturb"@
    } else if s == "offline"@ {
        "offline"@
    } else {
        s
    }
}

/// `|t| / 1000` for a millisecond timestamp `t`.
fn whole_secs_of(ts: i64) -> (q: u64)
    ensures
        q == magnitude(div_toward_zero(ts as int, 1000)),
        q <= 9_223_372_036_854_776,
{
    let mag: u64 = if ts < 0 {
        ((-(ts + 1)) as u64) + 1
    } else {
        ts as u64
    };
    assert(mag == magnitude(ts as int));
    mag / 1000
}

/// The time of day of a millisecond timestamp as `HH:MM`.
pub fn fmt_ts(ts: i64) -> (r: String)
    ensures
        r@ == fmt_ts_spec(ts),
{
    let secs = whole_secs_of(ts) % 86400;
    let mut s = String::new();
    push_two_digits(&mut s, secs / 3600);
    push_char(&mut s, ':');
    push_two_digits(&mut s, (secs % 3600) / 60);
    assert(s@ =~= fmt_ts_spec(ts));
    s
}

/// How long ago a millisecond timestamp was, seen at `now_secs` seconds since
/// the epoch: seconds, minutes, hours or days, followed by "ago".
pub fn format_audit_age(ts: i64, now_secs: i64) -> (r: String)
    ensures
        r@ == audit_age_text(ts, now_secs),
{
    let q = whole_secs_of(ts);
    let then: i128 = if ts < 0 {
        -(q as i128)
    } else {
        q as i128
    };
    let d: i128 = now_secs as i128 - then;
    let diff: u64 = if d < 0 {
        0
    } else {
        d as u64
    };
    assert(diff == age_secs(ts, now_secs));
    let mut s = String::new();
    if diff < 60 {
        push_decimal(&mut s, diff);
        push_str(&mut s, "s ago");
    } else if diff < 3600 {
        push_decimal(&mut s, diff / 60);
        push_str(&mut s, "m ago");
    } else if diff < 86400 {
        push_decimal(&mut s, diff / 3600);
        push_str(&mut s, "h ago");
    } else {
        push_decimal(&mut s, diff / 86400);
        push_str(&mut s, "d ago");
    }
    assert(s@ =~= audit_age_text(ts, now_secs));
    s
}

/// How long ago an audit-log entry was made, by the wall clock.
pub fn fmt_audit_ts(ts: i64) -> (r: String)
    ensures
        exists|now: i64| r@ == audit_age_text(ts, now),
{
    let now = now_secs();
    let r = format_audit_age(ts, now);
    assert(r@ == audit_age_text(ts, now));
    r
}

/// The words shown for a presence status: "dnd" reads "do not disturb", and an
/// unknown status is shown as it is.
pub fn status_label(status: &str) -> (r: &str)
    ensures
        r@ == status_label_spec(status@),
{
    if status.eq("online") {
        "online"
    } else if status.eq("idle") {
        "idle"
    } else if status.eq("dnd") {
        "do not disturb"
    } else if status.eq("offline") {
        "offline"
    } else {
        status
    }
}

} // verus!
