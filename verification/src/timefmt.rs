//! Relative-time labels: a Unix-seconds timestamp is rendered as a coarse,
//! human-readable label ("just now", "<N> mins ago", "<N> hrs ago",
//! "<N> days ago"), with explicit sentinels for unparsable or unrepresentable
//! timestamps and a floor at zero for timestamps in the future.

use vstd::prelude::*;
use vstd::string::*;
use chrono::TimeZone;

use crate::numtext::{dec_digits, parse_i64_spec, parse_i64, u64_to_string};

verus! {

/// Whether chrono can represent a timestamp of this many whole seconds.
pub uninterp spec fn chrono_ts_ok(secs: int) -> bool;

/// Relies on chrono's `TimeZone::timestamp_opt`: with a zero nanosecond part it
/// returns `None` exactly on an out-of-range number of seconds and `Single`
/// otherwise, a function of `secs` alone.
#[verifier::external_body]
fn timestamp_representable(secs: i64) -> (r: bool)
    ensures
        r == chrono_ts_ok(secs as int),
{
    chrono::Utc.timestamp_opt(secs, 0).single().is_some()
}

/// Relies on chrono's `Utc::now`, read as whole seconds since the Unix epoch;
/// nothing is assumed of the clock's value.
#[verifier::external_body]
pub(crate) fn now_unix_seconds() -> i64 {
    chrono::Utc::now().timestamp()
}

/// The label for a non-negative number of elapsed seconds: the first matching
/// bucket of minutes, hours, then days, with whole units elapsed.
pub open spec fn bucket_label(delta: int) -> Seq<char>
    recommends
        0 <= delta,
{
    if delta < 60 {
        "just now"@
    } else if delta < 3600 {
        dec_digits((delta / 60) as nat) + " mins ago"@
    } else if delta < 86400 {
        dec_digits((delta / 3600) as nat) + " hrs ago"@
    } else {
        dec_digits((delta / 86400) as nat) + " days ago"@
    }
}

/// The label for a timestamp string at a given current time: the sentinel when
/// the string does not parse as seconds or the seconds are unrepresentable,
/// otherwise the bucket of the elapsed time, floored at zero for future
/// timestamps.
pub open spec fn time_ago_spec(uts: Seq<char>, now: int) -> Seq<char> {
    match parse_i64_spec(uts) {
        None => "Invalid timestamp"@,
        Some(t) => if !chrono_ts_ok(t) {
            "Invalid timestamp"@
        } else {
            bucket_label(if now >= t { now - t } else { 0 })
        },
    }
}

/// Renders the relative-time label of `uts` as seen from `now_seconds`.
pub fn format_time_ago_at(uts: &str, now_seconds: i64) -> (r: String)
    ensures
        r@ == time_ago_spec(uts@, now_seconds as int),
{
    let t = match parse_i64(uts) {
        None => {
            return String::from_str("Invalid timestamp");
        },
        Some(t) => t,
    };
    if !timestamp_representable(t) {
        return String::from_str("Invalid timestamp");
    }
    let delta: u64 = if now_seconds >= t {
        ((now_seconds as i128) - (t as i128)) as u64
    } else {
        0
    };
    if delta < 60 {
        String::from_str("just now")
    } else if delta < 3600 {
        let mut s = u64_to_string(delta / 60);
        s.append(" mins ago");
        s
    } else if delta < 86400 {
        let mut s = u64_to_string(delta / 3600);
        s.append(" hrs ago");
        s
    } else {
        let mut s = u64_to_string(delta / 86400);
        s.append(" days ago");
        s
    }
}

/// Renders the relative-time label of `uts` as seen from the current clock:
/// an unparsable or unrepresentable timestamp gives the sentinel, any other
/// gives some elapsed-time bucket.
pub fn format_time_ago(uts: &str) -> (r: String)
    ensures
        parse_i64_spec(uts@) is None ==> r@ == "Invalid timestamp"@,
        parse_i64_spec(uts@) matches Some(t) && !chrono_ts_ok(t) ==> r@ == "Invalid timestamp"@,
        parse_i64_spec(uts@) matches Some(t) && chrono_ts_ok(t) ==> (exists|d: int|
            0 <= d && r@ == bucket_label(d)),
{
    let now = now_unix_seconds();
    let r = format_time_ago_at(uts, now);
    proof {
        if parse_i64_spec(uts@) is Some {
            let pt = parse_i64_spec(uts@)->0;
            if chrono_ts_ok(pt) {
                let d: int = if now >= pt {
                    now - pt
                } else {
                    0
                };
                assert(0 <= d && r@ == bucket_label(d));
            }
        }
    }
    r
}

/// An unparsable timestamp string always gives the sentinel label.
pub proof fn lemma_time_ago_unparsable(uts: Seq<char>, now: int)
    requires
        parse_i64_spec(uts) is None,
    ensures
        time_ago_spec(uts, now) == "Invalid timestamp"@,
{
}

/// A parsable timestamp in the future gives "just now": no negative elapsed
/// time surfaces.
pub proof fn lemma_time_ago_future_is_just_now(uts: Seq<char>, now: int, t: int)
    requires
        parse_i64_spec(uts) == Some(t),
        chrono_ts_ok(t),
        t > now,
    ensures
        time_ago_spec(uts, now) == "just now"@,
{
}

/// A parsable, representable timestamp no later than `now` is bucketed by its
/// elapsed seconds: exactly one of the four label shapes, whose count of whole
/// minutes, hours or days is positive and correct for its bucket.
pub proof fn lemma_time_ago_past_bucketed(uts: Seq<char>, now: int, t: int)
    requires
        parse_i64_spec(uts) == Some(t),
        chrono_ts_ok(t),
        t <= now,
    ensures
        time_ago_spec(uts, now) == bucket_label(now - t),
        now - t < 60 ==> time_ago_spec(uts, now) == "just now"@,
        60 <= now - t < 3600 ==> time_ago_spec(uts, now) == dec_digits(
            ((now - t) / 60) as nat,
        ) + " mins ago"@ && 1 <= (now - t) / 60 <= 59,
        3600 <= now - t < 86400 ==> time_ago_spec(uts, now) == dec_digits(
            ((now - t) / 3600) as nat,
        ) + " hrs ago"@ && 1 <= (now - t) / 3600 <= 23,
        86400 <= now - t ==> time_ago_spec(uts, now) == dec_digits(
            ((now - t) / 86400) as nat,
        ) + " days ago"@ && 1 <= (now - t) / 86400,
{
}

} // verus!
