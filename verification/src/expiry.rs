//! Classifying the account's expiry deadline.
//!
//! The fetched configuration may carry a deadline as free-form text. It is
//! parsed by trying a fixed list of formats in order, then an RFC 3339
//! timestamp, then a bare date taken to expire at the end of that day.
//! The parsed deadline and the current time are compared at whole-second
//! resolution and the remaining time falls into one of three classes:
//! already expired, expiring within a day, or valid for longer.

use vstd::prelude::*;

verus! {

/// Seconds in one hour.
pub const SECS_PER_HOUR: u64 = 3600;

/// Seconds in one day: the expiring-soon horizon.
pub const SECS_PER_DAY: u64 = 86400;

/// What a datetime parse of the given text with the given format yields:
/// seconds since the epoch of the parsed calendar time, or nothing when
/// the text does not match the format.
pub uninterp spec fn ndt_parse_ts(s: Seq<char>, fmt: Seq<char>) -> Option<i64>;

/// What an RFC 3339 parse of the given text yields, shifted to the local
/// calendar time the text itself names: seconds since the epoch of that
/// calendar time, or nothing when the text is not an RFC 3339 timestamp.
pub uninterp spec fn rfc3339_local_ts(s: Seq<char>) -> Option<i64>;

/// What a bare `year-month-day` parse of the given text yields, taken at
/// one second before the following midnight: seconds since the epoch of
/// that calendar time, or nothing when the text is not such a date.
pub uninterp spec fn date_eod_ts(s: Seq<char>) -> Option<i64>;

/// Relies on chrono::NaiveDateTime::parse_from_str: the parse is a pure
/// function of the text and the format string, here reduced to epoch
/// seconds of the parsed calendar time.
#[verifier::external_body]
fn parse_datetime_fmt(s: &str, fmt: &str) -> (r: Option<i64>)
    ensures
        r == ndt_parse_ts(s@, fmt@),
{
    chrono::NaiveDateTime::parse_from_str(s, fmt).ok().map(|dt| dt.and_utc().timestamp())
}

/// Relies on chrono::DateTime::parse_from_rfc3339: the parse, and the
/// shift to the offset the text itself carries, are pure functions of the
/// text, here reduced to epoch seconds of the named local calendar time.
#[verifier::external_body]
fn parse_rfc3339_local(s: &str) -> (r: Option<i64>)
    ensures
        r == rfc3339_local_ts(s@),
{
    chrono::DateTime::parse_from_rfc3339(s).ok().map(
        |dt| dt.naive_local().and_utc().timestamp(),
    )
}

/// Relies on chrono::NaiveDate::parse_from_str: the parse is a pure
/// function of the text, here taken at 23:59:59 of the parsed day and
/// reduced to epoch seconds.
#[verifier::external_body]
fn parse_date_end_of_day(s: &str) -> (r: Option<i64>)
    ensures
        r == date_eod_ts(s@),
{
    chrono::NaiveDate::parse_from_str(s, "%Y-%m-%d").ok().and_then(
        |d| d.and_hms_opt(23, 59, 59),
    ).map(|dt| dt.and_utc().timestamp())
}

/// Relies on chrono::Local::now: the current local calendar time, reduced
/// to epoch seconds. The value depends on the clock and the machine's
/// time zone, so nothing is promised of it.
#[verifier::external_body]
fn now_local_timestamp() -> i64 {
    chrono::Local::now().naive_local().and_utc().timestamp()
}

/// The deadline the flexible parse assigns to the text: the first datetime
/// format that matches wins, then the RFC 3339 reading, then the bare date
/// taken at the end of its day.
pub open spec fn spec_flexible_date(s: Seq<char>) -> Option<i64> {
    if ndt_parse_ts(s, "%Y-%m-%d / %H:%M:%S"@) is Some {
        ndt_parse_ts(s, "%Y-%m-%d / %H:%M:%S"@)
    } else if ndt_parse_ts(s, "%Y-%m-%d %H:%M:%S"@) is Some {
        ndt_parse_ts(s, "%Y-%m-%d %H:%M:%S"@)
    } else if ndt_parse_ts(s, "%Y-%m-%dT%H:%M:%S"@) is Some {
        ndt_parse_ts(s, "%Y-%m-%dT%H:%M:%S"@)
    } else if ndt_parse_ts(s, "%Y/%m/%d %H:%M:%S"@) is Some {
        ndt_parse_ts(s, "%Y/%m/%d %H:%M:%S"@)
    } else if rfc3339_local_ts(s) is Some {
        rfc3339_local_ts(s)
    } else {
        date_eod_ts(s)
    }
}

/// Parses a deadline text, trying the formats in their fixed order.
pub fn parse_flexible_date(s: &str) -> (r: Option<i64>)
    ensures
        r == spec_flexible_date(s@),
{
    if let Some(t) = parse_datetime_fmt(s, "%Y-%m-%d / %H:%M:%S") {
        return Some(t);
    }
    if let Some(t) = parse_datetime_fmt(s, "%Y-%m-%d %H:%M:%S") {
        return Some(t);
    }
    if let Some(t) = parse_datetime_fmt(s, "%Y-%m-%dT%H:%M:%S") {
        return Some(t);
    }
    if let Some(t) = parse_datetime_fmt(s, "%Y/%m/%d %H:%M:%S") {
        return Some(t);
    }
    if let Some(t) = parse_rfc3339_local(s) {
        return Some(t);
    }
    parse_date_end_of_day(s)
}

/// How an expiry check turns out.
#[derive(Clone, Copy, Debug, PartialEq, Eq, Structural)]
pub enum ExpiryReport {
    /// No deadline is configured: nothing to check.
    NoDeadline,
    /// The deadline text matched none of the accepted formats.
    Unparseable,
    /// The deadline lies a whole hour or more in the past.
    Expired,
    /// The deadline lies less than a day ahead (or less than an hour
    /// behind); `hours_left` is the count of whole hours remaining.
    ExpiringSoon { hours_left: u64 },
    /// The deadline lies a day or more ahead.
    Valid,
}

/// The class of a deadline `exp_ts` seen from `now_ts`, both in epoch
/// seconds: expired once a whole hour has passed since the deadline,
/// expiring soon while less than twenty-four whole hours remain, valid
/// beyond that. The hour count truncates toward zero, as whole hours do.
pub open spec fn spec_classify(exp_ts: i64, now_ts: i64) -> ExpiryReport {
    let diff = exp_ts - now_ts;
    if diff <= -(SECS_PER_HOUR as int) {
        ExpiryReport::Expired
    } else if diff < SECS_PER_DAY as int {
        ExpiryReport::ExpiringSoon {
            hours_left: (if diff < 0 {
                0
            } else {
                diff / (SECS_PER_HOUR as int)
            }) as u64,
        }
    } else {
        ExpiryReport::Valid
    }
}

/// Classifies a parsed deadline against a given current time.
pub fn classify_expiration(exp_ts: i64, now_ts: i64) -> (r: ExpiryReport)
    ensures
        r == spec_classify(exp_ts, now_ts),
{
    let diff: i128 = exp_ts as i128 - now_ts as i128;
    if diff <= -(SECS_PER_HOUR as i128) {
        ExpiryReport::Expired
    } else if diff < SECS_PER_DAY as i128 {
        let hours: u64 = if diff < 0 {
            0
        } else {
            ((diff as u128) / (SECS_PER_HOUR as u128)) as u64
        };
        ExpiryReport::ExpiringSoon { hours_left: hours }
    } else {
        ExpiryReport::Valid
    }
}

/// Checks the configured deadline text, if any, against the clock now.
///
/// No text, or empty text, means there is nothing to check; text that no
/// format accepts is reported as such; otherwise the parsed deadline is
/// classified against some reading of the current local time.
pub fn check_expiration(exp_at: &Option<String>) -> (r: ExpiryReport)
    ensures
        (exp_at is None || exp_at->0@.len() == 0) ==> r is NoDeadline,
        (exp_at is Some && exp_at->0@.len() > 0 && spec_flexible_date(exp_at->0@) is None)
            ==> r is Unparseable,
        (exp_at is Some && exp_at->0@.len() > 0 && spec_flexible_date(exp_at->0@) is Some)
            ==> exists|now_ts: i64|
                r == spec_classify(spec_flexible_date(exp_at->0@)->0, now_ts),
{
    match exp_at {
        None => ExpiryReport::NoDeadline,
        Some(s) => {
            if s.as_str().is_empty() {
                ExpiryReport::NoDeadline
            } else {
                match parse_flexible_date(s.as_str()) {
                    None => ExpiryReport::Unparseable,
                    Some(ts) => {
                        let now_ts = now_local_timestamp();
                        let r = classify_expiration(ts, now_ts);
                        proof {
                            assert(r == spec_classify(ts, now_ts));
                        }
                        r
                    },
                }
            }
        },
    }
}

} // verus!
