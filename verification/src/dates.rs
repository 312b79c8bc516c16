//! Calendar arithmetic on UTC timestamps (epoch milliseconds) and epoch days.
use vstd::prelude::*;
use chrono::Datelike;

verus! {

/// Earliest epoch day the calendar functions here are used on.
pub const MIN_DAY: i64 = -95_000_000;

/// Latest epoch day the calendar functions here are used on.
pub const MAX_DAY: i64 = 95_000_000;

/// Milliseconds in a day.
pub const DAY_MS: i64 = 86_400_000;

/// Earliest year chrono's `NaiveDate` represents.
pub const MIN_YEAR: i32 = -262_143;

/// Latest year chrono's `NaiveDate` represents.
pub const MAX_YEAR: i32 = 262_142;

/// Epoch day of a UTC timestamp: the calendar day it falls on, as days since
/// 1970-01-01 (what `DateTime<Utc>::date_naive` gives).
pub open spec fn day_of(ms: int) -> int {
    ms / (DAY_MS as int)
}

/// The UTC calendar day holding the timestamp `ms`.
pub fn day_of_millis(ms: i64) -> (d: i64)
    ensures
        d == day_of(ms as int),
        d * DAY_MS <= ms < d * DAY_MS + DAY_MS,
{
    let q = ms / DAY_MS;
    let r = ms % DAY_MS;
    if r < 0 {
        q - 1
    } else {
        q
    }
}

/// Midnight (UTC) at the start of an epoch day, in milliseconds.
pub fn day_start_millis(day: i64) -> (ms: i64)
    requires
        -100_000_000 <= day <= 100_000_000,
    ensures
        ms == day * DAY_MS,
{
    day * DAY_MS
}

/// Days since the last Monday (0 for Monday .. 6 for Sunday) of an epoch
/// day; 1970-01-01 was a Thursday.
pub open spec fn weekday_spec(day: int) -> int {
    (day + 3) % 7
}

/// chrono's `weekday().num_days_from_monday()` of an epoch day.
pub fn weekday_from_monday(day: i64) -> (r: i64)
    requires
        MIN_DAY <= day <= MAX_DAY,
    ensures
        r == weekday_spec(day as int),
        0 <= r < 7,
{
    let x = day + 3;
    let m = x % 7;
    if m < 0 {
        m + 7
    } else {
        m
    }
}

/// `%d %b %Y` text of a timestamp (e.g. "05 Mar 2026"), as chrono formats it.
pub uninterp spec fn text_day_month_year(ms: i64) -> Seq<char>;

/// `%Y-%m-%d` text of a timestamp (e.g. "2026-03-05"), as chrono formats it.
pub uninterp spec fn text_iso_date(ms: i64) -> Seq<char>;

/// `%b %d` text of a timestamp (e.g. "Mar 05"), as chrono formats it.
pub uninterp spec fn text_month_day(ms: i64) -> Seq<char>;

/// `%b %Y` text of a timestamp (e.g. "Mar 2026"), as chrono formats it.
pub uninterp spec fn text_month_year(ms: i64) -> Seq<char>;

/// Days from 1970-01-01 to the first day of month `m` (1..=12) of year `y`
/// in the proleptic Gregorian calendar: the year is counted from March, so
/// that the leap day falls at the end of it.
pub open spec fn days_from_civil(y: int, m: int) -> int {
    let yy = if m <= 2 { y - 1 } else { y };
    let mp = if m > 2 { m - 3 } else { m + 9 };
    365 * yy + yy / 4 - yy / 100 + yy / 400 + (153 * mp + 2) / 5 - 719468
}

/// The month after month `m` of year `y`.
pub open spec fn next_ym(y: int, m: int) -> (int, int) {
    if m == 12 {
        (y + 1, 1)
    } else {
        (y, m + 1)
    }
}

/// Midnight UTC of the first day of a month, in milliseconds, as chrono's
/// `NaiveDate::from_ymd_opt(y, m, 1)` gives it (`None` for an invalid month
/// or an out-of-range year).
pub open spec fn month_start(y: i32, m: u32) -> Option<i64> {
    if 1 <= m <= 12 && MIN_YEAR <= y <= MAX_YEAR {
        Some((days_from_civil(y as int, m as int) * DAY_MS) as i64)
    } else {
        None
    }
}

/// The (year, month) of the UTC calendar day holding a timestamp, as
/// chrono computes it.
pub uninterp spec fn year_month_of_millis(ms: i64) -> (i32, u32);

/// For a month chrono represents, the first day lies within a hundred
/// million days of 1970, and its midnight is that day times `DAY_MS`.
pub proof fn lemma_month_start_value(y: int, m: int)
    requires
        1 <= m <= 12,
        MIN_YEAR <= y <= MAX_YEAR,
    ensures
        -100_000_000 <= days_from_civil(y, m) <= 100_000_000,
        month_start(y as i32, m as u32) == Some((days_from_civil(y, m) * DAY_MS) as i64),
        (days_from_civil(y, m) * DAY_MS) as i64 == days_from_civil(y, m) * DAY_MS,
        (days_from_civil(y, m) * DAY_MS) % (DAY_MS as int) == 0,
{
    let yy = if m <= 2 { y - 1 } else { y };
    assert(-70_000 <= yy / 4 <= 70_000);
    assert(-3_000 <= yy / 100 <= 3_000);
    assert(-700 <= yy / 400 <= 700);
    vstd::arithmetic::div_mod::lemma_mod_multiples_basic(days_from_civil(y, m), DAY_MS as int);
}

/// A month lasts 28 to 31 days.
pub proof fn lemma_month_length(y: int, m: int)
    requires
        1 <= m <= 12,
    ensures
        28 <= days_from_civil(next_ym(y, m).0, next_ym(y, m).1) - days_from_civil(y, m) <= 31,
{
    if m == 2 {
        let p = y - 1;
        assert(p / 4 <= y / 4 <= p / 4 + 1);
        assert(p / 100 <= y / 100 <= p / 100 + 1);
        assert(p / 400 <= y / 400 <= p / 400 + 1);
        if y / 100 == p / 100 + 1 {
            assert(y % 100 == 0);
            assert(y % 4 == 0);
            assert(y / 4 == p / 4 + 1);
        }
        if y / 400 == p / 400 + 1 {
            assert(y % 400 == 0);
            assert(y % 100 == 0);
            assert(y / 100 == p / 100 + 1);
        }
    }
}

/// Months run in order within a year: the year starts no later than any of
/// its months, and the month after any of them starts no later than the
/// next year.
pub proof fn lemma_months_within_year(y: int, m: int)
    requires
        1 <= m <= 12,
    ensures
        days_from_civil(y, 1) <= days_from_civil(y, m),
        days_from_civil(next_ym(y, m).0, next_ym(y, m).1) <= days_from_civil(y + 1, 1),
        days_from_civil(y, 1) < days_from_civil(y + 1, 1),
    decreases 12 - m,
{
    lemma_months_from_start(y, m);
    lemma_month_length(y, 12);
    if m < 12 {
        lemma_months_within_year(y, m + 1);
        lemma_month_length(y, m + 1);
    }
}

/// The first of the year starts no later than any of its months.
proof fn lemma_months_from_start(y: int, m: int)
    requires
        1 <= m <= 12,
    ensures
        days_from_civil(y, 1) <= days_from_civil(y, m),
    decreases m,
{
    if m > 1 {
        lemma_months_from_start(y, m - 1);
        lemma_month_length(y, m - 1);
    }
}

/// chrono `format("%d %b %Y")` of the timestamp (bson clamps a timestamp
/// outside chrono's range to chrono's earliest or latest instant).
#[verifier::external_body]
pub(crate) fn format_day_month_year(ms: i64) -> (r: String)
    ensures
        r@ == text_day_month_year(ms),
{
    bson::DateTime::from_millis(ms).to_chrono().format("%d %b %Y").to_string()
}

/// chrono `format("%Y-%m-%d")` of the timestamp.
#[verifier::external_body]
pub(crate) fn format_iso_date(ms: i64) -> (r: String)
    ensures
        r@ == text_iso_date(ms),
{
    bson::DateTime::from_millis(ms).to_chrono().format("%Y-%m-%d").to_string()
}

/// chrono `format("%b %d")` of the timestamp.
#[verifier::external_body]
pub(crate) fn format_month_day(ms: i64) -> (r: String)
    ensures
        r@ == text_month_day(ms),
{
    bson::DateTime::from_millis(ms).to_chrono().format("%b %d").to_string()
}

/// chrono `format("%b %Y")` of the timestamp.
#[verifier::external_body]
pub(crate) fn format_month_year(ms: i64) -> (r: String)
    ensures
        r@ == text_month_year(ms),
{
    bson::DateTime::from_millis(ms).to_chrono().format("%b %Y").to_string()
}

/// chrono `NaiveDate::from_ymd_opt(y, m, 1)` at midnight UTC, in epoch
/// milliseconds. chrono's source accepts every month 1..=12 of every year
/// from -262143 to 262142 for day 1, and nothing else.
#[verifier::external_body]
pub(crate) fn first_of_month_millis(y: i32, m: u32) -> (r: Option<i64>)
    ensures
        r == month_start(y, m),
        r is Some <==> (1 <= m <= 12 && MIN_YEAR <= y <= MAX_YEAR),
{
    match chrono::NaiveDate::from_ymd_opt(y, m, 1) {
        Some(d) => Some(d.and_hms_opt(0, 0, 0).unwrap().and_utc().timestamp_millis()),
        None => None,
    }
}

/// chrono's year and month (1..=12) of the UTC day holding the timestamp
/// `ms`: the day lies in that month, that is, on or after its first day
/// and before the first day of the next month.
#[verifier::external_body]
pub(crate) fn year_month(ms: i64) -> (r: (i32, u32))
    requires
        MIN_DAY <= day_of(ms as int) <= MAX_DAY,
    ensures
        r == year_month_of_millis(ms),
        1 <= r.1 <= 12,
        MIN_YEAR + 8 <= r.0 <= MAX_YEAR - 8,
        days_from_civil(r.0 as int, r.1 as int) <= day_of(ms as int),
        day_of(ms as int) < days_from_civil(next_ym(r.0 as int, r.1 as int).0, next_ym(r.0 as int, r.1 as int).1),
{
    let d = chrono::DateTime::from_timestamp_millis(ms).unwrap().date_naive();
    (d.year(), d.month())
}

} // verus!
