//! Reports: the catalog of report templates, report date windows, calendar
//! month arithmetic and the buckets of the premium-growth trend.
use vstd::prelude::*;
use crate::dates::{
    day_of, day_of_millis, day_start_millis, first_of_month_millis, format_month_day, format_month_year,
    month_start, text_month_day, text_month_year, weekday_from_monday, weekday_spec, year_month,
    year_month_of_millis, days_from_civil, next_ym, lemma_month_length, lemma_months_within_year,
    lemma_month_start_value, DAY_MS, MAX_DAY, MAX_YEAR, MIN_DAY, MIN_YEAR,
};
use crate::error::{bad_request, ApiError};
use crate::filter::{combine_filters, combine_spec, Cond, CondV, Filter, FilterV, Test, TestV};
use crate::grouping::{chars_equal, group_by_label, group_labels, group_members, groups_of, label_views, lex_lt, LabelGroup};
use crate::oid::{hex_text, Oid};
use crate::renewal::RenewalStatus;
use crate::text::{chars_to_string, decimal, i32_to_string, push_str, str_chars};
use crate::value::{str_eq, Value, ValueV};

verus! {

broadcast use vstd::string::group_string_axioms;

/// The fixed set of report templates.
#[derive(Clone, Copy, Debug, PartialEq, Eq, Structural)]
pub enum ReportKey {
    RenewalPipeline,
    PremiumByInsurer,
    NewBusinessByType,
}

/// The filters of a report run: a window of days (epoch days, both
/// inclusive) and optional insurer and policy type.
pub struct ReportQuery {
    /// First day of the window (epoch day).
    pub date_from: i64,
    /// Last day of the window (epoch day), included.
    pub date_to: i64,
    /// Only this insurer, when given.
    pub insurer_name: Option<String>,
    /// Only this policy type, when given.
    pub policy_type: Option<String>,
}

/// The year-over-year comparison: which year, and "policy_type" or
/// "insurer_name" to group by.
pub struct YearlyComparisonQuery {
    pub year: i32,
    pub group_by: String,
}

/// The premium-growth trend: "daily", "weekly", "monthly" or "yearly".
pub struct PremiumTrendQuery {
    pub granularity: String,
}

/// One entry of the report picker.
pub struct ReportCatalogEntry {
    pub key: ReportKey,
    pub name: String,
    pub description: String,
}

/// The report a path segment names.
pub open spec fn report_key_of(s: Seq<char>) -> Option<ReportKey> {
    if s == "renewal_pipeline"@ {
        Some(ReportKey::RenewalPipeline)
    } else if s == "premium_by_insurer"@ {
        Some(ReportKey::PremiumByInsurer)
    } else if s == "new_business_by_type"@ {
        Some(ReportKey::NewBusinessByType)
    } else {
        None
    }
}

/// Parses a report key; anything else is a 400 "unknown report".
pub fn parse_report_key(s: &str) -> (r: Result<ReportKey, ApiError>)
    ensures
        r is Ok <==> report_key_of(s@) is Some,
        r matches Ok(k) ==> report_key_of(s@) == Some(k),
        r matches Err(e) ==> (e matches ApiError::BadRequest(m) && m@ == "unknown report"@),
{
    if str_eq(s, "renewal_pipeline") {
        Ok(ReportKey::RenewalPipeline)
    } else if str_eq(s, "premium_by_insurer") {
        Ok(ReportKey::PremiumByInsurer)
    } else if str_eq(s, "new_business_by_type") {
        Ok(ReportKey::NewBusinessByType)
    } else {
        Err(bad_request("unknown report"))
    }
}

/// The catalog: key, name and description of each report, in picker order.
pub open spec fn catalog_spec() -> Seq<(ReportKey, Seq<char>, Seq<char>)> {
    seq![
        (ReportKey::RenewalPipeline, "Renewal pipeline"@, "Renewals due in the selected window, broken down by status."@),
        (ReportKey::PremiumByInsurer, "Premium by insurer"@, "Premium due in the selected window, by insurer."@),
        (ReportKey::NewBusinessByType, "New business by type"@, "New policies sold in the selected window, by policy type."@),
    ]
}

/// The report picker's entries.
pub fn catalog() -> (r: Vec<ReportCatalogEntry>)
    ensures
        r@.len() == catalog_spec().len(),
        forall|i: int| 0 <= i < r@.len() ==> (r@[i].key, r@[i].name@, r@[i].description@) == #[trigger] catalog_spec()[i],
{
    let mut v: Vec<ReportCatalogEntry> = Vec::new();
    v.push(ReportCatalogEntry {
        key: ReportKey::RenewalPipeline,
        name: "Renewal pipeline".to_string(),
        description: "Renewals due in the selected window, broken down by status.".to_string(),
    });
    v.push(ReportCatalogEntry {
        key: ReportKey::PremiumByInsurer,
        name: "Premium by insurer".to_string(),
        description: "Premium due in the selected window, by insurer.".to_string(),
    });
    v.push(ReportCatalogEntry {
        key: ReportKey::NewBusinessByType,
        name: "New business by type".to_string(),
        description: "New policies sold in the selected window, by policy type.".to_string(),
    });
    v
}

/// The report window for the days `from_day..=to_day` (epoch days): from
/// midnight UTC of the first day to midnight after the last, or a 400 when
/// the window ends before it starts.
pub fn day_bounds(from_day: i64, to_day: i64) -> (r: Result<(i64, i64), ApiError>)
    requires
        MIN_DAY <= from_day <= MAX_DAY,
        MIN_DAY <= to_day <= MAX_DAY,
    ensures
        r is Ok <==> from_day <= to_day,
        r matches Ok((s, e)) ==> s == from_day * DAY_MS && e == (to_day + 1) * DAY_MS,
        r matches Err(e) ==> (e matches ApiError::BadRequest(m) && m@ == "date_to must be on or after date_from"@),
{
    if to_day < from_day {
        return Err(bad_request("date_to must be on or after date_from"));
    }
    Ok((day_start_millis(from_day), day_start_millis(to_day + 1)))
}

/// The (year, month) `delta` months after `month` of `year` (months
/// counted 1..=12; `delta` may be negative).
pub open spec fn add_months_spec(year: int, month: int, delta: int) -> (int, int) {
    let total = year * 12 + (month - 1) + delta;
    (total / 12, total % 12 + 1)
}

/// The month arithmetic stays within `i32` at each step.
pub open spec fn add_months_in_range(year: int, month: int, delta: int) -> bool {
    &&& month <= i32::MAX
    &&& i32::MIN <= year * 12 <= i32::MAX
    &&& i32::MIN <= year * 12 + (month - 1) <= i32::MAX
    &&& i32::MIN <= year * 12 + (month - 1) + delta <= i32::MAX
}

/// Moves `delta` months from `month` of `year`.
pub fn add_months(year: i32, month: u32, delta: i32) -> (r: (i32, u32))
    requires
        add_months_in_range(year as int, month as int, delta as int),
    ensures
        (r.0 as int, r.1 as int) == add_months_spec(year as int, month as int, delta as int),
        1 <= r.1 <= 12,
{
    let total: i32 = year * 12 + (month as i32 - 1) + delta;
    let q = total / 12;
    let rem = total % 12;
    if rem < 0 {
        ((q - 1), (rem + 12 + 1) as u32)
    } else {
        (q, (rem + 1) as u32)
    }
}

/// Month arithmetic laws: moving by `a` then `b` months is moving by
/// `a + b`; moving by zero keeps a valid month; moving back undoes moving
/// forward; the month is always in 1..=12.
pub proof fn lemma_add_months_laws(year: int, month: int, a: int, b: int)
    ensures
        add_months_spec(add_months_spec(year, month, a).0, add_months_spec(year, month, a).1, b)
            == add_months_spec(year, month, a + b),
        1 <= month <= 12 ==> add_months_spec(year, month, 0) == (year, month),
        1 <= month <= 12 ==> add_months_spec(add_months_spec(year, month, a).0, add_months_spec(year, month, a).1, -a)
            == (year, month),
        1 <= add_months_spec(year, month, a).1 <= 12,
{
    let t = year * 12 + (month - 1) + a;
    assert(t == 12 * (t / 12) + t % 12);
    let t2 = year * 12 + (month - 1);
    assert(t2 == 12 * (t2 / 12) + t2 % 12);
    if 1 <= month <= 12 {
        assert(t2 / 12 == year);
        assert(t2 % 12 == month - 1);
    }
}

/// One bucket of the premium-growth trend: `[start, end)` in epoch
/// milliseconds, and its label.
pub struct Period {
    pub start: i64,
    pub end: i64,
    pub label: String,
}

/// View of a bucket.
pub open spec fn period_view(p: Period) -> (int, int, Seq<char>) {
    (p.start as int, p.end as int, p.label@)
}

/// The last 14 days, oldest first, each labelled like "Mar 05".
pub open spec fn daily_periods(today: int) -> Seq<(int, int, Seq<char>)> {
    Seq::new(14, |k: int| {
        let s = (today - 13 + k) * DAY_MS;
        (s, s + DAY_MS, text_month_day(s as i64))
    })
}

/// The last 8 weeks (Monday to Monday), oldest first, each labelled
/// "Wk of Mar 02".
pub open spec fn weekly_periods(today: int) -> Seq<(int, int, Seq<char>)> {
    Seq::new(8, |k: int| {
        let s = (today - weekday_spec(today) - 7 * (7 - k)) * DAY_MS;
        (s, s + 7 * DAY_MS, "Wk of "@ + text_month_day(s as i64))
    })
}

/// Start of the month `delta` months from (year, month).
pub open spec fn month_start_after(year: int, month: int, delta: int) -> int {
    let ym = add_months_spec(year, month, delta);
    month_start(ym.0 as i32, ym.1 as u32)->0 as int
}

/// The last 6 calendar months, the current one last, labelled "Mar 2026".
pub open spec fn monthly_periods(year: int, month: int) -> Seq<(int, int, Seq<char>)> {
    Seq::new(6, |k: int| {
        let s = month_start_after(year, month, k - 5);
        (s, month_start_after(year, month, k - 4), text_month_year(s as i64))
    })
}

/// The last 4 calendar years, the current one last, labelled by the year.
pub open spec fn yearly_periods(year: int) -> Seq<(int, int, Seq<char>)> {
    Seq::new(4, |k: int| {
        let y = year - 3 + k;
        (month_start(y as i32, 1)->0 as int, month_start((y + 1) as i32, 1)->0 as int, decimal(y))
    })
}

/// The trend buckets for a granularity at the instant `now` (epoch ms),
/// or `None` for an unknown granularity.
pub open spec fn trend_spec(granularity: Seq<char>, now: int) -> Option<Seq<(int, int, Seq<char>)>> {
    let today = day_of(now);
    let ym = year_month_of_millis(now as i64);
    if granularity == "daily"@ {
        Some(daily_periods(today))
    } else if granularity == "weekly"@ {
        Some(weekly_periods(today))
    } else if granularity == "monthly"@ {
        Some(monthly_periods(ym.0 as int, ym.1 as int))
    } else if granularity == "yearly"@ {
        Some(yearly_periods(ym.0 as int))
    } else {
        None
    }
}

/// The instants the trend is computed at.
pub open spec fn trend_now_in_range(now: int) -> bool {
    MIN_DAY + 60 <= day_of(now) <= MAX_DAY
}

/// Calendar facts behind the monthly buckets: moving back up to five
/// months and forward one stays within a year of the start.
proof fn lemma_month_window(year: int, month: int, d: int)
    requires
        1 <= month <= 12,
        -5 <= d <= 1,
    ensures
        year - 1 <= add_months_spec(year, month, d).0 <= year + 1,
{
    let t = year * 12 + (month - 1) + d;
    assert(t == 12 * (t / 12) + t % 12);
}

/// A bucket that starts before it ends, both at midnight UTC.
pub open spec fn aligned_bucket(p: (int, int, Seq<char>)) -> bool {
    &&& p.0 < p.1
    &&& p.0 % (DAY_MS as int) == 0
    &&& p.1 % (DAY_MS as int) == 0
}

/// The daily buckets: whole days, the last one today.
proof fn lemma_daily_buckets(today: int)
    ensures
        forall|k: int| 0 <= k < 14 ==> aligned_bucket(#[trigger] daily_periods(today)[k]),
{
    assert forall|k: int| 0 <= k < 14 implies aligned_bucket(#[trigger] daily_periods(today)[k]) by {
        let d = today - 13 + k;
        vstd::arithmetic::div_mod::lemma_mod_multiples_basic(d, DAY_MS as int);
        vstd::arithmetic::div_mod::lemma_mod_multiples_basic(d + 1, DAY_MS as int);
        assert((d + 1) * DAY_MS == d * DAY_MS + DAY_MS);
    }
}

/// The weekly buckets: whole weeks from midnight.
proof fn lemma_weekly_buckets(today: int)
    ensures
        forall|k: int| 0 <= k < 8 ==> aligned_bucket(#[trigger] weekly_periods(today)[k]),
{
    assert forall|k: int| 0 <= k < 8 implies aligned_bucket(#[trigger] weekly_periods(today)[k]) by {
        let d = today - weekday_spec(today) - 7 * (7 - k);
        vstd::arithmetic::div_mod::lemma_mod_multiples_basic(d, DAY_MS as int);
        vstd::arithmetic::div_mod::lemma_mod_multiples_basic(d + 7, DAY_MS as int);
        assert((d + 7) * DAY_MS == d * DAY_MS + 7 * DAY_MS);
    }
}

/// Moving one month on is going to the next month.
proof fn lemma_add_one_month(year: int, month: int)
    requires
        1 <= month <= 12,
    ensures
        add_months_spec(year, month, 1) == next_ym(year, month),
{
    let t = year * 12 + month;
    assert(t == 12 * (t / 12) + t % 12);
}

/// One monthly bucket: the month `d` months from (year, month), from its
/// first midnight to the next month's.
proof fn lemma_month_bucket(year: int, month: int, d: int)
    requires
        1 <= month <= 12,
        MIN_YEAR + 8 <= year <= MAX_YEAR - 8,
        -5 <= d <= 0,
    ensures
        month_start_after(year, month, d) == days_from_civil(add_months_spec(year, month, d).0, add_months_spec(
            year,
            month,
            d,
        ).1) * DAY_MS,
        month_start_after(year, month, d + 1) == days_from_civil(
            next_ym(add_months_spec(year, month, d).0, add_months_spec(year, month, d).1).0,
            next_ym(add_months_spec(year, month, d).0, add_months_spec(year, month, d).1).1,
        ) * DAY_MS,
        aligned_bucket((month_start_after(year, month, d), month_start_after(year, month, d + 1), seq![])),
{
    lemma_month_window(year, month, d);
    lemma_add_months_laws(year, month, d, 1);
    let a = add_months_spec(year, month, d);
    lemma_add_one_month(a.0, a.1);
    let b = next_ym(a.0, a.1);
    lemma_month_start_value(a.0, a.1);
    lemma_month_start_value(b.0, b.1);
    lemma_month_length(a.0, a.1);
    assert(add_months_spec(year, month, d + 1) == b);
}

/// The monthly buckets: whole months from midnight, the last one the month
/// holding `now`.
proof fn lemma_monthly_buckets(year: int, month: int, now: int)
    requires
        1 <= month <= 12,
        MIN_YEAR + 8 <= year <= MAX_YEAR - 8,
        days_from_civil(year, month) <= day_of(now) < days_from_civil(next_ym(year, month).0, next_ym(year, month).1),
    ensures
        forall|k: int| 0 <= k < 6 ==> aligned_bucket(#[trigger] monthly_periods(year, month)[k]),
        monthly_periods(year, month)[5].0 <= now < monthly_periods(year, month)[5].1,
{
    assert forall|k: int| 0 <= k < 6 implies aligned_bucket(#[trigger] monthly_periods(year, month)[k]) by {
        lemma_month_bucket(year, month, k - 5);
        assert(k - 5 + 1 == k - 4);
    }
    lemma_month_bucket(year, month, 0);
    lemma_add_months_laws(year, month, 0, 0);
    let today = day_of(now);
    assert(today * DAY_MS <= now < today * DAY_MS + DAY_MS);
}

/// The yearly buckets: whole years from midnight, the last one the year
/// holding `now`.
proof fn lemma_yearly_buckets(year: int, month: int, now: int)
    requires
        1 <= month <= 12,
        MIN_YEAR + 8 <= year <= MAX_YEAR - 8,
        days_from_civil(year, month) <= day_of(now) < days_from_civil(next_ym(year, month).0, next_ym(year, month).1),
    ensures
        forall|k: int| 0 <= k < 4 ==> aligned_bucket(#[trigger] yearly_periods(year)[k]),
        yearly_periods(year)[3].0 <= now < yearly_periods(year)[3].1,
{
    assert forall|k: int| 0 <= k < 4 implies aligned_bucket(#[trigger] yearly_periods(year)[k]) by {
        let y = year - 3 + k;
        lemma_month_start_value(y, 1);
        lemma_month_start_value(y + 1, 1);
        lemma_months_within_year(y, 1);
    }
    lemma_month_start_value(year, 1);
    lemma_month_start_value(year + 1, 1);
    lemma_months_within_year(year, month);
    let today = day_of(now);
    assert(today * DAY_MS <= now < today * DAY_MS + DAY_MS);
}

/// Oldest-to-newest buckets of the premium trend for "daily" (14 days),
/// "weekly" (8 weeks from Monday), "monthly" (6 calendar months) or
/// "yearly" (4 calendar years), each ending at or containing `now_ms`;
/// any other granularity is a 400. The buckets tile time: each ends where
/// the next starts.
pub fn trend_periods(granularity: &str, now_ms: i64) -> (r: Result<Vec<Period>, ApiError>)
    requires
        trend_now_in_range(now_ms as int),
    ensures
        r is Ok <==> trend_spec(granularity@, now_ms as int) is Some,
        r matches Ok(v) ==> v@.map_values(|p: Period| period_view(p)) == trend_spec(granularity@, now_ms as int)->0,
        r matches Ok(v) ==> v@.len() > 0,
        r matches Ok(v) ==> forall|k: int| 0 <= k < v@.len() - 1 ==> (#[trigger] v@[k]).end == v@[k + 1].start,
        r matches Ok(v) ==> forall|k: int| 0 <= k < v@.len() ==> aligned_bucket(period_view(#[trigger] v@[k])),
        r matches Ok(v) ==> v@.last().start <= now_ms < v@.last().end,
        r matches Err(e) ==> (e matches ApiError::BadRequest(m) && m@ == "granularity must be daily, weekly, monthly, or yearly"@),
{
    let today = day_of_millis(now_ms);
    let mut out: Vec<Period> = Vec::new();
    let ghost spec_out: Seq<(int, int, Seq<char>)>;
    if str_eq(granularity, "daily") {
        proof {
            spec_out = daily_periods(today as int);
        }
        let mut k: i64 = 0;
        while k < 14
            invariant
                0 <= k <= 14,
                MIN_DAY + 60 <= today <= MAX_DAY,
                spec_out == daily_periods(today as int),
                out@.len() == k,
                forall|j: int| 0 <= j < k ==> period_view(#[trigger] out@[j]) == spec_out[j],
            decreases 14 - k,
        {
            let start = day_start_millis(today - 13 + k);
            let end = start + DAY_MS;
            let label = format_month_day(start);
            out.push(Period { start, end, label });
            k = k + 1;
        }
    } else if str_eq(granularity, "weekly") {
        let this_week_start = today - weekday_from_monday(today);
        proof {
            spec_out = weekly_periods(today as int);
        }
        let prefix = str_chars("Wk of ");
        let mut k: i64 = 0;
        while k < 8
            invariant
                0 <= k <= 8,
                MIN_DAY + 60 <= today <= MAX_DAY,
                this_week_start == today - weekday_spec(today as int),
                0 <= weekday_spec(today as int) < 7,
                spec_out == weekly_periods(today as int),
                prefix@ == "Wk of "@,
                out@.len() == k,
                forall|j: int| 0 <= j < k ==> period_view(#[trigger] out@[j]) == spec_out[j],
            decreases 8 - k,
        {
            let start = day_start_millis(this_week_start - 7 * (7 - k));
            let end = start + 7 * DAY_MS;
            let mut label = prefix.clone();
            let day_text = format_month_day(start);
            push_str(&mut label, day_text.as_str());
            out.push(Period { start, end, label: chars_to_string(&label) });
            k = k + 1;
        }
    } else if str_eq(granularity, "monthly") {
        let (year, month) = year_month(now_ms);
        proof {
            spec_out = monthly_periods(year as int, month as int);
        }
        let mut k: i32 = 0;
        while k < 6
            invariant
                0 <= k <= 6,
                1 <= month <= 12,
                MIN_YEAR + 8 <= year <= MAX_YEAR - 8,
                spec_out == monthly_periods(year as int, month as int),
                out@.len() == k,
                forall|j: int| 0 <= j < k ==> period_view(#[trigger] out@[j]) == spec_out[j],
            decreases 6 - k,
        {
            proof {
                lemma_month_window(year as int, month as int, k - 5);
                lemma_add_months_laws(year as int, month as int, k - 5, 1);
            }
            let (y, m) = add_months(year, month, k - 5);
            let (ny, nm) = add_months(y, m, 1);
            proof {
                lemma_month_window(year as int, month as int, k - 4);
            }
            let start = first_of_month_millis(y, m).unwrap();
            let end = first_of_month_millis(ny, nm).unwrap();
            let label = format_month_year(start);
            out.push(Period { start, end, label });
            k = k + 1;
        }
    } else if str_eq(granularity, "yearly") {
        let (year, _month) = year_month(now_ms);
        proof {
            spec_out = yearly_periods(year as int);
        }
        let mut k: i32 = 0;
        while k < 4
            invariant
                0 <= k <= 4,
                MIN_YEAR + 8 <= year <= MAX_YEAR - 8,
                spec_out == yearly_periods(year as int),
                out@.len() == k,
                forall|j: int| 0 <= j < k ==> period_view(#[trigger] out@[j]) == spec_out[j],
            decreases 4 - k,
        {
            let y = year - 3 + k;
            let start = first_of_month_millis(y, 1).unwrap();
            let end = first_of_month_millis(y + 1, 1).unwrap();
            out.push(Period { start, end, label: i32_to_string(y) });
            k = k + 1;
        }
    } else {
        return Err(bad_request("granularity must be daily, weekly, monthly, or yearly"));
    }
    assert(out@.map_values(|p: Period| period_view(p)) =~= spec_out);
    proof {
        if granularity@ == "daily"@ {
            lemma_daily_buckets(today as int);
        } else if granularity@ == "weekly"@ {
            lemma_weekly_buckets(today as int);
        } else if granularity@ == "monthly"@ {
            let ym = year_month_of_millis(now_ms);
            lemma_monthly_buckets(ym.0 as int, ym.1 as int, now_ms as int);
        } else {
            let ym = year_month_of_millis(now_ms);
            lemma_yearly_buckets(ym.0 as int, ym.1 as int, now_ms as int);
        }
        assert forall|k: int| 0 <= k < out@.len() implies aligned_bucket(period_view(#[trigger] out@[k])) by {
            assert(period_view(out@[k]) == spec_out[k]);
        }
        assert forall|k: int| 0 <= k < out@.len() - 1 implies (#[trigger] out@[k]).end == out@[k + 1].start by {
            assert(period_view(out@[k]) == spec_out[k]);
            assert(period_view(out@[k + 1]) == spec_out[k + 1]);
        }
        assert(period_view(out@[out@.len() - 1]) == spec_out[out@.len() - 1]);
    }
    Ok(out)
}

/// Indices (ascending, among the first `n`) of the timestamps in
/// `[start, end)`.
pub open spec fn indices_in(due: Seq<i64>, start: int, end: int, n: int) -> Seq<usize>
    decreases n,
{
    if n <= 0 {
        seq![]
    } else if start <= due[n - 1] < end {
        indices_in(due, start, end, n - 1).push((n - 1) as usize)
    } else {
        indices_in(due, start, end, n - 1)
    }
}

/// For each bucket, the renewals (by index into `due_dates`) whose due
/// date falls in it; the trend point of a bucket sums their premiums.
pub fn trend_buckets(periods: &Vec<Period>, due_dates: &Vec<i64>) -> (r: Vec<Vec<usize>>)
    ensures
        r@.len() == periods@.len(),
        forall|p: int| 0 <= p < r@.len() ==> (#[trigger] r@[p])@ == indices_in(
            due_dates@,
            periods@[p].start as int,
            periods@[p].end as int,
            due_dates@.len() as int,
        ),
{
    let mut out: Vec<Vec<usize>> = Vec::new();
    let mut p: usize = 0;
    while p < periods.len()
        invariant
            p <= periods.len(),
            out@.len() == p,
            forall|q: int| 0 <= q < p ==> (#[trigger] out@[q])@ == indices_in(
                due_dates@,
                periods@[q].start as int,
                periods@[q].end as int,
                due_dates@.len() as int,
            ),
        decreases periods.len() - p,
    {
        let start = periods[p].start;
        let end = periods[p].end;
        let mut members: Vec<usize> = Vec::new();
        let mut i: usize = 0;
        while i < due_dates.len()
            invariant
                i <= due_dates.len(),
                members@ == indices_in(due_dates@, start as int, end as int, i as int),
            decreases due_dates.len() - i,
        {
            if start <= due_dates[i] && due_dates[i] < end {
                members.push(i);
            }
            i = i + 1;
        }
        out.push(members);
        p = p + 1;
    }
    out
}

/// `{field: "text"}`.
pub open spec fn text_eq_spec(field: Seq<char>, v: Seq<char>) -> CondV {
    CondV { field, test: TestV::Eq(ValueV::Str(v)) }
}

/// `{field: {"$gte": start, "$lt": end}}` on timestamps.
pub open spec fn window_spec(field: Seq<char>, start: i64, end: i64) -> CondV {
    CondV {
        field,
        test: TestV::Range { gte: Some(ValueV::DateTime(start)), lt: Some(ValueV::DateTime(end)), lte: None },
    }
}

/// The equality condition on `field` when a value is given, else nothing.
pub open spec fn opt_text_eq(field: Seq<char>, v: Option<String>) -> Seq<CondV> {
    match v {
        Some(s) => seq![text_eq_spec(field, s@)],
        None => seq![],
    }
}

/// `{field: "text"}`.
pub fn text_eq(field: &str, v: &String) -> (c: Cond)
    ensures
        c@ == text_eq_spec(field@, v@),
{
    Cond { field: field.to_string(), test: Test::Eq(Value::Str(v.clone())) }
}

/// `{field: {"$gte": start, "$lt": end}}`.
pub fn window(field: &str, start: i64, end: i64) -> (c: Cond)
    ensures
        c@ == window_spec(field@, start, end),
{
    Cond {
        field: field.to_string(),
        test: Test::Range { gte: Some(Value::DateTime(start)), lt: Some(Value::DateTime(end)), lte: None },
    }
}

/// Adds `{field: v}` to a document when a value is given.
fn with_opt_text(f: Filter, field: &str, v: &Option<String>) -> (r: Filter)
    requires
        f@ is Doc,
    ensures
        r@ == FilterV::Doc(f@->Doc_0 + opt_text_eq(field@, *v)),
{
    match v {
        Some(s) => {
            let r = f.with_cond(text_eq(field, s));
            assert(r@->Doc_0 =~= f@->Doc_0 + opt_text_eq(field@, *v));
            r
        },
        None => {
            assert(f@->Doc_0 =~= f@->Doc_0 + opt_text_eq(field@, *v));
            f
        },
    }
}

/// The renewals a renewal report reads: due in `[start, end)`, of the
/// insurer and policy type when given, within the caller's scope.
pub fn renewal_window_filter(
    start: i64,
    end: i64,
    insurer_name: &Option<String>,
    policy_type: &Option<String>,
    scope: Filter,
) -> (f: Filter)
    ensures
        f@ == combine_spec(
            FilterV::Doc(seq![window_spec("due_date"@, start, end)] + opt_text_eq("insurer_name"@, *insurer_name)
                + opt_text_eq("policy_type"@, *policy_type)),
            scope@,
        ),
{
    let f = Filter::single(window("due_date", start, end));
    let f = with_opt_text(f, "insurer_name", insurer_name);
    let f = with_opt_text(f, "policy_type", policy_type);
    combine_filters(f, scope)
}

/// The policies the new-business report reads: first-time policies (no
/// previous policy) created in `[start, end)`, of the insurer when given,
/// within the caller's scope. The dashboard's new-business tile uses the
/// same definition.
pub fn new_business_filter(start: i64, end: i64, insurer_name: &Option<String>, scope: Filter) -> (f: Filter)
    ensures
        f@ == combine_spec(
            FilterV::Doc(seq![
                CondV { field: "previous_policy_id"@, test: TestV::Eq(ValueV::Null) },
                window_spec("created_at"@, start, end),
            ] + opt_text_eq("insurer_name"@, *insurer_name)),
            scope@,
        ),
{
    let f = Filter::single(Cond { field: "previous_policy_id".to_string(), test: Test::Eq(Value::Null) });
    let f = f.with_cond(window("created_at", start, end));
    let f = with_opt_text(f, "insurer_name", insurer_name);
    assert(f@->Doc_0 =~= seq![
        CondV { field: "previous_policy_id"@, test: TestV::Eq(ValueV::Null) },
        window_spec("created_at"@, start, end),
    ] + opt_text_eq("insurer_name"@, *insurer_name));
    combine_filters(f, scope)
}

/// How the year-over-year comparison groups policies.
#[derive(Clone, Copy, Debug, PartialEq, Eq, Structural)]
pub enum ComparisonGroup {
    PolicyType,
    InsurerName,
}

/// Reads the `group_by` of a yearly comparison: "policy_type" or
/// "insurer_name", anything else a 400.
pub fn comparison_group(group_by: &str) -> (r: Result<ComparisonGroup, ApiError>)
    ensures
        group_by@ == "policy_type"@ ==> r == Ok::<ComparisonGroup, ApiError>(ComparisonGroup::PolicyType),
        group_by@ != "policy_type"@ && group_by@ == "insurer_name"@ ==> r == Ok::<ComparisonGroup, ApiError>(
            ComparisonGroup::InsurerName,
        ),
        group_by@ != "policy_type"@ && group_by@ != "insurer_name"@ ==> (r matches Err(e) && e matches ApiError::BadRequest(
            m,
        ) && m@ == "group_by must be 'policy_type' or 'insurer_name'"@),
{
    if str_eq(group_by, "policy_type") {
        Ok(ComparisonGroup::PolicyType)
    } else if str_eq(group_by, "insurer_name") {
        Ok(ComparisonGroup::InsurerName)
    } else {
        Err(bad_request("group_by must be 'policy_type' or 'insurer_name'"))
    }
}

/// The calendar year `year` as `[start, end)` in epoch milliseconds, or a
/// 400 "invalid year" when it (or the year after it) is out of chrono's range.
pub fn year_window(year: i32) -> (r: Result<(i64, i64), ApiError>)
    ensures
        r is Ok <==> MIN_YEAR <= year < MAX_YEAR,
        r matches Ok((s, e)) ==> Some(s) == month_start(year, 1) && Some(e) == month_start((year + 1) as i32, 1),
        r matches Err(e) ==> (e matches ApiError::BadRequest(m) && m@ == "invalid year"@),
{
    let start = match first_of_month_millis(year, 1) {
        Some(s) => s,
        None => return Err(bad_request("invalid year")),
    };
    let end = match first_of_month_millis(year + 1, 1) {
        Some(e) => e,
        None => return Err(bad_request("invalid year")),
    };
    Ok((start, end))
}

/// The renewal statuses in pipeline order; the pipeline report has one row
/// per status in this order.
pub open spec fn pipeline_status(k: int) -> RenewalStatus {
    if k == 0 {
        RenewalStatus::Pending
    } else if k == 1 {
        RenewalStatus::Contacted
    } else if k == 2 {
        RenewalStatus::Renewed
    } else if k == 3 {
        RenewalStatus::Lapsed
    } else {
        RenewalStatus::Lost
    }
}

/// Indices (ascending, among the first `n`) of the items with status `s`.
pub open spec fn indices_with_status(statuses: Seq<RenewalStatus>, s: RenewalStatus, n: int) -> Seq<usize>
    decreases n,
{
    if n <= 0 {
        seq![]
    } else if statuses[n - 1] == s {
        indices_with_status(statuses, s, n - 1).push((n - 1) as usize)
    } else {
        indices_with_status(statuses, s, n - 1)
    }
}

/// Membership in `indices_with_status`: exactly the items before `n` with
/// that status.
proof fn lemma_indices_with_status_member(statuses: Seq<RenewalStatus>, s: RenewalStatus, n: int, i: int)
    requires
        0 <= i < statuses.len(),
        n <= statuses.len() <= usize::MAX,
    ensures
        indices_with_status(statuses, s, n).contains(i as usize) <==> (i < n && statuses[i] == s),
    decreases n,
{
    if n > 0 {
        lemma_indices_with_status_member(statuses, s, n - 1, i);
        let prev = indices_with_status(statuses, s, n - 1);
        if statuses[n - 1] == s {
            let cur = prev.push((n - 1) as usize);
            if i == n - 1 {
                assert(cur[cur.len() - 1] == i as usize);
            } else if cur.contains(i as usize) {
                let k = choose|k: int| 0 <= k < cur.len() && cur[k] == i as usize;
                if k < prev.len() {
                    assert(prev[k] == cur[k]);
                }
            }
            if prev.contains(i as usize) {
                let k = choose|k: int| 0 <= k < prev.len() && prev[k] == i as usize;
                assert(cur[k] == prev[k]);
            }
        }
    }
}

/// The pipeline report counts every renewal exactly once: in the row of its
/// own status, and in no other row.
pub proof fn lemma_pipeline_partition(statuses: Seq<RenewalStatus>, i: int)
    requires
        0 <= i < statuses.len() <= usize::MAX,
    ensures
        exists|k: int| 0 <= k < 5 && pipeline_status(k) == statuses[i],
        forall|k: int|
            0 <= k < 5 ==> (#[trigger] indices_with_status(statuses, pipeline_status(k), statuses.len() as int).contains(
                i as usize,
            ) <==> pipeline_status(k) == statuses[i]),
{
    let k0: int = match statuses[i] {
        RenewalStatus::Pending => 0,
        RenewalStatus::Contacted => 1,
        RenewalStatus::Renewed => 2,
        RenewalStatus::Lapsed => 3,
        RenewalStatus::Lost => 4,
    };
    assert(pipeline_status(k0) == statuses[i]);
    assert forall|k: int| 0 <= k < 5 implies (#[trigger] indices_with_status(
        statuses,
        pipeline_status(k),
        statuses.len() as int,
    ).contains(i as usize) <==> pipeline_status(k) == statuses[i]) by {
        lemma_indices_with_status_member(statuses, pipeline_status(k), statuses.len() as int, i);
    }
}

/// The renewals (by index) of each pipeline status, in pipeline order.
pub fn pipeline_groups(statuses: &Vec<RenewalStatus>) -> (r: Vec<Vec<usize>>)
    ensures
        r@.len() == 5,
        forall|k: int| 0 <= k < 5 ==> (#[trigger] r@[k])@ == indices_with_status(
            statuses@,
            pipeline_status(k),
            statuses@.len() as int,
        ),
{
    let order = [
        RenewalStatus::Pending,
        RenewalStatus::Contacted,
        RenewalStatus::Renewed,
        RenewalStatus::Lapsed,
        RenewalStatus::Lost,
    ];
    let mut out: Vec<Vec<usize>> = Vec::new();
    let mut k: usize = 0;
    while k < 5
        invariant
            k <= 5,
            out@.len() == k,
            forall|j: int| 0 <= j < 5 ==> #[trigger] order@[j] == pipeline_status(j),
            forall|j: int| 0 <= j < k ==> (#[trigger] out@[j])@ == indices_with_status(
                statuses@,
                pipeline_status(j),
                statuses@.len() as int,
            ),
        decreases 5 - k,
    {
        let s = order[k];
        let mut members: Vec<usize> = Vec::new();
        let mut i: usize = 0;
        while i < statuses.len()
            invariant
                i <= statuses.len(),
                members@ == indices_with_status(statuses@, s, i as int),
            decreases statuses.len() - i,
        {
            if statuses[i] == s {
                members.push(i);
            }
            i = i + 1;
        }
        out.push(members);
        k = k + 1;
    }
    out
}

/// `a` ranks before `b`: more items first, and on a tie the earlier group
/// (the one with the smaller label) first.
pub open spec fn count_before(counts: Seq<usize>, a: usize, b: usize) -> bool {
    counts[a as int] > counts[b as int] || (counts[a as int] == counts[b as int] && a < b)
}

/// An arrangement of `0..n` strictly ordered by `count_before`.
pub open spec fn ranked_by_count(counts: Seq<usize>, r: Seq<usize>) -> bool {
    &&& r.len() == counts.len()
    &&& forall|k: int| 0 <= k < r.len() ==> (#[trigger] r[k]) < counts.len()
    &&& forall|a: int, b: int| 0 <= a < b < r.len() ==> count_before(counts, #[trigger] r[a], #[trigger] r[b])
}

/// Orders groups (given by their sizes, groups in label order) by size,
/// largest first, keeping label order on ties: the stable sort the
/// new-business report applies to its rows.
pub fn order_by_count_desc(counts: &Vec<usize>) -> (r: Vec<usize>)
    ensures
        ranked_by_count(counts@, r@),
{
    let mut out: Vec<usize> = Vec::new();
    let mut i: usize = 0;
    while i < counts.len()
        invariant
            i <= counts.len(),
            out@.len() == i,
            forall|k: int| 0 <= k < out@.len() ==> (#[trigger] out@[k]) < i,
            forall|a: int, b: int| 0 <= a < b < out@.len() ==> count_before(counts@, #[trigger] out@[a], #[trigger] out@[b]),
        decreases counts.len() - i,
    {
        let c = counts[i];
        let mut pos: usize = 0;
        while pos < out.len() && counts[out[pos]] >= c
            invariant
                pos <= out@.len(),
                i < counts.len(),
                forall|k: int| 0 <= k < out@.len() ==> (#[trigger] out@[k]) < i,
                forall|k: int| 0 <= k < pos ==> counts@[(#[trigger] out@[k]) as int] >= c,
            decreases out.len() - pos,
        {
            pos = pos + 1;
        }
        let ghost before = out@;
        out.insert(pos, i);
        assert forall|a: int, b: int| 0 <= a < b < out@.len() implies count_before(counts@, #[trigger] out@[a], #[trigger] out@[b]) by {
            if b < pos {
                assert(out@[a] == before[a] && out@[b] == before[b]);
            } else if b == pos {
                assert(out@[a] == before[a]);
                assert(counts@[before[a] as int] >= c);
            } else if a < pos {
                assert(out@[a] == before[a] && out@[b] == before[b - 1]);
            } else if a == pos {
                assert(out@[b] == before[b - 1]);
                assert(counts@[before[pos as int] as int] < c);
                if b - 1 > pos {
                    assert(count_before(counts@, before[pos as int], before[b - 1]));
                }
            } else {
                assert(out@[a] == before[a - 1] && out@[b] == before[b - 1]);
            }
        }
        i = i + 1;
    }
    out
}

/// Hex ids of a list of owners.
pub open spec fn owner_hexes(owners: Seq<Oid>) -> Seq<Seq<char>> {
    owners.map_values(|o: Oid| hex_text(o.bytes@))
}

/// Indices (ascending, among the first `n`) of the owners with hex id `user`.
pub open spec fn owned_by(owners: Seq<Seq<char>>, user: Seq<char>, n: int) -> Seq<usize>
    decreases n,
{
    if n <= 0 {
        seq![]
    } else if owners[n - 1] == user {
        owned_by(owners, user, n - 1).push((n - 1) as usize)
    } else {
        owned_by(owners, user, n - 1)
    }
}

/// Number of the first `n` renewals owned by `user` with status `s`.
pub open spec fn count_outcome(owners: Seq<Seq<char>>, statuses: Seq<RenewalStatus>, user: Seq<char>, s: RenewalStatus, n: int) -> nat
    decreases n,
{
    if n <= 0 {
        0
    } else if owners[n - 1] == user && statuses[n - 1] == s {
        count_outcome(owners, statuses, user, s, n - 1) + 1
    } else {
        count_outcome(owners, statuses, user, s, n - 1)
    }
}

/// The leaderboard's per-user tallies: the users' policies (by index), and
/// how many of their renewals were renewed and lost.
pub struct PerformerTally {
    /// The user's hex id.
    pub user_id: String,
    /// Indices of the user's policies, ascending.
    pub policies: Vec<usize>,
    /// How many of the user's renewals were renewed.
    pub renewed: u32,
    /// How many of the user's renewals were lost.
    pub lost: u32,
}

/// The users the leaderboard lists: owners of a policy, and owners of a
/// renewal that was renewed or lost.
pub open spec fn performer_labels(policy_owners: Seq<Oid>, renewal_owners: Seq<Oid>, statuses: Seq<RenewalStatus>) -> Seq<Seq<char>> {
    owner_hexes(policy_owners) + outcome_owner_hexes(renewal_owners, statuses, renewal_owners.len() as int)
}

/// Hex ids of the owners of renewed or lost renewals, among the first `n`.
pub open spec fn outcome_owner_hexes(renewal_owners: Seq<Oid>, statuses: Seq<RenewalStatus>, n: int) -> Seq<Seq<char>>
    decreases n,
{
    if n <= 0 {
        seq![]
    } else if statuses[n - 1] is Renewed || statuses[n - 1] is Lost {
        outcome_owner_hexes(renewal_owners, statuses, n - 1).push(hex_text(renewal_owners[n - 1].bytes@))
    } else {
        outcome_owner_hexes(renewal_owners, statuses, n - 1)
    }
}

/// Hex ids of owners, as characters.
fn hexes_of(owners: &Vec<Oid>) -> (r: Vec<Vec<char>>)
    ensures
        r@.len() == owners@.len(),
        forall|i: int| 0 <= i < r@.len() ==> (#[trigger] r@[i])@ == hex_text(owners@[i].bytes@),
{
    let mut out: Vec<Vec<char>> = Vec::new();
    let mut i: usize = 0;
    while i < owners.len()
        invariant
            i <= owners.len(),
            out@.len() == i,
            forall|k: int| 0 <= k < i ==> (#[trigger] out@[k])@ == hex_text(owners@[k].bytes@),
        decreases owners.len() - i,
    {
        let h = owners[i].to_hex();
        out.push(str_chars(h.as_str()));
        i = i + 1;
    }
    out
}

/// Users of the tallies.
pub open spec fn tally_users(ts: Seq<PerformerTally>) -> Seq<Seq<char>> {
    ts.map_values(|t: PerformerTally| t.user_id@)
}

/// Per-user tallies for the leaderboard, users in ascending id order: each
/// user who owns a policy or a renewed or lost renewal, with the indices of
/// their policies and their renewed and lost counts.
pub fn performer_tallies(policy_owners: &Vec<Oid>, renewal_owners: &Vec<Oid>, statuses: &Vec<RenewalStatus>) -> (r: Vec<PerformerTally>)
    requires
        renewal_owners@.len() == statuses@.len(),
        renewal_owners@.len() <= u32::MAX,
    ensures
        forall|a: int, b: int| 0 <= a < b < r@.len() ==> lex_lt(#[trigger] tally_users(r@)[a], #[trigger] tally_users(r@)[b]),
        forall|t: int| 0 <= t < r@.len() ==> performer_labels(policy_owners@, renewal_owners@, statuses@).contains(
            #[trigger] tally_users(r@)[t],
        ),
        forall|j: int| 0 <= j < performer_labels(policy_owners@, renewal_owners@, statuses@).len() ==> tally_users(r@).contains(
            #[trigger] performer_labels(policy_owners@, renewal_owners@, statuses@)[j],
        ),
        forall|t: int| 0 <= t < r@.len() ==> (#[trigger] r@[t]).policies@ == owned_by(
            owner_hexes(policy_owners@),
            r@[t].user_id@,
            policy_owners@.len() as int,
        ),
        forall|t: int| 0 <= t < r@.len() ==> (#[trigger] r@[t]).renewed == count_outcome(
            owner_hexes(renewal_owners@),
            statuses@,
            r@[t].user_id@,
            RenewalStatus::Renewed,
            renewal_owners@.len() as int,
        ),
        forall|t: int| 0 <= t < r@.len() ==> (#[trigger] r@[t]).lost == count_outcome(
            owner_hexes(renewal_owners@),
            statuses@,
            r@[t].user_id@,
            RenewalStatus::Lost,
            renewal_owners@.len() as int,
        ),
{
    let ph = hexes_of(policy_owners);
    let rh = hexes_of(renewal_owners);
    let ghost phv = owner_hexes(policy_owners@);
    let ghost rhv = owner_hexes(renewal_owners@);
    let ghost all = performer_labels(policy_owners@, renewal_owners@, statuses@);
    let mut labels: Vec<String> = Vec::new();
    let mut i: usize = 0;
    while i < ph.len()
        invariant
            i <= ph@.len(),
            ph@.len() == policy_owners@.len(),
            forall|k: int| 0 <= k < ph@.len() ==> (#[trigger] ph@[k])@ == hex_text(policy_owners@[k].bytes@),
            label_views(labels@) == owner_hexes(policy_owners@).take(i as int),
        decreases ph.len() - i,
    {
        let ghost before = labels@;
        labels.push(chars_to_string(&ph[i]));
        assert(label_views(labels@) =~= label_views(before).push(ph@[i as int]@));
        assert(owner_hexes(policy_owners@).take(i + 1) =~= owner_hexes(policy_owners@).take(i as int).push(
            hex_text(policy_owners@[i as int].bytes@),
        ));
        i = i + 1;
    }
    assert(owner_hexes(policy_owners@).take(ph@.len() as int) =~= owner_hexes(policy_owners@));
    let mut j: usize = 0;
    while j < rh.len()
        invariant
            j <= rh@.len(),
            rh@.len() == renewal_owners@.len(),
            statuses@.len() == renewal_owners@.len(),
            forall|k: int| 0 <= k < rh@.len() ==> (#[trigger] rh@[k])@ == hex_text(renewal_owners@[k].bytes@),
            label_views(labels@) == owner_hexes(policy_owners@) + outcome_owner_hexes(renewal_owners@, statuses@, j as int),
        decreases rh.len() - j,
    {
        if statuses[j] == RenewalStatus::Renewed || statuses[j] == RenewalStatus::Lost {
            let ghost before = labels@;
            labels.push(chars_to_string(&rh[j]));
            assert(label_views(labels@) =~= label_views(before).push(rh@[j as int]@));
            assert(label_views(labels@) =~= owner_hexes(policy_owners@) + outcome_owner_hexes(renewal_owners@, statuses@, j + 1));
        }
        j = j + 1;
    }
    assert(label_views(labels@) == all);
    let groups = group_by_label(&labels);
    let ghost gl = group_labels(groups@);
    let ghost gm = group_members(groups@);
    let mut out: Vec<PerformerTally> = Vec::new();
    let mut g: usize = 0;
    while g < groups.len()
        invariant
            g <= groups@.len(),
            gl == group_labels(groups@),
            gm == group_members(groups@),
            groups_of(all, all.len() as int, gl, gm),
            all == performer_labels(policy_owners@, renewal_owners@, statuses@),
            ph@.len() == policy_owners@.len(),
            forall|k: int| 0 <= k < ph@.len() ==> (#[trigger] ph@[k])@ == phv[k],
            phv == owner_hexes(policy_owners@),
            rh@.len() == renewal_owners@.len(),
            statuses@.len() == renewal_owners@.len(),
            renewal_owners@.len() <= u32::MAX,
            forall|k: int| 0 <= k < rh@.len() ==> (#[trigger] rh@[k])@ == rhv[k],
            rhv == owner_hexes(renewal_owners@),
            out@.len() == g,
            forall|t: int| 0 <= t < g ==> (#[trigger] out@[t]).user_id@ == gl[t],
            forall|t: int| 0 <= t < g ==> (#[trigger] out@[t]).policies@ == owned_by(phv, out@[t].user_id@, ph@.len() as int),
            forall|t: int| 0 <= t < g ==> (#[trigger] out@[t]).renewed == count_outcome(
                rhv,
                statuses@,
                out@[t].user_id@,
                RenewalStatus::Renewed,
                rh@.len() as int,
            ),
            forall|t: int| 0 <= t < g ==> (#[trigger] out@[t]).lost == count_outcome(
                rhv,
                statuses@,
                out@[t].user_id@,
                RenewalStatus::Lost,
                rh@.len() as int,
            ),
        decreases groups.len() - g,
    {
        let user = str_chars(groups[g].label.as_str());
        assert(user@ == gl[g as int]);
        let mut policies: Vec<usize> = Vec::new();
        let mut i: usize = 0;
        while i < ph.len()
            invariant
                i <= ph@.len(),
                forall|k: int| 0 <= k < ph@.len() ==> (#[trigger] ph@[k])@ == phv[k],
                policies@ == owned_by(phv, user@, i as int),
            decreases ph.len() - i,
        {
            if chars_equal(&ph[i], &user) {
                policies.push(i);
            }
            i = i + 1;
        }
        let mut renewed: u32 = 0;
        let mut lost: u32 = 0;
        let mut j: usize = 0;
        while j < rh.len()
            invariant
                j <= rh@.len(),
                rh@.len() == statuses@.len(),
                rh@.len() <= u32::MAX,
                forall|k: int| 0 <= k < rh@.len() ==> (#[trigger] rh@[k])@ == rhv[k],
                renewed == count_outcome(rhv, statuses@, user@, RenewalStatus::Renewed, j as int),
                lost == count_outcome(rhv, statuses@, user@, RenewalStatus::Lost, j as int),
                renewed <= j,
                lost <= j,
            decreases rh.len() - j,
        {
            if chars_equal(&rh[j], &user) {
                if statuses[j] == RenewalStatus::Renewed {
                    renewed = renewed + 1;
                } else if statuses[j] == RenewalStatus::Lost {
                    lost = lost + 1;
                }
            }
            j = j + 1;
        }
        out.push(PerformerTally { user_id: chars_to_string(&user), policies, renewed, lost });
        g = g + 1;
    }
    assert(tally_users(out@) =~= gl);
    assert forall|t: int| 0 <= t < out@.len() implies all.contains(#[trigger] tally_users(out@)[t]) by {
        assert(gm[t].len() > 0);
        let m = gm[t][0];
        assert(all[m as int] == gl[t]);
    }
    assert forall|jj: int| 0 <= jj < all.len() implies tally_users(out@).contains(#[trigger] all[jj]) by {
        assert(crate::grouping::in_some_group(gm, jj));
        let (gg, kk) = choose|gg: int, kk: int| 0 <= gg < gm.len() && 0 <= kk < gm[gg].len() && #[trigger] gm[gg][kk] == jj;
        assert(all[gm[gg][kk] as int] == gl[gg]);
        assert(tally_users(out@)[gg] == all[jj]);
    }
    out
}

/// The label a policy is grouped under in the yearly comparison.
pub fn comparison_label<'a>(group: ComparisonGroup, policy_type: &'a str, insurer_name: &'a str) -> (r: &'a str)
    ensures
        r@ == if group == ComparisonGroup::PolicyType { policy_type@ } else { insurer_name@ },
{
    match group {
        ComparisonGroup::PolicyType => policy_type,
        ComparisonGroup::InsurerName => insurer_name,
    }
}

/// The policies of the yearly comparison: those ending in `[start, end)`,
/// within the caller's scope.
pub fn yearly_comparison_filter(start: i64, end: i64, scope: Filter) -> (f: Filter)
    ensures
        f@ == combine_spec(FilterV::Doc(seq![window_spec("end_date"@, start, end)]), scope@),
{
    combine_filters(Filter::single(window("end_date", start, end)), scope)
}

/// The renewals of the premium trend: due from the start of the earliest
/// bucket on, within the caller's scope.
pub fn premium_trend_filter(earliest: i64, scope: Filter) -> (f: Filter)
    ensures
        f@ == combine_spec(
            FilterV::Doc(seq![CondV {
                field: "due_date"@,
                test: TestV::Range { gte: Some(ValueV::DateTime(earliest)), lt: None, lte: None },
            }]),
            scope@,
        ),
{
    let c = Cond { field: "due_date".to_string(), test: Test::Range { gte: Some(Value::DateTime(earliest)), lt: None, lte: None } };
    combine_filters(Filter::single(c), scope)
}

} // verus!
