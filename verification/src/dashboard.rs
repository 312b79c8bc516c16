//! The monthly dashboard: which month a "YYYY-MM" text names, and the
//! renewals due per day of it.
use vstd::prelude::*;
use crate::dates::{first_of_month_millis, format_iso_date, month_start, text_iso_date, MAX_YEAR};
use crate::error::{bad_request, ApiError};
use crate::filter::{combine_spec, CondV, Filter, FilterV, TestV};
use crate::grouping::{label_counts, label_views, count_labels, count_label, lex_lt, LabelCount};
use crate::reports::{new_business_filter, renewal_window_filter, window_spec};
use crate::numbers::{parse_i32, parse_i32_spec, parse_u32, parse_unsigned};
use crate::text::{chars_to_string, str_chars};
use crate::value::ValueV;

verus! {

/// The month a dashboard shows, as "YYYY-MM".
pub struct MonthlyQuery {
    pub month: String,
}

/// Position of the first '-' at or after `i`.
pub open spec fn first_dash_from(s: Seq<char>, i: int) -> Option<int>
    decreases s.len() - i,
{
    if i < 0 || i >= s.len() {
        None
    } else if s[i] == '-' {
        Some(i)
    } else {
        first_dash_from(s, i + 1)
    }
}

/// The text before the first '-' (all of it when there is none).
pub open spec fn year_part(s: Seq<char>) -> Seq<char> {
    match first_dash_from(s, 0) {
        Some(i) => s.take(i),
        None => s,
    }
}

/// The text after the first '-', if there is one.
pub open spec fn month_part(s: Seq<char>) -> Option<Seq<char>> {
    match first_dash_from(s, 0) {
        Some(i) => Some(s.skip(i + 1)),
        None => None,
    }
}

/// The (year, month) numbers a "YYYY-MM" text holds, if both parse.
pub open spec fn parsed_month(s: Seq<char>) -> Option<(int, int)> {
    match (parse_i32_spec(year_part(s)), month_part(s)) {
        (Some(y), Some(m)) => match parse_unsigned(m, u32::MAX as int) {
            Some(mm) => Some((y, mm)),
            None => None,
        },
        _ => None,
    }
}

/// The month after (year, month) for a valid month.
pub open spec fn next_month(y: int, m: int) -> (int, int) {
    if m == 12 {
        (y + 1, 1)
    } else {
        (y, m + 1)
    }
}

/// The last month chrono can represent has no month after it.
pub open spec fn is_last_month(s: Seq<char>) -> bool {
    parsed_month(s) == Some((MAX_YEAR as int, 12int))
}

/// Whether the text names the last month chrono can represent (whose
/// following month cannot be built).
pub fn names_last_month(month: &str) -> (r: bool)
    ensures
        r == is_last_month(month@),
{
    let (year_text, month_text) = split_month(month);
    let year = parse_i32(year_text.as_str());
    let m = match month_text {
        Some(t) => parse_u32(t.as_str()),
        None => None,
    };
    match (year, m) {
        (Some(y), Some(v)) => y == MAX_YEAR && v == 12,
        _ => false,
    }
}

/// Splits "YYYY-MM" at its first '-'.
fn split_month(s: &str) -> (r: (String, Option<String>))
    ensures
        r.0@ == year_part(s@),
        match r.1 {
            Some(m) => month_part(s@) == Some(m@),
            None => month_part(s@) is None,
        },
{
    let cs = str_chars(s);
    let mut i: usize = 0;
    while i < cs.len()
        invariant
            i <= cs@.len(),
            cs@ == s@,
            first_dash_from(s@, 0) == first_dash_from(s@, i as int),
        decreases cs.len() - i,
    {
        if cs[i] == '-' {
            let mut year: Vec<char> = Vec::new();
            let mut k: usize = 0;
            while k < i
                invariant
                    k <= i,
                    i < cs@.len(),
                    year@ == cs@.take(k as int),
                decreases i - k,
            {
                year.push(cs[k]);
                k = k + 1;
                assert(cs@.take(k as int) =~= cs@.take(k - 1).push(cs@[k - 1]));
            }
            let mut rest: Vec<char> = Vec::new();
            let mut j: usize = i + 1;
            while j < cs.len()
                invariant
                    i + 1 <= j <= cs@.len(),
                    rest@ == cs@.subrange(i + 1, j as int),
                decreases cs.len() - j,
            {
                rest.push(cs[j]);
                j = j + 1;
                assert(cs@.subrange(i + 1, j as int) =~= cs@.subrange(i + 1, j - 1).push(cs@[j - 1]));
            }
            assert(cs@.subrange(i + 1, cs@.len() as int) =~= cs@.skip(i + 1));
            return (chars_to_string(&year), Some(chars_to_string(&rest)));
        }
        i = i + 1;
    }
    (s.to_string(), None)
}

/// What the month's dashboard reads, both within the caller's visibility
/// `scope`: the renewals due in `[start, end)` (of any insurer and policy
/// type), and the month's new business exactly as the new-business report
/// selects it for that window and scope with no insurer given.
pub fn monthly_filters(start: i64, end: i64, scope: Filter) -> (r: (Filter, Filter))
    ensures
        r.0@ == combine_spec(FilterV::Doc(seq![window_spec("due_date"@, start, end)]), scope@),
        r.1@ == combine_spec(
            FilterV::Doc(seq![
                CondV { field: "previous_policy_id"@, test: TestV::Eq(ValueV::Null) },
                window_spec("created_at"@, start, end),
            ]),
            scope@,
        ),
{
    let renewals = renewal_window_filter(start, end, &None, &None, scope.duplicate());
    let policies = new_business_filter(start, end, &None, scope);
    proof {
        assert(seq![window_spec("due_date"@, start, end)] + crate::reports::opt_text_eq("insurer_name"@, None)
            + crate::reports::opt_text_eq("policy_type"@, None) =~= seq![window_spec("due_date"@, start, end)]);
        assert(seq![
            CondV { field: "previous_policy_id"@, test: TestV::Eq(ValueV::Null) },
            window_spec("created_at"@, start, end),
        ] + crate::reports::opt_text_eq("insurer_name"@, None) =~= seq![
            CondV { field: "previous_policy_id"@, test: TestV::Eq(ValueV::Null) },
            window_spec("created_at"@, start, end),
        ]);
    }
    (renewals, policies)
}

/// The dashboard month `[start, end)` in epoch milliseconds. A text that
/// is not a year and a month number separated by '-' is a 400 "month must
/// be YYYY-MM"; a month chrono cannot represent (month 0, month 13, ...)
/// a 400 "invalid month".
pub fn month_window(month: &str) -> (r: Result<(i64, i64), ApiError>)
    requires
        !is_last_month(month@),
    ensures
        match parsed_month(month@) {
            None => r matches Err(e) && e matches ApiError::BadRequest(m) && m@ == "month must be YYYY-MM"@,
            Some((y, m)) => match month_start(y as i32, m as u32) {
                None => r matches Err(e) && e matches ApiError::BadRequest(x) && x@ == "invalid month"@,
                Some(s) => r matches Ok((a, b)) && a == s && Some(b) == month_start(
                    next_month(y, m).0 as i32,
                    next_month(y, m).1 as u32,
                ),
            },
        },
{
    let (year_text, month_text) = split_month(month);
    let year = match parse_i32(year_text.as_str()) {
        Some(y) => y,
        None => return Err(bad_request("month must be YYYY-MM")),
    };
    let m = match month_text {
        Some(t) => match parse_u32(t.as_str()) {
            Some(v) => v,
            None => return Err(bad_request("month must be YYYY-MM")),
        },
        None => return Err(bad_request("month must be YYYY-MM")),
    };
    let start = match first_of_month_millis(year, m) {
        Some(s) => s,
        None => return Err(bad_request("invalid month")),
    };
    let end = if m == 12 {
        first_of_month_millis(year + 1, 1).unwrap()
    } else {
        first_of_month_millis(year, m + 1).unwrap()
    };
    Ok((start, end))
}

/// The `%Y-%m-%d` day of each timestamp.
pub open spec fn iso_days(due: Seq<i64>) -> Seq<Seq<char>> {
    due.map_values(|d: i64| text_iso_date(d))
}

/// Renewals due per calendar day ("YYYY-MM-DD"), days in ascending order.
pub fn day_counts(due_dates: &Vec<i64>) -> (r: Vec<LabelCount>)
    requires
        due_dates@.len() <= u32::MAX,
    ensures
        forall|a: int, b: int| 0 <= a < b < r@.len() ==> lex_lt(#[trigger] count_labels(r@)[a], #[trigger] count_labels(r@)[b]),
        forall|k: int| 0 <= k < r@.len() ==> iso_days(due_dates@).contains(#[trigger] count_labels(r@)[k]),
        forall|j: int| 0 <= j < due_dates@.len() ==> count_labels(r@).contains(#[trigger] iso_days(due_dates@)[j]),
        forall|k: int| 0 <= k < r@.len() ==> (#[trigger] r@[k]).count == count_label(
            iso_days(due_dates@),
            r@[k].label@,
            due_dates@.len() as int,
        ),
{
    let mut labels: Vec<String> = Vec::new();
    let mut i: usize = 0;
    while i < due_dates.len()
        invariant
            i <= due_dates@.len(),
            labels@.len() == i,
            forall|k: int| 0 <= k < i ==> (#[trigger] labels@[k])@ == text_iso_date(due_dates@[k]),
        decreases due_dates.len() - i,
    {
        labels.push(format_iso_date(due_dates[i]));
        i = i + 1;
    }
    assert(label_views(labels@) =~= iso_days(due_dates@));
    label_counts(&labels)
}

} // verus!
