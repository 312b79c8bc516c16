use aditya_crm::dashboard::{day_counts, month_window};
use aditya_crm::dates::{day_of_millis, day_start_millis, weekday_from_monday, DAY_MS};
use aditya_crm::error::ApiError;
use aditya_crm::numbers::{parse_i32, parse_u16, parse_u32, parse_u64};
use aditya_crm::reports::{add_months, day_bounds, trend_buckets, trend_periods, year_window, Period};

const NOW: i64 = 1_772_704_800_000; // 2026-03-05T10:00:00Z, a Thursday

fn bad_request_message(e: ApiError) -> String {
    match e {
        ApiError::BadRequest(m) => m,
        _ => panic!("expected a 400"),
    }
}

#[test]
fn add_months_crosses_year_boundaries() {
    assert_eq!(add_months(2026, 1, -1), (2025, 12));
    assert_eq!(add_months(2025, 12, 1), (2026, 1));
    assert_eq!(add_months(2026, 3, -5), (2025, 10));
    assert_eq!(add_months(2026, 11, 3), (2027, 2));
    assert_eq!(add_months(2026, 6, 0), (2026, 6));
    assert_eq!(add_months(2026, 6, -30), (2023, 12));
}

#[test]
fn add_months_composes_and_undoes() {
    let (y, m) = add_months(2024, 2, 17);
    assert_eq!(add_months(y, m, -17), (2024, 2));
    assert_eq!(add_months(y, m, 5), add_months(2024, 2, 22));
}

#[test]
fn day_bounds_cover_whole_days() {
    let (s, e) = day_bounds(20_500, 20_502).ok().unwrap();
    assert_eq!(s, 20_500 * DAY_MS);
    assert_eq!(e, 20_503 * DAY_MS);
    let (s1, e1) = day_bounds(7, 7).ok().unwrap();
    assert_eq!(e1 - s1, DAY_MS);
}

#[test]
fn day_bounds_rejects_backwards_window() {
    let err = day_bounds(20_502, 20_500).err().unwrap();
    assert_eq!(bad_request_message(err), "date_to must be on or after date_from");
}

#[test]
fn epoch_day_arithmetic() {
    assert_eq!(day_of_millis(NOW), 20_517);
    assert_eq!(day_of_millis(-1), -1);
    assert_eq!(day_of_millis(0), 0);
    assert_eq!(day_start_millis(20_517), 1_772_668_800_000);
    assert_eq!(weekday_from_monday(0), 3);
    assert_eq!(weekday_from_monday(20_517), 3);
    assert_eq!(weekday_from_monday(20_514), 0);
    assert_eq!(weekday_from_monday(-1), 2);
}

fn check_tiling(ps: &Vec<Period>) {
    for k in 0..ps.len() - 1 {
        assert_eq!(ps[k].end, ps[k + 1].start);
    }
}

#[test]
fn daily_trend_is_fourteen_days_ending_today() {
    let ps = trend_periods("daily", NOW).ok().unwrap();
    assert_eq!(ps.len(), 14);
    check_tiling(&ps);
    let last = &ps[13];
    assert!(last.start <= NOW && NOW < last.end);
    assert_eq!(last.label, "Mar 05");
    assert_eq!(ps[0].label, "Feb 20");
    assert_eq!(ps[0].end - ps[0].start, DAY_MS);
}

#[test]
fn weekly_trend_starts_on_mondays() {
    let ps = trend_periods("weekly", NOW).ok().unwrap();
    assert_eq!(ps.len(), 8);
    check_tiling(&ps);
    assert_eq!(ps[7].start, 20_514 * DAY_MS);
    assert_eq!(ps[7].label, "Wk of Mar 02");
    assert_eq!(ps[0].label, "Wk of Jan 12");
    for p in &ps {
        assert_eq!(weekday_from_monday(p.start / DAY_MS), 0);
        assert_eq!(p.end - p.start, 7 * DAY_MS);
    }
}

#[test]
fn monthly_trend_is_six_calendar_months() {
    let ps = trend_periods("monthly", NOW).ok().unwrap();
    assert_eq!(ps.len(), 6);
    check_tiling(&ps);
    assert_eq!(ps[0].start, 1_759_276_800_000);
    assert_eq!(ps[0].label, "Oct 2025");
    assert_eq!(ps[5].start, 1_772_323_200_000);
    assert_eq!(ps[5].end, 1_775_001_600_000);
    assert_eq!(ps[5].label, "Mar 2026");
}

#[test]
fn yearly_trend_is_four_calendar_years() {
    let ps = trend_periods("yearly", NOW).ok().unwrap();
    assert_eq!(ps.len(), 4);
    check_tiling(&ps);
    let labels: Vec<&str> = ps.iter().map(|p| p.label.as_str()).collect();
    assert_eq!(labels, vec!["2023", "2024", "2025", "2026"]);
    assert_eq!(ps[0].start, 1_672_531_200_000);
    assert_eq!(ps[3].end, 1_798_761_600_000);
}

#[test]
fn unknown_granularity_is_rejected() {
    let err = trend_periods("hourly", NOW).err().unwrap();
    assert_eq!(bad_request_message(err), "granularity must be daily, weekly, monthly, or yearly");
    assert!(trend_periods("Daily", NOW).is_err());
}

#[test]
fn trend_buckets_split_due_dates_by_period() {
    let ps = trend_periods("daily", NOW).ok().unwrap();
    let due = vec![NOW, NOW - DAY_MS, NOW - 20 * DAY_MS, ps[13].end, ps[12].start];
    let b = trend_buckets(&ps, &due);
    assert_eq!(b.len(), 14);
    assert_eq!(b[13], vec![0usize]);
    assert_eq!(b[12], vec![1usize, 4]);
    let total: usize = b.iter().map(|x| x.len()).sum();
    assert_eq!(total, 3);
}

#[test]
fn year_window_is_a_calendar_year() {
    let (s, e) = year_window(2023).ok().unwrap();
    assert_eq!(s, 1_672_531_200_000);
    assert_eq!(e - s, 365 * DAY_MS);
    let err = year_window(300_000).err().unwrap();
    assert_eq!(bad_request_message(err), "invalid year");
    assert!(year_window(262_142).is_err());
}

#[test]
fn month_window_reads_year_and_month() {
    let (s, e) = month_window("2026-02").ok().unwrap();
    assert_eq!(s, 1_769_904_000_000);
    assert_eq!(e, 1_772_323_200_000);
    let (s2, e2) = month_window("2025-12").ok().unwrap();
    assert_eq!(e2 - s2, 31 * DAY_MS);
    assert_eq!(bad_request_message(month_window("2026-13").err().unwrap()), "invalid month");
    assert_eq!(bad_request_message(month_window("2026-0").err().unwrap()), "invalid month");
    assert_eq!(bad_request_message(month_window("2026").err().unwrap()), "month must be YYYY-MM");
    assert_eq!(bad_request_message(month_window("abcd-01").err().unwrap()), "month must be YYYY-MM");
    assert_eq!(bad_request_message(month_window("2026-1-2").err().unwrap()), "month must be YYYY-MM");
}

#[test]
fn day_counts_group_by_calendar_day() {
    let d = 1_772_323_200_000; // 2026-03-01
    let counts = day_counts(&vec![d + 5, d + DAY_MS, d + 100, d - 1]);
    let flat: Vec<(String, u32)> = counts.into_iter().map(|c| (c.label, c.count)).collect();
    assert_eq!(
        flat,
        vec![("2026-02-28".to_string(), 1), ("2026-03-01".to_string(), 2), ("2026-03-02".to_string(), 1)]
    );
}

#[test]
fn integers_parse_like_str_parse() {
    assert_eq!(parse_u64("42"), Some(42));
    assert_eq!(parse_u64("+7"), Some(7));
    assert_eq!(parse_u64("-1"), None);
    assert_eq!(parse_u64(""), None);
    assert_eq!(parse_u64("+"), None);
    assert_eq!(parse_u64("1 2"), None);
    assert_eq!(parse_u64("18446744073709551615"), Some(u64::MAX));
    assert_eq!(parse_u64("18446744073709551616"), None);
    assert_eq!(parse_u16("65535"), Some(65535));
    assert_eq!(parse_u16("65536"), None);
    assert_eq!(parse_u32("0004"), Some(4));
    assert_eq!(parse_i32("-2147483648"), Some(i32::MIN));
    assert_eq!(parse_i32("2147483648"), None);
    assert_eq!(parse_i32("-"), None);
    assert_eq!(parse_i32("-12"), Some(-12));
    for s in ["0", "9", "123456", "+5", "-0", "x", "99999999999"] {
        assert_eq!(parse_i32(s), s.parse::<i32>().ok());
        assert_eq!(parse_u64(s), s.parse::<u64>().ok());
    }
}

fn check_whole_days(ps: &Vec<Period>, now: i64) {
    for p in ps {
        assert!(p.start < p.end);
        assert_eq!(p.start % DAY_MS, 0);
        assert_eq!(p.end % DAY_MS, 0);
    }
    let last = ps.last().unwrap();
    assert!(last.start <= now && now < last.end);
}

#[test]
fn every_trend_bucket_is_whole_days_and_the_last_holds_now() {
    let leap_noon = 1_709_208_000_000; // 2024-02-29T12:00:00Z
    for now in [NOW, leap_noon, NOW - 1] {
        for g in ["daily", "weekly", "monthly", "yearly"] {
            check_whole_days(&trend_periods(g, now).ok().unwrap(), now);
        }
    }
    let months = trend_periods("monthly", leap_noon).ok().unwrap();
    assert_eq!(months[5].start, 1_706_745_600_000);
    assert_eq!(months[5].end, 1_709_251_200_000);
    assert_eq!(months[5].label, "Feb 2024");
    let years = trend_periods("yearly", leap_noon).ok().unwrap();
    assert_eq!(years[3].end - years[3].start, 366 * DAY_MS);
}

use aditya_crm::dashboard::names_last_month;

#[test]
fn only_the_last_representable_month_has_no_successor() {
    assert!(names_last_month("262142-12"));
    assert!(!names_last_month("262142-11"));
    assert!(!names_last_month("2026-12"));
    assert!(!names_last_month("december"));
}
