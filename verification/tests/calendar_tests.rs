use finalytics::calendar::{checked_sub_months, iso_week, parse_naive_date, CalendarDate};
use finalytics::periods::{
    applicable_periods, compute_groups, date_to_group_key, find_start_index, group_runs,
    periodic_windows, range_periods, PerformancePeriod, ReturnsFrequency,
};
use finalytics::config::Interval;

fn date(year: i32, month: u32, day: u32) -> CalendarDate {
    CalendarDate { year, month, day }
}

fn strings(v: &[&str]) -> Vec<String> {
    v.iter().map(|s| s.to_string()).collect()
}

#[test]
fn parse_reads_the_date_part() {
    assert_eq!(parse_naive_date("2024-02-29"), Some(date(2024, 2, 29)));
    assert_eq!(parse_naive_date("2024-02-29 15:30:00"), Some(date(2024, 2, 29)));
    assert_eq!(parse_naive_date("2023-02-29"), None);
    assert_eq!(parse_naive_date("not a date"), None);
    assert_eq!(parse_naive_date(""), None);
}

#[test]
fn before_is_chronological() {
    assert!(date(2023, 12, 31).before(&date(2024, 1, 1)));
    assert!(date(2024, 1, 1).before(&date(2024, 1, 2)));
    assert!(!date(2024, 1, 2).before(&date(2024, 1, 2)));
    assert!(!date(2024, 3, 1).before(&date(2024, 2, 28)));
}

#[test]
fn iso_weeks_of_dates() {
    assert_eq!(iso_week(date(2024, 1, 1)), (2024, 1));
    assert_eq!(iso_week(date(2021, 1, 3)), (2020, 53));
    assert_eq!(iso_week(date(2024, 12, 30)), (2025, 1));
    assert_eq!(iso_week(date(2023, 6, 15)), (2023, 24));
}

#[test]
fn stepping_back_months_clamps_the_day() {
    assert_eq!(checked_sub_months(date(2024, 3, 31), 1), Some(date(2024, 2, 29)));
    assert_eq!(checked_sub_months(date(2023, 5, 31), 3), Some(date(2023, 2, 28)));
    assert_eq!(checked_sub_months(date(2024, 6, 30), 12), Some(date(2023, 6, 30)));
    assert_eq!(checked_sub_months(date(2024, 1, 15), 0), Some(date(2024, 1, 15)));
    assert_eq!(checked_sub_months(date(2024, 1, 15), 25), Some(date(2021, 12, 15)));
    assert_eq!(checked_sub_months(date(2024, 1, 15), u32::MAX), None);
}

#[test]
fn shorter_step_back_lands_later() {
    let d = date(2024, 8, 31);
    let six = checked_sub_months(d, 6).unwrap();
    let twelve = checked_sub_months(d, 12).unwrap();
    assert!(twelve.before(&six));
}

#[test]
fn group_keys_per_frequency() {
    assert_eq!(date_to_group_key("2024-03-15 10:30:00", ReturnsFrequency::Hourly), "2024-03-15 10");
    assert_eq!(date_to_group_key("2024-03-15", ReturnsFrequency::Hourly), "2024-03-15");
    assert_eq!(date_to_group_key("2024-03-15 10:30:00", ReturnsFrequency::Daily), "2024-03-15");
    assert_eq!(date_to_group_key("2024-03-15", ReturnsFrequency::Monthly), "2024-03");
    assert_eq!(date_to_group_key("2024-03-15", ReturnsFrequency::Yearly), "2024");
    assert_eq!(date_to_group_key("2024-01-01", ReturnsFrequency::Weekly), "2024-W01");
    assert_eq!(date_to_group_key("2021-01-03", ReturnsFrequency::Weekly), "2020-W53");
    assert_eq!(date_to_group_key("bad", ReturnsFrequency::Weekly), "bad");
    assert_eq!(date_to_group_key("2024", ReturnsFrequency::Monthly), "2024");
}

#[test]
fn runs_of_equal_keys() {
    let keys = strings(&["a", "a", "b", "a", "a", "a"]);
    let groups = group_runs(&keys);
    assert_eq!(
        groups,
        vec![("a".to_string(), 0, 2), ("b".to_string(), 2, 3), ("a".to_string(), 3, 6)]
    );
    assert!(group_runs(&Vec::new()).is_empty());
}

#[test]
fn monthly_groups_of_dates() {
    let dates = strings(&["2024-01-02", "2024-01-15", "2024-02-01", "2024-02-20", "2024-03-05"]);
    let groups = compute_groups(&dates, ReturnsFrequency::Monthly);
    assert_eq!(
        groups,
        vec![
            ("2024-01".to_string(), 0, 2),
            ("2024-02".to_string(), 2, 4),
            ("2024-03".to_string(), 4, 5)
        ]
    );
}

#[test]
fn weekly_groups_cross_year_end() {
    let dates = strings(&["2020-12-31", "2021-01-03", "2021-01-04"]);
    let groups = compute_groups(&dates, ReturnsFrequency::Weekly);
    assert_eq!(groups, vec![("2020-W53".to_string(), 0, 2), ("2021-W01".to_string(), 2, 3)]);
}

#[test]
fn frequencies_and_intervals() {
    assert_eq!(ReturnsFrequency::from_interval_enum(Interval::OneDay), ReturnsFrequency::Daily);
    assert_eq!(ReturnsFrequency::from_interval_enum(Interval::FiveMinutes), ReturnsFrequency::Hourly);
    assert_eq!(ReturnsFrequency::from_interval_enum(Interval::OneWeek), ReturnsFrequency::Weekly);
    assert_eq!(ReturnsFrequency::from_interval_enum(Interval::ThreeMonths), ReturnsFrequency::Monthly);
    assert_eq!(
        ReturnsFrequency::Weekly.available_frequencies(),
        vec![ReturnsFrequency::Weekly, ReturnsFrequency::Monthly, ReturnsFrequency::Yearly]
    );
    assert_eq!(ReturnsFrequency::Hourly.available_frequencies().len(), 5);
    assert_eq!(ReturnsFrequency::Yearly.to_string(), "Yearly");
    assert_eq!(ReturnsFrequency::Monthly.position(), 3);
}

#[test]
fn period_names_and_lengths() {
    assert_eq!(PerformancePeriod::SixMonths.to_string(), "6M");
    assert_eq!(PerformancePeriod::TenYears.to_string(), "10Y");
    assert_eq!(PerformancePeriod::Full.months(), None);
    assert_eq!(PerformancePeriod::ThreeYears.months(), Some(36));
    assert_eq!(PerformancePeriod::sub_periods().len(), 5);
}

#[test]
fn periods_that_fit_the_range() {
    assert_eq!(
        applicable_periods("2020-01-01", "2024-06-30"),
        vec![
            PerformancePeriod::Full,
            PerformancePeriod::SixMonths,
            PerformancePeriod::OneYear,
            PerformancePeriod::ThreeYears
        ]
    );
    assert_eq!(applicable_periods("2024-03-01", "2024-06-30"), vec![PerformancePeriod::Full]);
    assert_eq!(applicable_periods("garbage", "2024-06-30"), vec![PerformancePeriod::Full]);
}

#[test]
fn first_row_on_or_after_target() {
    let dates = strings(&["2023-01-31", "oops", "2023-03-31", "2023-06-30"]);
    assert_eq!(find_start_index(&dates, date(2023, 2, 1)), Some(2));
    assert_eq!(find_start_index(&dates, date(2023, 1, 31)), Some(0));
    assert_eq!(find_start_index(&dates, date(2024, 1, 1)), None);
}

#[test]
fn windows_of_periodic_statistics() {
    let dates = strings(&["2023-01-31", "2023-03-31", "2023-06-30", "2023-09-30", "2023-12-31"]);
    assert_eq!(
        periodic_windows(&dates),
        Ok(vec![(PerformancePeriod::Full, 0), (PerformancePeriod::SixMonths, 2)])
    );
}

#[test]
fn short_windows_are_left_out() {
    let dates = strings(&["2023-01-01", "2023-12-31"]);
    assert_eq!(periodic_windows(&dates), Ok(vec![(PerformancePeriod::Full, 0)]));
    assert_eq!(periodic_windows(&Vec::new()), Ok(Vec::new()));
}

#[test]
fn windows_need_a_parsable_end_date() {
    let dates = strings(&["2023-01-01", "garbage"]);
    assert_eq!(periodic_windows(&dates), Err("Cannot parse end date".to_string()));
}

#[test]
fn periods_of_a_data_range() {
    let dates = strings(&["2023-01-31", "2023-12-31"]);
    assert_eq!(
        range_periods(&dates, "2010-01-01", "2024-06-30"),
        vec![PerformancePeriod::Full, PerformancePeriod::SixMonths]
    );
    assert_eq!(
        range_periods(&Vec::new(), "2020-01-01", "2024-06-30"),
        vec![
            PerformancePeriod::Full,
            PerformancePeriod::SixMonths,
            PerformancePeriod::OneYear,
            PerformancePeriod::ThreeYears
        ]
    );
}
