use finalytics::hrp::quasi_diagonalize;
use finalytics::schedule::{
    cash_flow_rows, date_in_range, is_period_boundary, should_rebalance, RebalanceTrigger, ScheduleFrequency,
};
use finalytics::transactions::transaction_slot;

fn strings(v: &[&str]) -> Vec<String> {
    v.iter().map(|s| s.to_string()).collect()
}

#[test]
fn monthly_boundaries() {
    assert!(is_period_boundary("2024-01-31", "2024-02-01", ScheduleFrequency::Monthly));
    assert!(!is_period_boundary("2024-01-02", "2024-01-31", ScheduleFrequency::Monthly));
    assert!(is_period_boundary("2023-01-15", "2024-01-15", ScheduleFrequency::Monthly));
}

#[test]
fn quarterly_and_half_year_boundaries() {
    assert!(is_period_boundary("2024-03-31", "2024-04-01", ScheduleFrequency::Quarterly));
    assert!(!is_period_boundary("2024-01-31", "2024-02-01", ScheduleFrequency::Quarterly));
    assert!(is_period_boundary("2024-06-30", "2024-07-01", ScheduleFrequency::SemiAnnually));
    assert!(!is_period_boundary("2024-03-31", "2024-04-01", ScheduleFrequency::SemiAnnually));
}

#[test]
fn annual_boundaries() {
    assert!(is_period_boundary("2023-12-31", "2024-01-02", ScheduleFrequency::Annually));
    assert!(!is_period_boundary("2024-01-02", "2024-12-31", ScheduleFrequency::Annually));
}

#[test]
fn finer_boundary_follows_from_coarser() {
    let pairs = [("2023-12-29", "2024-01-02"), ("2024-06-28", "2024-07-01"), ("2024-03-29", "2024-04-01")];
    for (a, b) in pairs {
        if is_period_boundary(a, b, ScheduleFrequency::Annually) {
            assert!(is_period_boundary(a, b, ScheduleFrequency::SemiAnnually));
        }
        if is_period_boundary(a, b, ScheduleFrequency::SemiAnnually) {
            assert!(is_period_boundary(a, b, ScheduleFrequency::Quarterly));
        }
        if is_period_boundary(a, b, ScheduleFrequency::Quarterly) {
            assert!(is_period_boundary(a, b, ScheduleFrequency::Monthly));
        }
    }
}

#[test]
fn frequency_names() {
    assert_eq!(ScheduleFrequency::SemiAnnually.to_string(), "Semi-Annually");
    assert_eq!(ScheduleFrequency::Monthly.to_string(), "Monthly");
}

#[test]
fn dates_within_windows() {
    let start = Some("2024-01-01".to_string());
    let end = Some("2024-12-31".to_string());
    assert!(date_in_range("2024-05-01", &start, &end));
    assert!(date_in_range("2024-01-01 09:30:00", &start, &end));
    assert!(!date_in_range("2023-12-31", &start, &end));
    assert!(!date_in_range("2025-01-01", &start, &end));
    assert!(date_in_range("2030-01-01", &start, &None));
    assert!(date_in_range("1990-01-01", &None, &None));
}

#[test]
fn monthly_cash_flows_fall_on_first_dates_of_months() {
    let dates = strings(&["2024-01-30", "2024-01-31", "2024-02-01", "2024-02-15", "2024-03-01", "2024-04-01"]);
    assert_eq!(cash_flow_rows(&dates, ScheduleFrequency::Monthly, &None, &None), vec![2, 4, 5]);
    assert_eq!(
        cash_flow_rows(&dates, ScheduleFrequency::Monthly, &Some("2024-03-01".to_string()), &None),
        vec![4, 5]
    );
    assert_eq!(
        cash_flow_rows(&dates, ScheduleFrequency::Monthly, &None, &Some("2024-02-28".to_string())),
        vec![2]
    );
    assert_eq!(cash_flow_rows(&dates, ScheduleFrequency::Quarterly, &None, &None), vec![5]);
    assert!(cash_flow_rows(&Vec::new(), ScheduleFrequency::Monthly, &None, &None).is_empty());
}

#[test]
fn rebalancing_decisions() {
    let dates = strings(&["2024-01-30", "2024-01-31", "2024-02-01"]);
    let monthly = RebalanceTrigger::Calendar(ScheduleFrequency::Monthly);
    assert!(!should_rebalance(0, &dates, monthly, true, usize::MAX));
    assert!(!should_rebalance(1, &dates, monthly, false, 0));
    assert!(should_rebalance(2, &dates, monthly, false, 0));
    assert!(!should_rebalance(2, &dates, monthly, false, 2));
    assert!(should_rebalance(1, &dates, RebalanceTrigger::Threshold, true, 0));
    assert!(!should_rebalance(1, &dates, RebalanceTrigger::Threshold, false, 0));
    let either = RebalanceTrigger::CalendarOrThreshold(ScheduleFrequency::Monthly);
    assert!(should_rebalance(1, &dates, either, true, 0));
    assert!(should_rebalance(2, &dates, either, false, 0));
    assert!(!should_rebalance(1, &dates, either, false, 0));
}

#[test]
fn leaf_order_of_a_dendrogram() {
    assert_eq!(quasi_diagonalize(&vec![(0, 1), (2, 3)], 3), vec![2, 0, 1]);
    assert_eq!(quasi_diagonalize(&vec![(1, 2), (0, 3)], 3), vec![0, 1, 2]);
    assert_eq!(quasi_diagonalize(&vec![(0, 2), (1, 3), (4, 5)], 4), vec![0, 2, 1, 3]);
    assert_eq!(quasi_diagonalize(&Vec::new(), 3), vec![0, 1, 2]);
}

#[test]
fn leaf_order_is_a_permutation() {
    let linkage = vec![(3, 0), (1, 4), (5, 2)];
    let mut order = quasi_diagonalize(&linkage, 4);
    assert_eq!(order, vec![1, 3, 0, 2]);
    order.sort();
    assert_eq!(order, vec![0, 1, 2, 3]);
}

#[test]
fn transactions_land_on_rows_and_assets() {
    let dates = strings(&["2024-01-02", "2024-01-03", "2024-01-03"]);
    let symbols = strings(&["AAPL", "MSFT"]);
    assert_eq!(transaction_slot("2024-01-03", "MSFT", &dates, &symbols), Some((2, 1)));
    assert_eq!(transaction_slot("2024-01-02", "AAPL", &dates, &symbols), Some((0, 0)));
    assert_eq!(transaction_slot("2024-01-02", "NVDA", &dates, &symbols), None);
    assert_eq!(transaction_slot("2024-01-05", "AAPL", &dates, &symbols), None);
}

#[test]
fn transactions_match_dates_by_prefix() {
    let dates = strings(&["2024-01-02 09:30:00", "2024-01-03 09:30:00", "2024-01-03 16:00:00"]);
    let symbols = strings(&["AAPL"]);
    assert_eq!(transaction_slot("2024-01-03", "AAPL", &dates, &symbols), Some((1, 0)));
}
