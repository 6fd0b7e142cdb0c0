use finalytics::builder::FilterOperator;
use finalytics::constraints::{contains_text, kept_categories, kept_positions, positions_of};
use finalytics::events::{event_date, transaction_event_type, TransactionEventType};
use finalytics::periods::{group_last_rows, ReturnsFrequency};
use finalytics::quotes::{column_kind, quote_columns, ColumnKind, ValueKind};
use finalytics::quotes::ValueKind::{Boolean, Missing, Number, Other};

fn strings(v: &[&str]) -> Vec<String> {
    v.iter().map(|s| s.to_string()).collect()
}

#[test]
fn text_membership() {
    let list = strings(&["AAPL", "MSFT"]);
    assert!(contains_text(&list, "MSFT"));
    assert!(!contains_text(&list, "msft"));
    assert!(!contains_text(&Vec::new(), "AAPL"));
}

#[test]
fn constraints_keep_fetched_symbols() {
    let tickers = strings(&["AAPL", "BAD", "MSFT", "NVDA"]);
    let fetched = strings(&["NVDA", "AAPL", "MSFT"]);
    assert_eq!(kept_positions(&tickers, 4, &fetched), vec![0, 2, 3]);
    assert_eq!(kept_positions(&tickers, 2, &fetched), vec![0]);
    assert_eq!(kept_positions(&tickers, 10, &strings(&["BAD"])), vec![1]);
    assert!(kept_positions(&tickers, 4, &Vec::new()).is_empty());
}

#[test]
fn category_members_and_surviving_bounds() {
    let per_symbol = strings(&["Tech", "Energy", "Tech", "Crypto"]);
    assert_eq!(positions_of(&per_symbol, "Tech"), vec![0, 2]);
    assert_eq!(positions_of(&per_symbol, "Finance"), Vec::<usize>::new());
    let bound_names = strings(&["Tech", "Finance", "Crypto"]);
    assert_eq!(kept_categories(&bound_names, &per_symbol), vec![0, 2]);
}

#[test]
fn event_kinds() {
    assert_eq!(transaction_event_type(true, true), Some(TransactionEventType::RebalanceAndCashFlow));
    assert_eq!(transaction_event_type(true, false), Some(TransactionEventType::Rebalance));
    assert_eq!(transaction_event_type(false, true), Some(TransactionEventType::CashFlow));
    assert_eq!(transaction_event_type(false, false), None);
    assert_eq!(TransactionEventType::RebalanceAndCashFlow.to_string(), "Rebalance + Cash Flow");
    assert_eq!(TransactionEventType::CashFlow.to_string(), "Cash Flow");
}

#[test]
fn event_dates() {
    let dates = strings(&["2024-01-02", "2024-01-03"]);
    assert_eq!(event_date(1, &dates), "2024-01-03");
    assert_eq!(event_date(2, &dates), "row-2");
    assert_eq!(event_date(1234, &Vec::new()), "row-1234");
}

#[test]
fn screener_table_columns() {
    let present = strings(&["regularMarketPrice", "symbol", "unknownField", "longName"]);
    assert_eq!(
        quote_columns(&present),
        vec![("symbol", "Symbol"), ("longName", "Name"), ("regularMarketPrice", "Price")]
    );
    assert!(quote_columns(&Vec::new()).is_empty());
}

#[test]
fn column_types_from_values() {
    assert_eq!(column_kind(&vec![Number, Missing, Number]), ColumnKind::Float);
    assert_eq!(column_kind(&vec![Missing, Missing]), ColumnKind::Float);
    assert_eq!(column_kind(&Vec::new()), ColumnKind::Float);
    assert_eq!(column_kind(&vec![Boolean, Missing]), ColumnKind::Bool);
    assert_eq!(column_kind(&vec![Boolean, Number]), ColumnKind::Text);
    assert_eq!(column_kind(&vec![Other]), ColumnKind::Text);
}

#[test]
fn filter_operator_words() {
    assert_eq!(FilterOperator::Eq.as_str(), "eq");
    assert_eq!(FilterOperator::Gte.as_str(), "gte");
    assert_eq!(FilterOperator::Btwn.as_str(), "BTWN");
}

#[test]
fn last_rows_of_buckets() {
    let dates = strings(&["2024-01-02", "2024-01-15", "2024-02-01", "2024-02-20", "2024-03-05"]);
    assert_eq!(
        group_last_rows(&dates, ReturnsFrequency::Monthly),
        vec![("2024-01".to_string(), 1), ("2024-02".to_string(), 3), ("2024-03".to_string(), 4)]
    );
    assert_eq!(
        group_last_rows(&dates, ReturnsFrequency::Yearly),
        vec![("2024".to_string(), 4)]
    );
    assert!(group_last_rows(&Vec::new(), ReturnsFrequency::Daily).is_empty());
}

#[test]
fn last_rows_are_ends_of_groups() {
    use_groups_and_rows(&strings(&["2024-01-30", "2024-01-31", "2024-02-01", "2024-03-01", "2024-03-02"]));
    use_groups_and_rows(&strings(&["2020-12-31", "2021-01-03", "2021-01-04"]));
}

fn use_groups_and_rows(dates: &Vec<String>) {
    for freq in [ReturnsFrequency::Daily, ReturnsFrequency::Weekly, ReturnsFrequency::Monthly, ReturnsFrequency::Yearly] {
        let groups = finalytics::periods::compute_groups(dates, freq);
        let rows = group_last_rows(dates, freq);
        assert_eq!(groups.len(), rows.len());
        for (g, r) in groups.iter().zip(rows.iter()) {
            assert_eq!(g.0, r.0);
            assert_eq!(g.2 - 1, r.1);
        }
    }
}
