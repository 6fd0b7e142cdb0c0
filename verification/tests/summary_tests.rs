use finalytics::summary::{FinancialData, FormattedValue, KeyStatistics, SummaryDetail, TickerSummaryStats};

fn fv(short: &str, long: &str) -> Option<FormattedValue> {
    Some(FormattedValue { formatted: Some(short.to_string()), long_formatted: Some(long.to_string()) })
}

fn value_of<'a>(table: &'a (Vec<&'static str>, Vec<String>), label: &str) -> &'a str {
    let i = table.0.iter().position(|l| *l == label).expect("label in table");
    table.1[i].as_str()
}

#[test]
fn empty_summary_has_all_rows() {
    let table = TickerSummaryStats::default().summary_table();
    assert_eq!(table.0.len(), 65);
    assert_eq!(table.1.len(), 65);
    assert_eq!(table.0[0], "Currency");
    assert_eq!(table.0[64], "CoinMarketCap Link");
    assert_eq!(value_of(&table, "Currency"), "USD");
    assert_eq!(value_of(&table, "Day Range"), " - ");
    assert_eq!(value_of(&table, "Bid/Ask"), " / ");
    assert_eq!(value_of(&table, "Last Split"), " ()");
    assert_eq!(value_of(&table, "Average Target"), "Median: , Mean: ");
    assert_eq!(value_of(&table, "Volume"), "");
}

#[test]
fn summary_values_use_short_and_long_text() {
    let stats = TickerSummaryStats {
        default_key_statistics: Some(KeyStatistics {
            beta: fv("1.20", "1.2000"),
            last_split_date: fv("2020-08-31", "August 31, 2020"),
            last_split_factor: Some("4:1".to_string()),
            shares_outstanding: fv("15.2B", "15,204,100,000"),
            ..Default::default()
        }),
        financial_data: Some(FinancialData {
            current_price: fv("190.50", "190.5000"),
            target_median_price: fv("200.00", ""),
            target_mean_price: fv("205.10", ""),
            recommendation_key: Some("buy".to_string()),
            ..Default::default()
        }),
        summary_detail: Some(SummaryDetail {
            currency: Some("EUR".to_string()),
            day_high: fv("191.00", ""),
            day_low: fv("188.20", ""),
            volume: fv("50M", "50,123,456"),
            ..Default::default()
        }),
    };
    let table = stats.summary_table();
    assert_eq!(value_of(&table, "Currency"), "EUR");
    assert_eq!(value_of(&table, "Current Price"), "190.50");
    assert_eq!(value_of(&table, "Day Range"), "191.00 - 188.20");
    assert_eq!(value_of(&table, "Volume"), "50,123,456");
    assert_eq!(value_of(&table, "Beta (5Y Monthly)"), "1.20");
    assert_eq!(value_of(&table, "Last Split"), "2020-08-31 (4:1)");
    assert_eq!(value_of(&table, "Shares Outstanding"), "15,204,100,000");
    assert_eq!(value_of(&table, "Analyst Consensus"), "buy");
    assert_eq!(value_of(&table, "Average Target"), "Median: 200.00, Mean: 205.10");
}

#[test]
fn yield_falls_back_to_summary_detail_only_without_short_text() {
    let stats = TickerSummaryStats {
        default_key_statistics: Some(KeyStatistics {
            yields: Some(FormattedValue { formatted: None, long_formatted: None }),
            ..Default::default()
        }),
        financial_data: None,
        summary_detail: Some(SummaryDetail {
            yields: fv("1.5%", ""),
            ytd_return: fv("3.0%", ""),
            ..Default::default()
        }),
    };
    let table = stats.summary_table();
    assert_eq!(table.1[59], "1.5%");
    assert_eq!(table.1[60], "");
}

#[test]
fn fund_rows_follow_value_order() {
    let stats = TickerSummaryStats {
        default_key_statistics: Some(KeyStatistics {
            annual_holdings_turnover: fv("12%", ""),
            total_assets: fv("1B", "1,000,000,000"),
            ..Default::default()
        }),
        financial_data: None,
        summary_detail: None,
    };
    let table = stats.summary_table();
    assert_eq!(table.1[50], "12%");
    assert_eq!(table.0[50], "Total Assets");
    assert_eq!(table.1[58], "1,000,000,000");
}

#[test]
fn blank_texts() {
    use_blank("", true);
    use_blank("   \t", true);
    use_blank(" 1.2 ", false);
}

fn use_blank(s: &str, expected: bool) {
    assert_eq!(finalytics::overview::is_blank(s), expected);
}

#[test]
fn stats_table_of_several_tickers() {
    let a = TickerSummaryStats {
        financial_data: Some(FinancialData { current_price: fv("10.00", ""), ..Default::default() }),
        ..Default::default()
    };
    let b = TickerSummaryStats {
        summary_detail: Some(SummaryDetail {
            currency: Some("EUR".to_string()),
            volume: fv("", "1,000"),
            ..Default::default()
        }),
        ..Default::default()
    };
    let stats = vec![("AAA".to_string(), a), ("BBB".to_string(), b)];
    let (header, rows) = finalytics::overview::ticker_stats_table(&stats).unwrap();
    assert_eq!(header[0], "Symbol");
    assert!(header.contains(&"Currency".to_string()));
    assert!(header.contains(&"Current Price".to_string()));
    assert!(header.contains(&"Volume".to_string()));
    assert!(header.contains(&"Day Range".to_string()));
    assert!(!header.contains(&"EBITDA".to_string()));
    assert_eq!(rows.len(), 2);
    let col = |name: &str| header.iter().position(|h| h == name).unwrap();
    assert_eq!(rows[0][0], "AAA");
    assert_eq!(rows[0][col("Currency")], "USD");
    assert_eq!(rows[1][col("Currency")], "EUR");
    assert_eq!(rows[0][col("Current Price")], "10.00");
    assert_eq!(rows[1][col("Current Price")], "");
    assert_eq!(rows[1][col("Volume")], "1,000");
    assert_eq!(rows[0].len(), header.len());
}

#[test]
fn stats_table_needs_a_ticker() {
    assert_eq!(finalytics::overview::ticker_stats_table(&Vec::new()), Err("No data".to_string()));
}
