use finalytics::builder::{
    default_sort_field, sort_field, sort_type, trim_quotes, ScreenerMetric, ScreenerPager, MAX_PAGE_SIZE,
};
use finalytics::keys::QuoteType;
use finalytics::screeners::{
    validate_enum_value, CryptoScreener, EquityScreener, EtfScreener, FieldMetadata, FutureScreener,
    IndexScreener, MetricTable, MutualFundScreener, ScreenerData,
};

fn meta(name: &str, unit: &str) -> FieldMetadata {
    FieldMetadata {
        name: name.to_string(),
        description: format!("{name} of the security"),
        data_type: "number".to_string(),
        unit: unit.to_string(),
    }
}

fn table(entries: Vec<(&str, FieldMetadata)>) -> MetricTable {
    MetricTable { entries: entries.into_iter().map(|(k, m)| (k.to_string(), m)).collect() }
}

fn sample_data() -> ScreenerData {
    ScreenerData {
        equity: table(vec![
            ("intradayprice", meta("Price (Intraday)", "USD")),
            ("sector", meta("Sector", "")),
        ]),
        mutualfund: table(vec![("fundnetassets", meta("Fund Net Assets", "USD"))]),
        etf: table(vec![("fundnetassets", meta("Net Assets", "USD"))]),
        index: table(vec![("percentchange", meta("% Change", "%"))]),
        future: table(vec![("percentchange", meta("% Change", "%"))]),
        crypto: table(vec![("intradaymarketcap", meta("Market Cap", "USD"))]),
    }
}

const SECTOR_LIST: &str = "Basic Materials, Communication Services, Consumer Cyclical, Consumer Defensive, Energy, Financial Services, Healthcare, Industrials, Real Estate, Technology, Utilities";

#[test]
fn equity_sector_accepts_sector_keys() {
    assert_eq!(EquityScreener::Sector.validate_value("Technology"), Ok("Technology".to_string()));
}

#[test]
fn equity_sector_rejects_other_values_listing_keys() {
    let expected = format!("Invalid value 'Tech' for Sector. Allowed values: [{SECTOR_LIST}]");
    assert_eq!(EquityScreener::Sector.validate_value("Tech"), Err(expected));
}

#[test]
fn free_fields_accept_any_value() {
    assert_eq!(EquityScreener::PriceIntraday.validate_value("abc"), Ok("abc".to_string()));
    assert_eq!(IndexScreener::PercentChange.validate_value("5"), Ok("5".to_string()));
    assert_eq!(FutureScreener::Volume.validate_value(""), Ok(String::new()));
}

#[test]
fn fund_fields_check_their_vocabularies() {
    assert!(MutualFundScreener::FundsByCategory.validate_value("no such category").is_err());
    assert!(EtfScreener::FundsByCompany.validate_value("no such family").is_err());
    let err = EquityScreener::Region.validate_value("zz").unwrap_err();
    assert!(err.starts_with("Invalid value 'zz' for Region. Allowed values: [ar, "));
    assert_eq!(EquityScreener::Region.validate_value("us"), Ok("us".to_string()));
}

#[test]
fn crypto_exchange_only_ccc() {
    assert_eq!(CryptoScreener::Exchange.validate_value("CCC"), Ok("CCC".to_string()));
    assert_eq!(
        CryptoScreener::Exchange.validate_value("NMS"),
        Err("For CryptoScreener::Exchange only 'CCC' is allowed.".to_string())
    );
    assert_eq!(CryptoScreener::Volume.validate_value("NMS"), Ok("NMS".to_string()));
}

#[test]
fn generic_key_validation() {
    assert_eq!(
        validate_enum_value::<QuoteType>("QuoteType", "ETF"),
        Ok("ETF".to_string())
    );
    assert_eq!(
        validate_enum_value::<QuoteType>("QuoteType", "BOND"),
        Err("Invalid value 'BOND' for QuoteType. Allowed values: [EQUITY, ETF, MUTUALFUND, INDEX, FUTURE, CRYPTOCURRENCY]".to_string())
    );
}

#[test]
fn metric_tables_and_metadata() {
    let data = sample_data();
    assert_eq!(EquityScreener::metrics(&data).len(), 2);
    assert_eq!(EquityScreener::PriceIntraday.name(&data), "Price (Intraday)");
    assert_eq!(EquityScreener::PriceIntraday.unit(&data), "USD");
    assert_eq!(EquityScreener::PriceIntraday.data_type(&data), "number");
    assert_eq!(EquityScreener::Sector.description(&data), "Sector of the security");
    assert_eq!(EquityScreener::Sector.metadata(&data).name, "Sector");
    assert!(EquityScreener::metrics(&data).get("eodprice").is_none());
    assert_eq!(CryptoScreener::MarketCapIntraday.name(&data), "Market Cap");
    assert_eq!(MutualFundScreener::FundNetAssets.unit(&data), "USD");
    assert_eq!(EtfScreener::FundNetAssets.name(&data), "Net Assets");
    assert_eq!(IndexScreener::PercentChange.unit(&data), "%");
    assert_eq!(FutureScreener::PercentChange.name(&data), "% Change");
}

#[test]
fn metric_table_lookup_finds_first_entry() {
    let t = table(vec![("a", meta("first", "")), ("a", meta("second", ""))]);
    assert_eq!(t.get("a").unwrap().name, "first");
    assert_eq!(t.entry("a").name, "first");
}

#[test]
fn screener_metric_dispatches_to_its_class() {
    let data = sample_data();
    let m = ScreenerMetric::Equity(EquityScreener::Sector);
    assert_eq!(m.as_str(), "sector");
    assert_eq!(m.name(&data), "Sector");
    assert_eq!(m.metrics(&data).len(), 2);
    assert!(m.validate_value("Tech").is_err());
    let c = ScreenerMetric::Crypto(CryptoScreener::Exchange);
    assert_eq!(c.as_str(), "exchange");
    assert!(c.validate_value("NYQ").is_err());
    let idx = ScreenerMetric::Index(IndexScreener::PercentChange);
    assert_eq!(idx.unit(&data), "%");
    assert_eq!(idx.description(&data), "% Change of the security");
    assert_eq!(idx.data_type(&data), "number");
    assert_eq!(idx.metadata(&data).name, "% Change");
}

#[test]
fn sort_defaults_per_quote_type() {
    assert_eq!(default_sort_field(QuoteType::Equity), "intradaymarketcap");
    assert_eq!(default_sort_field(QuoteType::MutualFund), "fundnetassets");
    assert_eq!(default_sort_field(QuoteType::Index), "percentchange");
    assert_eq!(sort_field(None, QuoteType::Etf), "fundnetassets");
    assert_eq!(
        sort_field(Some(ScreenerMetric::Equity(EquityScreener::PriceIntraday)), QuoteType::Equity),
        "intradayprice"
    );
    assert_eq!(sort_type(true), "DESC");
    assert_eq!(sort_type(false), "ASC");
}

#[test]
fn pager_splits_query_into_pages() {
    let mut p = ScreenerPager::new(0, 600);
    assert_eq!(p.next_request(), Some((0, MAX_PAGE_SIZE)));
    p.record_page(250);
    assert_eq!(p.next_request(), Some((250, 250)));
    p.record_page(250);
    assert_eq!(p.next_request(), Some((500, 100)));
    p.record_page(100);
    assert_eq!(p.remaining, 0);
    assert_eq!(p.next_request(), None);
}

#[test]
fn pager_stops_on_short_page() {
    let mut p = ScreenerPager::new(10, 600);
    assert_eq!(p.next_request(), Some((10, 250)));
    p.record_page(40);
    assert!(p.finished);
    assert_eq!(p.offset, 50);
    assert_eq!(p.next_request(), None);
}

#[test]
fn pager_of_empty_query_asks_nothing() {
    let p = ScreenerPager::new(0, 0);
    assert_eq!(p.next_request(), None);
}

#[test]
fn trim_quotes_strips_both_ends() {
    assert_eq!(trim_quotes("\"AAPL\""), "AAPL");
    assert_eq!(trim_quotes("\"\"MSFT\""), "MSFT");
    assert_eq!(trim_quotes("NVDA"), "NVDA");
    assert_eq!(trim_quotes("\"\""), "");
}
