use finalytics::keys::{
    Exchange, FundCategory, FundFamily, Industry, PeerGroup, QuoteType, Region, Sector,
};

#[test]
fn quote_type_keys_round_trip() {
    for v in QuoteType::variants() {
        assert_eq!(QuoteType::from_str(v.as_str()), Some(v));
        assert_eq!(v.to_string(), v.as_str());
    }
    assert_eq!(QuoteType::from_str("EQUITY"), Some(QuoteType::Equity));
    assert_eq!(QuoteType::from_str("CRYPTOCURRENCY"), Some(QuoteType::Crypto));
    assert_eq!(QuoteType::from_str("equity"), None);
    assert_eq!(
        QuoteType::variant_names(),
        vec!["EQUITY", "ETF", "MUTUALFUND", "INDEX", "FUTURE", "CRYPTOCURRENCY"]
    );
}

#[test]
fn sector_keys_round_trip() {
    let all = Sector::variants();
    assert_eq!(all.len(), 11);
    for v in all {
        assert_eq!(Sector::from_str(v.as_str()), Some(v));
    }
    assert_eq!(Sector::from_str("Real Estate"), Some(Sector::RealEstate));
    assert_eq!(Sector::from_str("RealEstate"), None);
    assert_eq!(Sector::Technology.as_str(), "Technology");
}

#[test]
fn every_key_enum_round_trips() {
    for v in Exchange::variants() {
        assert_eq!(Exchange::from_str(v.as_str()), Some(v));
    }
    for v in Region::variants() {
        assert_eq!(Region::from_str(v.as_str()), Some(v));
    }
    for v in PeerGroup::variants() {
        assert_eq!(PeerGroup::from_str(v.as_str()), Some(v));
    }
    for v in FundFamily::variants() {
        assert_eq!(FundFamily::from_str(v.as_str()), Some(v));
    }
    for v in Industry::variants() {
        assert_eq!(Industry::from_str(v.as_str()), Some(v));
    }
    for v in FundCategory::variants() {
        assert_eq!(FundCategory::from_str(v.as_str()), Some(v));
    }
}

#[test]
fn variant_names_follow_variants() {
    let names = Exchange::variant_names();
    let vals = Exchange::variants();
    assert_eq!(names.len(), vals.len());
    for (n, v) in names.iter().zip(vals.iter()) {
        assert_eq!(*n, v.as_str());
    }
    let names = Industry::variant_names();
    let vals = Industry::variants();
    assert_eq!(names.len(), vals.len());
    for (n, v) in names.iter().zip(vals.iter()) {
        assert_eq!(*n, v.as_str());
    }
}

#[test]
fn exchange_codes_and_full_names() {
    assert_eq!(Exchange::from_str("NMS"), Some(Exchange::NASDAQ));
    assert_eq!(Exchange::NASDAQ.full_name(), "NASDAQ");
    assert_eq!(Exchange::NewYorkStockExchange.as_str(), "NYQ");
    assert_eq!(Exchange::NewYorkStockExchange.full_name(), "New York Stock Exchange");
    assert_eq!(Exchange::from_str("XXX"), None);
}

#[test]
fn region_codes_and_full_names() {
    assert_eq!(Region::UnitedStates.as_str(), "us");
    assert_eq!(Region::from_str("us"), Some(Region::UnitedStates));
    assert_eq!(Region::Argentina.as_str(), "ar");
    assert_eq!(Region::Argentina.full_name(), "Argentina");
}

#[test]
fn industry_sector_and_sector_industries() {
    assert_eq!(Industry::from_str("Gold"), Some(Industry::Gold));
    assert_eq!(Industry::Gold.sector(), "Basic Materials");
    assert_eq!(
        Sector::Energy.industries(),
        vec![
            "Oil & Gas Drilling",
            "Oil & Gas E&P",
            "Oil & Gas Integrated",
            "Oil & Gas Midstream",
            "Oil & Gas Refining & Marketing",
            "Oil & Gas Equipment & Services",
            "Thermal Coal",
            "Uranium"
        ]
    );
}

#[test]
fn every_industry_is_listed_by_its_sector() {
    for ind in Industry::variants() {
        let sector = Sector::from_str(ind.sector()).expect("sector of an industry is a sector key");
        assert!(sector.industries().contains(&ind.as_str()));
    }
}
