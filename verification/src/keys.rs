//! Keys of the screener vocabulary: quote types, sectors, industries, exchanges,
//! regions, peer groups, fund families and fund categories.

use vstd::prelude::*;
use crate::text::{str_eq, owned, strs_view};

verus! {

/// Asset class of a screener query.
#[derive(Debug, Clone, Copy, PartialEq, Eq, Structural, Hash)]
pub enum QuoteType {
    Equity,
    Etf,
    MutualFund,
    Index,
    Future,
    Crypto,
}

impl QuoteType {
    /// The key under which Yahoo Finance names this quote type.
    pub open spec fn spec_key(self) -> Seq<char> {
        match self {
            QuoteType::Equity => "EQUITY"@,
            QuoteType::Etf => "ETF"@,
            QuoteType::MutualFund => "MUTUALFUND"@,
            QuoteType::Index => "INDEX"@,
            QuoteType::Future => "FUTURE"@,
            QuoteType::Crypto => "CRYPTOCURRENCY"@,
        }
    }

    /// Every value, in declaration order.
    pub open spec fn spec_all() -> Seq<QuoteType> {
        seq![
            QuoteType::Equity, QuoteType::Etf, QuoteType::MutualFund, QuoteType::Index,
            QuoteType::Future, QuoteType::Crypto,
        ]
    }

    /// The keys of every value, in declaration order.
    pub open spec fn spec_names() -> Seq<Seq<char>> {
        Self::spec_all().map_values(|v: QuoteType| v.spec_key())
    }

    /// Reads a value back from its key by the characters that tell the keys apart.
    pub open spec fn spec_decode(s: Seq<char>) -> Option<QuoteType> {
        if s.len() == 3 {
            Some(QuoteType::Etf)
        } else if s.len() == 5 {
            Some(QuoteType::Index)
        } else if s.len() == 6 {
            if s[0] == 'E' {
                Some(QuoteType::Equity)
            } else if s[0] == 'F' {
                Some(QuoteType::Future)
            } else {
                None
            }
        } else if s.len() == 10 {
            Some(QuoteType::MutualFund)
        } else if s.len() == 14 {
            Some(QuoteType::Crypto)
        } else {
            None
        }
    }

    /// The key of this value.
    pub fn as_str(&self) -> (s: &'static str)
        ensures
            s@ == self.spec_key(),
    {
        match self {
            QuoteType::Equity => "EQUITY",
            QuoteType::Etf => "ETF",
            QuoteType::MutualFund => "MUTUALFUND",
            QuoteType::Index => "INDEX",
            QuoteType::Future => "FUTURE",
            QuoteType::Crypto => "CRYPTOCURRENCY",
        }
    }

    /// The key of this value as an owned string.
    pub fn to_string(&self) -> (s: String)
        ensures
            s@ == self.spec_key(),
    {
        owned(self.as_str())
    }

    /// Parses a key: the value whose key is `s`, and `None` when there is none.
    pub fn from_str(s: &str) -> (r: Option<QuoteType>)
        ensures
            forall|v: QuoteType| #[trigger] v.spec_key() == s@ <==> r == Some(v),
    {
        let r = Self::find(s);
        proof {
            assert forall|v: QuoteType| #[trigger] v.spec_key() == s@ implies r == Some(v) by {
                Self::lemma_key_round_trip(v, r->0);
            }
        }
        r
    }

    /// Tries the keys in declaration order.
    fn find(s: &str) -> (r: Option<QuoteType>)
        ensures
            r matches Some(v) ==> v.spec_key() == s@,
            r is None ==> forall|v: QuoteType| #[trigger] v.spec_key() != s@,
    {
        if str_eq(s, "EQUITY") {
            return Some(QuoteType::Equity);
        }
        if str_eq(s, "ETF") {
            return Some(QuoteType::Etf);
        }
        if str_eq(s, "MUTUALFUND") {
            return Some(QuoteType::MutualFund);
        }
        if str_eq(s, "INDEX") {
            return Some(QuoteType::Index);
        }
        if str_eq(s, "FUTURE") {
            return Some(QuoteType::Future);
        }
        if str_eq(s, "CRYPTOCURRENCY") {
            return Some(QuoteType::Crypto);
        }
        None
    }

    /// Every value, in declaration order.
    pub fn variants() -> (r: Vec<QuoteType>)
        ensures
            r@ == Self::spec_all(),
    {
        let r = vec![
            QuoteType::Equity, QuoteType::Etf, QuoteType::MutualFund, QuoteType::Index,
            QuoteType::Future, QuoteType::Crypto,
        ];
        assert(r@ =~= Self::spec_all());
        r
    }

    /// The keys of every value, in declaration order.
    pub fn variant_names() -> (r: Vec<&'static str>)
        ensures
            strs_view(r@) == Self::spec_names(),
    {
        let r = vec!["EQUITY", "ETF", "MUTUALFUND", "INDEX", "FUTURE", "CRYPTOCURRENCY"];
        assert(strs_view(r@) =~= Self::spec_names());
        r
    }

    /// Distinct values have distinct keys: the key of a value decodes to that value.
    pub proof fn lemma_decode_key(v: QuoteType)
        ensures
            Self::spec_decode(v.spec_key()) == Some(v),
    {
        match v {
            QuoteType::Equity => {
                reveal_strlit("EQUITY");
            },
            QuoteType::Etf => {
                reveal_strlit("ETF");
            },
            QuoteType::MutualFund => {
                reveal_strlit("MUTUALFUND");
            },
            QuoteType::Index => {
                reveal_strlit("INDEX");
            },
            QuoteType::Future => {
                reveal_strlit("FUTURE");
            },
            QuoteType::Crypto => {
                reveal_strlit("CRYPTOCURRENCY");
            },
        }
    }

    /// Parsing the key of a value gives back that value.
    pub proof fn lemma_key_round_trip(a: QuoteType, b: QuoteType)
        requires
            a.spec_key() == b.spec_key(),
        ensures
            a == b,
    {
        Self::lemma_decode_key(a);
        Self::lemma_decode_key(b);
    }
}

/// Market sector of an equity.
#[derive(Debug, Clone, Copy, PartialEq, Eq, Structural, Hash)]
pub enum Sector {
    BasicMaterials,
    CommunicationServices,
    ConsumerCyclical,
    ConsumerDefensive,
    Energy,
    FinancialServices,
    Healthcare,
    Industrials,
    RealEstate,
    Technology,
    Utilities,
}

impl Sector {
    /// The name of this sector.
    pub open spec fn spec_key(self) -> Seq<char> {
        match self {
            Sector::BasicMaterials => "Basic Materials"@,
            Sector::CommunicationServices => "Communication Services"@,
            Sector::ConsumerCyclical => "Consumer Cyclical"@,
            Sector::ConsumerDefensive => "Consumer Defensive"@,
            Sector::Energy => "Energy"@,
            Sector::FinancialServices => "Financial Services"@,
            Sector::Healthcare => "Healthcare"@,
            Sector::Industrials => "Industrials"@,
            Sector::RealEstate => "Real Estate"@,
            Sector::Technology => "Technology"@,
            Sector::Utilities => "Utilities"@,
        }
    }

    /// Every value, in declaration order.
    pub open spec fn spec_all() -> Seq<Sector> {
        seq![
            Sector::BasicMaterials, Sector::CommunicationServices, Sector::ConsumerCyclical,
            Sector::ConsumerDefensive, Sector::Energy, Sector::FinancialServices,
            Sector::Healthcare, Sector::Industrials, Sector::RealEstate, Sector::Technology,
            Sector::Utilities,
        ]
    }

    /// The keys of every value, in declaration order.
    pub open spec fn spec_names() -> Seq<Seq<char>> {
        Self::spec_all().map_values(|v: Sector| v.spec_key())
    }

    /// Reads a value back from its key by the characters that tell the keys apart.
    pub open spec fn spec_decode(s: Seq<char>) -> Option<Sector> {
        if s.len() == 6 {
            Some(Sector::Energy)
        } else if s.len() == 9 {
            Some(Sector::Utilities)
        } else if s.len() == 10 {
            if s[0] == 'H' {
                Some(Sector::Healthcare)
            } else if s[0] == 'T' {
                Some(Sector::Technology)
            } else {
                None
            }
        } else if s.len() == 11 {
            if s[0] == 'I' {
                Some(Sector::Industrials)
            } else if s[0] == 'R' {
                Some(Sector::RealEstate)
            } else {
                None
            }
        } else if s.len() == 15 {
            Some(Sector::BasicMaterials)
        } else if s.len() == 17 {
            Some(Sector::ConsumerCyclical)
        } else if s.len() == 18 {
            if s[0] == 'C' {
                Some(Sector::ConsumerDefensive)
            } else if s[0] == 'F' {
                Some(Sector::FinancialServices)
            } else {
                None
            }
        } else if s.len() == 22 {
            Some(Sector::CommunicationServices)
        } else {
            None
        }
    }

    /// The key of this value.
    pub fn as_str(&self) -> (s: &'static str)
        ensures
            s@ == self.spec_key(),
    {
        match self {
            Sector::BasicMaterials => "Basic Materials",
            Sector::CommunicationServices => "Communication Services",
            Sector::ConsumerCyclical => "Consumer Cyclical",
            Sector::ConsumerDefensive => "Consumer Defensive",
            Sector::Energy => "Energy",
            Sector::FinancialServices => "Financial Services",
            Sector::Healthcare => "Healthcare",
            Sector::Industrials => "Industrials",
            Sector::RealEstate => "Real Estate",
            Sector::Technology => "Technology",
            Sector::Utilities => "Utilities",
        }
    }

    /// The key of this value as an owned string.
    pub fn to_string(&self) -> (s: String)
        ensures
            s@ == self.spec_key(),
    {
        owned(self.as_str())
    }

    /// Parses a key: the value whose key is `s`, and `None` when there is none.
    pub fn from_str(s: &str) -> (r: Option<Sector>)
        ensures
            forall|v: Sector| #[trigger] v.spec_key() == s@ <==> r == Some(v),
    {
        let r = Self::find(s);
        proof {
            assert forall|v: Sector| #[trigger] v.spec_key() == s@ implies r == Some(v) by {
                Self::lemma_key_round_trip(v, r->0);
            }
        }
        r
    }

    /// Tries the keys in declaration order.
    fn find(s: &str) -> (r: Option<Sector>)
        ensures
            r matches Some(v) ==> v.spec_key() == s@,
            r is None ==> forall|v: Sector| #[trigger] v.spec_key() != s@,
    {
        if str_eq(s, "Basic Materials") {
            return Some(Sector::BasicMaterials);
        }
        if str_eq(s, "Communication Services") {
            return Some(Sector::CommunicationServices);
        }
        if str_eq(s, "Consumer Cyclical") {
            return Some(Sector::ConsumerCyclical);
        }
        if str_eq(s, "Consumer Defensive") {
            return Some(Sector::ConsumerDefensive);
        }
        if str_eq(s, "Energy") {
            return Some(Sector::Energy);
        }
        if str_eq(s, "Financial Services") {
            return Some(Sector::FinancialServices);
        }
        if str_eq(s, "Healthcare") {
            return Some(Sector::Healthcare);
        }
        if str_eq(s, "Industrials") {
            return Some(Sector::Industrials);
        }
        if str_eq(s, "Real Estate") {
            return Some(Sector::RealEstate);
        }
        if str_eq(s, "Technology") {
            return Some(Sector::Technology);
        }
        if str_eq(s, "Utilities") {
            return Some(Sector::Utilities);
        }
        None
    }

    /// Every value, in declaration order.
    pub fn variants() -> (r: Vec<Sector>)
        ensures
            r@ == Self::spec_all(),
    {
        let r = vec![
            Sector::BasicMaterials, Sector::CommunicationServices, Sector::ConsumerCyclical,
            Sector::ConsumerDefensive, Sector::Energy, Sector::FinancialServices,
            Sector::Healthcare, Sector::Industrials, Sector::RealEstate, Sector::Technology,
            Sector::Utilities,
        ];
        assert(r@ =~= Self::spec_all());
        r
    }

    /// The keys of every value, in declaration order.
    pub fn variant_names() -> (r: Vec<&'static str>)
        ensures
            strs_view(r@) == Self::spec_names(),
    {
        let r = vec![
            "Basic Materials", "Communication Services", "Consumer Cyclical", "Consumer Defensive",
            "Energy", "Financial Services", "Healthcare", "Industrials", "Real Estate",
            "Technology", "Utilities",
        ];
        assert(strs_view(r@) =~= Self::spec_names());
        r
    }

    /// Distinct values have distinct keys: the key of a value decodes to that value.
    pub proof fn lemma_decode_key(v: Sector)
        ensures
            Self::spec_decode(v.spec_key()) == Some(v),
    {
        match v {
            Sector::BasicMaterials => {
                reveal_strlit("Basic Materials");
            },
            Sector::CommunicationServices => {
                reveal_strlit("Communication Services");
            },
            Sector::ConsumerCyclical => {
                reveal_strlit("Consumer Cyclical");
            },
            Sector::ConsumerDefensive => {
                reveal_strlit("Consumer Defensive");
            },
            Sector::Energy => {
                reveal_strlit("Energy");
            },
            Sector::FinancialServices => {
                reveal_strlit("Financial Services");
            },
            Sector::Healthcare => {
                reveal_strlit("Healthcare");
            },
            Sector::Industrials => {
                reveal_strlit("Industrials");
            },
            Sector::RealEstate => {
                reveal_strlit("Real Estate");
            },
            Sector::Technology => {
                reveal_strlit("Technology");
            },
            Sector::Utilities => {
                reveal_strlit("Utilities");
            },
        }
    }

    /// Parsing the key of a value gives back that value.
    pub proof fn lemma_key_round_trip(a: Sector, b: Sector)
        requires
            a.spec_key() == b.spec_key(),
        ensures
            a == b,
    {
        Self::lemma_decode_key(a);
        Self::lemma_decode_key(b);
    }
}

impl Sector {
    /// The names of the industries listed under this sector.
    pub open spec fn spec_industries(self) -> Seq<Seq<char>> {
        match self {
            Sector::BasicMaterials => seq![
                "Agricultural Inputs"@, "Building Materials"@, "Chemicals"@, "Specialty Chemicals"@,
                "Lumber & Wood Production"@, "Paper & Paper Products"@, "Aluminum"@, "Copper"@,
                "Other Industrial Metals & Mining"@, "Gold"@, "Silver"@,
                "Other Precious Metals & Mining"@, "Coking Coal"@, "Steel"@,
            ],
            Sector::CommunicationServices => seq![
                "Telecom Services"@, "Advertising Agencies"@, "Publishing"@, "Broadcasting"@,
                "Entertainment"@, "Internet Content & Information"@,
                "Electronic Gaming & Multimedia"@,
            ],
            Sector::ConsumerCyclical => seq![
                "Auto & Truck Dealerships"@, "Auto Manufacturers"@, "Auto Parts"@,
                "Recreational Vehicles"@, "Furnishings, Fixtures & Appliances"@,
                "Residential Construction"@, "Textile Manufacturing"@, "Apparel Manufacturing"@,
                "Footwear & Accessories"@, "Packaging & Containers"@, "Personal Services"@,
                "Restaurants"@, "Apparel Retail"@, "Department Stores"@, "Home Improvement Retail"@,
                "Luxury Goods"@, "Internet Retail"@, "Specialty Retail"@, "Gambling"@, "Leisure"@,
                "Lodging"@, "Resorts & Casinos"@, "Travel Services"@,
            ],
            Sector::ConsumerDefensive => seq![
                "Beverages - Brewers"@, "Beverages - Wineries & Distilleries"@,
                "Beverages - Non-Alcoholic"@, "Confectioners"@, "Farm Products"@,
                "Household & Personal Products"@, "Packaged Foods"@,
                "Education & Training Services"@, "Discount Stores"@, "Food Distribution"@,
                "Grocery Stores"@, "Tobacco"@,
            ],
            Sector::Energy => seq![
                "Oil & Gas Drilling"@, "Oil & Gas E&P"@, "Oil & Gas Integrated"@,
                "Oil & Gas Midstream"@, "Oil & Gas Refining & Marketing"@,
                "Oil & Gas Equipment & Services"@, "Thermal Coal"@, "Uranium"@,
            ],
            Sector::FinancialServices => seq![
                "Asset Management"@, "Banks - Diversified"@, "Banks - Regional"@,
                "Mortgage Finance"@, "Capital Markets"@, "Financial Data & Stock Exchanges"@,
                "Insurance - Life"@, "Insurance - Property & Casualty"@, "Insurance - Reinsurance"@,
                "Insurance - Specialty"@, "Insurance Brokers"@, "Insurance - Diversified"@,
                "Shell Companies"@, "Financial Conglomerates"@, "Credit Services"@,
            ],
            Sector::Healthcare => seq![
                "Biotechnology"@, "Drug Manufacturers - General"@,
                "Drug Manufacturers - Specialty & Generic"@, "Healthcare Plans"@,
                "Medical Care Facilities"@, "Pharmaceutical Retailers"@,
                "Health Information Services"@, "Medical Devices"@,
                "Medical Instruments & Supplies"@, "Diagnostics & Research"@,
                "Medical Distribution"@,
            ],
            Sector::Industrials => seq![
                "Aerospace & Defense"@, "Specialty Business Services"@, "Consulting Services"@,
                "Rental & Leasing Services"@, "Security & Protection Services"@,
                "Staffing & Employment Services"@, "Conglomerates"@, "Engineering & Construction"@,
                "Infrastructure Operations"@, "Building Products & Equipment"@,
                "Farm & Heavy Construction Machinery"@, "Industrial Distribution"@,
                "Business Equipment & Supplies"@, "Specialty Industrial Machinery"@,
                "Metal Fabrication"@, "Pollution & Treatment Controls"@,
                "FILTERLABEL_TOOLS_ACCESSORIES"@, "Electrical Equipment & Parts"@,
                "Airports & Air Services"@, "Airlines"@, "Railroads"@, "Marine Shipping"@,
                "Trucking"@, "Integrated Freight & Logistics"@, "Waste Management"@,
            ],
            Sector::RealEstate => seq![
                "Real Estate - Development"@, "Real Estate Services"@, "Real Estate - Diversified"@,
                "REIT - Healthcare Facilities"@, "REIT - Hotel & Motel"@, "REIT - Industrial"@,
                "REIT - Office"@, "REIT - Residential"@, "REIT - Retail"@, "REIT - Mortgage"@,
                "REIT - Specialty"@, "REIT - Diversified"@,
            ],
            Sector::Technology => seq![
                "Information Technology Services"@, "Software - Application"@,
                "Software - Infrastructure"@, "Communication Equipment"@, "Computer Hardware"@,
                "Consumer Electronics"@, "Electronic Components"@,
                "Electronics & Computer Distribution"@, "Scientific & Technical Instruments"@,
                "Semiconductor Equipment & Materials"@, "Semiconductors"@, "Solar"@,
            ],
            Sector::Utilities => seq![
                "Utilities - Independent Power Producers"@, "Utilities - Renewable"@,
                "Utilities - Regulated Water"@, "Utilities - Regulated Electric"@,
                "Utilities - Regulated Gas"@, "Utilities - Diversified"@,
            ],
        }
    }

    /// The names of the industries listed under this sector.
    pub fn industries(&self) -> (r: Vec<&'static str>)
        ensures
            strs_view(r@) == self.spec_industries(),
    {
        match self {
            Sector::BasicMaterials => {
                let r = vec![
                    "Agricultural Inputs", "Building Materials", "Chemicals", "Specialty Chemicals",
                    "Lumber & Wood Production", "Paper & Paper Products", "Aluminum", "Copper",
                    "Other Industrial Metals & Mining", "Gold", "Silver",
                    "Other Precious Metals & Mining", "Coking Coal", "Steel",
                ];
                assert(strs_view(r@) =~= self.spec_industries());
                r
            },
            Sector::CommunicationServices => {
                let r = vec![
                    "Telecom Services", "Advertising Agencies", "Publishing", "Broadcasting",
                    "Entertainment", "Internet Content & Information",
                    "Electronic Gaming & Multimedia",
                ];
                assert(strs_view(r@) =~= self.spec_industries());
                r
            },
            Sector::ConsumerCyclical => {
                let r = vec![
                    "Auto & Truck Dealerships", "Auto Manufacturers", "Auto Parts",
                    "Recreational Vehicles", "Furnishings, Fixtures & Appliances",
                    "Residential Construction", "Textile Manufacturing", "Apparel Manufacturing",
                    "Footwear & Accessories", "Packaging & Containers", "Personal Services",
                    "Restaurants", "Apparel Retail", "Department Stores", "Home Improvement Retail",
                    "Luxury Goods", "Internet Retail", "Specialty Retail", "Gambling", "Leisure",
                    "Lodging", "Resorts & Casinos", "Travel Services",
                ];
                assert(strs_view(r@) =~= self.spec_industries());
                r
            },
            Sector::ConsumerDefensive => {
                let r = vec![
                    "Beverages - Brewers", "Beverages - Wineries & Distilleries",
                    "Beverages - Non-Alcoholic", "Confectioners", "Farm Products",
                    "Household & Personal Products", "Packaged Foods",
                    "Education & Training Services", "Discount Stores", "Food Distribution",
                    "Grocery Stores", "Tobacco",
                ];
                assert(strs_view(r@) =~= self.spec_industries());
                r
            },
            Sector::Energy => {
                let r = vec![
                    "Oil & Gas Drilling", "Oil & Gas E&P", "Oil & Gas Integrated",
                    "Oil & Gas Midstream", "Oil & Gas Refining & Marketing",
                    "Oil & Gas Equipment & Services", "Thermal Coal", "Uranium",
                ];
                assert(strs_view(r@) =~= self.spec_industries());
                r
            },
            Sector::FinancialServices => {
                let r = vec![
                    "Asset Management", "Banks - Diversified", "Banks - Regional",
                    "Mortgage Finance", "Capital Markets", "Financial Data & Stock Exchanges",
                    "Insurance - Life", "Insurance - Property & Casualty",
                    "Insurance - Reinsurance", "Insurance - Specialty", "Insurance Brokers",
                    "Insurance - Diversified", "Shell Companies", "Financial Conglomerates",
                    "Credit Services",
                ];
                assert(strs_view(r@) =~= self.spec_industries());
                r
            },
            Sector::Healthcare => {
                let r = vec![
                    "Biotechnology", "Drug Manufacturers - General",
                    "Drug Manufacturers - Specialty & Generic", "Healthcare Plans",
                    "Medical Care Facilities", "Pharmaceutical Retailers",
                    "Health Information Services", "Medical Devices",
                    "Medical Instruments & Supplies", "Diagnostics & Research",
                    "Medical Distribution",
                ];
                assert(strs_view(r@) =~= self.spec_industries());
                r
            },
            Sector::Industrials => {
                let r = vec![
                    "Aerospace & Defense", "Specialty Business Services", "Consulting Services",
                    "Rental & Leasing Services", "Security & Protection Services",
                    "Staffing & Employment Services", "Conglomerates", "Engineering & Construction",
                    "Infrastructure Operations", "Building Products & Equipment",
                    "Farm & Heavy Construction Machinery", "Industrial Distribution",
                    "Business Equipment & Supplies", "Specialty Industrial Machinery",
                    "Metal Fabrication", "Pollution & Treatment Controls",
                    "FILTERLABEL_TOOLS_ACCESSORIES", "Electrical Equipment & Parts",
                    "Airports & Air Services", "Airlines", "Railroads", "Marine Shipping",
                    "Trucking", "Integrated Freight & Logistics", "Waste Management",
                ];
                assert(strs_view(r@) =~= self.spec_industries());
                r
            },
            Sector::RealEstate => {
                let r = vec![
                    "Real Estate - Development", "Real Estate Services",
                    "Real Estate - Diversified", "REIT - Healthcare Facilities",
                    "REIT - Hotel & Motel", "REIT - Industrial", "REIT - Office",
                    "REIT - Residential", "REIT - Retail", "REIT - Mortgage", "REIT - Specialty",
                    "REIT - Diversified",
                ];
                assert(strs_view(r@) =~= self.spec_industries());
                r
            },
            Sector::Technology => {
                let r = vec![
                    "Information Technology Services", "Software - Application",
                    "Software - Infrastructure", "Communication Equipment", "Computer Hardware",
                    "Consumer Electronics", "Electronic Components",
                    "Electronics & Computer Distribution", "Scientific & Technical Instruments",
                    "Semiconductor Equipment & Materials", "Semiconductors", "Solar",
                ];
                assert(strs_view(r@) =~= self.spec_industries());
                r
            },
            Sector::Utilities => {
                let r = vec![
                    "Utilities - Independent Power Producers", "Utilities - Renewable",
                    "Utilities - Regulated Water", "Utilities - Regulated Electric",
                    "Utilities - Regulated Gas", "Utilities - Diversified",
                ];
                assert(strs_view(r@) =~= self.spec_industries());
                r
            },
        }
    }
}

/// Exchange on which a security is listed.
#[derive(Debug, Clone, Copy, PartialEq, Eq, Structural, Hash)]
pub enum Exchange {
    NewYorkStockExchange,
    NASDAQ,
    StockholmStockExchange,
    DowJonesIndices,
    NasdaqCapitalMarket,
    NasdaqGlobalMarket,
    Currencies,
    Cryptocurrencies,
    NYSEArca,
    NYSEAmerican,
    NewYorkMercantileExchange,
    COMEX,
    ChicagoBoardofTrade,
    ChicagoMercantileExchange,
    PinkOpenMarket,
    TorontoStockExchange,
    NYSEAmericanOptions,
    NewYorkBoardofTrade,
    SNPIndices,
    WestCoastBoardofTrade,
    BTS,
    CurrencyExchangeInternational,
    NASDAQStockMarket,
    NagoyaStockExchange,
    LondonStockExchange,
    Xetra,
    BerlinStockExchange,
    DusseldorfStockExchange,
    EuronextParis,
    NewYorkStockExchangeARCA,
    LondonIOB,
    SIXSwissExchange,
    BuenosAiresStockExchange,
    BombayStockExchange,
    AustralianSecuritiesExchange,
    VancouverStockExchange,
    AmsterdamStockExchange,
    JapanExchangeGroup,
    CanadianNationalStockExchange,
    FrankfurtStockExchange,
    MunichStockExchange,
    IstanbulStockExchange,
    MexicanStockExchange,
    MilanStockExchange,
    NewZealandStockExchange,
    SaoPauloStockExchange,
    KoreaStockExchange,
    FukuokaStockExchange,
    HongKongStockExchange,
    StockExchangeofThailand,
    SingaporeExchangeSecurities,
    ShanghaiStockExchange,
    SwissElectronicBourse,
    OsloStockExchange,
    TelAvivStockExchange,
    KoreaExchange,
    CopenhagenStockExchange,
    StuttgartStockExchange,
    BursaMalaysia,
    HamburgStockExchange,
    ViennaStockExchange,
    PragueStockExchange,
    HanoiStockExchange,
    JohannesburgStockExchange,
    CboeDXE,
    MoscowExchange,
    CboeAustralia,
    ShenzhenStockExchange,
    VietnamStockExchange,
    WarsawStockExchange,
    IntercontinentalExchange,
    RigaStockExchange,
    ZagrebStockExchange,
    JakartaStockExchange,
    TaiwanOTCExchange,
    OsakaStockExchange,
    AquisStockExchange,
    TaiwanStockExchange,
    QatarStockExchange,
    HelsinkiStockExchange,
    TallinnStockExchange,
    MoldovaStockExchange,
    NEOExchange,
    EuronextBrussels,
    VilniusStockExchange,
    BudapestStockExchange,
    EuronextLisbon,
    SantiagoStockExchange,
    FSI,
    IrishStockExchange,
    AthensStockExchange,
    SaudiStockExchange,
    TrinidadandTobagoStockExchange,
    CboeBXE,
    BVPBratislavaStockExchange,
    TAL,
    BoursaKuwait,
    EgyptianExchange,
    ColomboStockExchange,
    DubaiFinancialMarket,
    PhilippineStockExchange,
    KazakhstanStockExchange,
    OTCBulletinBoard,
    YHD,
    SAP,
    CaracasStockExchange,
    OPI,
    Euronext,
}

impl Exchange {
    /// The short code of this exchange.
    pub open spec fn spec_key(self) -> Seq<char> {
        match self {
            Exchange::NewYorkStockExchange => "NYQ"@,
            Exchange::NASDAQ => "NMS"@,
            Exchange::StockholmStockExchange => "STO"@,
            Exchange::DowJonesIndices => "DJI"@,
            Exchange::NasdaqCapitalMarket => "NCM"@,
            Exchange::NasdaqGlobalMarket => "NGM"@,
            Exchange::Currencies => "CCY"@,
            Exchange::Cryptocurrencies => "CCC"@,
            Exchange::NYSEArca => "PCX"@,
            Exchange::NYSEAmerican => "NIM"@,
            Exchange::NewYorkMercantileExchange => "NYM"@,
            Exchange::COMEX => "CMX"@,
            Exchange::ChicagoBoardofTrade => "CBT"@,
            Exchange::ChicagoMercantileExchange => "CME"@,
            Exchange::PinkOpenMarket => "PNK"@,
            Exchange::TorontoStockExchange => "TOR"@,
            Exchange::NYSEAmericanOptions => "ASE"@,
            Exchange::NewYorkBoardofTrade => "NYB"@,
            Exchange::SNPIndices => "SNP"@,
            Exchange::WestCoastBoardofTrade => "WCB"@,
            Exchange::BTS => "BTS"@,
            Exchange::CurrencyExchangeInternational => "CXI"@,
            Exchange::NASDAQStockMarket => "NAS"@,
            Exchange::NagoyaStockExchange => "NSI"@,
            Exchange::LondonStockExchange => "LSE"@,
            Exchange::Xetra => "GER"@,
            Exchange::BerlinStockExchange => "BER"@,
            Exchange::DusseldorfStockExchange => "DUS"@,
            Exchange::EuronextParis => "PAR"@,
            Exchange::NewYorkStockExchangeARCA => "NYS"@,
            Exchange::LondonIOB => "IOB"@,
            Exchange::SIXSwissExchange => "ZRH"@,
            Exchange::BuenosAiresStockExchange => "BUE"@,
            Exchange::BombayStockExchange => "BSE"@,
            Exchange::AustralianSecuritiesExchange => "ASX"@,
            Exchange::VancouverStockExchange => "VAN"@,
            Exchange::AmsterdamStockExchange => "AMS"@,
            Exchange::JapanExchangeGroup => "JPX"@,
            Exchange::CanadianNationalStockExchange => "CNQ"@,
            Exchange::FrankfurtStockExchange => "FRA"@,
            Exchange::MunichStockExchange => "MUN"@,
            Exchange::IstanbulStockExchange => "IST"@,
            Exchange::MexicanStockExchange => "MEX"@,
            Exchange::MilanStockExchange => "MIL"@,
            Exchange::NewZealandStockExchange => "NZE"@,
            Exchange::SaoPauloStockExchange => "SAO"@,
            Exchange::KoreaStockExchange => "KSC"@,
            Exchange::FukuokaStockExchange => "FGI"@,
            Exchange::HongKongStockExchange => "HKG"@,
            Exchange::StockExchangeofThailand => "SET"@,
            Exchange::SingaporeExchangeSecurities => "SES"@,
            Exchange::ShanghaiStockExchange => "SHH"@,
            Exchange::SwissElectronicBourse => "EBS"@,
            Exchange::OsloStockExchange => "OSL"@,
            Exchange::TelAvivStockExchange => "TLV"@,
            Exchange::KoreaExchange => "KOE"@,
            Exchange::CopenhagenStockExchange => "CPH"@,
            Exchange::StuttgartStockExchange => "STU"@,
            Exchange::BursaMalaysia => "KLS"@,
            Exchange::HamburgStockExchange => "HAM"@,
            Exchange::ViennaStockExchange => "VIE"@,
            Exchange::PragueStockExchange => "PRA"@,
            Exchange::HanoiStockExchange => "HAN"@,
            Exchange::JohannesburgStockExchange => "JNB"@,
            Exchange::CboeDXE => "DXE"@,
            Exchange::MoscowExchange => "MSC"@,
            Exchange::CboeAustralia => "CXA"@,
            Exchange::ShenzhenStockExchange => "SHZ"@,
            Exchange::VietnamStockExchange => "VSE"@,
            Exchange::WarsawStockExchange => "WSE"@,
            Exchange::IntercontinentalExchange => "ICE"@,
            Exchange::RigaStockExchange => "RIS"@,
            Exchange::ZagrebStockExchange => "CXE"@,
            Exchange::JakartaStockExchange => "JKT"@,
            Exchange::TaiwanOTCExchange => "TWO"@,
            Exchange::OsakaStockExchange => "OSA"@,
            Exchange::AquisStockExchange => "AQS"@,
            Exchange::TaiwanStockExchange => "TAI"@,
            Exchange::QatarStockExchange => "DOH"@,
            Exchange::HelsinkiStockExchange => "HEL"@,
            Exchange::TallinnStockExchange => "TSI"@,
            Exchange::MoldovaStockExchange => "MCE"@,
            Exchange::NEOExchange => "NEO"@,
            Exchange::EuronextBrussels => "BRU"@,
            Exchange::VilniusStockExchange => "LIT"@,
            Exchange::BudapestStockExchange => "BUD"@,
            Exchange::EuronextLisbon => "LIS"@,
            Exchange::SantiagoStockExchange => "SGO"@,
            Exchange::FSI => "FSI"@,
            Exchange::IrishStockExchange => "ISE"@,
            Exchange::AthensStockExchange => "ATH"@,
            Exchange::SaudiStockExchange => "SAU"@,
            Exchange::TrinidadandTobagoStockExchange => "TLO"@,
            Exchange::CboeBXE => "CBO"@,
            Exchange::BVPBratislavaStockExchange => "BVC"@,
            Exchange::TAL => "TAL"@,
            Exchange::BoursaKuwait => "KUW"@,
            Exchange::EgyptianExchange => "CAI"@,
            Exchange::ColomboStockExchange => "CSE"@,
            Exchange::DubaiFinancialMarket => "DFM"@,
            Exchange::PhilippineStockExchange => "PHS"@,
            Exchange::KazakhstanStockExchange => "FKA"@,
            Exchange::OTCBulletinBoard => "OBB"@,
            Exchange::YHD => "YHD"@,
            Exchange::SAP => "SAP"@,
            Exchange::CaracasStockExchange => "CCS"@,
            Exchange::OPI => "OPI"@,
            Exchange::Euronext => "ENX"@,
        }
    }

    /// Every value, in declaration order.
    pub open spec fn spec_all() -> Seq<Exchange> {
        seq![
            Exchange::NewYorkStockExchange, Exchange::NASDAQ, Exchange::StockholmStockExchange,
            Exchange::DowJonesIndices, Exchange::NasdaqCapitalMarket, Exchange::NasdaqGlobalMarket,
            Exchange::Currencies, Exchange::Cryptocurrencies, Exchange::NYSEArca,
            Exchange::NYSEAmerican, Exchange::NewYorkMercantileExchange, Exchange::COMEX,
            Exchange::ChicagoBoardofTrade, Exchange::ChicagoMercantileExchange,
            Exchange::PinkOpenMarket, Exchange::TorontoStockExchange, Exchange::NYSEAmericanOptions,
            Exchange::NewYorkBoardofTrade, Exchange::SNPIndices, Exchange::WestCoastBoardofTrade,
            Exchange::BTS, Exchange::CurrencyExchangeInternational, Exchange::NASDAQStockMarket,
            Exchange::NagoyaStockExchange, Exchange::LondonStockExchange, Exchange::Xetra,
            Exchange::BerlinStockExchange, Exchange::DusseldorfStockExchange,
            Exchange::EuronextParis, Exchange::NewYorkStockExchangeARCA, Exchange::LondonIOB,
            Exchange::SIXSwissExchange, Exchange::BuenosAiresStockExchange,
            Exchange::BombayStockExchange, Exchange::AustralianSecuritiesExchange,
            Exchange::VancouverStockExchange, Exchange::AmsterdamStockExchange,
            Exchange::JapanExchangeGroup, Exchange::CanadianNationalStockExchange,
            Exchange::FrankfurtStockExchange, Exchange::MunichStockExchange,
            Exchange::IstanbulStockExchange, Exchange::MexicanStockExchange,
            Exchange::MilanStockExchange, Exchange::NewZealandStockExchange,
            Exchange::SaoPauloStockExchange, Exchange::KoreaStockExchange,
            Exchange::FukuokaStockExchange, Exchange::HongKongStockExchange,
            Exchange::StockExchangeofThailand, Exchange::SingaporeExchangeSecurities,
            Exchange::ShanghaiStockExchange, Exchange::SwissElectronicBourse,
            Exchange::OsloStockExchange, Exchange::TelAvivStockExchange, Exchange::KoreaExchange,
            Exchange::CopenhagenStockExchange, Exchange::StuttgartStockExchange,
            Exchange::BursaMalaysia, Exchange::HamburgStockExchange, Exchange::ViennaStockExchange,
            Exchange::PragueStockExchange, Exchange::HanoiStockExchange,
            Exchange::JohannesburgStockExchange, Exchange::CboeDXE, Exchange::MoscowExchange,
            Exchange::CboeAustralia, Exchange::ShenzhenStockExchange,
            Exchange::VietnamStockExchange, Exchange::WarsawStockExchange,
            Exchange::IntercontinentalExchange, Exchange::RigaStockExchange,
            Exchange::ZagrebStockExchange, Exchange::JakartaStockExchange,
            Exchange::TaiwanOTCExchange, Exchange::OsakaStockExchange, Exchange::AquisStockExchange,
            Exchange::TaiwanStockExchange, Exchange::QatarStockExchange,
            Exchange::HelsinkiStockExchange, Exchange::TallinnStockExchange,
            Exchange::MoldovaStockExchange, Exchange::NEOExchange, Exchange::EuronextBrussels,
            Exchange::VilniusStockExchange, Exchange::BudapestStockExchange,
            Exchange::EuronextLisbon, Exchange::SantiagoStockExchange, Exchange::FSI,
            Exchange::IrishStockExchange, Exchange::AthensStockExchange,
            Exchange::SaudiStockExchange, Exchange::TrinidadandTobagoStockExchange,
            Exchange::CboeBXE, Exchange::BVPBratislavaStockExchange, Exchange::TAL,
            Exchange::BoursaKuwait, Exchange::EgyptianExchange, Exchange::ColomboStockExchange,
            Exchange::DubaiFinancialMarket, Exchange::PhilippineStockExchange,
            Exchange::KazakhstanStockExchange, Exchange::OTCBulletinBoard, Exchange::YHD,
            Exchange::SAP, Exchange::CaracasStockExchange, Exchange::OPI, Exchange::Euronext,
        ]
    }

    /// The keys of every value, in declaration order.
    pub open spec fn spec_names() -> Seq<Seq<char>> {
        Self::spec_all().map_values(|v: Exchange| v.spec_key())
    }

    /// Reads a value back from its key by the characters that tell the keys apart.
    pub open spec fn spec_decode(s: Seq<char>) -> Option<Exchange> {
        if s[1] == 'A' {
            if s[2] == 'I' {
                if s[0] == 'C' {
                    Some(Exchange::EgyptianExchange)
                } else if s[0] == 'T' {
                    Some(Exchange::TaiwanStockExchange)
                } else {
                    None
                }
            } else if s[2] == 'L' {
                Some(Exchange::TAL)
            } else if s[2] == 'M' {
                Some(Exchange::HamburgStockExchange)
            } else if s[2] == 'N' {
                if s[0] == 'H' {
                    Some(Exchange::HanoiStockExchange)
                } else if s[0] == 'V' {
                    Some(Exchange::VancouverStockExchange)
                } else {
                    None
                }
            } else if s[2] == 'O' {
                Some(Exchange::SaoPauloStockExchange)
            } else if s[2] == 'P' {
                Some(Exchange::SAP)
            } else if s[2] == 'R' {
                Some(Exchange::EuronextParis)
            } else if s[2] == 'S' {
                Some(Exchange::NASDAQStockMarket)
            } else if s[2] == 'U' {
                Some(Exchange::SaudiStockExchange)
            } else {
                None
            }
        } else if s[1] == 'B' {
            if s[2] == 'B' {
                Some(Exchange::OTCBulletinBoard)
            } else if s[2] == 'O' {
                Some(Exchange::CboeBXE)
            } else if s[2] == 'S' {
                Some(Exchange::SwissElectronicBourse)
            } else if s[2] == 'T' {
                Some(Exchange::ChicagoBoardofTrade)
            } else {
                None
            }
        } else if s[1] == 'C' {
            if s[2] == 'B' {
                Some(Exchange::WestCoastBoardofTrade)
            } else if s[2] == 'C' {
                Some(Exchange::Cryptocurrencies)
            } else if s[2] == 'E' {
                if s[0] == 'I' {
                    Some(Exchange::IntercontinentalExchange)
                } else if s[0] == 'M' {
                    Some(Exchange::MoldovaStockExchange)
                } else {
                    None
                }
            } else if s[2] == 'M' {
                Some(Exchange::NasdaqCapitalMarket)
            } else if s[2] == 'S' {
                Some(Exchange::CaracasStockExchange)
            } else if s[2] == 'X' {
                Some(Exchange::NYSEArca)
            } else if s[2] == 'Y' {
                Some(Exchange::Currencies)
            } else {
                None
            }
        } else if s[1] == 'E' {
            if s[0] == 'B' {
                Some(Exchange::BerlinStockExchange)
            } else if s[0] == 'G' {
                Some(Exchange::Xetra)
            } else if s[0] == 'H' {
                Some(Exchange::HelsinkiStockExchange)
            } else if s[0] == 'M' {
                Some(Exchange::MexicanStockExchange)
            } else if s[0] == 'N' {
                Some(Exchange::NEOExchange)
            } else if s[0] == 'S' {
                if s[2] == 'S' {
                    Some(Exchange::SingaporeExchangeSecurities)
                } else if s[2] == 'T' {
                    Some(Exchange::StockExchangeofThailand)
                } else {
                    None
                }
            } else {
                None
            }
        } else if s[1] == 'F' {
            Some(Exchange::DubaiFinancialMarket)
        } else if s[1] == 'G' {
            if s[0] == 'F' {
                Some(Exchange::FukuokaStockExchange)
            } else if s[0] == 'N' {
                Some(Exchange::NasdaqGlobalMarket)
            } else if s[0] == 'S' {
                Some(Exchange::SantiagoStockExchange)
            } else {
                None
            }
        } else if s[1] == 'H' {
            if s[2] == 'D' {
                Some(Exchange::YHD)
            } else if s[2] == 'H' {
                Some(Exchange::ShanghaiStockExchange)
            } else if s[2] == 'S' {
                Some(Exchange::PhilippineStockExchange)
            } else if s[2] == 'Z' {
                Some(Exchange::ShenzhenStockExchange)
            } else {
                None
            }
        } else if s[1] == 'I' {
            if s[0] == 'L' {
                if s[2] == 'S' {
                    Some(Exchange::EuronextLisbon)
                } else if s[2] == 'T' {
                    Some(Exchange::VilniusStockExchange)
                } else {
                    None
                }
            } else if s[0] == 'M' {
                Some(Exchange::MilanStockExchange)
            } else if s[0] == 'N' {
                Some(Exchange::NYSEAmerican)
            } else if s[0] == 'R' {
                Some(Exchange::RigaStockExchange)
            } else if s[0] == 'V' {
                Some(Exchange::ViennaStockExchange)
            } else {
                None
            }
        } else if s[1] == 'J' {
            Some(Exchange::DowJonesIndices)
        } else if s[1] == 'K' {
            if s[0] == 'F' {
                Some(Exchange::KazakhstanStockExchange)
            } else if s[0] == 'H' {
                Some(Exchange::HongKongStockExchange)
            } else if s[0] == 'J' {
                Some(Exchange::JakartaStockExchange)
            } else {
                None
            }
        } else if s[1] == 'L' {
            if s[2] == 'O' {
                Some(Exchange::TrinidadandTobagoStockExchange)
            } else if s[2] == 'S' {
                Some(Exchange::BursaMalaysia)
            } else if s[2] == 'V' {
                Some(Exchange::TelAvivStockExchange)
            } else {
                None
            }
        } else if s[1] == 'M' {
            if s[0] == 'A' {
                Some(Exchange::AmsterdamStockExchange)
            } else if s[0] == 'C' {
                if s[2] == 'E' {
                    Some(Exchange::ChicagoMercantileExchange)
                } else if s[2] == 'X' {
                    Some(Exchange::COMEX)
                } else {
                    None
                }
            } else if s[0] == 'N' {
                Some(Exchange::NASDAQ)
            } else {
                None
            }
        } else if s[1] == 'N' {
            if s[0] == 'C' {
                Some(Exchange::CanadianNationalStockExchange)
            } else if s[0] == 'E' {
                Some(Exchange::Euronext)
            } else if s[0] == 'J' {
                Some(Exchange::JohannesburgStockExchange)
            } else if s[0] == 'P' {
                Some(Exchange::PinkOpenMarket)
            } else if s[0] == 'S' {
                Some(Exchange::SNPIndices)
            } else {
                None
            }
        } else if s[1] == 'O' {
            if s[0] == 'D' {
                Some(Exchange::QatarStockExchange)
            } else if s[0] == 'I' {
                Some(Exchange::LondonIOB)
            } else if s[0] == 'K' {
                Some(Exchange::KoreaExchange)
            } else if s[0] == 'T' {
                Some(Exchange::TorontoStockExchange)
            } else {
                None
            }
        } else if s[1] == 'P' {
            if s[0] == 'C' {
                Some(Exchange::CopenhagenStockExchange)
            } else if s[0] == 'J' {
                Some(Exchange::JapanExchangeGroup)
            } else if s[0] == 'O' {
                Some(Exchange::OPI)
            } else {
                None
            }
        } else if s[1] == 'Q' {
            Some(Exchange::AquisStockExchange)
        } else if s[1] == 'R' {
            if s[0] == 'B' {
                Some(Exchange::EuronextBrussels)
            } else if s[0] == 'F' {
                Some(Exchange::FrankfurtStockExchange)
            } else if s[0] == 'P' {
                Some(Exchange::PragueStockExchange)
            } else if s[0] == 'Z' {
                Some(Exchange::SIXSwissExchange)
            } else {
                None
            }
        } else if s[1] == 'S' {
            if s[0] == 'A' {
                if s[2] == 'E' {
                    Some(Exchange::NYSEAmericanOptions)
                } else if s[2] == 'X' {
                    Some(Exchange::AustralianSecuritiesExchange)
                } else {
                    None
                }
            } else if s[0] == 'B' {
                Some(Exchange::BombayStockExchange)
            } else if s[0] == 'C' {
                Some(Exchange::ColomboStockExchange)
            } else if s[0] == 'F' {
                Some(Exchange::FSI)
            } else if s[0] == 'I' {
                if s[2] == 'E' {
                    Some(Exchange::IrishStockExchange)
                } else if s[2] == 'T' {
                    Some(Exchange::IstanbulStockExchange)
                } else {
                    None
                }
            } else if s[0] == 'K' {
                Some(Exchange::KoreaStockExchange)
            } else if s[0] == 'L' {
                Some(Exchange::LondonStockExchange)
            } else if s[0] == 'M' {
                Some(Exchange::MoscowExchange)
            } else if s[0] == 'N' {
                Some(Exchange::NagoyaStockExchange)
            } else if s[0] == 'O' {
                if s[2] == 'A' {
                    Some(Exchange::OsakaStockExchange)
                } else if s[2] == 'L' {
                    Some(Exchange::OsloStockExchange)
                } else {
                    None
                }
            } else if s[0] == 'T' {
                Some(Exchange::TallinnStockExchange)
            } else if s[0] == 'V' {
                Some(Exchange::VietnamStockExchange)
            } else if s[0] == 'W' {
                Some(Exchange::WarsawStockExchange)
            } else {
                None
            }
        } else if s[1] == 'T' {
            if s[2] == 'H' {
                Some(Exchange::AthensStockExchange)
            } else if s[2] == 'O' {
                Some(Exchange::StockholmStockExchange)
            } else if s[2] == 'S' {
                Some(Exchange::BTS)
            } else if s[2] == 'U' {
                Some(Exchange::StuttgartStockExchange)
            } else {
                None
            }
        } else if s[1] == 'U' {
            if s[2] == 'D' {
                Some(Exchange::BudapestStockExchange)
            } else if s[2] == 'E' {
                Some(Exchange::BuenosAiresStockExchange)
            } else if s[2] == 'N' {
                Some(Exchange::MunichStockExchange)
            } else if s[2] == 'S' {
                Some(Exchange::DusseldorfStockExchange)
            } else if s[2] == 'W' {
                Some(Exchange::BoursaKuwait)
            } else {
                None
            }
        } else if s[1] == 'V' {
            Some(Exchange::BVPBratislavaStockExchange)
        } else if s[1] == 'W' {
            Some(Exchange::TaiwanOTCExchange)
        } else if s[1] == 'X' {
            if s[2] == 'A' {
                Some(Exchange::CboeAustralia)
            } else if s[2] == 'E' {
                if s[0] == 'C' {
                    Some(Exchange::ZagrebStockExchange)
                } else if s[0] == 'D' {
                    Some(Exchange::CboeDXE)
                } else {
                    None
                }
            } else if s[2] == 'I' {
                Some(Exchange::CurrencyExchangeInternational)
            } else {
                None
            }
        } else if s[1] == 'Y' {
            if s[2] == 'B' {
                Some(Exchange::NewYorkBoardofTrade)
            } else if s[2] == 'M' {
                Some(Exchange::NewYorkMercantileExchange)
            } else if s[2] == 'Q' {
                Some(Exchange::NewYorkStockExchange)
            } else if s[2] == 'S' {
                Some(Exchange::NewYorkStockExchangeARCA)
            } else {
                None
            }
        } else if s[1] == 'Z' {
            Some(Exchange::NewZealandStockExchange)
        } else {
            None
        }
    }

    /// The key of this value.
    pub fn as_str(&self) -> (s: &'static str)
        ensures
            s@ == self.spec_key(),
    {
        match self {
            Exchange::NewYorkStockExchange => "NYQ",
            Exchange::NASDAQ => "NMS",
            Exchange::StockholmStockExchange => "STO",
            Exchange::DowJonesIndices => "DJI",
            Exchange::NasdaqCapitalMarket => "NCM",
            Exchange::NasdaqGlobalMarket => "NGM",
            Exchange::Currencies => "CCY",
            Exchange::Cryptocurrencies => "CCC",
            Exchange::NYSEArca => "PCX",
            Exchange::NYSEAmerican => "NIM",
            Exchange::NewYorkMercantileExchange => "NYM",
            Exchange::COMEX => "CMX",
            Exchange::ChicagoBoardofTrade => "CBT",
            Exchange::ChicagoMercantileExchange => "CME",
            Exchange::PinkOpenMarket => "PNK",
            Exchange::TorontoStockExchange => "TOR",
            Exchange::NYSEAmericanOptions => "ASE",
            Exchange::NewYorkBoardofTrade => "NYB",
            Exchange::SNPIndices => "SNP",
            Exchange::WestCoastBoardofTrade => "WCB",
            Exchange::BTS => "BTS",
            Exchange::CurrencyExchangeInternational => "CXI",
            Exchange::NASDAQStockMarket => "NAS",
            Exchange::NagoyaStockExchange => "NSI",
            Exchange::LondonStockExchange => "LSE",
            Exchange::Xetra => "GER",
            Exchange::BerlinStockExchange => "BER",
            Exchange::DusseldorfStockExchange => "DUS",
            Exchange::EuronextParis => "PAR",
            Exchange::NewYorkStockExchangeARCA => "NYS",
            Exchange::LondonIOB => "IOB",
            Exchange::SIXSwissExchange => "ZRH",
            Exchange::BuenosAiresStockExchange => "BUE",
            Exchange::BombayStockExchange => "BSE",
            Exchange::AustralianSecuritiesExchange => "ASX",
            Exchange::VancouverStockExchange => "VAN",
            Exchange::AmsterdamStockExchange => "AMS",
            Exchange::JapanExchangeGroup => "JPX",
            Exchange::CanadianNationalStockExchange => "CNQ",
            Exchange::FrankfurtStockExchange => "FRA",
            Exchange::MunichStockExchange => "MUN",
            Exchange::IstanbulStockExchange => "IST",
            Exchange::MexicanStockExchange => "MEX",
            Exchange::MilanStockExchange => "MIL",
            Exchange::NewZealandStockExchange => "NZE",
            Exchange::SaoPauloStockExchange => "SAO",
            Exchange::KoreaStockExchange => "KSC",
            Exchange::FukuokaStockExchange => "FGI",
            Exchange::HongKongStockExchange => "HKG",
            Exchange::StockExchangeofThailand => "SET",
            Exchange::SingaporeExchangeSecurities => "SES",
            Exchange::ShanghaiStockExchange => "SHH",
            Exchange::SwissElectronicBourse => "EBS",
            Exchange::OsloStockExchange => "OSL",
            Exchange::TelAvivStockExchange => "TLV",
            Exchange::KoreaExchange => "KOE",
            Exchange::CopenhagenStockExchange => "CPH",
            Exchange::StuttgartStockExchange => "STU",
            Exchange::BursaMalaysia => "KLS",
            Exchange::HamburgStockExchange => "HAM",
            Exchange::ViennaStockExchange => "VIE",
            Exchange::PragueStockExchange => "PRA",
            Exchange::HanoiStockExchange => "HAN",
            Exchange::JohannesburgStockExchange => "JNB",
            Exchange::CboeDXE => "DXE",
            Exchange::MoscowExchange => "MSC",
            Exchange::CboeAustralia => "CXA",
            Exchange::ShenzhenStockExchange => "SHZ",
            Exchange::VietnamStockExchange => "VSE",
            Exchange::WarsawStockExchange => "WSE",
            Exchange::IntercontinentalExchange => "ICE",
            Exchange::RigaStockExchange => "RIS",
            Exchange::ZagrebStockExchange => "CXE",
            Exchange::JakartaStockExchange => "JKT",
            Exchange::TaiwanOTCExchange => "TWO",
            Exchange::OsakaStockExchange => "OSA",
            Exchange::AquisStockExchange => "AQS",
            Exchange::TaiwanStockExchange => "TAI",
            Exchange::QatarStockExchange => "DOH",
            Exchange::HelsinkiStockExchange => "HEL",
            Exchange::TallinnStockExchange => "TSI",
            Exchange::MoldovaStockExchange => "MCE",
            Exchange::NEOExchange => "NEO",
            Exchange::EuronextBrussels => "BRU",
            Exchange::VilniusStockExchange => "LIT",
            Exchange::BudapestStockExchange => "BUD",
            Exchange::EuronextLisbon => "LIS",
            Exchange::SantiagoStockExchange => "SGO",
            Exchange::FSI => "FSI",
            Exchange::IrishStockExchange => "ISE",
            Exchange::AthensStockExchange => "ATH",
            Exchange::SaudiStockExchange => "SAU",
            Exchange::TrinidadandTobagoStockExchange => "TLO",
            Exchange::CboeBXE => "CBO",
            Exchange::BVPBratislavaStockExchange => "BVC",
            Exchange::TAL => "TAL",
            Exchange::BoursaKuwait => "KUW",
            Exchange::EgyptianExchange => "CAI",
            Exchange::ColomboStockExchange => "CSE",
            Exchange::DubaiFinancialMarket => "DFM",
            Exchange::PhilippineStockExchange => "PHS",
            Exchange::KazakhstanStockExchange => "FKA",
            Exchange::OTCBulletinBoard => "OBB",
            Exchange::YHD => "YHD",
            Exchange::SAP => "SAP",
            Exchange::CaracasStockExchange => "CCS",
            Exchange::OPI => "OPI",
            Exchange::Euronext => "ENX",
        }
    }

    /// The key of this value as an owned string.
    pub fn to_string(&self) -> (s: String)
        ensures
            s@ == self.spec_key(),
    {
        owned(self.as_str())
    }

    /// Parses a key: the value whose key is `s`, and `None` when there is none.
    pub fn from_str(s: &str) -> (r: Option<Exchange>)
        ensures
            forall|v: Exchange| #[trigger] v.spec_key() == s@ <==> r == Some(v),
    {
        let r = Self::find(s);
        proof {
            assert forall|v: Exchange| #[trigger] v.spec_key() == s@ implies r == Some(v) by {
                Self::lemma_key_round_trip(v, r->0);
            }
        }
        r
    }

    /// Tries the keys in declaration order.
    #[verifier::rlimit(60)]
    fn find(s: &str) -> (r: Option<Exchange>)
        ensures
            r matches Some(v) ==> v.spec_key() == s@,
            r is None ==> forall|v: Exchange| #[trigger] v.spec_key() != s@,
    {
        if str_eq(s, "NYQ") {
            return Some(Exchange::NewYorkStockExchange);
        }
        if str_eq(s, "NMS") {
            return Some(Exchange::NASDAQ);
        }
        if str_eq(s, "STO") {
            return Some(Exchange::StockholmStockExchange);
        }
        if str_eq(s, "DJI") {
            return Some(Exchange::DowJonesIndices);
        }
        if str_eq(s, "NCM") {
            return Some(Exchange::NasdaqCapitalMarket);
        }
        if str_eq(s, "NGM") {
            return Some(Exchange::NasdaqGlobalMarket);
        }
        if str_eq(s, "CCY") {
            return Some(Exchange::Currencies);
        }
        if str_eq(s, "CCC") {
            return Some(Exchange::Cryptocurrencies);
        }
        if str_eq(s, "PCX") {
            return Some(Exchange::NYSEArca);
        }
        if str_eq(s, "NIM") {
            return Some(Exchange::NYSEAmerican);
        }
        if str_eq(s, "NYM") {
            return Some(Exchange::NewYorkMercantileExchange);
        }
        if str_eq(s, "CMX") {
            return Some(Exchange::COMEX);
        }
        if str_eq(s, "CBT") {
            return Some(Exchange::ChicagoBoardofTrade);
        }
        if str_eq(s, "CME") {
            return Some(Exchange::ChicagoMercantileExchange);
        }
        if str_eq(s, "PNK") {
            return Some(Exchange::PinkOpenMarket);
        }
        if str_eq(s, "TOR") {
            return Some(Exchange::TorontoStockExchange);
        }
        if str_eq(s, "ASE") {
            return Some(Exchange::NYSEAmericanOptions);
        }
        if str_eq(s, "NYB") {
            return Some(Exchange::NewYorkBoardofTrade);
        }
        if str_eq(s, "SNP") {
            return Some(Exchange::SNPIndices);
        }
        if str_eq(s, "WCB") {
            return Some(Exchange::WestCoastBoardofTrade);
        }
        if str_eq(s, "BTS") {
            return Some(Exchange::BTS);
        }
        if str_eq(s, "CXI") {
            return Some(Exchange::CurrencyExchangeInternational);
        }
        if str_eq(s, "NAS") {
            return Some(Exchange::NASDAQStockMarket);
        }
        if str_eq(s, "NSI") {
            return Some(Exchange::NagoyaStockExchange);
        }
        if str_eq(s, "LSE") {
            return Some(Exchange::LondonStockExchange);
        }
        if str_eq(s, "GER") {
            return Some(Exchange::Xetra);
        }
        if str_eq(s, "BER") {
            return Some(Exchange::BerlinStockExchange);
        }
        if str_eq(s, "DUS") {
            return Some(Exchange::DusseldorfStockExchange);
        }
        if str_eq(s, "PAR") {
            return Some(Exchange::EuronextParis);
        }
        if str_eq(s, "NYS") {
            return Some(Exchange::NewYorkStockExchangeARCA);
        }
        if str_eq(s, "IOB") {
            return Some(Exchange::LondonIOB);
        }
        if str_eq(s, "ZRH") {
            return Some(Exchange::SIXSwissExchange);
        }
        if str_eq(s, "BUE") {
            return Some(Exchange::BuenosAiresStockExchange);
        }
        if str_eq(s, "BSE") {
            return Some(Exchange::BombayStockExchange);
        }
        if str_eq(s, "ASX") {
            return Some(Exchange::AustralianSecuritiesExchange);
        }
        if str_eq(s, "VAN") {
            return Some(Exchange::VancouverStockExchange);
        }
        if str_eq(s, "AMS") {
            return Some(Exchange::AmsterdamStockExchange);
        }
        if str_eq(s, "JPX") {
            return Some(Exchange::JapanExchangeGroup);
        }
        if str_eq(s, "CNQ") {
            return Some(Exchange::CanadianNationalStockExchange);
        }
        if str_eq(s, "FRA") {
            return Some(Exchange::FrankfurtStockExchange);
        }
        if str_eq(s, "MUN") {
            return Some(Exchange::MunichStockExchange);
        }
        if str_eq(s, "IST") {
            return Some(Exchange::IstanbulStockExchange);
        }
        if str_eq(s, "MEX") {
            return Some(Exchange::MexicanStockExchange);
        }
        if str_eq(s, "MIL") {
            return Some(Exchange::MilanStockExchange);
        }
        if str_eq(s, "NZE") {
            return Some(Exchange::NewZealandStockExchange);
        }
        if str_eq(s, "SAO") {
            return Some(Exchange::SaoPauloStockExchange);
        }
        if str_eq(s, "KSC") {
            return Some(Exchange::KoreaStockExchange);
        }
        if str_eq(s, "FGI") {
            return Some(Exchange::FukuokaStockExchange);
        }
        if str_eq(s, "HKG") {
            return Some(Exchange::HongKongStockExchange);
        }
        if str_eq(s, "SET") {
            return Some(Exchange::StockExchangeofThailand);
        }
        if str_eq(s, "SES") {
            return Some(Exchange::SingaporeExchangeSecurities);
        }
        if str_eq(s, "SHH") {
            return Some(Exchange::ShanghaiStockExchange);
        }
        if str_eq(s, "EBS") {
            return Some(Exchange::SwissElectronicBourse);
        }
        if str_eq(s, "OSL") {
            return Some(Exchange::OsloStockExchange);
        }
        if str_eq(s, "TLV") {
            return Some(Exchange::TelAvivStockExchange);
        }
        if str_eq(s, "KOE") {
            return Some(Exchange::KoreaExchange);
        }
        if str_eq(s, "CPH") {
            return Some(Exchange::CopenhagenStockExchange);
        }
        if str_eq(s, "STU") {
            return Some(Exchange::StuttgartStockExchange);
        }
        if str_eq(s, "KLS") {
            return Some(Exchange::BursaMalaysia);
        }
        if str_eq(s, "HAM") {
            return Some(Exchange::HamburgStockExchange);
        }
        if str_eq(s, "VIE") {
            return Some(Exchange::ViennaStockExchange);
        }
        if str_eq(s, "PRA") {
            return Some(Exchange::PragueStockExchange);
        }
        if str_eq(s, "HAN") {
            return Some(Exchange::HanoiStockExchange);
        }
        if str_eq(s, "JNB") {
            return Some(Exchange::JohannesburgStockExchange);
        }
        if str_eq(s, "DXE") {
            return Some(Exchange::CboeDXE);
        }
        if str_eq(s, "MSC") {
            return Some(Exchange::MoscowExchange);
        }
        if str_eq(s, "CXA") {
            return Some(Exchange::CboeAustralia);
        }
        if str_eq(s, "SHZ") {
            return Some(Exchange::ShenzhenStockExchange);
        }
        if str_eq(s, "VSE") {
            return Some(Exchange::VietnamStockExchange);
        }
        if str_eq(s, "WSE") {
            return Some(Exchange::WarsawStockExchange);
        }
        if str_eq(s, "ICE") {
            return Some(Exchange::IntercontinentalExchange);
        }
        if str_eq(s, "RIS") {
            return Some(Exchange::RigaStockExchange);
        }
        if str_eq(s, "CXE") {
            return Some(Exchange::ZagrebStockExchange);
        }
        if str_eq(s, "JKT") {
            return Some(Exchange::JakartaStockExchange);
        }
        if str_eq(s, "TWO") {
            return Some(Exchange::TaiwanOTCExchange);
        }
        if str_eq(s, "OSA") {
            return Some(Exchange::OsakaStockExchange);
        }
        if str_eq(s, "AQS") {
            return Some(Exchange::AquisStockExchange);
        }
        if str_eq(s, "TAI") {
            return Some(Exchange::TaiwanStockExchange);
        }
        if str_eq(s, "DOH") {
            return Some(Exchange::QatarStockExchange);
        }
        if str_eq(s, "HEL") {
            return Some(Exchange::HelsinkiStockExchange);
        }
        if str_eq(s, "TSI") {
            return Some(Exchange::TallinnStockExchange);
        }
        if str_eq(s, "MCE") {
            return Some(Exchange::MoldovaStockExchange);
        }
        if str_eq(s, "NEO") {
            return Some(Exchange::NEOExchange);
        }
        if str_eq(s, "BRU") {
            return Some(Exchange::EuronextBrussels);
        }
        if str_eq(s, "LIT") {
            return Some(Exchange::VilniusStockExchange);
        }
        if str_eq(s, "BUD") {
            return Some(Exchange::BudapestStockExchange);
        }
        if str_eq(s, "LIS") {
            return Some(Exchange::EuronextLisbon);
        }
        if str_eq(s, "SGO") {
            return Some(Exchange::SantiagoStockExchange);
        }
        if str_eq(s, "FSI") {
            return Some(Exchange::FSI);
        }
        if str_eq(s, "ISE") {
            return Some(Exchange::IrishStockExchange);
        }
        if str_eq(s, "ATH") {
            return Some(Exchange::AthensStockExchange);
        }
        if str_eq(s, "SAU") {
            return Some(Exchange::SaudiStockExchange);
        }
        if str_eq(s, "TLO") {
            return Some(Exchange::TrinidadandTobagoStockExchange);
        }
        if str_eq(s, "CBO") {
            return Some(Exchange::CboeBXE);
        }
        if str_eq(s, "BVC") {
            return Some(Exchange::BVPBratislavaStockExchange);
        }
        if str_eq(s, "TAL") {
            return Some(Exchange::TAL);
        }
        if str_eq(s, "KUW") {
            return Some(Exchange::BoursaKuwait);
        }
        if str_eq(s, "CAI") {
            return Some(Exchange::EgyptianExchange);
        }
        if str_eq(s, "CSE") {
            return Some(Exchange::ColomboStockExchange);
        }
        if str_eq(s, "DFM") {
            return Some(Exchange::DubaiFinancialMarket);
        }
        if str_eq(s, "PHS") {
            return Some(Exchange::PhilippineStockExchange);
        }
        if str_eq(s, "FKA") {
            return Some(Exchange::KazakhstanStockExchange);
        }
        if str_eq(s, "OBB") {
            return Some(Exchange::OTCBulletinBoard);
        }
        if str_eq(s, "YHD") {
            return Some(Exchange::YHD);
        }
        if str_eq(s, "SAP") {
            return Some(Exchange::SAP);
        }
        if str_eq(s, "CCS") {
            return Some(Exchange::CaracasStockExchange);
        }
        if str_eq(s, "OPI") {
            return Some(Exchange::OPI);
        }
        if str_eq(s, "ENX") {
            return Some(Exchange::Euronext);
        }
        None
    }

    /// Every value, in declaration order.
    pub fn variants() -> (r: Vec<Exchange>)
        ensures
            r@ == Self::spec_all(),
    {
        let r = vec![
            Exchange::NewYorkStockExchange, Exchange::NASDAQ, Exchange::StockholmStockExchange,
            Exchange::DowJonesIndices, Exchange::NasdaqCapitalMarket, Exchange::NasdaqGlobalMarket,
            Exchange::Currencies, Exchange::Cryptocurrencies, Exchange::NYSEArca,
            Exchange::NYSEAmerican, Exchange::NewYorkMercantileExchange, Exchange::COMEX,
            Exchange::ChicagoBoardofTrade, Exchange::ChicagoMercantileExchange,
            Exchange::PinkOpenMarket, Exchange::TorontoStockExchange, Exchange::NYSEAmericanOptions,
            Exchange::NewYorkBoardofTrade, Exchange::SNPIndices, Exchange::WestCoastBoardofTrade,
            Exchange::BTS, Exchange::CurrencyExchangeInternational, Exchange::NASDAQStockMarket,
            Exchange::NagoyaStockExchange, Exchange::LondonStockExchange, Exchange::Xetra,
            Exchange::BerlinStockExchange, Exchange::DusseldorfStockExchange,
            Exchange::EuronextParis, Exchange::NewYorkStockExchangeARCA, Exchange::LondonIOB,
            Exchange::SIXSwissExchange, Exchange::BuenosAiresStockExchange,
            Exchange::BombayStockExchange, Exchange::AustralianSecuritiesExchange,
            Exchange::VancouverStockExchange, Exchange::AmsterdamStockExchange,
            Exchange::JapanExchangeGroup, Exchange::CanadianNationalStockExchange,
            Exchange::FrankfurtStockExchange, Exchange::MunichStockExchange,
            Exchange::IstanbulStockExchange, Exchange::MexicanStockExchange,
            Exchange::MilanStockExchange, Exchange::NewZealandStockExchange,
            Exchange::SaoPauloStockExchange, Exchange::KoreaStockExchange,
            Exchange::FukuokaStockExchange, Exchange::HongKongStockExchange,
            Exchange::StockExchangeofThailand, Exchange::SingaporeExchangeSecurities,
            Exchange::ShanghaiStockExchange, Exchange::SwissElectronicBourse,
            Exchange::OsloStockExchange, Exchange::TelAvivStockExchange, Exchange::KoreaExchange,
            Exchange::CopenhagenStockExchange, Exchange::StuttgartStockExchange,
            Exchange::BursaMalaysia, Exchange::HamburgStockExchange, Exchange::ViennaStockExchange,
            Exchange::PragueStockExchange, Exchange::HanoiStockExchange,
            Exchange::JohannesburgStockExchange, Exchange::CboeDXE, Exchange::MoscowExchange,
            Exchange::CboeAustralia, Exchange::ShenzhenStockExchange,
            Exchange::VietnamStockExchange, Exchange::WarsawStockExchange,
            Exchange::IntercontinentalExchange, Exchange::RigaStockExchange,
            Exchange::ZagrebStockExchange, Exchange::JakartaStockExchange,
            Exchange::TaiwanOTCExchange, Exchange::OsakaStockExchange, Exchange::AquisStockExchange,
            Exchange::TaiwanStockExchange, Exchange::QatarStockExchange,
            Exchange::HelsinkiStockExchange, Exchange::TallinnStockExchange,
            Exchange::MoldovaStockExchange, Exchange::NEOExchange, Exchange::EuronextBrussels,
            Exchange::VilniusStockExchange, Exchange::BudapestStockExchange,
            Exchange::EuronextLisbon, Exchange::SantiagoStockExchange, Exchange::FSI,
            Exchange::IrishStockExchange, Exchange::AthensStockExchange,
            Exchange::SaudiStockExchange, Exchange::TrinidadandTobagoStockExchange,
            Exchange::CboeBXE, Exchange::BVPBratislavaStockExchange, Exchange::TAL,
            Exchange::BoursaKuwait, Exchange::EgyptianExchange, Exchange::ColomboStockExchange,
            Exchange::DubaiFinancialMarket, Exchange::PhilippineStockExchange,
            Exchange::KazakhstanStockExchange, Exchange::OTCBulletinBoard, Exchange::YHD,
            Exchange::SAP, Exchange::CaracasStockExchange, Exchange::OPI, Exchange::Euronext,
        ];
        assert(r@ =~= Self::spec_all());
        r
    }

    /// The keys of every value, in declaration order.
    pub fn variant_names() -> (r: Vec<&'static str>)
        ensures
            strs_view(r@) == Self::spec_names(),
    {
        let r = vec![
            "NYQ", "NMS", "STO", "DJI", "NCM", "NGM", "CCY", "CCC", "PCX", "NIM", "NYM", "CMX",
            "CBT", "CME", "PNK", "TOR", "ASE", "NYB", "SNP", "WCB", "BTS", "CXI", "NAS", "NSI",
            "LSE", "GER", "BER", "DUS", "PAR", "NYS", "IOB", "ZRH", "BUE", "BSE", "ASX", "VAN",
            "AMS", "JPX", "CNQ", "FRA", "MUN", "IST", "MEX", "MIL", "NZE", "SAO", "KSC", "FGI",
            "HKG", "SET", "SES", "SHH", "EBS", "OSL", "TLV", "KOE", "CPH", "STU", "KLS", "HAM",
            "VIE", "PRA", "HAN", "JNB", "DXE", "MSC", "CXA", "SHZ", "VSE", "WSE", "ICE", "RIS",
            "CXE", "JKT", "TWO", "OSA", "AQS", "TAI", "DOH", "HEL", "TSI", "MCE", "NEO", "BRU",
            "LIT", "BUD", "LIS", "SGO", "FSI", "ISE", "ATH", "SAU", "TLO", "CBO", "BVC", "TAL",
            "KUW", "CAI", "CSE", "DFM", "PHS", "FKA", "OBB", "YHD", "SAP", "CCS", "OPI", "ENX",
        ];
        assert(strs_view(r@) =~= Self::spec_names());
        r
    }

    /// Distinct values have distinct keys: the key of a value decodes to that value.
    pub proof fn lemma_decode_key(v: Exchange)
        ensures
            Self::spec_decode(v.spec_key()) == Some(v),
    {
        match v {
            Exchange::NewYorkStockExchange => {
                reveal_strlit("NYQ");
            },
            Exchange::NASDAQ => {
                reveal_strlit("NMS");
            },
            Exchange::StockholmStockExchange => {
                reveal_strlit("STO");
            },
            Exchange::DowJonesIndices => {
                reveal_strlit("DJI");
            },
            Exchange::NasdaqCapitalMarket => {
                reveal_strlit("NCM");
            },
            Exchange::NasdaqGlobalMarket => {
                reveal_strlit("NGM");
            },
            Exchange::Currencies => {
                reveal_strlit("CCY");
            },
            Exchange::Cryptocurrencies => {
                reveal_strlit("CCC");
            },
            Exchange::NYSEArca => {
                reveal_strlit("PCX");
            },
            Exchange::NYSEAmerican => {
                reveal_strlit("NIM");
            },
            Exchange::NewYorkMercantileExchange => {
                reveal_strlit("NYM");
            },
            Exchange::COMEX => {
                reveal_strlit("CMX");
            },
            Exchange::ChicagoBoardofTrade => {
                reveal_strlit("CBT");
            },
            Exchange::ChicagoMercantileExchange => {
                reveal_strlit("CME");
            },
            Exchange::PinkOpenMarket => {
                reveal_strlit("PNK");
            },
            Exchange::TorontoStockExchange => {
                reveal_strlit("TOR");
            },
            Exchange::NYSEAmericanOptions => {
                reveal_strlit("ASE");
            },
            Exchange::NewYorkBoardofTrade => {
                reveal_strlit("NYB");
            },
            Exchange::SNPIndices => {
                reveal_strlit("SNP");
            },
            Exchange::WestCoastBoardofTrade => {
                reveal_strlit("WCB");
            },
            Exchange::BTS => {
                reveal_strlit("BTS");
            },
            Exchange::CurrencyExchangeInternational => {
                reveal_strlit("CXI");
            },
            Exchange::NASDAQStockMarket => {
                reveal_strlit("NAS");
            },
            Exchange::NagoyaStockExchange => {
                reveal_strlit("NSI");
            },
            Exchange::LondonStockExchange => {
                reveal_strlit("LSE");
            },
            Exchange::Xetra => {
                reveal_strlit("GER");
            },
            Exchange::BerlinStockExchange => {
                reveal_strlit("BER");
            },
            Exchange::DusseldorfStockExchange => {
                reveal_strlit("DUS");
            },
            Exchange::EuronextParis => {
                reveal_strlit("PAR");
            },
            Exchange::NewYorkStockExchangeARCA => {
                reveal_strlit("NYS");
            },
            Exchange::LondonIOB => {
                reveal_strlit("IOB");
            },
            Exchange::SIXSwissExchange => {
                reveal_strlit("ZRH");
            },
            Exchange::BuenosAiresStockExchange => {
                reveal_strlit("BUE");
            },
            Exchange::BombayStockExchange => {
                reveal_strlit("BSE");
            },
            Exchange::AustralianSecuritiesExchange => {
                reveal_strlit("ASX");
            },
            Exchange::VancouverStockExchange => {
                reveal_strlit("VAN");
            },
            Exchange::AmsterdamStockExchange => {
                reveal_strlit("AMS");
            },
            Exchange::JapanExchangeGroup => {
                reveal_strlit("JPX");
            },
            Exchange::CanadianNationalStockExchange => {
                reveal_strlit("CNQ");
            },
            Exchange::FrankfurtStockExchange => {
                reveal_strlit("FRA");
            },
            Exchange::MunichStockExchange => {
                reveal_strlit("MUN");
            },
            Exchange::IstanbulStockExchange => {
                reveal_strlit("IST");
            },
            Exchange::MexicanStockExchange => {
                reveal_strlit("MEX");
            },
            Exchange::MilanStockExchange => {
                reveal_strlit("MIL");
            },
            Exchange::NewZealandStockExchange => {
                reveal_strlit("NZE");
            },
            Exchange::SaoPauloStockExchange => {
                reveal_strlit("SAO");
            },
            Exchange::KoreaStockExchange => {
                reveal_strlit("KSC");
            },
            Exchange::FukuokaStockExchange => {
                reveal_strlit("FGI");
            },
            Exchange::HongKongStockExchange => {
                reveal_strlit("HKG");
            },
            Exchange::StockExchangeofThailand => {
                reveal_strlit("SET");
            },
            Exchange::SingaporeExchangeSecurities => {
                reveal_strlit("SES");
            },
            Exchange::ShanghaiStockExchange => {
                reveal_strlit("SHH");
            },
            Exchange::SwissElectronicBourse => {
                reveal_strlit("EBS");
            },
            Exchange::OsloStockExchange => {
                reveal_strlit("OSL");
            },
            Exchange::TelAvivStockExchange => {
                reveal_strlit("TLV");
            },
            Exchange::KoreaExchange => {
                reveal_strlit("KOE");
            },
            Exchange::CopenhagenStockExchange => {
                reveal_strlit("CPH");
            },
            Exchange::StuttgartStockExchange => {
                reveal_strlit("STU");
            },
            Exchange::BursaMalaysia => {
                reveal_strlit("KLS");
            },
            Exchange::HamburgStockExchange => {
                reveal_strlit("HAM");
            },
            Exchange::ViennaStockExchange => {
                reveal_strlit("VIE");
            },
            Exchange::PragueStockExchange => {
                reveal_strlit("PRA");
            },
            Exchange::HanoiStockExchange => {
                reveal_strlit("HAN");
            },
            Exchange::JohannesburgStockExchange => {
                reveal_strlit("JNB");
            },
            Exchange::CboeDXE => {
                reveal_strlit("DXE");
            },
            Exchange::MoscowExchange => {
                reveal_strlit("MSC");
            },
            Exchange::CboeAustralia => {
                reveal_strlit("CXA");
            },
            Exchange::ShenzhenStockExchange => {
                reveal_strlit("SHZ");
            },
            Exchange::VietnamStockExchange => {
                reveal_strlit("VSE");
            },
            Exchange::WarsawStockExchange => {
                reveal_strlit("WSE");
            },
            Exchange::IntercontinentalExchange => {
                reveal_strlit("ICE");
            },
            Exchange::RigaStockExchange => {
                reveal_strlit("RIS");
            },
            Exchange::ZagrebStockExchange => {
                reveal_strlit("CXE");
            },
            Exchange::JakartaStockExchange => {
                reveal_strlit("JKT");
            },
            Exchange::TaiwanOTCExchange => {
                reveal_strlit("TWO");
            },
            Exchange::OsakaStockExchange => {
                reveal_strlit("OSA");
            },
            Exchange::AquisStockExchange => {
                reveal_strlit("AQS");
            },
            Exchange::TaiwanStockExchange => {
                reveal_strlit("TAI");
            },
            Exchange::QatarStockExchange => {
                reveal_strlit("DOH");
            },
            Exchange::HelsinkiStockExchange => {
                reveal_strlit("HEL");
            },
            Exchange::TallinnStockExchange => {
                reveal_strlit("TSI");
            },
            Exchange::MoldovaStockExchange => {
                reveal_strlit("MCE");
            },
            Exchange::NEOExchange => {
                reveal_strlit("NEO");
            },
            Exchange::EuronextBrussels => {
                reveal_strlit("BRU");
            },
            Exchange::VilniusStockExchange => {
                reveal_strlit("LIT");
            },
            Exchange::BudapestStockExchange => {
                reveal_strlit("BUD");
            },
            Exchange::EuronextLisbon => {
                reveal_strlit("LIS");
            },
            Exchange::SantiagoStockExchange => {
                reveal_strlit("SGO");
            },
            Exchange::FSI => {
                reveal_strlit("FSI");
            },
            Exchange::IrishStockExchange => {
                reveal_strlit("ISE");
            },
            Exchange::AthensStockExchange => {
                reveal_strlit("ATH");
            },
            Exchange::SaudiStockExchange => {
                reveal_strlit("SAU");
            },
            Exchange::TrinidadandTobagoStockExchange => {
                reveal_strlit("TLO");
            },
            Exchange::CboeBXE => {
                reveal_strlit("CBO");
            },
            Exchange::BVPBratislavaStockExchange => {
                reveal_strlit("BVC");
            },
            Exchange::TAL => {
                reveal_strlit("TAL");
            },
            Exchange::BoursaKuwait => {
                reveal_strlit("KUW");
            },
            Exchange::EgyptianExchange => {
                reveal_strlit("CAI");
            },
            Exchange::ColomboStockExchange => {
                reveal_strlit("CSE");
            },
            Exchange::DubaiFinancialMarket => {
                reveal_strlit("DFM");
            },
            Exchange::PhilippineStockExchange => {
                reveal_strlit("PHS");
            },
            Exchange::KazakhstanStockExchange => {
                reveal_strlit("FKA");
            },
            Exchange::OTCBulletinBoard => {
                reveal_strlit("OBB");
            },
            Exchange::YHD => {
                reveal_strlit("YHD");
            },
            Exchange::SAP => {
                reveal_strlit("SAP");
            },
            Exchange::CaracasStockExchange => {
                reveal_strlit("CCS");
            },
            Exchange::OPI => {
                reveal_strlit("OPI");
            },
            Exchange::Euronext => {
                reveal_strlit("ENX");
            },
        }
    }

    /// Parsing the key of a value gives back that value.
    pub proof fn lemma_key_round_trip(a: Exchange, b: Exchange)
        requires
            a.spec_key() == b.spec_key(),
        ensures
            a == b,
    {
        Self::lemma_decode_key(a);
        Self::lemma_decode_key(b);
    }
}

impl Exchange {
    /// The full name of this exchange.
    pub open spec fn spec_full_name(self) -> Seq<char> {
        match self {
            Exchange::NewYorkStockExchange => "New York Stock Exchange"@,
            Exchange::NASDAQ => "NASDAQ"@,
            Exchange::StockholmStockExchange => "Stockholm Stock Exchange"@,
            Exchange::DowJonesIndices => "Dow Jones Indices"@,
            Exchange::NasdaqCapitalMarket => "Nasdaq Capital Market"@,
            Exchange::NasdaqGlobalMarket => "Nasdaq Global Market"@,
            Exchange::Currencies => "Currencies"@,
            Exchange::Cryptocurrencies => "Cryptocurrencies"@,
            Exchange::NYSEArca => "NYSE Arca"@,
            Exchange::NYSEAmerican => "NYSE American"@,
            Exchange::NewYorkMercantileExchange => "New York Mercantile Exchange"@,
            Exchange::COMEX => "COMEX"@,
            Exchange::ChicagoBoardofTrade => "Chicago Board of Trade"@,
            Exchange::ChicagoMercantileExchange => "Chicago Mercantile Exchange"@,
            Exchange::PinkOpenMarket => "Pink Open Market"@,
            Exchange::TorontoStockExchange => "Toronto Stock Exchange"@,
            Exchange::NYSEAmericanOptions => "NYSE American Options"@,
            Exchange::NewYorkBoardofTrade => "New York Board of Trade"@,
            Exchange::SNPIndices => "SNP Indices"@,
            Exchange::WestCoastBoardofTrade => "West Coast Board of Trade"@,
            Exchange::BTS => "BTS"@,
            Exchange::CurrencyExchangeInternational => "Currency Exchange International"@,
            Exchange::NASDAQStockMarket => "NASDAQ Stock Market"@,
            Exchange::NagoyaStockExchange => "Nagoya Stock Exchange"@,
            Exchange::LondonStockExchange => "London Stock Exchange"@,
            Exchange::Xetra => "Xetra"@,
            Exchange::BerlinStockExchange => "Berlin Stock Exchange"@,
            Exchange::DusseldorfStockExchange => "Dusseldorf Stock Exchange"@,
            Exchange::EuronextParis => "Euronext Paris"@,
            Exchange::NewYorkStockExchangeARCA => "New York Stock Exchange ARCA"@,
            Exchange::LondonIOB => "London IOB"@,
            Exchange::SIXSwissExchange => "SIX Swiss Exchange"@,
            Exchange::BuenosAiresStockExchange => "Buenos Aires Stock Exchange"@,
            Exchange::BombayStockExchange => "Bombay Stock Exchange"@,
            Exchange::AustralianSecuritiesExchange => "Australian Securities Exchange"@,
            Exchange::VancouverStockExchange => "Vancouver Stock Exchange"@,
            Exchange::AmsterdamStockExchange => "Amsterdam Stock Exchange"@,
            Exchange::JapanExchangeGroup => "Japan Exchange Group"@,
            Exchange::CanadianNationalStockExchange => "Canadian National Stock Exchange"@,
            Exchange::FrankfurtStockExchange => "Frankfurt Stock Exchange"@,
            Exchange::MunichStockExchange => "Munich Stock Exchange"@,
            Exchange::IstanbulStockExchange => "Istanbul Stock Exchange"@,
            Exchange::MexicanStockExchange => "Mexican Stock Exchange"@,
            Exchange::MilanStockExchange => "Milan Stock Exchange"@,
            Exchange::NewZealandStockExchange => "New Zealand Stock Exchange"@,
            Exchange::SaoPauloStockExchange => "Sao Paulo Stock Exchange"@,
            Exchange::KoreaStockExchange => "Korea Stock Exchange"@,
            Exchange::FukuokaStockExchange => "Fukuoka Stock Exchange"@,
            Exchange::HongKongStockExchange => "Hong Kong Stock Exchange"@,
            Exchange::StockExchangeofThailand => "Stock Exchange of Thailand"@,
            Exchange::SingaporeExchangeSecurities => "Singapore Exchange Securities"@,
            Exchange::ShanghaiStockExchange => "Shanghai Stock Exchange"@,
            Exchange::SwissElectronicBourse => "Swiss Electronic Bourse"@,
            Exchange::OsloStockExchange => "Oslo Stock Exchange"@,
            Exchange::TelAvivStockExchange => "Tel Aviv Stock Exchange"@,
            Exchange::KoreaExchange => "Korea Exchange"@,
            Exchange::CopenhagenStockExchange => "Copenhagen Stock Exchange"@,
            Exchange::StuttgartStockExchange => "Stuttgart Stock Exchange"@,
            Exchange::BursaMalaysia => "Bursa Malaysia"@,
            Exchange::HamburgStockExchange => "Hamburg Stock Exchange"@,
            Exchange::ViennaStockExchange => "Vienna Stock Exchange"@,
            Exchange::PragueStockExchange => "Prague Stock Exchange"@,
            Exchange::HanoiStockExchange => "Hanoi Stock Exchange"@,
            Exchange::JohannesburgStockExchange => "Johannesburg Stock Exchange"@,
            Exchange::CboeDXE => "Cboe DXE"@,
            Exchange::MoscowExchange => "Moscow Exchange"@,
            Exchange::CboeAustralia => "Cboe Australia"@,
            Exchange::ShenzhenStockExchange => "Shenzhen Stock Exchange"@,
            Exchange::VietnamStockExchange => "Vietnam Stock Exchange"@,
            Exchange::WarsawStockExchange => "Warsaw Stock Exchange"@,
            Exchange::IntercontinentalExchange => "Intercontinental Exchange"@,
            Exchange::RigaStockExchange => "Riga Stock Exchange"@,
            Exchange::ZagrebStockExchange => "Zagreb Stock Exchange"@,
            Exchange::JakartaStockExchange => "Jakarta Stock Exchange"@,
            Exchange::TaiwanOTCExchange => "Taiwan OTC Exchange"@,
            Exchange::OsakaStockExchange => "Osaka Stock Exchange"@,
            Exchange::AquisStockExchange => "Aquis Stock Exchange"@,
            Exchange::TaiwanStockExchange => "Taiwan Stock Exchange"@,
            Exchange::QatarStockExchange => "Qatar Stock Exchange"@,
            Exchange::HelsinkiStockExchange => "Helsinki Stock Exchange"@,
            Exchange::TallinnStockExchange => "Tallinn Stock Exchange"@,
            Exchange::MoldovaStockExchange => "Moldova Stock Exchange"@,
            Exchange::NEOExchange => "NEO Exchange"@,
            Exchange::EuronextBrussels => "Euronext Brussels"@,
            Exchange::VilniusStockExchange => "Vilnius Stock Exchange"@,
            Exchange::BudapestStockExchange => "Budapest Stock Exchange"@,
            Exchange::EuronextLisbon => "Euronext Lisbon"@,
            Exchange::SantiagoStockExchange => "Santiago Stock Exchange"@,
            Exchange::FSI => "FSI"@,
            Exchange::IrishStockExchange => "Irish Stock Exchange"@,
            Exchange::AthensStockExchange => "Athens Stock Exchange"@,
            Exchange::SaudiStockExchange => "Saudi Stock Exchange"@,
            Exchange::TrinidadandTobagoStockExchange => "Trinidad and Tobago Stock Exchange"@,
            Exchange::CboeBXE => "Cboe BXE"@,
            Exchange::BVPBratislavaStockExchange => "BVP Bratislava Stock Exchange"@,
            Exchange::TAL => "TAL"@,
            Exchange::BoursaKuwait => "Boursa Kuwait"@,
            Exchange::EgyptianExchange => "Egyptian Exchange"@,
            Exchange::ColomboStockExchange => "Colombo Stock Exchange"@,
            Exchange::DubaiFinancialMarket => "Dubai Financial Market"@,
            Exchange::PhilippineStockExchange => "Philippine Stock Exchange"@,
            Exchange::KazakhstanStockExchange => "Kazakhstan Stock Exchange"@,
            Exchange::OTCBulletinBoard => "OTC Bulletin Board"@,
            Exchange::YHD => "YHD"@,
            Exchange::SAP => "SAP"@,
            Exchange::CaracasStockExchange => "Caracas Stock Exchange"@,
            Exchange::OPI => "OPI"@,
            Exchange::Euronext => "Euronext"@,
        }
    }

    /// The full name of this exchange.
    pub fn full_name(&self) -> (s: &'static str)
        ensures
            s@ == self.spec_full_name(),
    {
        match self {
            Exchange::NewYorkStockExchange => "New York Stock Exchange",
            Exchange::NASDAQ => "NASDAQ",
            Exchange::StockholmStockExchange => "Stockholm Stock Exchange",
            Exchange::DowJonesIndices => "Dow Jones Indices",
            Exchange::NasdaqCapitalMarket => "Nasdaq Capital Market",
            Exchange::NasdaqGlobalMarket => "Nasdaq Global Market",
            Exchange::Currencies => "Currencies",
            Exchange::Cryptocurrencies => "Cryptocurrencies",
            Exchange::NYSEArca => "NYSE Arca",
            Exchange::NYSEAmerican => "NYSE American",
            Exchange::NewYorkMercantileExchange => "New York Mercantile Exchange",
            Exchange::COMEX => "COMEX",
            Exchange::ChicagoBoardofTrade => "Chicago Board of Trade",
            Exchange::ChicagoMercantileExchange => "Chicago Mercantile Exchange",
            Exchange::PinkOpenMarket => "Pink Open Market",
            Exchange::TorontoStockExchange => "Toronto Stock Exchange",
            Exchange::NYSEAmericanOptions => "NYSE American Options",
            Exchange::NewYorkBoardofTrade => "New York Board of Trade",
            Exchange::SNPIndices => "SNP Indices",
            Exchange::WestCoastBoardofTrade => "West Coast Board of Trade",
            Exchange::BTS => "BTS",
            Exchange::CurrencyExchangeInternational => "Currency Exchange International",
            Exchange::NASDAQStockMarket => "NASDAQ Stock Market",
            Exchange::NagoyaStockExchange => "Nagoya Stock Exchange",
            Exchange::LondonStockExchange => "London Stock Exchange",
            Exchange::Xetra => "Xetra",
            Exchange::BerlinStockExchange => "Berlin Stock Exchange",
            Exchange::DusseldorfStockExchange => "Dusseldorf Stock Exchange",
            Exchange::EuronextParis => "Euronext Paris",
            Exchange::NewYorkStockExchangeARCA => "New York Stock Exchange ARCA",
            Exchange::LondonIOB => "London IOB",
            Exchange::SIXSwissExchange => "SIX Swiss Exchange",
            Exchange::BuenosAiresStockExchange => "Buenos Aires Stock Exchange",
            Exchange::BombayStockExchange => "Bombay Stock Exchange",
            Exchange::AustralianSecuritiesExchange => "Australian Securities Exchange",
            Exchange::VancouverStockExchange => "Vancouver Stock Exchange",
            Exchange::AmsterdamStockExchange => "Amsterdam Stock Exchange",
            Exchange::JapanExchangeGroup => "Japan Exchange Group",
            Exchange::CanadianNationalStockExchange => "Canadian National Stock Exchange",
            Exchange::FrankfurtStockExchange => "Frankfurt Stock Exchange",
            Exchange::MunichStockExchange => "Munich Stock Exchange",
            Exchange::IstanbulStockExchange => "Istanbul Stock Exchange",
            Exchange::MexicanStockExchange => "Mexican Stock Exchange",
            Exchange::MilanStockExchange => "Milan Stock Exchange",
            Exchange::NewZealandStockExchange => "New Zealand Stock Exchange",
            Exchange::SaoPauloStockExchange => "Sao Paulo Stock Exchange",
            Exchange::KoreaStockExchange => "Korea Stock Exchange",
            Exchange::FukuokaStockExchange => "Fukuoka Stock Exchange",
            Exchange::HongKongStockExchange => "Hong Kong Stock Exchange",
            Exchange::StockExchangeofThailand => "Stock Exchange of Thailand",
            Exchange::SingaporeExchangeSecurities => "Singapore Exchange Securities",
            Exchange::ShanghaiStockExchange => "Shanghai Stock Exchange",
            Exchange::SwissElectronicBourse => "Swiss Electronic Bourse",
            Exchange::OsloStockExchange => "Oslo Stock Exchange",
            Exchange::TelAvivStockExchange => "Tel Aviv Stock Exchange",
            Exchange::KoreaExchange => "Korea Exchange",
            Exchange::CopenhagenStockExchange => "Copenhagen Stock Exchange",
            Exchange::StuttgartStockExchange => "Stuttgart Stock Exchange",
            Exchange::BursaMalaysia => "Bursa Malaysia",
            Exchange::HamburgStockExchange => "Hamburg Stock Exchange",
            Exchange::ViennaStockExchange => "Vienna Stock Exchange",
            Exchange::PragueStockExchange => "Prague Stock Exchange",
            Exchange::HanoiStockExchange => "Hanoi Stock Exchange",
            Exchange::JohannesburgStockExchange => "Johannesburg Stock Exchange",
            Exchange::CboeDXE => "Cboe DXE",
            Exchange::MoscowExchange => "Moscow Exchange",
            Exchange::CboeAustralia => "Cboe Australia",
            Exchange::ShenzhenStockExchange => "Shenzhen Stock Exchange",
            Exchange::VietnamStockExchange => "Vietnam Stock Exchange",
            Exchange::WarsawStockExchange => "Warsaw Stock Exchange",
            Exchange::IntercontinentalExchange => "Intercontinental Exchange",
            Exchange::RigaStockExchange => "Riga Stock Exchange",
            Exchange::ZagrebStockExchange => "Zagreb Stock Exchange",
            Exchange::JakartaStockExchange => "Jakarta Stock Exchange",
            Exchange::TaiwanOTCExchange => "Taiwan OTC Exchange",
            Exchange::OsakaStockExchange => "Osaka Stock Exchange",
            Exchange::AquisStockExchange => "Aquis Stock Exchange",
            Exchange::TaiwanStockExchange => "Taiwan Stock Exchange",
            Exchange::QatarStockExchange => "Qatar Stock Exchange",
            Exchange::HelsinkiStockExchange => "Helsinki Stock Exchange",
            Exchange::TallinnStockExchange => "Tallinn Stock Exchange",
            Exchange::MoldovaStockExchange => "Moldova Stock Exchange",
            Exchange::NEOExchange => "NEO Exchange",
            Exchange::EuronextBrussels => "Euronext Brussels",
            Exchange::VilniusStockExchange => "Vilnius Stock Exchange",
            Exchange::BudapestStockExchange => "Budapest Stock Exchange",
            Exchange::EuronextLisbon => "Euronext Lisbon",
            Exchange::SantiagoStockExchange => "Santiago Stock Exchange",
            Exchange::FSI => "FSI",
            Exchange::IrishStockExchange => "Irish Stock Exchange",
            Exchange::AthensStockExchange => "Athens Stock Exchange",
            Exchange::SaudiStockExchange => "Saudi Stock Exchange",
            Exchange::TrinidadandTobagoStockExchange => "Trinidad and Tobago Stock Exchange",
            Exchange::CboeBXE => "Cboe BXE",
            Exchange::BVPBratislavaStockExchange => "BVP Bratislava Stock Exchange",
            Exchange::TAL => "TAL",
            Exchange::BoursaKuwait => "Boursa Kuwait",
            Exchange::EgyptianExchange => "Egyptian Exchange",
            Exchange::ColomboStockExchange => "Colombo Stock Exchange",
            Exchange::DubaiFinancialMarket => "Dubai Financial Market",
            Exchange::PhilippineStockExchange => "Philippine Stock Exchange",
            Exchange::KazakhstanStockExchange => "Kazakhstan Stock Exchange",
            Exchange::OTCBulletinBoard => "OTC Bulletin Board",
            Exchange::YHD => "YHD",
            Exchange::SAP => "SAP",
            Exchange::CaracasStockExchange => "Caracas Stock Exchange",
            Exchange::OPI => "OPI",
            Exchange::Euronext => "Euronext",
        }
    }
}

/// Country or region of a market.
#[derive(Debug, Clone, Copy, PartialEq, Eq, Structural, Hash)]
pub enum Region {
    Argentina,
    Austria,
    Australia,
    Belgium,
    Brazil,
    Canada,
    Switzerland,
    Chile,
    China,
    Czechia,
    Germany,
    Denmark,
    Estonia,
    Egypt,
    Spain,
    Finland,
    France,
    UnitedKingdom,
    Greece,
    HongKongSarChina,
    Hungary,
    Indonesia,
    Ireland,
    Israel,
    India,
    Iceland,
    Italy,
    Japan,
    SouthKorea,
    Kuwait,
    SriLanka,
    Lithuania,
    Latvia,
    Mexico,
    Malaysia,
    Netherlands,
    Norway,
    NewZealand,
    Peru,
    Philippines,
    Pakistan,
    Poland,
    Portugal,
    Qatar,
    Russia,
    SaudiArabia,
    Sweden,
    Singapore,
    Suriname,
    Thailand,
    Turkey,
    Taiwan,
    UnitedStates,
    Venezuela,
    Vietnam,
    SouthAfrica,
}

impl Region {
    /// The two-letter code of this region.
    pub open spec fn spec_key(self) -> Seq<char> {
        match self {
            Region::Argentina => "ar"@,
            Region::Austria => "at"@,
            Region::Australia => "au"@,
            Region::Belgium => "be"@,
            Region::Brazil => "br"@,
            Region::Canada => "ca"@,
            Region::Switzerland => "ch"@,
            Region::Chile => "cl"@,
            Region::China => "cn"@,
            Region::Czechia => "cz"@,
            Region::Germany => "de"@,
            Region::Denmark => "dk"@,
            Region::Estonia => "ee"@,
            Region::Egypt => "eg"@,
            Region::Spain => "es"@,
            Region::Finland => "fi"@,
            Region::France => "fr"@,
            Region::UnitedKingdom => "gb"@,
            Region::Greece => "gr"@,
            Region::HongKongSarChina => "hk"@,
            Region::Hungary => "hu"@,
            Region::Indonesia => "id"@,
            Region::Ireland => "ie"@,
            Region::Israel => "il"@,
            Region::India => "in"@,
            Region::Iceland => "is"@,
            Region::Italy => "it"@,
            Region::Japan => "jp"@,
            Region::SouthKorea => "kr"@,
            Region::Kuwait => "kw"@,
            Region::SriLanka => "lk"@,
            Region::Lithuania => "lt"@,
            Region::Latvia => "lv"@,
            Region::Mexico => "mx"@,
            Region::Malaysia => "my"@,
            Region::Netherlands => "nl"@,
            Region::Norway => "no"@,
            Region::NewZealand => "nz"@,
            Region::Peru => "pe"@,
            Region::Philippines => "ph"@,
            Region::Pakistan => "pk"@,
            Region::Poland => "pl"@,
            Region::Portugal => "pt"@,
            Region::Qatar => "qa"@,
            Region::Russia => "ru"@,
            Region::SaudiArabia => "sa"@,
            Region::Sweden => "se"@,
            Region::Singapore => "sg"@,
            Region::Suriname => "sr"@,
            Region::Thailand => "th"@,
            Region::Turkey => "tr"@,
            Region::Taiwan => "tw"@,
            Region::UnitedStates => "us"@,
            Region::Venezuela => "ve"@,
            Region::Vietnam => "vn"@,
            Region::SouthAfrica => "za"@,
        }
    }

    /// Every value, in declaration order.
    pub open spec fn spec_all() -> Seq<Region> {
        seq![
            Region::Argentina, Region::Austria, Region::Australia, Region::Belgium, Region::Brazil,
            Region::Canada, Region::Switzerland, Region::Chile, Region::China, Region::Czechia,
            Region::Germany, Region::Denmark, Region::Estonia, Region::Egypt, Region::Spain,
            Region::Finland, Region::France, Region::UnitedKingdom, Region::Greece,
            Region::HongKongSarChina, Region::Hungary, Region::Indonesia, Region::Ireland,
            Region::Israel, Region::India, Region::Iceland, Region::Italy, Region::Japan,
            Region::SouthKorea, Region::Kuwait, Region::SriLanka, Region::Lithuania, Region::Latvia,
            Region::Mexico, Region::Malaysia, Region::Netherlands, Region::Norway,
            Region::NewZealand, Region::Peru, Region::Philippines, Region::Pakistan, Region::Poland,
            Region::Portugal, Region::Qatar, Region::Russia, Region::SaudiArabia, Region::Sweden,
            Region::Singapore, Region::Suriname, Region::Thailand, Region::Turkey, Region::Taiwan,
            Region::UnitedStates, Region::Venezuela, Region::Vietnam, Region::SouthAfrica,
        ]
    }

    /// The keys of every value, in declaration order.
    pub open spec fn spec_names() -> Seq<Seq<char>> {
        Self::spec_all().map_values(|v: Region| v.spec_key())
    }

    /// Reads a value back from its key by the characters that tell the keys apart.
    pub open spec fn spec_decode(s: Seq<char>) -> Option<Region> {
        if s[0] == 'a' {
            if s[1] == 'r' {
                Some(Region::Argentina)
            } else if s[1] == 't' {
                Some(Region::Austria)
            } else if s[1] == 'u' {
                Some(Region::Australia)
            } else {
                None
            }
        } else if s[0] == 'b' {
            if s[1] == 'e' {
                Some(Region::Belgium)
            } else if s[1] == 'r' {
                Some(Region::Brazil)
            } else {
                None
            }
        } else if s[0] == 'c' {
            if s[1] == 'a' {
                Some(Region::Canada)
            } else if s[1] == 'h' {
                Some(Region::Switzerland)
            } else if s[1] == 'l' {
                Some(Region::Chile)
            } else if s[1] == 'n' {
                Some(Region::China)
            } else if s[1] == 'z' {
                Some(Region::Czechia)
            } else {
                None
            }
        } else if s[0] == 'd' {
            if s[1] == 'e' {
                Some(Region::Germany)
            } else if s[1] == 'k' {
                Some(Region::Denmark)
            } else {
                None
            }
        } else if s[0] == 'e' {
            if s[1] == 'e' {
                Some(Region::Estonia)
            } else if s[1] == 'g' {
                Some(Region::Egypt)
            } else if s[1] == 's' {
                Some(Region::Spain)
            } else {
                None
            }
        } else if s[0] == 'f' {
            if s[1] == 'i' {
                Some(Region::Finland)
            } else if s[1] == 'r' {
                Some(Region::France)
            } else {
                None
            }
        } else if s[0] == 'g' {
            if s[1] == 'b' {
                Some(Region::UnitedKingdom)
            } else if s[1] == 'r' {
                Some(Region::Greece)
            } else {
                None
            }
        } else if s[0] == 'h' {
            if s[1] == 'k' {
                Some(Region::HongKongSarChina)
            } else if s[1] == 'u' {
                Some(Region::Hungary)
            } else {
                None
            }
        } else if s[0] == 'i' {
            if s[1] == 'd' {
                Some(Region::Indonesia)
            } else if s[1] == 'e' {
                Some(Region::Ireland)
            } else if s[1] == 'l' {
                Some(Region::Israel)
            } else if s[1] == 'n' {
                Some(Region::India)
            } else if s[1] == 's' {
                Some(Region::Iceland)
            } else if s[1] == 't' {
                Some(Region::Italy)
            } else {
                None
            }
        } else if s[0] == 'j' {
            Some(Region::Japan)
        } else if s[0] == 'k' {
            if s[1] == 'r' {
                Some(Region::SouthKorea)
            } else if s[1] == 'w' {
                Some(Region::Kuwait)
            } else {
                None
            }
        } else if s[0] == 'l' {
            if s[1] == 'k' {
                Some(Region::SriLanka)
            } else if s[1] == 't' {
                Some(Region::Lithuania)
            } else if s[1] == 'v' {
                Some(Region::Latvia)
            } else {
                None
            }
        } else if s[0] == 'm' {
            if s[1] == 'x' {
                Some(Region::Mexico)
            } else if s[1] == 'y' {
                Some(Region::Malaysia)
            } else {
                None
            }
        } else if s[0] == 'n' {
            if s[1] == 'l' {
                Some(Region::Netherlands)
            } else if s[1] == 'o' {
                Some(Region::Norway)
            } else if s[1] == 'z' {
                Some(Region::NewZealand)
            } else {
                None
            }
        } else if s[0] == 'p' {
            if s[1] == 'e' {
                Some(Region::Peru)
            } else if s[1] == 'h' {
                Some(Region::Philippines)
            } else if s[1] == 'k' {
                Some(Region::Pakistan)
            } else if s[1] == 'l' {
                Some(Region::Poland)
            } else if s[1] == 't' {
                Some(Region::Portugal)
            } else {
                None
            }
        } else if s[0] == 'q' {
            Some(Region::Qatar)
        } else if s[0] == 'r' {
            Some(Region::Russia)
        } else if s[0] == 's' {
            if s[1] == 'a' {
                Some(Region::SaudiArabia)
            } else if s[1] == 'e' {
                Some(Region::Sweden)
            } else if s[1] == 'g' {
                Some(Region::Singapore)
            } else if s[1] == 'r' {
                Some(Region::Suriname)
            } else {
                None
            }
        } else if s[0] == 't' {
            if s[1] == 'h' {
                Some(Region::Thailand)
            } else if s[1] == 'r' {
                Some(Region::Turkey)
            } else if s[1] == 'w' {
                Some(Region::Taiwan)
            } else {
                None
            }
        } else if s[0] == 'u' {
            Some(Region::UnitedStates)
        } else if s[0] == 'v' {
            if s[1] == 'e' {
                Some(Region::Venezuela)
            } else if s[1] == 'n' {
                Some(Region::Vietnam)
            } else {
                None
            }
        } else if s[0] == 'z' {
            Some(Region::SouthAfrica)
        } else {
            None
        }
    }

    /// The key of this value.
    pub fn as_str(&self) -> (s: &'static str)
        ensures
            s@ == self.spec_key(),
    {
        match self {
            Region::Argentina => "ar",
            Region::Austria => "at",
            Region::Australia => "au",
            Region::Belgium => "be",
            Region::Brazil => "br",
            Region::Canada => "ca",
            Region::Switzerland => "ch",
            Region::Chile => "cl",
            Region::China => "cn",
            Region::Czechia => "cz",
            Region::Germany => "de",
            Region::Denmark => "dk",
            Region::Estonia => "ee",
            Region::Egypt => "eg",
            Region::Spain => "es",
            Region::Finland => "fi",
            Region::France => "fr",
            Region::UnitedKingdom => "gb",
            Region::Greece => "gr",
            Region::HongKongSarChina => "hk",
            Region::Hungary => "hu",
            Region::Indonesia => "id",
            Region::Ireland => "ie",
            Region::Israel => "il",
            Region::India => "in",
            Region::Iceland => "is",
            Region::Italy => "it",
            Region::Japan => "jp",
            Region::SouthKorea => "kr",
            Region::Kuwait => "kw",
            Region::SriLanka => "lk",
            Region::Lithuania => "lt",
            Region::Latvia => "lv",
            Region::Mexico => "mx",
            Region::Malaysia => "my",
            Region::Netherlands => "nl",
            Region::Norway => "no",
            Region::NewZealand => "nz",
            Region::Peru => "pe",
            Region::Philippines => "ph",
            Region::Pakistan => "pk",
            Region::Poland => "pl",
            Region::Portugal => "pt",
            Region::Qatar => "qa",
            Region::Russia => "ru",
            Region::SaudiArabia => "sa",
            Region::Sweden => "se",
            Region::Singapore => "sg",
            Region::Suriname => "sr",
            Region::Thailand => "th",
            Region::Turkey => "tr",
            Region::Taiwan => "tw",
            Region::UnitedStates => "us",
            Region::Venezuela => "ve",
            Region::Vietnam => "vn",
            Region::SouthAfrica => "za",
        }
    }

    /// The key of this value as an owned string.
    pub fn to_string(&self) -> (s: String)
        ensures
            s@ == self.spec_key(),
    {
        owned(self.as_str())
    }

    /// Parses a key: the value whose key is `s`, and `None` when there is none.
    pub fn from_str(s: &str) -> (r: Option<Region>)
        ensures
            forall|v: Region| #[trigger] v.spec_key() == s@ <==> r == Some(v),
    {
        let r = Self::find(s);
        proof {
            assert forall|v: Region| #[trigger] v.spec_key() == s@ implies r == Some(v) by {
                Self::lemma_key_round_trip(v, r->0);
            }
        }
        r
    }

    /// Tries the keys in declaration order.
    #[verifier::rlimit(60)]
    fn find(s: &str) -> (r: Option<Region>)
        ensures
            r matches Some(v) ==> v.spec_key() == s@,
            r is None ==> forall|v: Region| #[trigger] v.spec_key() != s@,
    {
        if str_eq(s, "ar") {
            return Some(Region::Argentina);
        }
        if str_eq(s, "at") {
            return Some(Region::Austria);
        }
        if str_eq(s, "au") {
            return Some(Region::Australia);
        }
        if str_eq(s, "be") {
            return Some(Region::Belgium);
        }
        if str_eq(s, "br") {
            return Some(Region::Brazil);
        }
        if str_eq(s, "ca") {
            return Some(Region::Canada);
        }
        if str_eq(s, "ch") {
            return Some(Region::Switzerland);
        }
        if str_eq(s, "cl") {
            return Some(Region::Chile);
        }
        if str_eq(s, "cn") {
            return Some(Region::China);
        }
        if str_eq(s, "cz") {
            return Some(Region::Czechia);
        }
        if str_eq(s, "de") {
            return Some(Region::Germany);
        }
        if str_eq(s, "dk") {
            return Some(Region::Denmark);
        }
        if str_eq(s, "ee") {
            return Some(Region::Estonia);
        }
        if str_eq(s, "eg") {
            return Some(Region::Egypt);
        }
        if str_eq(s, "es") {
            return Some(Region::Spain);
        }
        if str_eq(s, "fi") {
            return Some(Region::Finland);
        }
        if str_eq(s, "fr") {
            return Some(Region::France);
        }
        if str_eq(s, "gb") {
            return Some(Region::UnitedKingdom);
        }
        if str_eq(s, "gr") {
            return Some(Region::Greece);
        }
        if str_eq(s, "hk") {
            return Some(Region::HongKongSarChina);
        }
        if str_eq(s, "hu") {
            return Some(Region::Hungary);
        }
        if str_eq(s, "id") {
            return Some(Region::Indonesia);
        }
        if str_eq(s, "ie") {
            return Some(Region::Ireland);
        }
        if str_eq(s, "il") {
            return Some(Region::Israel);
        }
        if str_eq(s, "in") {
            return Some(Region::India);
        }
        if str_eq(s, "is") {
            return Some(Region::Iceland);
        }
        if str_eq(s, "it") {
            return Some(Region::Italy);
        }
        if str_eq(s, "jp") {
            return Some(Region::Japan);
        }
        if str_eq(s, "kr") {
            return Some(Region::SouthKorea);
        }
        if str_eq(s, "kw") {
            return Some(Region::Kuwait);
        }
        if str_eq(s, "lk") {
            return Some(Region::SriLanka);
        }
        if str_eq(s, "lt") {
            return Some(Region::Lithuania);
        }
        if str_eq(s, "lv") {
            return Some(Region::Latvia);
        }
        if str_eq(s, "mx") {
            return Some(Region::Mexico);
        }
        if str_eq(s, "my") {
            return Some(Region::Malaysia);
        }
        if str_eq(s, "nl") {
            return Some(Region::Netherlands);
        }
        if str_eq(s, "no") {
            return Some(Region::Norway);
        }
        if str_eq(s, "nz") {
            return Some(Region::NewZealand);
        }
        if str_eq(s, "pe") {
            return Some(Region::Peru);
        }
        if str_eq(s, "ph") {
            return Some(Region::Philippines);
        }
        if str_eq(s, "pk") {
            return Some(Region::Pakistan);
        }
        if str_eq(s, "pl") {
            return Some(Region::Poland);
        }
        if str_eq(s, "pt") {
            return Some(Region::Portugal);
        }
        if str_eq(s, "qa") {
            return Some(Region::Qatar);
        }
        if str_eq(s, "ru") {
            return Some(Region::Russia);
        }
        if str_eq(s, "sa") {
            return Some(Region::SaudiArabia);
        }
        if str_eq(s, "se") {
            return Some(Region::Sweden);
        }
        if str_eq(s, "sg") {
            return Some(Region::Singapore);
        }
        if str_eq(s, "sr") {
            return Some(Region::Suriname);
        }
        if str_eq(s, "th") {
            return Some(Region::Thailand);
        }
        if str_eq(s, "tr") {
            return Some(Region::Turkey);
        }
        if str_eq(s, "tw") {
            return Some(Region::Taiwan);
        }
        if str_eq(s, "us") {
            return Some(Region::UnitedStates);
        }
        if str_eq(s, "ve") {
            return Some(Region::Venezuela);
        }
        if str_eq(s, "vn") {
            return Some(Region::Vietnam);
        }
        if str_eq(s, "za") {
            return Some(Region::SouthAfrica);
        }
        None
    }

    /// Every value, in declaration order.
    pub fn variants() -> (r: Vec<Region>)
        ensures
            r@ == Self::spec_all(),
    {
        let r = vec![
            Region::Argentina, Region::Austria, Region::Australia, Region::Belgium, Region::Brazil,
            Region::Canada, Region::Switzerland, Region::Chile, Region::China, Region::Czechia,
            Region::Germany, Region::Denmark, Region::Estonia, Region::Egypt, Region::Spain,
            Region::Finland, Region::France, Region::UnitedKingdom, Region::Greece,
            Region::HongKongSarChina, Region::Hungary, Region::Indonesia, Region::Ireland,
            Region::Israel, Region::India, Region::Iceland, Region::Italy, Region::Japan,
            Region::SouthKorea, Region::Kuwait, Region::SriLanka, Region::Lithuania, Region::Latvia,
            Region::Mexico, Region::Malaysia, Region::Netherlands, Region::Norway,
            Region::NewZealand, Region::Peru, Region::Philippines, Region::Pakistan, Region::Poland,
            Region::Portugal, Region::Qatar, Region::Russia, Region::SaudiArabia, Region::Sweden,
            Region::Singapore, Region::Suriname, Region::Thailand, Region::Turkey, Region::Taiwan,
            Region::UnitedStates, Region::Venezuela, Region::Vietnam, Region::SouthAfrica,
        ];
        assert(r@ =~= Self::spec_all());
        r
    }

    /// The keys of every value, in declaration order.
    pub fn variant_names() -> (r: Vec<&'static str>)
        ensures
            strs_view(r@) == Self::spec_names(),
    {
        let r = vec![
            "ar", "at", "au", "be", "br", "ca", "ch", "cl", "cn", "cz", "de", "dk", "ee", "eg",
            "es", "fi", "fr", "gb", "gr", "hk", "hu", "id", "ie", "il", "in", "is", "it", "jp",
            "kr", "kw", "lk", "lt", "lv", "mx", "my", "nl", "no", "nz", "pe", "ph", "pk", "pl",
            "pt", "qa", "ru", "sa", "se", "sg", "sr", "th", "tr", "tw", "us", "ve", "vn", "za",
        ];
        assert(strs_view(r@) =~= Self::spec_names());
        r
    }

    /// Distinct values have distinct keys: the key of a value decodes to that value.
    pub proof fn lemma_decode_key(v: Region)
        ensures
            Self::spec_decode(v.spec_key()) == Some(v),
    {
        match v {
            Region::Argentina => {
                reveal_strlit("ar");
            },
            Region::Austria => {
                reveal_strlit("at");
            },
            Region::Australia => {
                reveal_strlit("au");
            },
            Region::Belgium => {
                reveal_strlit("be");
            },
            Region::Brazil => {
                reveal_strlit("br");
            },
            Region::Canada => {
                reveal_strlit("ca");
            },
            Region::Switzerland => {
                reveal_strlit("ch");
            },
            Region::Chile => {
                reveal_strlit("cl");
            },
            Region::China => {
                reveal_strlit("cn");
            },
            Region::Czechia => {
                reveal_strlit("cz");
            },
            Region::Germany => {
                reveal_strlit("de");
            },
            Region::Denmark => {
                reveal_strlit("dk");
            },
            Region::Estonia => {
                reveal_strlit("ee");
            },
            Region::Egypt => {
                reveal_strlit("eg");
            },
            Region::Spain => {
                reveal_strlit("es");
            },
            Region::Finland => {
                reveal_strlit("fi");
            },
            Region::France => {
                reveal_strlit("fr");
            },
            Region::UnitedKingdom => {
                reveal_strlit("gb");
            },
            Region::Greece => {
                reveal_strlit("gr");
            },
            Region::HongKongSarChina => {
                reveal_strlit("hk");
            },
            Region::Hungary => {
                reveal_strlit("hu");
            },
            Region::Indonesia => {
                reveal_strlit("id");
            },
            Region::Ireland => {
                reveal_strlit("ie");
            },
            Region::Israel => {
                reveal_strlit("il");
            },
            Region::India => {
                reveal_strlit("in");
            },
            Region::Iceland => {
                reveal_strlit("is");
            },
            Region::Italy => {
                reveal_strlit("it");
            },
            Region::Japan => {
                reveal_strlit("jp");
            },
            Region::SouthKorea => {
                reveal_strlit("kr");
            },
            Region::Kuwait => {
                reveal_strlit("kw");
            },
            Region::SriLanka => {
                reveal_strlit("lk");
            },
            Region::Lithuania => {
                reveal_strlit("lt");
            },
            Region::Latvia => {
                reveal_strlit("lv");
            },
            Region::Mexico => {
                reveal_strlit("mx");
            },
            Region::Malaysia => {
                reveal_strlit("my");
            },
            Region::Netherlands => {
                reveal_strlit("nl");
            },
            Region::Norway => {
                reveal_strlit("no");
            },
            Region::NewZealand => {
                reveal_strlit("nz");
            },
            Region::Peru => {
                reveal_strlit("pe");
            },
            Region::Philippines => {
                reveal_strlit("ph");
            },
            Region::Pakistan => {
                reveal_strlit("pk");
            },
            Region::Poland => {
                reveal_strlit("pl");
            },
            Region::Portugal => {
                reveal_strlit("pt");
            },
            Region::Qatar => {
                reveal_strlit("qa");
            },
            Region::Russia => {
                reveal_strlit("ru");
            },
            Region::SaudiArabia => {
                reveal_strlit("sa");
            },
            Region::Sweden => {
                reveal_strlit("se");
            },
            Region::Singapore => {
                reveal_strlit("sg");
            },
            Region::Suriname => {
                reveal_strlit("sr");
            },
            Region::Thailand => {
                reveal_strlit("th");
            },
            Region::Turkey => {
                reveal_strlit("tr");
            },
            Region::Taiwan => {
                reveal_strlit("tw");
            },
            Region::UnitedStates => {
                reveal_strlit("us");
            },
            Region::Venezuela => {
                reveal_strlit("ve");
            },
            Region::Vietnam => {
                reveal_strlit("vn");
            },
            Region::SouthAfrica => {
                reveal_strlit("za");
            },
        }
    }

    /// Parsing the key of a value gives back that value.
    pub proof fn lemma_key_round_trip(a: Region, b: Region)
        requires
            a.spec_key() == b.spec_key(),
        ensures
            a == b,
    {
        Self::lemma_decode_key(a);
        Self::lemma_decode_key(b);
    }
}

impl Region {
    /// The full name of this region.
    pub open spec fn spec_full_name(self) -> Seq<char> {
        match self {
            Region::Argentina => "Argentina"@,
            Region::Austria => "Austria"@,
            Region::Australia => "Australia"@,
            Region::Belgium => "Belgium"@,
            Region::Brazil => "Brazil"@,
            Region::Canada => "Canada"@,
            Region::Switzerland => "Switzerland"@,
            Region::Chile => "Chile"@,
            Region::China => "China"@,
            Region::Czechia => "Czechia"@,
            Region::Germany => "Germany"@,
            Region::Denmark => "Denmark"@,
            Region::Estonia => "Estonia"@,
            Region::Egypt => "Egypt"@,
            Region::Spain => "Spain"@,
            Region::Finland => "Finland"@,
            Region::France => "France"@,
            Region::UnitedKingdom => "United Kingdom"@,
            Region::Greece => "Greece"@,
            Region::HongKongSarChina => "Hong Kong Sar China"@,
            Region::Hungary => "Hungary"@,
            Region::Indonesia => "Indonesia"@,
            Region::Ireland => "Ireland"@,
            Region::Israel => "Israel"@,
            Region::India => "India"@,
            Region::Iceland => "Iceland"@,
            Region::Italy => "Italy"@,
            Region::Japan => "Japan"@,
            Region::SouthKorea => "South Korea"@,
            Region::Kuwait => "Kuwait"@,
            Region::SriLanka => "Sri Lanka"@,
            Region::Lithuania => "Lithuania"@,
            Region::Latvia => "Latvia"@,
            Region::Mexico => "Mexico"@,
            Region::Malaysia => "Malaysia"@,
            Region::Netherlands => "Netherlands"@,
            Region::Norway => "Norway"@,
            Region::NewZealand => "New Zealand"@,
            Region::Peru => "Peru"@,
            Region::Philippines => "Philippines"@,
            Region::Pakistan => "Pakistan"@,
            Region::Poland => "Poland"@,
            Region::Portugal => "Portugal"@,
            Region::Qatar => "Qatar"@,
            Region::Russia => "Russia"@,
            Region::SaudiArabia => "Saudi Arabia"@,
            Region::Sweden => "Sweden"@,
            Region::Singapore => "Singapore"@,
            Region::Suriname => "Suriname"@,
            Region::Thailand => "Thailand"@,
            Region::Turkey => "Turkey"@,
            Region::Taiwan => "Taiwan"@,
            Region::UnitedStates => "United States"@,
            Region::Venezuela => "Venezuela"@,
            Region::Vietnam => "Vietnam"@,
            Region::SouthAfrica => "South Africa"@,
        }
    }

    /// The full name of this region.
    pub fn full_name(&self) -> (s: &'static str)
        ensures
            s@ == self.spec_full_name(),
    {
        match self {
            Region::Argentina => "Argentina",
            Region::Austria => "Austria",
            Region::Australia => "Australia",
            Region::Belgium => "Belgium",
            Region::Brazil => "Brazil",
            Region::Canada => "Canada",
            Region::Switzerland => "Switzerland",
            Region::Chile => "Chile",
            Region::China => "China",
            Region::Czechia => "Czechia",
            Region::Germany => "Germany",
            Region::Denmark => "Denmark",
            Region::Estonia => "Estonia",
            Region::Egypt => "Egypt",
            Region::Spain => "Spain",
            Region::Finland => "Finland",
            Region::France => "France",
            Region::UnitedKingdom => "United Kingdom",
            Region::Greece => "Greece",
            Region::HongKongSarChina => "Hong Kong Sar China",
            Region::Hungary => "Hungary",
            Region::Indonesia => "Indonesia",
            Region::Ireland => "Ireland",
            Region::Israel => "Israel",
            Region::India => "India",
            Region::Iceland => "Iceland",
            Region::Italy => "Italy",
            Region::Japan => "Japan",
            Region::SouthKorea => "South Korea",
            Region::Kuwait => "Kuwait",
            Region::SriLanka => "Sri Lanka",
            Region::Lithuania => "Lithuania",
            Region::Latvia => "Latvia",
            Region::Mexico => "Mexico",
            Region::Malaysia => "Malaysia",
            Region::Netherlands => "Netherlands",
            Region::Norway => "Norway",
            Region::NewZealand => "New Zealand",
            Region::Peru => "Peru",
            Region::Philippines => "Philippines",
            Region::Pakistan => "Pakistan",
            Region::Poland => "Poland",
            Region::Portugal => "Portugal",
            Region::Qatar => "Qatar",
            Region::Russia => "Russia",
            Region::SaudiArabia => "Saudi Arabia",
            Region::Sweden => "Sweden",
            Region::Singapore => "Singapore",
            Region::Suriname => "Suriname",
            Region::Thailand => "Thailand",
            Region::Turkey => "Turkey",
            Region::Taiwan => "Taiwan",
            Region::UnitedStates => "United States",
            Region::Venezuela => "Venezuela",
            Region::Vietnam => "Vietnam",
            Region::SouthAfrica => "South Africa",
        }
    }
}

/// Peer group of a security.
#[derive(Debug, Clone, Copy, PartialEq, Eq, Structural, Hash)]
pub enum PeerGroup {
    AerospaceDefense,
    AutoComponents,
    Automobiles,
    Banks,
    BuildingProducts,
    Chemicals,
    ChinaFundAggressiveAllocationFund,
    ChinaFundEquityFunds,
    ChinaFundQDIIGreaterChinaEquity,
    ChinaFundQDIISectorEquity,
    ChinaFundSectorEquityFinancialAndRealEstate,
    CommercialServices,
    ConstructionEngineering,
    ConstructionMaterials,
    ConsumerDurables,
    ConsumerServices,
    ContainersPackaging,
    DiversifiedFinancials,
    DiversifiedMetals,
    EAACEGlobalLargeCapBlendEquity,
    EAACEOther,
    EAACESectorEquityBiotechnology,
    EAACEUKLargeCapEquity,
    EAACEUKSmallCapEquity,
    EAAFundAsiaExJapanEquity,
    EAAFundChinaEquityAShares,
    EAAFundChinaEquity,
    EAAFundDenmarkEquity,
    EAAFundEmergingEuropeExRussiaEquity,
    EAAFundEURAggressiveAllocationGlobal,
    EAAFundEURCorporateBond,
    EAAFundEURModerateAllocationGlobal,
    EAAFundEuropeLargeCapBlendEquity,
    EAAFundEurozoneLargeCapEquity,
    EAAFundGermanyEquity,
    EAAFundGlobalEmergingMarketsEquity,
    EAAFundGlobalEquityIncome,
    EAAFundGlobalFlexCapEquity,
    EAAFundGlobalLargeCapBlendEquity,
    EAAFundGlobalLargeCapGrowthEquity,
    EAAFundHongKongEquity,
    EAAFundJapanLargeCapEquity,
    EAAFundOtherBond,
    EAAFundOtherEquity,
    EAAFundRMBBondOnshore,
    EAAFundSectorEquityConsumerGoodsServices,
    EAAFundSectorEquityFinancialServices,
    EAAFundSectorEquityIndustrialMaterials,
    EAAFundSectorEquityTechnology,
    EAAFundSouthAfricaNamibiaEquity,
    EAAFundSwitzerlandEquity,
    EAAFundUSLargeCapBlendEquity,
    EAAFundUSDCorporateBond,
    ElectricalEquipment,
    EnergyServices,
    FoodProducts,
    FoodRetailers,
    Healthcare,
    Homebuilders,
    HouseholdProducts,
    IndiaCEMultiCap,
    IndiaFundLargeCap,
    IndiaFundSectorFinancialServices,
    IndustrialConglomerates,
    Insurance,
    Machinery,
    Media,
    MexicoFundMexicoEquity,
    OilGasProducers,
    PaperForestry,
    Pharmaceuticals,
    PreciousMetals,
    RealEstate,
    RefinersPipelines,
    Retailing,
    Semiconductors,
    SoftwareServices,
    Steel,
    TechnologyHardware,
    TelecommunicationServices,
    TextilesApparel,
    TradersDistributors,
    TransportationInfrastructure,
    Transportation,
    USCEConvertibles,
    USCEOptionsBased,
    USCEPreferredStock,
    USFundChinaRegion,
    USFundConsumerCyclical,
    USFundDiversifiedEmergingMkts,
    USFundEquityEnergy,
    USFundEquityPreciousMetals,
    USFundFinancial,
    USFundForeignLargeBlend,
    USFundHealth,
    USFundLargeBlend,
    USFundLargeGrowth,
    USFundLargeValue,
    USFundMiscellaneousRegion,
    USFundNaturalResources,
    USFundTechnology,
    USFundTradingLeveragedEquity,
    Utilities,
}

impl PeerGroup {
    /// The name of this peer group.
    pub open spec fn spec_key(self) -> Seq<char> {
        match self {
            PeerGroup::AerospaceDefense => "Aerospace & Defense"@,
            PeerGroup::AutoComponents => "Auto Components"@,
            PeerGroup::Automobiles => "Automobiles"@,
            PeerGroup::Banks => "Banks"@,
            PeerGroup::BuildingProducts => "Building Products"@,
            PeerGroup::Chemicals => "Chemicals"@,
            PeerGroup::ChinaFundAggressiveAllocationFund => "China Fund Aggressive Allocation Fund"@,
            PeerGroup::ChinaFundEquityFunds => "China Fund Equity Funds"@,
            PeerGroup::ChinaFundQDIIGreaterChinaEquity => "China Fund QDII Greater China Equity"@,
            PeerGroup::ChinaFundQDIISectorEquity => "China Fund QDII Sector Equity"@,
            PeerGroup::ChinaFundSectorEquityFinancialAndRealEstate => "China Fund Sector Equity Financial and Real Estate"@,
            PeerGroup::CommercialServices => "Commercial Services"@,
            PeerGroup::ConstructionEngineering => "Construction & Engineering"@,
            PeerGroup::ConstructionMaterials => "Construction Materials"@,
            PeerGroup::ConsumerDurables => "Consumer Durables"@,
            PeerGroup::ConsumerServices => "Consumer Services"@,
            PeerGroup::ContainersPackaging => "Containers & Packaging"@,
            PeerGroup::DiversifiedFinancials => "Diversified Financials"@,
            PeerGroup::DiversifiedMetals => "Diversified Metals"@,
            PeerGroup::EAACEGlobalLargeCapBlendEquity => "EAA CE Global Large-Cap Blend Equity"@,
            PeerGroup::EAACEOther => "EAA CE Other"@,
            PeerGroup::EAACESectorEquityBiotechnology => "EAA CE Sector Equity Biotechnology"@,
            PeerGroup::EAACEUKLargeCapEquity => "EAA CE UK Large-Cap Equity"@,
            PeerGroup::EAACEUKSmallCapEquity => "EAA CE UK Small-Cap Equity"@,
            PeerGroup::EAAFundAsiaExJapanEquity => "EAA Fund Asia ex-Japan Equity"@,
            PeerGroup::EAAFundChinaEquityAShares => "EAA Fund China Equity - A Shares"@,
            PeerGroup::EAAFundChinaEquity => "EAA Fund China Equity"@,
            PeerGroup::EAAFundDenmarkEquity => "EAA Fund Denmark Equity"@,
            PeerGroup::EAAFundEmergingEuropeExRussiaEquity => "EAA Fund Emerging Europe ex-Russia Equity"@,
            PeerGroup::EAAFundEURAggressiveAllocationGlobal => "EAA Fund EUR Aggressive Allocation - Global"@,
            PeerGroup::EAAFundEURCorporateBond => "EAA Fund EUR Corporate Bond"@,
            PeerGroup::EAAFundEURModerateAllocationGlobal => "EAA Fund EUR Moderate Allocation - Global"@,
            PeerGroup::EAAFundEuropeLargeCapBlendEquity => "EAA Fund Europe Large-Cap Blend Equity"@,
            PeerGroup::EAAFundEurozoneLargeCapEquity => "EAA Fund Eurozone Large-Cap Equity"@,
            PeerGroup::EAAFundGermanyEquity => "EAA Fund Germany Equity"@,
            PeerGroup::EAAFundGlobalEmergingMarketsEquity => "EAA Fund Global Emerging Markets Equity"@,
            PeerGroup::EAAFundGlobalEquityIncome => "EAA Fund Global Equity Income"@,
            PeerGroup::EAAFundGlobalFlexCapEquity => "EAA Fund Global Flex-Cap Equity"@,
            PeerGroup::EAAFundGlobalLargeCapBlendEquity => "EAA Fund Global Large-Cap Blend Equity"@,
            PeerGroup::EAAFundGlobalLargeCapGrowthEquity => "EAA Fund Global Large-Cap Growth Equity"@,
            PeerGroup::EAAFundHongKongEquity => "EAA Fund Hong Kong Equity"@,
            PeerGroup::EAAFundJapanLargeCapEquity => "EAA Fund Japan Large-Cap Equity"@,
            PeerGroup::EAAFundOtherBond => "EAA Fund Other Bond"@,
            PeerGroup::EAAFundOtherEquity => "EAA Fund Other Equity"@,
            PeerGroup::EAAFundRMBBondOnshore => "EAA Fund RMB Bond - Onshore"@,
            PeerGroup::EAAFundSectorEquityConsumerGoodsServices => "EAA Fund Sector Equity Consumer Goods & Services"@,
            PeerGroup::EAAFundSectorEquityFinancialServices => "EAA Fund Sector Equity Financial Services"@,
            PeerGroup::EAAFundSectorEquityIndustrialMaterials => "EAA Fund Sector Equity Industrial Materials"@,
            PeerGroup::EAAFundSectorEquityTechnology => "EAA Fund Sector Equity Technology"@,
            PeerGroup::EAAFundSouthAfricaNamibiaEquity => "EAA Fund South Africa & Namibia Equity"@,
            PeerGroup::EAAFundSwitzerlandEquity => "EAA Fund Switzerland Equity"@,
            PeerGroup::EAAFundUSLargeCapBlendEquity => "EAA Fund US Large-Cap Blend Equity"@,
            PeerGroup::EAAFundUSDCorporateBond => "EAA Fund USD Corporate Bond"@,
            PeerGroup::ElectricalEquipment => "Electrical Equipment"@,
            PeerGroup::EnergyServices => "Energy Services"@,
            PeerGroup::FoodProducts => "Food Products"@,
            PeerGroup::FoodRetailers => "Food Retailers"@,
            PeerGroup::Healthcare => "Healthcare"@,
            PeerGroup::Homebuilders => "Homebuilders"@,
            PeerGroup::HouseholdProducts => "Household Products"@,
            PeerGroup::IndiaCEMultiCap => "India CE Multi-Cap"@,
            PeerGroup::IndiaFundLargeCap => "India Fund Large-Cap"@,
            PeerGroup::IndiaFundSectorFinancialServices => "India Fund Sector - Financial Services"@,
            PeerGroup::IndustrialConglomerates => "Industrial Conglomerates"@,
            PeerGroup::Insurance => "Insurance"@,
            PeerGroup::Machinery => "Machinery"@,
            PeerGroup::Media => "Media"@,
            PeerGroup::MexicoFundMexicoEquity => "Mexico Fund Mexico Equity"@,
            PeerGroup::OilGasProducers => "Oil & Gas Producers"@,
            PeerGroup::PaperForestry => "Paper & Forestry"@,
            PeerGroup::Pharmaceuticals => "Pharmaceuticals"@,
            PeerGroup::PreciousMetals => "Precious Metals"@,
            PeerGroup::RealEstate => "Real Estate"@,
            PeerGroup::RefinersPipelines => "Refiners & Pipelines"@,
            PeerGroup::Retailing => "Retailing"@,
            PeerGroup::Semiconductors => "Semiconductors"@,
            PeerGroup::SoftwareServices => "Software & Services"@,
            PeerGroup::Steel => "Steel"@,
            PeerGroup::TechnologyHardware => "Technology Hardware"@,
            PeerGroup::TelecommunicationServices => "Telecommunication Services"@,
            PeerGroup::TextilesApparel => "Textiles & Apparel"@,
            PeerGroup::TradersDistributors => "Traders & Distributors"@,
            PeerGroup::TransportationInfrastructure => "Transportation Infrastructure"@,
            PeerGroup::Transportation => "Transportation"@,
            PeerGroup::USCEConvertibles => "US CE Convertibles"@,
            PeerGroup::USCEOptionsBased => "US CE Options-based"@,
            PeerGroup::USCEPreferredStock => "US CE Preferred Stock"@,
            PeerGroup::USFundChinaRegion => "US Fund China Region"@,
            PeerGroup::USFundConsumerCyclical => "US Fund Consumer Cyclical"@,
            PeerGroup::USFundDiversifiedEmergingMkts => "US Fund Diversified Emerging Mkts"@,
            PeerGroup::USFundEquityEnergy => "US Fund Equity Energy"@,
            PeerGroup::USFundEquityPreciousMetals => "US Fund Equity Precious Metals"@,
            PeerGroup::USFundFinancial => "US Fund Financial"@,
            PeerGroup::USFundForeignLargeBlend => "US Fund Foreign Large Blend"@,
            PeerGroup::USFundHealth => "US Fund Health"@,
            PeerGroup::USFundLargeBlend => "US Fund Large Blend"@,
            PeerGroup::USFundLargeGrowth => "US Fund Large Growth"@,
            PeerGroup::USFundLargeValue => "US Fund Large Value"@,
            PeerGroup::USFundMiscellaneousRegion => "US Fund Miscellaneous Region"@,
            PeerGroup::USFundNaturalResources => "US Fund Natural Resources"@,
            PeerGroup::USFundTechnology => "US Fund Technology"@,
            PeerGroup::USFundTradingLeveragedEquity => "US Fund Trading--Leveraged Equity"@,
            PeerGroup::Utilities => "Utilities"@,
        }
    }

    /// Every value, in declaration order.
    pub open spec fn spec_all() -> Seq<PeerGroup> {
        seq![
            PeerGroup::AerospaceDefense, PeerGroup::AutoComponents, PeerGroup::Automobiles,
            PeerGroup::Banks, PeerGroup::BuildingProducts, PeerGroup::Chemicals,
            PeerGroup::ChinaFundAggressiveAllocationFund, PeerGroup::ChinaFundEquityFunds,
            PeerGroup::ChinaFundQDIIGreaterChinaEquity, PeerGroup::ChinaFundQDIISectorEquity,
            PeerGroup::ChinaFundSectorEquityFinancialAndRealEstate, PeerGroup::CommercialServices,
            PeerGroup::ConstructionEngineering, PeerGroup::ConstructionMaterials,
            PeerGroup::ConsumerDurables, PeerGroup::ConsumerServices,
            PeerGroup::ContainersPackaging, PeerGroup::DiversifiedFinancials,
            PeerGroup::DiversifiedMetals, PeerGroup::EAACEGlobalLargeCapBlendEquity,
            PeerGroup::EAACEOther, PeerGroup::EAACESectorEquityBiotechnology,
            PeerGroup::EAACEUKLargeCapEquity, PeerGroup::EAACEUKSmallCapEquity,
            PeerGroup::EAAFundAsiaExJapanEquity, PeerGroup::EAAFundChinaEquityAShares,
            PeerGroup::EAAFundChinaEquity, PeerGroup::EAAFundDenmarkEquity,
            PeerGroup::EAAFundEmergingEuropeExRussiaEquity,
            PeerGroup::EAAFundEURAggressiveAllocationGlobal, PeerGroup::EAAFundEURCorporateBond,
            PeerGroup::EAAFundEURModerateAllocationGlobal,
            PeerGroup::EAAFundEuropeLargeCapBlendEquity, PeerGroup::EAAFundEurozoneLargeCapEquity,
            PeerGroup::EAAFundGermanyEquity, PeerGroup::EAAFundGlobalEmergingMarketsEquity,
            PeerGroup::EAAFundGlobalEquityIncome, PeerGroup::EAAFundGlobalFlexCapEquity,
            PeerGroup::EAAFundGlobalLargeCapBlendEquity,
            PeerGroup::EAAFundGlobalLargeCapGrowthEquity, PeerGroup::EAAFundHongKongEquity,
            PeerGroup::EAAFundJapanLargeCapEquity, PeerGroup::EAAFundOtherBond,
            PeerGroup::EAAFundOtherEquity, PeerGroup::EAAFundRMBBondOnshore,
            PeerGroup::EAAFundSectorEquityConsumerGoodsServices,
            PeerGroup::EAAFundSectorEquityFinancialServices,
            PeerGroup::EAAFundSectorEquityIndustrialMaterials,
            PeerGroup::EAAFundSectorEquityTechnology, PeerGroup::EAAFundSouthAfricaNamibiaEquity,
            PeerGroup::EAAFundSwitzerlandEquity, PeerGroup::EAAFundUSLargeCapBlendEquity,
            PeerGroup::EAAFundUSDCorporateBond, PeerGroup::ElectricalEquipment,
            PeerGroup::EnergyServices, PeerGroup::FoodProducts, PeerGroup::FoodRetailers,
            PeerGroup::Healthcare, PeerGroup::Homebuilders, PeerGroup::HouseholdProducts,
            PeerGroup::IndiaCEMultiCap, PeerGroup::IndiaFundLargeCap,
            PeerGroup::IndiaFundSectorFinancialServices, PeerGroup::IndustrialConglomerates,
            PeerGroup::Insurance, PeerGroup::Machinery, PeerGroup::Media,
            PeerGroup::MexicoFundMexicoEquity, PeerGroup::OilGasProducers, PeerGroup::PaperForestry,
            PeerGroup::Pharmaceuticals, PeerGroup::PreciousMetals, PeerGroup::RealEstate,
            PeerGroup::RefinersPipelines, PeerGroup::Retailing, PeerGroup::Semiconductors,
            PeerGroup::SoftwareServices, PeerGroup::Steel, PeerGroup::TechnologyHardware,
            PeerGroup::TelecommunicationServices, PeerGroup::TextilesApparel,
            PeerGroup::TradersDistributors, PeerGroup::TransportationInfrastructure,
            PeerGroup::Transportation, PeerGroup::USCEConvertibles, PeerGroup::USCEOptionsBased,
            PeerGroup::USCEPreferredStock, PeerGroup::USFundChinaRegion,
            PeerGroup::USFundConsumerCyclical, PeerGroup::USFundDiversifiedEmergingMkts,
            PeerGroup::USFundEquityEnergy, PeerGroup::USFundEquityPreciousMetals,
            PeerGroup::USFundFinancial, PeerGroup::USFundForeignLargeBlend, PeerGroup::USFundHealth,
            PeerGroup::USFundLargeBlend, PeerGroup::USFundLargeGrowth, PeerGroup::USFundLargeValue,
            PeerGroup::USFundMiscellaneousRegion, PeerGroup::USFundNaturalResources,
            PeerGroup::USFundTechnology, PeerGroup::USFundTradingLeveragedEquity,
            PeerGroup::Utilities,
        ]
    }

    /// The keys of every value, in declaration order.
    pub open spec fn spec_names() -> Seq<Seq<char>> {
        Self::spec_all().map_values(|v: PeerGroup| v.spec_key())
    }

    /// Reads a value back from its key by the characters that tell the keys apart.
    pub open spec fn spec_decode(s: Seq<char>) -> Option<PeerGroup> {
        if s.len() == 5 {
            if s[0] == 'B' {
                Some(PeerGroup::Banks)
            } else if s[0] == 'M' {
                Some(PeerGroup::Media)
            } else if s[0] == 'S' {
                Some(PeerGroup::Steel)
            } else {
                None
            }
        } else if s.len() == 9 {
            if s[0] == 'C' {
                Some(PeerGroup::Chemicals)
            } else if s[0] == 'I' {
                Some(PeerGroup::Insurance)
            } else if s[0] == 'M' {
                Some(PeerGroup::Machinery)
            } else if s[0] == 'R' {
                Some(PeerGroup::Retailing)
            } else if s[0] == 'U' {
                Some(PeerGroup::Utilities)
            } else {
                None
            }
        } else if s.len() == 10 {
            Some(PeerGroup::Healthcare)
        } else if s.len() == 11 {
            if s[0] == 'A' {
                Some(PeerGroup::Automobiles)
            } else if s[0] == 'R' {
                Some(PeerGroup::RealEstate)
            } else {
                None
            }
        } else if s.len() == 12 {
            if s[0] == 'E' {
                Some(PeerGroup::EAACEOther)
            } else if s[0] == 'H' {
                Some(PeerGroup::Homebuilders)
            } else {
                None
            }
        } else if s.len() == 13 {
            Some(PeerGroup::FoodProducts)
        } else if s.len() == 14 {
            if s[0] == 'F' {
                Some(PeerGroup::FoodRetailers)
            } else if s[0] == 'S' {
                Some(PeerGroup::Semiconductors)
            } else if s[0] == 'T' {
                Some(PeerGroup::Transportation)
            } else if s[0] == 'U' {
                Some(PeerGroup::USFundHealth)
            } else {
                None
            }
        } else if s.len() == 15 {
            if s[1] == 'h' {
                Some(PeerGroup::Pharmaceuticals)
            } else if s[1] == 'n' {
                Some(PeerGroup::EnergyServices)
            } else if s[1] == 'r' {
                Some(PeerGroup::PreciousMetals)
            } else if s[1] == 'u' {
                Some(PeerGroup::AutoComponents)
            } else {
                None
            }
        } else if s.len() == 16 {
            Some(PeerGroup::PaperForestry)
        } else if s.len() == 17 {
            if s[9] == 'D' {
                Some(PeerGroup::ConsumerDurables)
            } else if s[9] == 'P' {
                Some(PeerGroup::BuildingProducts)
            } else if s[9] == 'S' {
                Some(PeerGroup::ConsumerServices)
            } else if s[9] == 'i' {
                Some(PeerGroup::USFundFinancial)
            } else {
                None
            }
        } else if s.len() == 18 {
            if s[3] == 'C' {
                Some(PeerGroup::USCEConvertibles)
            } else if s[3] == 'F' {
                Some(PeerGroup::USFundTechnology)
            } else if s[3] == 'e' {
                Some(PeerGroup::DiversifiedMetals)
            } else if s[3] == 'i' {
                Some(PeerGroup::IndiaCEMultiCap)
            } else if s[3] == 's' {
                Some(PeerGroup::HouseholdProducts)
            } else if s[3] == 't' {
                Some(PeerGroup::TextilesApparel)
            } else {
                None
            }
        } else if s.len() == 19 {
            if s[4] == '&' {
                Some(PeerGroup::OilGasProducers)
            } else if s[4] == 'E' {
                Some(PeerGroup::USCEOptionsBased)
            } else if s[4] == 'F' {
                Some(PeerGroup::EAAFundOtherBond)
            } else if s[4] == 'e' {
                Some(PeerGroup::CommercialServices)
            } else if s[4] == 'n' {
                Some(PeerGroup::TechnologyHardware)
            } else if s[4] == 's' {
                Some(PeerGroup::AerospaceDefense)
            } else if s[4] == 'u' {
                if s[14] == 'B' {
                    Some(PeerGroup::USFundLargeBlend)
                } else if s[14] == 'V' {
                    Some(PeerGroup::USFundLargeValue)
                } else {
                    None
                }
            } else if s[4] == 'w' {
                Some(PeerGroup::SoftwareServices)
            } else {
                None
            }
        } else if s.len() == 20 {
            if s[8] == ' ' {
                Some(PeerGroup::RefinersPipelines)
            } else if s[8] == 'C' {
                Some(PeerGroup::USFundChinaRegion)
            } else if s[8] == 'L' {
                Some(PeerGroup::USFundLargeGrowth)
            } else if s[8] == 'a' {
                Some(PeerGroup::ElectricalEquipment)
            } else if s[8] == 'n' {
                Some(PeerGroup::IndiaFundLargeCap)
            } else {
                None
            }
        } else if s.len() == 21 {
            if s[9] == 'C' {
                Some(PeerGroup::EAAFundChinaEquity)
            } else if s[9] == 'O' {
                Some(PeerGroup::EAAFundOtherEquity)
            } else if s[9] == 'f' {
                Some(PeerGroup::USCEPreferredStock)
            } else if s[9] == 'q' {
                Some(PeerGroup::USFundEquityEnergy)
            } else {
                None
            }
        } else if s.len() == 22 {
            if s[3] == 'd' {
                Some(PeerGroup::TradersDistributors)
            } else if s[3] == 'e' {
                Some(PeerGroup::DiversifiedFinancials)
            } else if s[3] == 's' {
                Some(PeerGroup::ConstructionMaterials)
            } else if s[3] == 't' {
                Some(PeerGroup::ContainersPackaging)
            } else {
                None
            }
        } else if s.len() == 23 {
            if s[9] == 'D' {
                Some(PeerGroup::EAAFundDenmarkEquity)
            } else if s[9] == 'G' {
                Some(PeerGroup::EAAFundGermanyEquity)
            } else if s[9] == 'd' {
                Some(PeerGroup::ChinaFundEquityFunds)
            } else {
                None
            }
        } else if s.len() == 24 {
            Some(PeerGroup::IndustrialConglomerates)
        } else if s.len() == 25 {
            if s[8] == ' ' {
                Some(PeerGroup::EAAFundHongKongEquity)
            } else if s[8] == 'C' {
                Some(PeerGroup::USFundConsumerCyclical)
            } else if s[8] == 'N' {
                Some(PeerGroup::USFundNaturalResources)
            } else if s[8] == 'u' {
                Some(PeerGroup::MexicoFundMexicoEquity)
            } else {
                None
            }
        } else if s.len() == 26 {
            if s[10] == 'L' {
                Some(PeerGroup::EAACEUKLargeCapEquity)
            } else if s[10] == 'S' {
                Some(PeerGroup::EAACEUKSmallCapEquity)
            } else if s[10] == 'i' {
                Some(PeerGroup::TelecommunicationServices)
            } else if s[10] == 'o' {
                Some(PeerGroup::ConstructionEngineering)
            } else {
                None
            }
        } else if s.len() == 27 {
            if s[9] == 'E' {
                Some(PeerGroup::EAAFundEURCorporateBond)
            } else if s[9] == 'R' {
                Some(PeerGroup::EAAFundRMBBondOnshore)
            } else if s[9] == 'S' {
                Some(PeerGroup::EAAFundSwitzerlandEquity)
            } else if s[9] == 'U' {
                Some(PeerGroup::EAAFundUSDCorporateBond)
            } else if s[9] == 'o' {
                Some(PeerGroup::USFundForeignLargeBlend)
            } else {
                None
            }
        } else if s.len() == 28 {
            Some(PeerGroup::USFundMiscellaneousRegion)
        } else if s.len() == 29 {
            if s[9] == 'A' {
                Some(PeerGroup::EAAFundAsiaExJapanEquity)
            } else if s[9] == 'G' {
                Some(PeerGroup::EAAFundGlobalEquityIncome)
            } else if s[9] == 'a' {
                Some(PeerGroup::TransportationInfrastructure)
            } else if s[9] == 'd' {
                Some(PeerGroup::ChinaFundQDIISectorEquity)
            } else {
                None
            }
        } else if s.len() == 30 {
            Some(PeerGroup::USFundEquityPreciousMetals)
        } else if s.len() == 31 {
            if s[9] == 'G' {
                Some(PeerGroup::EAAFundGlobalFlexCapEquity)
            } else if s[9] == 'J' {
                Some(PeerGroup::EAAFundJapanLargeCapEquity)
            } else {
                None
            }
        } else if s.len() == 32 {
            Some(PeerGroup::EAAFundChinaEquityAShares)
        } else if s.len() == 33 {
            if s[8] == ' ' {
                Some(PeerGroup::EAAFundSectorEquityTechnology)
            } else if s[8] == 'D' {
                Some(PeerGroup::USFundDiversifiedEmergingMkts)
            } else if s[8] == 'T' {
                Some(PeerGroup::USFundTradingLeveragedEquity)
            } else {
                None
            }
        } else if s.len() == 34 {
            if s[9] == 'E' {
                Some(PeerGroup::EAAFundEurozoneLargeCapEquity)
            } else if s[9] == 'U' {
                Some(PeerGroup::EAAFundUSLargeCapBlendEquity)
            } else if s[9] == 'c' {
                Some(PeerGroup::EAACESectorEquityBiotechnology)
            } else {
                None
            }
        } else if s.len() == 36 {
            if s[0] == 'C' {
                Some(PeerGroup::ChinaFundQDIIGreaterChinaEquity)
            } else if s[0] == 'E' {
                Some(PeerGroup::EAACEGlobalLargeCapBlendEquity)
            } else {
                None
            }
        } else if s.len() == 37 {
            Some(PeerGroup::ChinaFundAggressiveAllocationFund)
        } else if s.len() == 38 {
            if s[9] == 'E' {
                Some(PeerGroup::EAAFundEuropeLargeCapBlendEquity)
            } else if s[9] == 'G' {
                Some(PeerGroup::EAAFundGlobalLargeCapBlendEquity)
            } else if s[9] == 'S' {
                Some(PeerGroup::EAAFundSouthAfricaNamibiaEquity)
            } else if s[9] == 'd' {
                Some(PeerGroup::IndiaFundSectorFinancialServices)
            } else {
                None
            }
        } else if s.len() == 39 {
            if s[16] == 'E' {
                Some(PeerGroup::EAAFundGlobalEmergingMarketsEquity)
            } else if s[16] == 'L' {
                Some(PeerGroup::EAAFundGlobalLargeCapGrowthEquity)
            } else {
                None
            }
        } else if s.len() == 41 {
            if s[10] == 'U' {
                Some(PeerGroup::EAAFundEURModerateAllocationGlobal)
            } else if s[10] == 'e' {
                Some(PeerGroup::EAAFundSectorEquityFinancialServices)
            } else if s[10] == 'm' {
                Some(PeerGroup::EAAFundEmergingEuropeExRussiaEquity)
            } else {
                None
            }
        } else if s.len() == 43 {
            if s[9] == 'E' {
                Some(PeerGroup::EAAFundEURAggressiveAllocationGlobal)
            } else if s[9] == 'S' {
                Some(PeerGroup::EAAFundSectorEquityIndustrialMaterials)
            } else {
                None
            }
        } else if s.len() == 48 {
            Some(PeerGroup::EAAFundSectorEquityConsumerGoodsServices)
        } else if s.len() == 50 {
            Some(PeerGroup::ChinaFundSectorEquityFinancialAndRealEstate)
        } else {
            None
        }
    }

    /// The key of this value.
    pub fn as_str(&self) -> (s: &'static str)
        ensures
            s@ == self.spec_key(),
    {
        match self {
            PeerGroup::AerospaceDefense => "Aerospace & Defense",
            PeerGroup::AutoComponents => "Auto Components",
            PeerGroup::Automobiles => "Automobiles",
            PeerGroup::Banks => "Banks",
            PeerGroup::BuildingProducts => "Building Products",
            PeerGroup::Chemicals => "Chemicals",
            PeerGroup::ChinaFundAggressiveAllocationFund => "China Fund Aggressive Allocation Fund",
            PeerGroup::ChinaFundEquityFunds => "China Fund Equity Funds",
            PeerGroup::ChinaFundQDIIGreaterChinaEquity => "China Fund QDII Greater China Equity",
            PeerGroup::ChinaFundQDIISectorEquity => "China Fund QDII Sector Equity",
            PeerGroup::ChinaFundSectorEquityFinancialAndRealEstate => "China Fund Sector Equity Financial and Real Estate",
            PeerGroup::CommercialServices => "Commercial Services",
            PeerGroup::ConstructionEngineering => "Construction & Engineering",
            PeerGroup::ConstructionMaterials => "Construction Materials",
            PeerGroup::ConsumerDurables => "Consumer Durables",
            PeerGroup::ConsumerServices => "Consumer Services",
            PeerGroup::ContainersPackaging => "Containers & Packaging",
            PeerGroup::DiversifiedFinancials => "Diversified Financials",
            PeerGroup::DiversifiedMetals => "Diversified Metals",
            PeerGroup::EAACEGlobalLargeCapBlendEquity => "EAA CE Global Large-Cap Blend Equity",
            PeerGroup::EAACEOther => "EAA CE Other",
            PeerGroup::EAACESectorEquityBiotechnology => "EAA CE Sector Equity Biotechnology",
            PeerGroup::EAACEUKLargeCapEquity => "EAA CE UK Large-Cap Equity",
            PeerGroup::EAACEUKSmallCapEquity => "EAA CE UK Small-Cap Equity",
            PeerGroup::EAAFundAsiaExJapanEquity => "EAA Fund Asia ex-Japan Equity",
            PeerGroup::EAAFundChinaEquityAShares => "EAA Fund China Equity - A Shares",
            PeerGroup::EAAFundChinaEquity => "EAA Fund China Equity",
            PeerGroup::EAAFundDenmarkEquity => "EAA Fund Denmark Equity",
            PeerGroup::EAAFundEmergingEuropeExRussiaEquity => "EAA Fund Emerging Europe ex-Russia Equity",
            PeerGroup::EAAFundEURAggressiveAllocationGlobal => "EAA Fund EUR Aggressive Allocation - Global",
            PeerGroup::EAAFundEURCorporateBond => "EAA Fund EUR Corporate Bond",
            PeerGroup::EAAFundEURModerateAllocationGlobal => "EAA Fund EUR Moderate Allocation - Global",
            PeerGroup::EAAFundEuropeLargeCapBlendEquity => "EAA Fund Europe Large-Cap Blend Equity",
            PeerGroup::EAAFundEurozoneLargeCapEquity => "EAA Fund Eurozone Large-Cap Equity",
            PeerGroup::EAAFundGermanyEquity => "EAA Fund Germany Equity",
            PeerGroup::EAAFundGlobalEmergingMarketsEquity => "EAA Fund Global Emerging Markets Equity",
            PeerGroup::EAAFundGlobalEquityIncome => "EAA Fund Global Equity Income",
            PeerGroup::EAAFundGlobalFlexCapEquity => "EAA Fund Global Flex-Cap Equity",
            PeerGroup::EAAFundGlobalLargeCapBlendEquity => "EAA Fund Global Large-Cap Blend Equity",
            PeerGroup::EAAFundGlobalLargeCapGrowthEquity => "EAA Fund Global Large-Cap Growth Equity",
            PeerGroup::EAAFundHongKongEquity => "EAA Fund Hong Kong Equity",
            PeerGroup::EAAFundJapanLargeCapEquity => "EAA Fund Japan Large-Cap Equity",
            PeerGroup::EAAFundOtherBond => "EAA Fund Other Bond",
            PeerGroup::EAAFundOtherEquity => "EAA Fund Other Equity",
            PeerGroup::EAAFundRMBBondOnshore => "EAA Fund RMB Bond - Onshore",
            PeerGroup::EAAFundSectorEquityConsumerGoodsServices => "EAA Fund Sector Equity Consumer Goods & Services",
            PeerGroup::EAAFundSectorEquityFinancialServices => "EAA Fund Sector Equity Financial Services",
            PeerGroup::EAAFundSectorEquityIndustrialMaterials => "EAA Fund Sector Equity Industrial Materials",
            PeerGroup::EAAFundSectorEquityTechnology => "EAA Fund Sector Equity Technology",
            PeerGroup::EAAFundSouthAfricaNamibiaEquity => "EAA Fund South Africa & Namibia Equity",
            PeerGroup::EAAFundSwitzerlandEquity => "EAA Fund Switzerland Equity",
            PeerGroup::EAAFundUSLargeCapBlendEquity => "EAA Fund US Large-Cap Blend Equity",
            PeerGroup::EAAFundUSDCorporateBond => "EAA Fund USD Corporate Bond",
            PeerGroup::ElectricalEquipment => "Electrical Equipment",
            PeerGroup::EnergyServices => "Energy Services",
            PeerGroup::FoodProducts => "Food Products",
            PeerGroup::FoodRetailers => "Food Retailers",
            PeerGroup::Healthcare => "Healthcare",
            PeerGroup::Homebuilders => "Homebuilders",
            PeerGroup::HouseholdProducts => "Household Products",
            PeerGroup::IndiaCEMultiCap => "India CE Multi-Cap",
            PeerGroup::IndiaFundLargeCap => "India Fund Large-Cap",
            PeerGroup::IndiaFundSectorFinancialServices => "India Fund Sector - Financial Services",
            PeerGroup::IndustrialConglomerates => "Industrial Conglomerates",
            PeerGroup::Insurance => "Insurance",
            PeerGroup::Machinery => "Machinery",
            PeerGroup::Media => "Media",
            PeerGroup::MexicoFundMexicoEquity => "Mexico Fund Mexico Equity",
            PeerGroup::OilGasProducers => "Oil & Gas Producers",
            PeerGroup::PaperForestry => "Paper & Forestry",
            PeerGroup::Pharmaceuticals => "Pharmaceuticals",
            PeerGroup::PreciousMetals => "Precious Metals",
            PeerGroup::RealEstate => "Real Estate",
            PeerGroup::RefinersPipelines => "Refiners & Pipelines",
            PeerGroup::Retailing => "Retailing",
            PeerGroup::Semiconductors => "Semiconductors",
            PeerGroup::SoftwareServices => "Software & Services",
            PeerGroup::Steel => "Steel",
            PeerGroup::TechnologyHardware => "Technology Hardware",
            PeerGroup::TelecommunicationServices => "Telecommunication Services",
            PeerGroup::TextilesApparel => "Textiles & Apparel",
            PeerGroup::TradersDistributors => "Traders & Distributors",
            PeerGroup::TransportationInfrastructure => "Transportation Infrastructure",
            PeerGroup::Transportation => "Transportation",
            PeerGroup::USCEConvertibles => "US CE Convertibles",
            PeerGroup::USCEOptionsBased => "US CE Options-based",
            PeerGroup::USCEPreferredStock => "US CE Preferred Stock",
            PeerGroup::USFundChinaRegion => "US Fund China Region",
            PeerGroup::USFundConsumerCyclical => "US Fund Consumer Cyclical",
            PeerGroup::USFundDiversifiedEmergingMkts => "US Fund Diversified Emerging Mkts",
            PeerGroup::USFundEquityEnergy => "US Fund Equity Energy",
            PeerGroup::USFundEquityPreciousMetals => "US Fund Equity Precious Metals",
            PeerGroup::USFundFinancial => "US Fund Financial",
            PeerGroup::USFundForeignLargeBlend => "US Fund Foreign Large Blend",
            PeerGroup::USFundHealth => "US Fund Health",
            PeerGroup::USFundLargeBlend => "US Fund Large Blend",
            PeerGroup::USFundLargeGrowth => "US Fund Large Growth",
            PeerGroup::USFundLargeValue => "US Fund Large Value",
            PeerGroup::USFundMiscellaneousRegion => "US Fund Miscellaneous Region",
            PeerGroup::USFundNaturalResources => "US Fund Natural Resources",
            PeerGroup::USFundTechnology => "US Fund Technology",
            PeerGroup::USFundTradingLeveragedEquity => "US Fund Trading--Leveraged Equity",
            PeerGroup::Utilities => "Utilities",
        }
    }

    /// The key of this value as an owned string.
    pub fn to_string(&self) -> (s: String)
        ensures
            s@ == self.spec_key(),
    {
        owned(self.as_str())
    }

    /// Parses a key: the value whose key is `s`, and `None` when there is none.
    pub fn from_str(s: &str) -> (r: Option<PeerGroup>)
        ensures
            forall|v: PeerGroup| #[trigger] v.spec_key() == s@ <==> r == Some(v),
    {
        let r = Self::find(s);
        proof {
            assert forall|v: PeerGroup| #[trigger] v.spec_key() == s@ implies r == Some(v) by {
                Self::lemma_key_round_trip(v, r->0);
            }
        }
        r
    }

    /// Tries the keys in declaration order.
    #[verifier::rlimit(60)]
    fn find(s: &str) -> (r: Option<PeerGroup>)
        ensures
            r matches Some(v) ==> v.spec_key() == s@,
            r is None ==> forall|v: PeerGroup| #[trigger] v.spec_key() != s@,
    {
        if str_eq(s, "Aerospace & Defense") {
            return Some(PeerGroup::AerospaceDefense);
        }
        if str_eq(s, "Auto Components") {
            return Some(PeerGroup::AutoComponents);
        }
        if str_eq(s, "Automobiles") {
            return Some(PeerGroup::Automobiles);
        }
        if str_eq(s, "Banks") {
            return Some(PeerGroup::Banks);
        }
        if str_eq(s, "Building Products") {
            return Some(PeerGroup::BuildingProducts);
        }
        if str_eq(s, "Chemicals") {
            return Some(PeerGroup::Chemicals);
        }
        if str_eq(s, "China Fund Aggressive Allocation Fund") {
            return Some(PeerGroup::ChinaFundAggressiveAllocationFund);
        }
        if str_eq(s, "China Fund Equity Funds") {
            return Some(PeerGroup::ChinaFundEquityFunds);
        }
        if str_eq(s, "China Fund QDII Greater China Equity") {
            return Some(PeerGroup::ChinaFundQDIIGreaterChinaEquity);
        }
        if str_eq(s, "China Fund QDII Sector Equity") {
            return Some(PeerGroup::ChinaFundQDIISectorEquity);
        }
        if str_eq(s, "China Fund Sector Equity Financial and Real Estate") {
            return Some(PeerGroup::ChinaFundSectorEquityFinancialAndRealEstate);
        }
        if str_eq(s, "Commercial Services") {
            return Some(PeerGroup::CommercialServices);
        }
        if str_eq(s, "Construction & Engineering") {
            return Some(PeerGroup::ConstructionEngineering);
        }
        if str_eq(s, "Construction Materials") {
            return Some(PeerGroup::ConstructionMaterials);
        }
        if str_eq(s, "Consumer Durables") {
            return Some(PeerGroup::ConsumerDurables);
        }
        if str_eq(s, "Consumer Services") {
            return Some(PeerGroup::ConsumerServices);
        }
        if str_eq(s, "Containers & Packaging") {
            return Some(PeerGroup::ContainersPackaging);
        }
        if str_eq(s, "Diversified Financials") {
            return Some(PeerGroup::DiversifiedFinancials);
        }
        if str_eq(s, "Diversified Metals") {
            return Some(PeerGroup::DiversifiedMetals);
        }
        if str_eq(s, "EAA CE Global Large-Cap Blend Equity") {
            return Some(PeerGroup::EAACEGlobalLargeCapBlendEquity);
        }
        if str_eq(s, "EAA CE Other") {
            return Some(PeerGroup::EAACEOther);
        }
        if str_eq(s, "EAA CE Sector Equity Biotechnology") {
            return Some(PeerGroup::EAACESectorEquityBiotechnology);
        }
        if str_eq(s, "EAA CE UK Large-Cap Equity") {
            return Some(PeerGroup::EAACEUKLargeCapEquity);
        }
        if str_eq(s, "EAA CE UK Small-Cap Equity") {
            return Some(PeerGroup::EAACEUKSmallCapEquity);
        }
        if str_eq(s, "EAA Fund Asia ex-Japan Equity") {
            return Some(PeerGroup::EAAFundAsiaExJapanEquity);
        }
        if str_eq(s, "EAA Fund China Equity - A Shares") {
            return Some(PeerGroup::EAAFundChinaEquityAShares);
        }
        if str_eq(s, "EAA Fund China Equity") {
            return Some(PeerGroup::EAAFundChinaEquity);
        }
        if str_eq(s, "EAA Fund Denmark Equity") {
            return Some(PeerGroup::EAAFundDenmarkEquity);
        }
        if str_eq(s, "EAA Fund Emerging Europe ex-Russia Equity") {
            return Some(PeerGroup::EAAFundEmergingEuropeExRussiaEquity);
        }
        if str_eq(s, "EAA Fund EUR Aggressive Allocation - Global") {
            return Some(PeerGroup::EAAFundEURAggressiveAllocationGlobal);
        }
        if str_eq(s, "EAA Fund EUR Corporate Bond") {
            return Some(PeerGroup::EAAFundEURCorporateBond);
        }
        if str_eq(s, "EAA Fund EUR Moderate Allocation - Global") {
            return Some(PeerGroup::EAAFundEURModerateAllocationGlobal);
        }
        if str_eq(s, "EAA Fund Europe Large-Cap Blend Equity") {
            return Some(PeerGroup::EAAFundEuropeLargeCapBlendEquity);
        }
        if str_eq(s, "EAA Fund Eurozone Large-Cap Equity") {
            return Some(PeerGroup::EAAFundEurozoneLargeCapEquity);
        }
        if str_eq(s, "EAA Fund Germany Equity") {
            return Some(PeerGroup::EAAFundGermanyEquity);
        }
        if str_eq(s, "EAA Fund Global Emerging Markets Equity") {
            return Some(PeerGroup::EAAFundGlobalEmergingMarketsEquity);
        }
        if str_eq(s, "EAA Fund Global Equity Income") {
            return Some(PeerGroup::EAAFundGlobalEquityIncome);
        }
        if str_eq(s, "EAA Fund Global Flex-Cap Equity") {
            return Some(PeerGroup::EAAFundGlobalFlexCapEquity);
        }
        if str_eq(s, "EAA Fund Global Large-Cap Blend Equity") {
            return Some(PeerGroup::EAAFundGlobalLargeCapBlendEquity);
        }
        if str_eq(s, "EAA Fund Global Large-Cap Growth Equity") {
            return Some(PeerGroup::EAAFundGlobalLargeCapGrowthEquity);
        }
        if str_eq(s, "EAA Fund Hong Kong Equity") {
            return Some(PeerGroup::EAAFundHongKongEquity);
        }
        if str_eq(s, "EAA Fund Japan Large-Cap Equity") {
            return Some(PeerGroup::EAAFundJapanLargeCapEquity);
        }
        if str_eq(s, "EAA Fund Other Bond") {
            return Some(PeerGroup::EAAFundOtherBond);
        }
        if str_eq(s, "EAA Fund Other Equity") {
            return Some(PeerGroup::EAAFundOtherEquity);
        }
        if str_eq(s, "EAA Fund RMB Bond - Onshore") {
            return Some(PeerGroup::EAAFundRMBBondOnshore);
        }
        if str_eq(s, "EAA Fund Sector Equity Consumer Goods & Services") {
            return Some(PeerGroup::EAAFundSectorEquityConsumerGoodsServices);
        }
        if str_eq(s, "EAA Fund Sector Equity Financial Services") {
            return Some(PeerGroup::EAAFundSectorEquityFinancialServices);
        }
        if str_eq(s, "EAA Fund Sector Equity Industrial Materials") {
            return Some(PeerGroup::EAAFundSectorEquityIndustrialMaterials);
        }
        if str_eq(s, "EAA Fund Sector Equity Technology") {
            return Some(PeerGroup::EAAFundSectorEquityTechnology);
        }
        if str_eq(s, "EAA Fund South Africa & Namibia Equity") {
            return Some(PeerGroup::EAAFundSouthAfricaNamibiaEquity);
        }
        if str_eq(s, "EAA Fund Switzerland Equity") {
            return Some(PeerGroup::EAAFundSwitzerlandEquity);
        }
        if str_eq(s, "EAA Fund US Large-Cap Blend Equity") {
            return Some(PeerGroup::EAAFundUSLargeCapBlendEquity);
        }
        if str_eq(s, "EAA Fund USD Corporate Bond") {
            return Some(PeerGroup::EAAFundUSDCorporateBond);
        }
        if str_eq(s, "Electrical Equipment") {
            return Some(PeerGroup::ElectricalEquipment);
        }
        if str_eq(s, "Energy Services") {
            return Some(PeerGroup::EnergyServices);
        }
        if str_eq(s, "Food Products") {
            return Some(PeerGroup::FoodProducts);
        }
        if str_eq(s, "Food Retailers") {
            return Some(PeerGroup::FoodRetailers);
        }
        if str_eq(s, "Healthcare") {
            return Some(PeerGroup::Healthcare);
        }
        if str_eq(s, "Homebuilders") {
            return Some(PeerGroup::Homebuilders);
        }
        if str_eq(s, "Household Products") {
            return Some(PeerGroup::HouseholdProducts);
        }
        if str_eq(s, "India CE Multi-Cap") {
            return Some(PeerGroup::IndiaCEMultiCap);
        }
        if str_eq(s, "India Fund Large-Cap") {
            return Some(PeerGroup::IndiaFundLargeCap);
        }
        if str_eq(s, "India Fund Sector - Financial Services") {
            return Some(PeerGroup::IndiaFundSectorFinancialServices);
        }
        if str_eq(s, "Industrial Conglomerates") {
            return Some(PeerGroup::IndustrialConglomerates);
        }
        if str_eq(s, "Insurance") {
            return Some(PeerGroup::Insurance);
        }
        if str_eq(s, "Machinery") {
            return Some(PeerGroup::Machinery);
        }
        if str_eq(s, "Media") {
            return Some(PeerGroup::Media);
        }
        if str_eq(s, "Mexico Fund Mexico Equity") {
            return Some(PeerGroup::MexicoFundMexicoEquity);
        }
        if str_eq(s, "Oil & Gas Producers") {
            return Some(PeerGroup::OilGasProducers);
        }
        if str_eq(s, "Paper & Forestry") {
            return Some(PeerGroup::PaperForestry);
        }
        if str_eq(s, "Pharmaceuticals") {
            return Some(PeerGroup::Pharmaceuticals);
        }
        if str_eq(s, "Precious Metals") {
            return Some(PeerGroup::PreciousMetals);
        }
        if str_eq(s, "Real Estate") {
            return Some(PeerGroup::RealEstate);
        }
        if str_eq(s, "Refiners & Pipelines") {
            return Some(PeerGroup::RefinersPipelines);
        }
        if str_eq(s, "Retailing") {
            return Some(PeerGroup::Retailing);
        }
        if str_eq(s, "Semiconductors") {
            return Some(PeerGroup::Semiconductors);
        }
        if str_eq(s, "Software & Services") {
            return Some(PeerGroup::SoftwareServices);
        }
        if str_eq(s, "Steel") {
            return Some(PeerGroup::Steel);
        }
        if str_eq(s, "Technology Hardware") {
            return Some(PeerGroup::TechnologyHardware);
        }
        if str_eq(s, "Telecommunication Services") {
            return Some(PeerGroup::TelecommunicationServices);
        }
        if str_eq(s, "Textiles & Apparel") {
            return Some(PeerGroup::TextilesApparel);
        }
        if str_eq(s, "Traders & Distributors") {
            return Some(PeerGroup::TradersDistributors);
        }
        if str_eq(s, "Transportation Infrastructure") {
            return Some(PeerGroup::TransportationInfrastructure);
        }
        if str_eq(s, "Transportation") {
            return Some(PeerGroup::Transportation);
        }
        if str_eq(s, "US CE Convertibles") {
            return Some(PeerGroup::USCEConvertibles);
        }
        if str_eq(s, "US CE Options-based") {
            return Some(PeerGroup::USCEOptionsBased);
        }
        if str_eq(s, "US CE Preferred Stock") {
            return Some(PeerGroup::USCEPreferredStock);
        }
        if str_eq(s, "US Fund China Region") {
            return Some(PeerGroup::USFundChinaRegion);
        }
        if str_eq(s, "US Fund Consumer Cyclical") {
            return Some(PeerGroup::USFundConsumerCyclical);
        }
        if str_eq(s, "US Fund Diversified Emerging Mkts") {
            return Some(PeerGroup::USFundDiversifiedEmergingMkts);
        }
        if str_eq(s, "US Fund Equity Energy") {
            return Some(PeerGroup::USFundEquityEnergy);
        }
        if str_eq(s, "US Fund Equity Precious Metals") {
            return Some(PeerGroup::USFundEquityPreciousMetals);
        }
        if str_eq(s, "US Fund Financial") {
            return Some(PeerGroup::USFundFinancial);
        }
        if str_eq(s, "US Fund Foreign Large Blend") {
            return Some(PeerGroup::USFundForeignLargeBlend);
        }
        if str_eq(s, "US Fund Health") {
            return Some(PeerGroup::USFundHealth);
        }
        if str_eq(s, "US Fund Large Blend") {
            return Some(PeerGroup::USFundLargeBlend);
        }
        if str_eq(s, "US Fund Large Growth") {
            return Some(PeerGroup::USFundLargeGrowth);
        }
        if str_eq(s, "US Fund Large Value") {
            return Some(PeerGroup::USFundLargeValue);
        }
        if str_eq(s, "US Fund Miscellaneous Region") {
            return Some(PeerGroup::USFundMiscellaneousRegion);
        }
        if str_eq(s, "US Fund Natural Resources") {
            return Some(PeerGroup::USFundNaturalResources);
        }
        if str_eq(s, "US Fund Technology") {
            return Some(PeerGroup::USFundTechnology);
        }
        if str_eq(s, "US Fund Trading--Leveraged Equity") {
            return Some(PeerGroup::USFundTradingLeveragedEquity);
        }
        if str_eq(s, "Utilities") {
            return Some(PeerGroup::Utilities);
        }
        None
    }

    /// Every value, in declaration order.
    pub fn variants() -> (r: Vec<PeerGroup>)
        ensures
            r@ == Self::spec_all(),
    {
        let r = vec![
            PeerGroup::AerospaceDefense, PeerGroup::AutoComponents, PeerGroup::Automobiles,
            PeerGroup::Banks, PeerGroup::BuildingProducts, PeerGroup::Chemicals,
            PeerGroup::ChinaFundAggressiveAllocationFund, PeerGroup::ChinaFundEquityFunds,
            PeerGroup::ChinaFundQDIIGreaterChinaEquity, PeerGroup::ChinaFundQDIISectorEquity,
            PeerGroup::ChinaFundSectorEquityFinancialAndRealEstate, PeerGroup::CommercialServices,
            PeerGroup::ConstructionEngineering, PeerGroup::ConstructionMaterials,
            PeerGroup::ConsumerDurables, PeerGroup::ConsumerServices,
            PeerGroup::ContainersPackaging, PeerGroup::DiversifiedFinancials,
            PeerGroup::DiversifiedMetals, PeerGroup::EAACEGlobalLargeCapBlendEquity,
            PeerGroup::EAACEOther, PeerGroup::EAACESectorEquityBiotechnology,
            PeerGroup::EAACEUKLargeCapEquity, PeerGroup::EAACEUKSmallCapEquity,
            PeerGroup::EAAFundAsiaExJapanEquity, PeerGroup::EAAFundChinaEquityAShares,
            PeerGroup::EAAFundChinaEquity, PeerGroup::EAAFundDenmarkEquity,
            PeerGroup::EAAFundEmergingEuropeExRussiaEquity,
            PeerGroup::EAAFundEURAggressiveAllocationGlobal, PeerGroup::EAAFundEURCorporateBond,
            PeerGroup::EAAFundEURModerateAllocationGlobal,
            PeerGroup::EAAFundEuropeLargeCapBlendEquity, PeerGroup::EAAFundEurozoneLargeCapEquity,
            PeerGroup::EAAFundGermanyEquity, PeerGroup::EAAFundGlobalEmergingMarketsEquity,
            PeerGroup::EAAFundGlobalEquityIncome, PeerGroup::EAAFundGlobalFlexCapEquity,
            PeerGroup::EAAFundGlobalLargeCapBlendEquity,
            PeerGroup::EAAFundGlobalLargeCapGrowthEquity, PeerGroup::EAAFundHongKongEquity,
            PeerGroup::EAAFundJapanLargeCapEquity, PeerGroup::EAAFundOtherBond,
            PeerGroup::EAAFundOtherEquity, PeerGroup::EAAFundRMBBondOnshore,
            PeerGroup::EAAFundSectorEquityConsumerGoodsServices,
            PeerGroup::EAAFundSectorEquityFinancialServices,
            PeerGroup::EAAFundSectorEquityIndustrialMaterials,
            PeerGroup::EAAFundSectorEquityTechnology, PeerGroup::EAAFundSouthAfricaNamibiaEquity,
            PeerGroup::EAAFundSwitzerlandEquity, PeerGroup::EAAFundUSLargeCapBlendEquity,
            PeerGroup::EAAFundUSDCorporateBond, PeerGroup::ElectricalEquipment,
            PeerGroup::EnergyServices, PeerGroup::FoodProducts, PeerGroup::FoodRetailers,
            PeerGroup::Healthcare, PeerGroup::Homebuilders, PeerGroup::HouseholdProducts,
            PeerGroup::IndiaCEMultiCap, PeerGroup::IndiaFundLargeCap,
            PeerGroup::IndiaFundSectorFinancialServices, PeerGroup::IndustrialConglomerates,
            PeerGroup::Insurance, PeerGroup::Machinery, PeerGroup::Media,
            PeerGroup::MexicoFundMexicoEquity, PeerGroup::OilGasProducers, PeerGroup::PaperForestry,
            PeerGroup::Pharmaceuticals, PeerGroup::PreciousMetals, PeerGroup::RealEstate,
            PeerGroup::RefinersPipelines, PeerGroup::Retailing, PeerGroup::Semiconductors,
            PeerGroup::SoftwareServices, PeerGroup::Steel, PeerGroup::TechnologyHardware,
            PeerGroup::TelecommunicationServices, PeerGroup::TextilesApparel,
            PeerGroup::TradersDistributors, PeerGroup::TransportationInfrastructure,
            PeerGroup::Transportation, PeerGroup::USCEConvertibles, PeerGroup::USCEOptionsBased,
            PeerGroup::USCEPreferredStock, PeerGroup::USFundChinaRegion,
            PeerGroup::USFundConsumerCyclical, PeerGroup::USFundDiversifiedEmergingMkts,
            PeerGroup::USFundEquityEnergy, PeerGroup::USFundEquityPreciousMetals,
            PeerGroup::USFundFinancial, PeerGroup::USFundForeignLargeBlend, PeerGroup::USFundHealth,
            PeerGroup::USFundLargeBlend, PeerGroup::USFundLargeGrowth, PeerGroup::USFundLargeValue,
            PeerGroup::USFundMiscellaneousRegion, PeerGroup::USFundNaturalResources,
            PeerGroup::USFundTechnology, PeerGroup::USFundTradingLeveragedEquity,
            PeerGroup::Utilities,
        ];
        assert(r@ =~= Self::spec_all());
        r
    }

    /// The keys of every value, in declaration order.
    pub fn variant_names() -> (r: Vec<&'static str>)
        ensures
            strs_view(r@) == Self::spec_names(),
    {
        let r = vec![
            "Aerospace & Defense", "Auto Components", "Automobiles", "Banks", "Building Products",
            "Chemicals", "China Fund Aggressive Allocation Fund", "China Fund Equity Funds",
            "China Fund QDII Greater China Equity", "China Fund QDII Sector Equity",
            "China Fund Sector Equity Financial and Real Estate", "Commercial Services",
            "Construction & Engineering", "Construction Materials", "Consumer Durables",
            "Consumer Services", "Containers & Packaging", "Diversified Financials",
            "Diversified Metals", "EAA CE Global Large-Cap Blend Equity", "EAA CE Other",
            "EAA CE Sector Equity Biotechnology", "EAA CE UK Large-Cap Equity",
            "EAA CE UK Small-Cap Equity", "EAA Fund Asia ex-Japan Equity",
            "EAA Fund China Equity - A Shares", "EAA Fund China Equity", "EAA Fund Denmark Equity",
            "EAA Fund Emerging Europe ex-Russia Equity",
            "EAA Fund EUR Aggressive Allocation - Global", "EAA Fund EUR Corporate Bond",
            "EAA Fund EUR Moderate Allocation - Global", "EAA Fund Europe Large-Cap Blend Equity",
            "EAA Fund Eurozone Large-Cap Equity", "EAA Fund Germany Equity",
            "EAA Fund Global Emerging Markets Equity", "EAA Fund Global Equity Income",
            "EAA Fund Global Flex-Cap Equity", "EAA Fund Global Large-Cap Blend Equity",
            "EAA Fund Global Large-Cap Growth Equity", "EAA Fund Hong Kong Equity",
            "EAA Fund Japan Large-Cap Equity", "EAA Fund Other Bond", "EAA Fund Other Equity",
            "EAA Fund RMB Bond - Onshore", "EAA Fund Sector Equity Consumer Goods & Services",
            "EAA Fund Sector Equity Financial Services",
            "EAA Fund Sector Equity Industrial Materials", "EAA Fund Sector Equity Technology",
            "EAA Fund South Africa & Namibia Equity", "EAA Fund Switzerland Equity",
            "EAA Fund US Large-Cap Blend Equity", "EAA Fund USD Corporate Bond",
            "Electrical Equipment", "Energy Services", "Food Products", "Food Retailers",
            "Healthcare", "Homebuilders", "Household Products", "India CE Multi-Cap",
            "India Fund Large-Cap", "India Fund Sector - Financial Services",
            "Industrial Conglomerates", "Insurance", "Machinery", "Media",
            "Mexico Fund Mexico Equity", "Oil & Gas Producers", "Paper & Forestry",
            "Pharmaceuticals", "Precious Metals", "Real Estate", "Refiners & Pipelines",
            "Retailing", "Semiconductors", "Software & Services", "Steel", "Technology Hardware",
            "Telecommunication Services", "Textiles & Apparel", "Traders & Distributors",
            "Transportation Infrastructure", "Transportation", "US CE Convertibles",
            "US CE Options-based", "US CE Preferred Stock", "US Fund China Region",
            "US Fund Consumer Cyclical", "US Fund Diversified Emerging Mkts",
            "US Fund Equity Energy", "US Fund Equity Precious Metals", "US Fund Financial",
            "US Fund Foreign Large Blend", "US Fund Health", "US Fund Large Blend",
            "US Fund Large Growth", "US Fund Large Value", "US Fund Miscellaneous Region",
            "US Fund Natural Resources", "US Fund Technology", "US Fund Trading--Leveraged Equity",
            "Utilities",
        ];
        assert(strs_view(r@) =~= Self::spec_names());
        r
    }

    /// Distinct values have distinct keys: the key of a value decodes to that value.
    pub proof fn lemma_decode_key(v: PeerGroup)
        ensures
            Self::spec_decode(v.spec_key()) == Some(v),
    {
        match v {
            PeerGroup::AerospaceDefense => {
                reveal_strlit("Aerospace & Defense");
            },
            PeerGroup::AutoComponents => {
                reveal_strlit("Auto Components");
            },
            PeerGroup::Automobiles => {
                reveal_strlit("Automobiles");
            },
            PeerGroup::Banks => {
                reveal_strlit("Banks");
            },
            PeerGroup::BuildingProducts => {
                reveal_strlit("Building Products");
            },
            PeerGroup::Chemicals => {
                reveal_strlit("Chemicals");
            },
            PeerGroup::ChinaFundAggressiveAllocationFund => {
                reveal_strlit("China Fund Aggressive Allocation Fund");
            },
            PeerGroup::ChinaFundEquityFunds => {
                reveal_strlit("China Fund Equity Funds");
            },
            PeerGroup::ChinaFundQDIIGreaterChinaEquity => {
                reveal_strlit("China Fund QDII Greater China Equity");
            },
            PeerGroup::ChinaFundQDIISectorEquity => {
                reveal_strlit("China Fund QDII Sector Equity");
            },
            PeerGroup::ChinaFundSectorEquityFinancialAndRealEstate => {
                reveal_strlit("China Fund Sector Equity Financial and Real Estate");
            },
            PeerGroup::CommercialServices => {
                reveal_strlit("Commercial Services");
            },
            PeerGroup::ConstructionEngineering => {
                reveal_strlit("Construction & Engineering");
            },
            PeerGroup::ConstructionMaterials => {
                reveal_strlit("Construction Materials");
            },
            PeerGroup::ConsumerDurables => {
                reveal_strlit("Consumer Durables");
            },
            PeerGroup::ConsumerServices => {
                reveal_strlit("Consumer Services");
            },
            PeerGroup::ContainersPackaging => {
                reveal_strlit("Containers & Packaging");
            },
            PeerGroup::DiversifiedFinancials => {
                reveal_strlit("Diversified Financials");
            },
            PeerGroup::DiversifiedMetals => {
                reveal_strlit("Diversified Metals");
            },
            PeerGroup::EAACEGlobalLargeCapBlendEquity => {
                reveal_strlit("EAA CE Global Large-Cap Blend Equity");
            },
            PeerGroup::EAACEOther => {
                reveal_strlit("EAA CE Other");
            },
            PeerGroup::EAACESectorEquityBiotechnology => {
                reveal_strlit("EAA CE Sector Equity Biotechnology");
            },
            PeerGroup::EAACEUKLargeCapEquity => {
                reveal_strlit("EAA CE UK Large-Cap Equity");
            },
            PeerGroup::EAACEUKSmallCapEquity => {
                reveal_strlit("EAA CE UK Small-Cap Equity");
            },
            PeerGroup::EAAFundAsiaExJapanEquity => {
                reveal_strlit("EAA Fund Asia ex-Japan Equity");
            },
            PeerGroup::EAAFundChinaEquityAShares => {
                reveal_strlit("EAA Fund China Equity - A Shares");
            },
            PeerGroup::EAAFundChinaEquity => {
                reveal_strlit("EAA Fund China Equity");
            },
            PeerGroup::EAAFundDenmarkEquity => {
                reveal_strlit("EAA Fund Denmark Equity");
            },
            PeerGroup::EAAFundEmergingEuropeExRussiaEquity => {
                reveal_strlit("EAA Fund Emerging Europe ex-Russia Equity");
            },
            PeerGroup::EAAFundEURAggressiveAllocationGlobal => {
                reveal_strlit("EAA Fund EUR Aggressive Allocation - Global");
            },
            PeerGroup::EAAFundEURCorporateBond => {
                reveal_strlit("EAA Fund EUR Corporate Bond");
            },
            PeerGroup::EAAFundEURModerateAllocationGlobal => {
                reveal_strlit("EAA Fund EUR Moderate Allocation - Global");
            },
            PeerGroup::EAAFundEuropeLargeCapBlendEquity => {
                reveal_strlit("EAA Fund Europe Large-Cap Blend Equity");
            },
            PeerGroup::EAAFundEurozoneLargeCapEquity => {
                reveal_strlit("EAA Fund Eurozone Large-Cap Equity");
            },
            PeerGroup::EAAFundGermanyEquity => {
                reveal_strlit("EAA Fund Germany Equity");
            },
            PeerGroup::EAAFundGlobalEmergingMarketsEquity => {
                reveal_strlit("EAA Fund Global Emerging Markets Equity");
            },
            PeerGroup::EAAFundGlobalEquityIncome => {
                reveal_strlit("EAA Fund Global Equity Income");
            },
            PeerGroup::EAAFundGlobalFlexCapEquity => {
                reveal_strlit("EAA Fund Global Flex-Cap Equity");
            },
            PeerGroup::EAAFundGlobalLargeCapBlendEquity => {
                reveal_strlit("EAA Fund Global Large-Cap Blend Equity");
            },
            PeerGroup::EAAFundGlobalLargeCapGrowthEquity => {
                reveal_strlit("EAA Fund Global Large-Cap Growth Equity");
            },
            PeerGroup::EAAFundHongKongEquity => {
                reveal_strlit("EAA Fund Hong Kong Equity");
            },
            PeerGroup::EAAFundJapanLargeCapEquity => {
                reveal_strlit("EAA Fund Japan Large-Cap Equity");
            },
            PeerGroup::EAAFundOtherBond => {
                reveal_strlit("EAA Fund Other Bond");
            },
            PeerGroup::EAAFundOtherEquity => {
                reveal_strlit("EAA Fund Other Equity");
            },
            PeerGroup::EAAFundRMBBondOnshore => {
                reveal_strlit("EAA Fund RMB Bond - Onshore");
            },
            PeerGroup::EAAFundSectorEquityConsumerGoodsServices => {
                reveal_strlit("EAA Fund Sector Equity Consumer Goods & Services");
            },
            PeerGroup::EAAFundSectorEquityFinancialServices => {
                reveal_strlit("EAA Fund Sector Equity Financial Services");
            },
            PeerGroup::EAAFundSectorEquityIndustrialMaterials => {
                reveal_strlit("EAA Fund Sector Equity Industrial Materials");
            },
            PeerGroup::EAAFundSectorEquityTechnology => {
                reveal_strlit("EAA Fund Sector Equity Technology");
            },
            PeerGroup::EAAFundSouthAfricaNamibiaEquity => {
                reveal_strlit("EAA Fund South Africa & Namibia Equity");
            },
            PeerGroup::EAAFundSwitzerlandEquity => {
                reveal_strlit("EAA Fund Switzerland Equity");
            },
            PeerGroup::EAAFundUSLargeCapBlendEquity => {
                reveal_strlit("EAA Fund US Large-Cap Blend Equity");
            },
            PeerGroup::EAAFundUSDCorporateBond => {
                reveal_strlit("EAA Fund USD Corporate Bond");
            },
            PeerGroup::ElectricalEquipment => {
                reveal_strlit("Electrical Equipment");
            },
            PeerGroup::EnergyServices => {
                reveal_strlit("Energy Services");
            },
            PeerGroup::FoodProducts => {
                reveal_strlit("Food Products");
            },
            PeerGroup::FoodRetailers => {
                reveal_strlit("Food Retailers");
            },
            PeerGroup::Healthcare => {
                reveal_strlit("Healthcare");
            },
            PeerGroup::Homebuilders => {
                reveal_strlit("Homebuilders");
            },
            PeerGroup::HouseholdProducts => {
                reveal_strlit("Household Products");
            },
            PeerGroup::IndiaCEMultiCap => {
                reveal_strlit("India CE Multi-Cap");
            },
            PeerGroup::IndiaFundLargeCap => {
                reveal_strlit("India Fund Large-Cap");
            },
            PeerGroup::IndiaFundSectorFinancialServices => {
                reveal_strlit("India Fund Sector - Financial Services");
            },
            PeerGroup::IndustrialConglomerates => {
                reveal_strlit("Industrial Conglomerates");
            },
            PeerGroup::Insurance => {
                reveal_strlit("Insurance");
            },
            PeerGroup::Machinery => {
                reveal_strlit("Machinery");
            },
            PeerGroup::Media => {
                reveal_strlit("Media");
            },
            PeerGroup::MexicoFundMexicoEquity => {
                reveal_strlit("Mexico Fund Mexico Equity");
            },
            PeerGroup::OilGasProducers => {
                reveal_strlit("Oil & Gas Producers");
            },
            PeerGroup::PaperForestry => {
                reveal_strlit("Paper & Forestry");
            },
            PeerGroup::Pharmaceuticals => {
                reveal_strlit("Pharmaceuticals");
            },
            PeerGroup::PreciousMetals => {
                reveal_strlit("Precious Metals");
            },
            PeerGroup::RealEstate => {
                reveal_strlit("Real Estate");
            },
            PeerGroup::RefinersPipelines => {
                reveal_strlit("Refiners & Pipelines");
            },
            PeerGroup::Retailing => {
                reveal_strlit("Retailing");
            },
            PeerGroup::Semiconductors => {
                reveal_strlit("Semiconductors");
            },
            PeerGroup::SoftwareServices => {
                reveal_strlit("Software & Services");
            },
            PeerGroup::Steel => {
                reveal_strlit("Steel");
            },
            PeerGroup::TechnologyHardware => {
                reveal_strlit("Technology Hardware");
            },
            PeerGroup::TelecommunicationServices => {
                reveal_strlit("Telecommunication Services");
            },
            PeerGroup::TextilesApparel => {
                reveal_strlit("Textiles & Apparel");
            },
            PeerGroup::TradersDistributors => {
                reveal_strlit("Traders & Distributors");
            },
            PeerGroup::TransportationInfrastructure => {
                reveal_strlit("Transportation Infrastructure");
            },
            PeerGroup::Transportation => {
                reveal_strlit("Transportation");
            },
            PeerGroup::USCEConvertibles => {
                reveal_strlit("US CE Convertibles");
            },
            PeerGroup::USCEOptionsBased => {
                reveal_strlit("US CE Options-based");
            },
            PeerGroup::USCEPreferredStock => {
                reveal_strlit("US CE Preferred Stock");
            },
            PeerGroup::USFundChinaRegion => {
                reveal_strlit("US Fund China Region");
            },
            PeerGroup::USFundConsumerCyclical => {
                reveal_strlit("US Fund Consumer Cyclical");
            },
            PeerGroup::USFundDiversifiedEmergingMkts => {
                reveal_strlit("US Fund Diversified Emerging Mkts");
            },
            PeerGroup::USFundEquityEnergy => {
                reveal_strlit("US Fund Equity Energy");
            },
            PeerGroup::USFundEquityPreciousMetals => {
                reveal_strlit("US Fund Equity Precious Metals");
            },
            PeerGroup::USFundFinancial => {
                reveal_strlit("US Fund Financial");
            },
            PeerGroup::USFundForeignLargeBlend => {
                reveal_strlit("US Fund Foreign Large Blend");
            },
            PeerGroup::USFundHealth => {
                reveal_strlit("US Fund Health");
            },
            PeerGroup::USFundLargeBlend => {
                reveal_strlit("US Fund Large Blend");
            },
            PeerGroup::USFundLargeGrowth => {
                reveal_strlit("US Fund Large Growth");
            },
            PeerGroup::USFundLargeValue => {
                reveal_strlit("US Fund Large Value");
            },
            PeerGroup::USFundMiscellaneousRegion => {
                reveal_strlit("US Fund Miscellaneous Region");
            },
            PeerGroup::USFundNaturalResources => {
                reveal_strlit("US Fund Natural Resources");
            },
            PeerGroup::USFundTechnology => {
                reveal_strlit("US Fund Technology");
            },
            PeerGroup::USFundTradingLeveragedEquity => {
                reveal_strlit("US Fund Trading--Leveraged Equity");
            },
            PeerGroup::Utilities => {
                reveal_strlit("Utilities");
            },
        }
    }

    /// Parsing the key of a value gives back that value.
    pub proof fn lemma_key_round_trip(a: PeerGroup, b: PeerGroup)
        requires
            a.spec_key() == b.spec_key(),
        ensures
            a == b,
    {
        Self::lemma_decode_key(a);
        Self::lemma_decode_key(b);
    }
}

/// Company that manages a fund.
#[derive(Debug, Clone, Copy, PartialEq, Eq, Structural, Hash)]
pub enum FundFamily {
    ALPS,
    AMGFunds,
    AQRFunds,
    Aberdeen,
    Alger,
    AllianceBernstein,
    AllianzFunds,
    AmericanBeacon,
    AmericanCenturyInvestments,
    AmericanFunds,
    Aquila,
    Artisan,
    BMOFunds,
    BNYMellonFunds,
    Baird,
    BarclaysFunds,
    BaringsFunds,
    BaronCapitalGroup,
    BlackRock,
    BrownAdvisoryFunds,
    Calamos,
    CalvertInvestments,
    CatalystMutualFunds,
    CohenSteers,
    Columbia,
    CommerzFundsSolutionsSA,
    CommerzbankAGFrankfurtAmMain,
    DavisFunds,
    DelawareInvestments,
    DeutscheAssetManagement,
    DeutscheBankAG,
    DiamondHillFunds,
    DimensionalFundAdvisors,
    DirexionFunds,
    DoubleLine,
    Dreyfus,
    DunhamFunds,
    EagleFunds,
    EatonVance,
    Federated,
    FidelityInvestments,
    FirstInvestors,
    FirstTrust,
    FlexsharesTrust,
    FranklinTempletonInvestments,
    GMO,
    Gabelli,
    GlobalXFunds,
    GoldmanSachs,
    GreatWestFunds,
    GuggenheimInvestments,
    GuideStoneFunds,
    HSBC,
    HancockHorizon,
    Harbor,
    HartfordMutualFunds,
    HendersonGlobal,
    Hennessy,
    HighlandFunds,
    ICONFunds,
    Invesco,
    IvyFunds,
    JPMorgan,
    Janus,
    JohnHancock,
    Lazard,
    LeggMason,
    LordAbbett,
    MFS,
    MadisonFunds,
    MainStay,
    ManningNapier,
    MarketVectors,
    MassMutual,
    MatthewsAsiaFunds,
    MorganStanley,
    Nationwide,
    NatixisFunds,
    NeubergerBerman,
    NorthernFunds,
    Nuveen,
    OppenheimerFunds,
    PNCFunds,
    PacificFundsSeriesTrust,
    PaxWorld,
    Paydenfunds,
    Pimco,
    PioneerInvestments,
    PowerShares,
    PrincipalFunds,
    ProFunds,
    ProShares,
    PrudentialInvestments,
    Putnam,
    RBCGlobalAssetManagement,
    RidgeWorth,
    Royce,
    Russell,
    RydexFunds,
    SEI,
    SPDRStateStreetGlobalAdvisors,
    SalientFunds,
    Saratoga,
    SchwabFunds,
    Sentinel,
    SheltonCapitalManagement,
    StateFarm,
    StateStreetGlobalAdvisorsChicago,
    SterlingCapitalFunds,
    SunAmerica,
    TRowePrice,
    TCW,
    TIAACREFAsssetManagement,
    TetonWestwoodFunds,
    Thornburg,
    Thrivent,
    TimothyPlan,
    Touchstone,
    Transamerica,
    UBS,
    UBSGroupAG,
    USAA,
    VALIC,
    Vanguard,
    VantagepointFunds,
    Victory,
    Virtus,
    Voya,
    WaddellReed,
    Wasatch,
    WellsFargoFunds,
    WilliamBlair,
    WisdomTree,
}

impl FundFamily {
    /// The name of this fund family.
    pub open spec fn spec_key(self) -> Seq<char> {
        match self {
            FundFamily::ALPS => "ALPS"@,
            FundFamily::AMGFunds => "AMG Funds"@,
            FundFamily::AQRFunds => "AQR Funds"@,
            FundFamily::Aberdeen => "Aberdeen"@,
            FundFamily::Alger => "Alger"@,
            FundFamily::AllianceBernstein => "AllianceBernstein"@,
            FundFamily::AllianzFunds => "Allianz Funds"@,
            FundFamily::AmericanBeacon => "American Beacon"@,
            FundFamily::AmericanCenturyInvestments => "American Century Investments"@,
            FundFamily::AmericanFunds => "American Funds"@,
            FundFamily::Aquila => "Aquila"@,
            FundFamily::Artisan => "Artisan"@,
            FundFamily::BMOFunds => "BMO Funds"@,
            FundFamily::BNYMellonFunds => "BNY Mellon Funds"@,
            FundFamily::Baird => "Baird"@,
            FundFamily::BarclaysFunds => "Barclays Funds"@,
            FundFamily::BaringsFunds => "Barings Funds"@,
            FundFamily::BaronCapitalGroup => "Baron Capital Group"@,
            FundFamily::BlackRock => "BlackRock"@,
            FundFamily::BrownAdvisoryFunds => "Brown Advisory Funds"@,
            FundFamily::Calamos => "Calamos"@,
            FundFamily::CalvertInvestments => "Calvert Investments"@,
            FundFamily::CatalystMutualFunds => "Catalyst Mutual Funds"@,
            FundFamily::CohenSteers => "Cohen & Steers"@,
            FundFamily::Columbia => "Columbia"@,
            FundFamily::CommerzFundsSolutionsSA => "Commerz Funds Solutions SA"@,
            FundFamily::CommerzbankAGFrankfurtAmMain => "Commerzbank AG, Frankfurt am Main"@,
            FundFamily::DavisFunds => "Davis Funds"@,
            FundFamily::DelawareInvestments => "Delaware Investments"@,
            FundFamily::DeutscheAssetManagement => "Deutsche Asset Management"@,
            FundFamily::DeutscheBankAG => "Deutsche Bank AG"@,
            FundFamily::DiamondHillFunds => "Diamond Hill Funds"@,
            FundFamily::DimensionalFundAdvisors => "Dimensional Fund Advisors"@,
            FundFamily::DirexionFunds => "Direxion Funds"@,
            FundFamily::DoubleLine => "DoubleLine"@,
            FundFamily::Dreyfus => "Dreyfus"@,
            FundFamily::DunhamFunds => "Dunham Funds"@,
            FundFamily::EagleFunds => "Eagle Funds"@,
            FundFamily::EatonVance => "Eaton Vance"@,
            FundFamily::Federated => "Federated"@,
            FundFamily::FidelityInvestments => "Fidelity Investments"@,
            FundFamily::FirstInvestors => "First Investors"@,
            FundFamily::FirstTrust => "First Trust"@,
            FundFamily::FlexsharesTrust => "Flexshares Trust"@,
            FundFamily::FranklinTempletonInvestments => "Franklin Templeton Investments"@,
            FundFamily::GMO => "GMO"@,
            FundFamily::Gabelli => "Gabelli"@,
            FundFamily::GlobalXFunds => "Global X Funds"@,
            FundFamily::GoldmanSachs => "Goldman Sachs"@,
            FundFamily::GreatWestFunds => "Great-West Funds"@,
            FundFamily::GuggenheimInvestments => "Guggenheim Investments"@,
            FundFamily::GuideStoneFunds => "GuideStone Funds"@,
            FundFamily::HSBC => "HSBC"@,
            FundFamily::HancockHorizon => "Hancock Horizon"@,
            FundFamily::Harbor => "Harbor"@,
            FundFamily::HartfordMutualFunds => "Hartford Mutual Funds"@,
            FundFamily::HendersonGlobal => "Henderson Global"@,
            FundFamily::Hennessy => "Hennessy"@,
            FundFamily::HighlandFunds => "Highland Funds"@,
            FundFamily::ICONFunds => "ICON Funds"@,
            FundFamily::Invesco => "Invesco"@,
            FundFamily::IvyFunds => "Ivy Funds"@,
            FundFamily::JPMorgan => "JPMorgan"@,
            FundFamily::Janus => "Janus"@,
            FundFamily::JohnHancock => "John Hancock"@,
            FundFamily::Lazard => "Lazard"@,
            FundFamily::LeggMason => "Legg Mason"@,
            FundFamily::LordAbbett => "Lord Abbett"@,
            FundFamily::MFS => "MFS"@,
            FundFamily::MadisonFunds => "Madison Funds"@,
            FundFamily::MainStay => "MainStay"@,
            FundFamily::ManningNapier => "Manning & Napier"@,
            FundFamily::MarketVectors => "Market Vectors"@,
            FundFamily::MassMutual => "MassMutual"@,
            FundFamily::MatthewsAsiaFunds => "Matthews Asia Funds"@,
            FundFamily::MorganStanley => "Morgan Stanley"@,
            FundFamily::Nationwide => "Nationwide"@,
            FundFamily::NatixisFunds => "Natixis Funds"@,
            FundFamily::NeubergerBerman => "Neuberger Berman"@,
            FundFamily::NorthernFunds => "Northern Funds"@,
            FundFamily::Nuveen => "Nuveen"@,
            FundFamily::OppenheimerFunds => "OppenheimerFunds"@,
            FundFamily::PNCFunds => "PNC Funds"@,
            FundFamily::PacificFundsSeriesTrust => "Pacific funds series trust"@,
            FundFamily::PaxWorld => "Pax World"@,
            FundFamily::Paydenfunds => "Paydenfunds"@,
            FundFamily::Pimco => "Pimco"@,
            FundFamily::PioneerInvestments => "Pioneer Investments"@,
            FundFamily::PowerShares => "PowerShares"@,
            FundFamily::PrincipalFunds => "Principal Funds"@,
            FundFamily::ProFunds => "ProFunds"@,
            FundFamily::ProShares => "ProShares"@,
            FundFamily::PrudentialInvestments => "Prudential Investments"@,
            FundFamily::Putnam => "Putnam"@,
            FundFamily::RBCGlobalAssetManagement => "RBC Global Asset Management"@,
            FundFamily::RidgeWorth => "RidgeWorth"@,
            FundFamily::Royce => "Royce"@,
            FundFamily::Russell => "Russell"@,
            FundFamily::RydexFunds => "Rydex Funds"@,
            FundFamily::SEI => "SEI"@,
            FundFamily::SPDRStateStreetGlobalAdvisors => "SPDR State Street Global Advisors"@,
            FundFamily::SalientFunds => "Salient Funds"@,
            FundFamily::Saratoga => "Saratoga"@,
            FundFamily::SchwabFunds => "Schwab Funds"@,
            FundFamily::Sentinel => "Sentinel"@,
            FundFamily::SheltonCapitalManagement => "Shelton Capital Management"@,
            FundFamily::StateFarm => "State Farm"@,
            FundFamily::StateStreetGlobalAdvisorsChicago => "State Street Global Advisors (Chicago)"@,
            FundFamily::SterlingCapitalFunds => "Sterling Capital Funds"@,
            FundFamily::SunAmerica => "SunAmerica"@,
            FundFamily::TRowePrice => "T. Rowe Price"@,
            FundFamily::TCW => "TCW"@,
            FundFamily::TIAACREFAsssetManagement => "TIAA-CREF Asset Management"@,
            FundFamily::TetonWestwoodFunds => "Teton Westwood Funds"@,
            FundFamily::Thornburg => "Thornburg"@,
            FundFamily::Thrivent => "Thrivent"@,
            FundFamily::TimothyPlan => "Timothy Plan"@,
            FundFamily::Touchstone => "Touchstone"@,
            FundFamily::Transamerica => "Transamerica"@,
            FundFamily::UBS => "UBS"@,
            FundFamily::UBSGroupAG => "UBS Group AG"@,
            FundFamily::USAA => "USAA"@,
            FundFamily::VALIC => "VALIC"@,
            FundFamily::Vanguard => "Vanguard"@,
            FundFamily::VantagepointFunds => "Vantagepoint Funds"@,
            FundFamily::Victory => "Victory"@,
            FundFamily::Virtus => "Virtus"@,
            FundFamily::Voya => "Voya"@,
            FundFamily::WaddellReed => "Waddell & Reed"@,
            FundFamily::Wasatch => "Wasatch"@,
            FundFamily::WellsFargoFunds => "Wells Fargo Funds"@,
            FundFamily::WilliamBlair => "William Blair"@,
            FundFamily::WisdomTree => "WisdomTree"@,
        }
    }

    /// Every value, in declaration order.
    pub open spec fn spec_all() -> Seq<FundFamily> {
        seq![
            FundFamily::ALPS, FundFamily::AMGFunds, FundFamily::AQRFunds, FundFamily::Aberdeen,
            FundFamily::Alger, FundFamily::AllianceBernstein, FundFamily::AllianzFunds,
            FundFamily::AmericanBeacon, FundFamily::AmericanCenturyInvestments,
            FundFamily::AmericanFunds, FundFamily::Aquila, FundFamily::Artisan,
            FundFamily::BMOFunds, FundFamily::BNYMellonFunds, FundFamily::Baird,
            FundFamily::BarclaysFunds, FundFamily::BaringsFunds, FundFamily::BaronCapitalGroup,
            FundFamily::BlackRock, FundFamily::BrownAdvisoryFunds, FundFamily::Calamos,
            FundFamily::CalvertInvestments, FundFamily::CatalystMutualFunds,
            FundFamily::CohenSteers, FundFamily::Columbia, FundFamily::CommerzFundsSolutionsSA,
            FundFamily::CommerzbankAGFrankfurtAmMain, FundFamily::DavisFunds,
            FundFamily::DelawareInvestments, FundFamily::DeutscheAssetManagement,
            FundFamily::DeutscheBankAG, FundFamily::DiamondHillFunds,
            FundFamily::DimensionalFundAdvisors, FundFamily::DirexionFunds, FundFamily::DoubleLine,
            FundFamily::Dreyfus, FundFamily::DunhamFunds, FundFamily::EagleFunds,
            FundFamily::EatonVance, FundFamily::Federated, FundFamily::FidelityInvestments,
            FundFamily::FirstInvestors, FundFamily::FirstTrust, FundFamily::FlexsharesTrust,
            FundFamily::FranklinTempletonInvestments, FundFamily::GMO, FundFamily::Gabelli,
            FundFamily::GlobalXFunds, FundFamily::GoldmanSachs, FundFamily::GreatWestFunds,
            FundFamily::GuggenheimInvestments, FundFamily::GuideStoneFunds, FundFamily::HSBC,
            FundFamily::HancockHorizon, FundFamily::Harbor, FundFamily::HartfordMutualFunds,
            FundFamily::HendersonGlobal, FundFamily::Hennessy, FundFamily::HighlandFunds,
            FundFamily::ICONFunds, FundFamily::Invesco, FundFamily::IvyFunds, FundFamily::JPMorgan,
            FundFamily::Janus, FundFamily::JohnHancock, FundFamily::Lazard, FundFamily::LeggMason,
            FundFamily::LordAbbett, FundFamily::MFS, FundFamily::MadisonFunds, FundFamily::MainStay,
            FundFamily::ManningNapier, FundFamily::MarketVectors, FundFamily::MassMutual,
            FundFamily::MatthewsAsiaFunds, FundFamily::MorganStanley, FundFamily::Nationwide,
            FundFamily::NatixisFunds, FundFamily::NeubergerBerman, FundFamily::NorthernFunds,
            FundFamily::Nuveen, FundFamily::OppenheimerFunds, FundFamily::PNCFunds,
            FundFamily::PacificFundsSeriesTrust, FundFamily::PaxWorld, FundFamily::Paydenfunds,
            FundFamily::Pimco, FundFamily::PioneerInvestments, FundFamily::PowerShares,
            FundFamily::PrincipalFunds, FundFamily::ProFunds, FundFamily::ProShares,
            FundFamily::PrudentialInvestments, FundFamily::Putnam,
            FundFamily::RBCGlobalAssetManagement, FundFamily::RidgeWorth, FundFamily::Royce,
            FundFamily::Russell, FundFamily::RydexFunds, FundFamily::SEI,
            FundFamily::SPDRStateStreetGlobalAdvisors, FundFamily::SalientFunds,
            FundFamily::Saratoga, FundFamily::SchwabFunds, FundFamily::Sentinel,
            FundFamily::SheltonCapitalManagement, FundFamily::StateFarm,
            FundFamily::StateStreetGlobalAdvisorsChicago, FundFamily::SterlingCapitalFunds,
            FundFamily::SunAmerica, FundFamily::TRowePrice, FundFamily::TCW,
            FundFamily::TIAACREFAsssetManagement, FundFamily::TetonWestwoodFunds,
            FundFamily::Thornburg, FundFamily::Thrivent, FundFamily::TimothyPlan,
            FundFamily::Touchstone, FundFamily::Transamerica, FundFamily::UBS,
            FundFamily::UBSGroupAG, FundFamily::USAA, FundFamily::VALIC, FundFamily::Vanguard,
            FundFamily::VantagepointFunds, FundFamily::Victory, FundFamily::Virtus,
            FundFamily::Voya, FundFamily::WaddellReed, FundFamily::Wasatch,
            FundFamily::WellsFargoFunds, FundFamily::WilliamBlair, FundFamily::WisdomTree,
        ]
    }

    /// The keys of every value, in declaration order.
    pub open spec fn spec_names() -> Seq<Seq<char>> {
        Self::spec_all().map_values(|v: FundFamily| v.spec_key())
    }

    /// Reads a value back from its key by the characters that tell the keys apart.
    pub open spec fn spec_decode(s: Seq<char>) -> Option<FundFamily> {
        if s.len() == 3 {
            if s[0] == 'G' {
                Some(FundFamily::GMO)
            } else if s[0] == 'M' {
                Some(FundFamily::MFS)
            } else if s[0] == 'S' {
                Some(FundFamily::SEI)
            } else if s[0] == 'T' {
                Some(FundFamily::TCW)
            } else if s[0] == 'U' {
                Some(FundFamily::UBS)
            } else {
                None
            }
        } else if s.len() == 4 {
            if s[0] == 'A' {
                Some(FundFamily::ALPS)
            } else if s[0] == 'H' {
                Some(FundFamily::HSBC)
            } else if s[0] == 'U' {
                Some(FundFamily::USAA)
            } else if s[0] == 'V' {
                Some(FundFamily::Voya)
            } else {
                None
            }
        } else if s.len() == 5 {
            if s[0] == 'A' {
                Some(FundFamily::Alger)
            } else if s[0] == 'B' {
                Some(FundFamily::Baird)
            } else if s[0] == 'J' {
                Some(FundFamily::Janus)
            } else if s[0] == 'P' {
                Some(FundFamily::Pimco)
            } else if s[0] == 'R' {
                Some(FundFamily::Royce)
            } else if s[0] == 'V' {
                Some(FundFamily::VALIC)
            } else {
                None
            }
        } else if s.len() == 6 {
            if s[0] == 'A' {
                Some(FundFamily::Aquila)
            } else if s[0] == 'H' {
                Some(FundFamily::Harbor)
            } else if s[0] == 'L' {
                Some(FundFamily::Lazard)
            } else if s[0] == 'N' {
                Some(FundFamily::Nuveen)
            } else if s[0] == 'P' {
                Some(FundFamily::Putnam)
            } else if s[0] == 'V' {
                Some(FundFamily::Virtus)
            } else {
                None
            }
        } else if s.len() == 7 {
            if s[0] == 'A' {
                Some(FundFamily::Artisan)
            } else if s[0] == 'C' {
                Some(FundFamily::Calamos)
            } else if s[0] == 'D' {
                Some(FundFamily::Dreyfus)
            } else if s[0] == 'G' {
                Some(FundFamily::Gabelli)
            } else if s[0] == 'I' {
                Some(FundFamily::Invesco)
            } else if s[0] == 'R' {
                Some(FundFamily::Russell)
            } else if s[0] == 'V' {
                Some(FundFamily::Victory)
            } else if s[0] == 'W' {
                Some(FundFamily::Wasatch)
            } else {
                None
            }
        } else if s.len() == 8 {
            if s[0] == 'A' {
                Some(FundFamily::Aberdeen)
            } else if s[0] == 'C' {
                Some(FundFamily::Columbia)
            } else if s[0] == 'H' {
                Some(FundFamily::Hennessy)
            } else if s[0] == 'J' {
                Some(FundFamily::JPMorgan)
            } else if s[0] == 'M' {
                Some(FundFamily::MainStay)
            } else if s[0] == 'P' {
                Some(FundFamily::ProFunds)
            } else if s[0] == 'S' {
                if s[1] == 'a' {
                    Some(FundFamily::Saratoga)
                } else if s[1] == 'e' {
                    Some(FundFamily::Sentinel)
                } else {
                    None
                }
            } else if s[0] == 'T' {
                Some(FundFamily::Thrivent)
            } else if s[0] == 'V' {
                Some(FundFamily::Vanguard)
            } else {
                None
            }
        } else if s.len() == 9 {
            if s[1] == 'M' {
                if s[0] == 'A' {
                    Some(FundFamily::AMGFunds)
                } else if s[0] == 'B' {
                    Some(FundFamily::BMOFunds)
                } else {
                    None
                }
            } else if s[1] == 'N' {
                Some(FundFamily::PNCFunds)
            } else if s[1] == 'Q' {
                Some(FundFamily::AQRFunds)
            } else if s[1] == 'a' {
                Some(FundFamily::PaxWorld)
            } else if s[1] == 'e' {
                Some(FundFamily::Federated)
            } else if s[1] == 'h' {
                Some(FundFamily::Thornburg)
            } else if s[1] == 'l' {
                Some(FundFamily::BlackRock)
            } else if s[1] == 'r' {
                Some(FundFamily::ProShares)
            } else if s[1] == 'v' {
                Some(FundFamily::IvyFunds)
            } else {
                None
            }
        } else if s.len() == 10 {
            if s[0] == 'D' {
                Some(FundFamily::DoubleLine)
            } else if s[0] == 'I' {
                Some(FundFamily::ICONFunds)
            } else if s[0] == 'L' {
                Some(FundFamily::LeggMason)
            } else if s[0] == 'M' {
                Some(FundFamily::MassMutual)
            } else if s[0] == 'N' {
                Some(FundFamily::Nationwide)
            } else if s[0] == 'R' {
                Some(FundFamily::RidgeWorth)
            } else if s[0] == 'S' {
                if s[1] == 't' {
                    Some(FundFamily::StateFarm)
                } else if s[1] == 'u' {
                    Some(FundFamily::SunAmerica)
                } else {
                    None
                }
            } else if s[0] == 'T' {
                Some(FundFamily::Touchstone)
            } else if s[0] == 'W' {
                Some(FundFamily::WisdomTree)
            } else {
                None
            }
        } else if s.len() == 11 {
            if s[2] == 'd' {
                Some(FundFamily::RydexFunds)
            } else if s[2] == 'g' {
                Some(FundFamily::EagleFunds)
            } else if s[2] == 'r' {
                if s[0] == 'F' {
                    Some(FundFamily::FirstTrust)
                } else if s[0] == 'L' {
                    Some(FundFamily::LordAbbett)
                } else {
                    None
                }
            } else if s[2] == 't' {
                Some(FundFamily::EatonVance)
            } else if s[2] == 'v' {
                Some(FundFamily::DavisFunds)
            } else if s[2] == 'w' {
                Some(FundFamily::PowerShares)
            } else if s[2] == 'y' {
                Some(FundFamily::Paydenfunds)
            } else {
                None
            }
        } else if s.len() == 12 {
            if s[1] == 'B' {
                Some(FundFamily::UBSGroupAG)
            } else if s[1] == 'c' {
                Some(FundFamily::SchwabFunds)
            } else if s[1] == 'i' {
                Some(FundFamily::TimothyPlan)
            } else if s[1] == 'o' {
                Some(FundFamily::JohnHancock)
            } else if s[1] == 'r' {
                Some(FundFamily::Transamerica)
            } else if s[1] == 'u' {
                Some(FundFamily::DunhamFunds)
            } else {
                None
            }
        } else if s.len() == 13 {
            if s[0] == 'A' {
                Some(FundFamily::AllianzFunds)
            } else if s[0] == 'B' {
                Some(FundFamily::BaringsFunds)
            } else if s[0] == 'G' {
                Some(FundFamily::GoldmanSachs)
            } else if s[0] == 'M' {
                Some(FundFamily::MadisonFunds)
            } else if s[0] == 'N' {
                Some(FundFamily::NatixisFunds)
            } else if s[0] == 'S' {
                Some(FundFamily::SalientFunds)
            } else if s[0] == 'T' {
                Some(FundFamily::TRowePrice)
            } else if s[0] == 'W' {
                Some(FundFamily::WilliamBlair)
            } else {
                None
            }
        } else if s.len() == 14 {
            if s[0] == 'A' {
                Some(FundFamily::AmericanFunds)
            } else if s[0] == 'B' {
                Some(FundFamily::BarclaysFunds)
            } else if s[0] == 'C' {
                Some(FundFamily::CohenSteers)
            } else if s[0] == 'D' {
                Some(FundFamily::DirexionFunds)
            } else if s[0] == 'G' {
                Some(FundFamily::GlobalXFunds)
            } else if s[0] == 'H' {
                Some(FundFamily::HighlandFunds)
            } else if s[0] == 'M' {
                if s[1] == 'a' {
                    Some(FundFamily::MarketVectors)
                } else if s[1] == 'o' {
                    Some(FundFamily::MorganStanley)
                } else {
                    None
                }
            } else if s[0] == 'N' {
                Some(FundFamily::NorthernFunds)
            } else if s[0] == 'W' {
                Some(FundFamily::WaddellReed)
            } else {
                None
            }
        } else if s.len() == 15 {
            if s[0] == 'A' {
                Some(FundFamily::AmericanBeacon)
            } else if s[0] == 'F' {
                Some(FundFamily::FirstInvestors)
            } else if s[0] == 'H' {
                Some(FundFamily::HancockHorizon)
            } else if s[0] == 'P' {
                Some(FundFamily::PrincipalFunds)
            } else {
                None
            }
        } else if s.len() == 16 {
            if s[0] == 'B' {
                Some(FundFamily::BNYMellonFunds)
            } else if s[0] == 'D' {
                Some(FundFamily::DeutscheBankAG)
            } else if s[0] == 'F' {
                Some(FundFamily::FlexsharesTrust)
            } else if s[0] == 'G' {
                if s[1] == 'r' {
                    Some(FundFamily::GreatWestFunds)
                } else if s[1] == 'u' {
                    Some(FundFamily::GuideStoneFunds)
                } else {
                    None
                }
            } else if s[0] == 'H' {
                Some(FundFamily::HendersonGlobal)
            } else if s[0] == 'M' {
                Some(FundFamily::ManningNapier)
            } else if s[0] == 'N' {
                Some(FundFamily::NeubergerBerman)
            } else if s[0] == 'O' {
                Some(FundFamily::OppenheimerFunds)
            } else {
                None
            }
        } else if s.len() == 17 {
            if s[0] == 'A' {
                Some(FundFamily::AllianceBernstein)
            } else if s[0] == 'W' {
                Some(FundFamily::WellsFargoFunds)
            } else {
                None
            }
        } else if s.len() == 18 {
            if s[0] == 'D' {
                Some(FundFamily::DiamondHillFunds)
            } else if s[0] == 'V' {
                Some(FundFamily::VantagepointFunds)
            } else {
                None
            }
        } else if s.len() == 19 {
            if s[0] == 'B' {
                Some(FundFamily::BaronCapitalGroup)
            } else if s[0] == 'C' {
                Some(FundFamily::CalvertInvestments)
            } else if s[0] == 'M' {
                Some(FundFamily::MatthewsAsiaFunds)
            } else if s[0] == 'P' {
                Some(FundFamily::PioneerInvestments)
            } else {
                None
            }
        } else if s.len() == 20 {
            if s[0] == 'B' {
                Some(FundFamily::BrownAdvisoryFunds)
            } else if s[0] == 'D' {
                Some(FundFamily::DelawareInvestments)
            } else if s[0] == 'F' {
                Some(FundFamily::FidelityInvestments)
            } else if s[0] == 'T' {
                Some(FundFamily::TetonWestwoodFunds)
            } else {
                None
            }
        } else if s.len() == 21 {
            if s[0] == 'C' {
                Some(FundFamily::CatalystMutualFunds)
            } else if s[0] == 'H' {
                Some(FundFamily::HartfordMutualFunds)
            } else {
                None
            }
        } else if s.len() == 22 {
            if s[0] == 'G' {
                Some(FundFamily::GuggenheimInvestments)
            } else if s[0] == 'P' {
                Some(FundFamily::PrudentialInvestments)
            } else if s[0] == 'S' {
                Some(FundFamily::SterlingCapitalFunds)
            } else {
                None
            }
        } else if s.len() == 25 {
            if s[1] == 'e' {
                Some(FundFamily::DeutscheAssetManagement)
            } else if s[1] == 'i' {
                Some(FundFamily::DimensionalFundAdvisors)
            } else {
                None
            }
        } else if s.len() == 26 {
            if s[0] == 'C' {
                Some(FundFamily::CommerzFundsSolutionsSA)
            } else if s[0] == 'P' {
                Some(FundFamily::PacificFundsSeriesTrust)
            } else if s[0] == 'S' {
                Some(FundFamily::SheltonCapitalManagement)
            } else if s[0] == 'T' {
                Some(FundFamily::TIAACREFAsssetManagement)
            } else {
                None
            }
        } else if s.len() == 27 {
            Some(FundFamily::RBCGlobalAssetManagement)
        } else if s.len() == 28 {
            Some(FundFamily::AmericanCenturyInvestments)
        } else if s.len() == 30 {
            Some(FundFamily::FranklinTempletonInvestments)
        } else if s.len() == 33 {
            if s[0] == 'C' {
                Some(FundFamily::CommerzbankAGFrankfurtAmMain)
            } else if s[0] == 'S' {
                Some(FundFamily::SPDRStateStreetGlobalAdvisors)
            } else {
                None
            }
        } else if s.len() == 38 {
            Some(FundFamily::StateStreetGlobalAdvisorsChicago)
        } else {
            None
        }
    }

    /// The key of this value.
    pub fn as_str(&self) -> (s: &'static str)
        ensures
            s@ == self.spec_key(),
    {
        match self {
            FundFamily::ALPS => "ALPS",
            FundFamily::AMGFunds => "AMG Funds",
            FundFamily::AQRFunds => "AQR Funds",
            FundFamily::Aberdeen => "Aberdeen",
            FundFamily::Alger => "Alger",
            FundFamily::AllianceBernstein => "AllianceBernstein",
            FundFamily::AllianzFunds => "Allianz Funds",
            FundFamily::AmericanBeacon => "American Beacon",
            FundFamily::AmericanCenturyInvestments => "American Century Investments",
            FundFamily::AmericanFunds => "American Funds",
            FundFamily::Aquila => "Aquila",
            FundFamily::Artisan => "Artisan",
            FundFamily::BMOFunds => "BMO Funds",
            FundFamily::BNYMellonFunds => "BNY Mellon Funds",
            FundFamily::Baird => "Baird",
            FundFamily::BarclaysFunds => "Barclays Funds",
            FundFamily::BaringsFunds => "Barings Funds",
            FundFamily::BaronCapitalGroup => "Baron Capital Group",
            FundFamily::BlackRock => "BlackRock",
            FundFamily::BrownAdvisoryFunds => "Brown Advisory Funds",
            FundFamily::Calamos => "Calamos",
            FundFamily::CalvertInvestments => "Calvert Investments",
            FundFamily::CatalystMutualFunds => "Catalyst Mutual Funds",
            FundFamily::CohenSteers => "Cohen & Steers",
            FundFamily::Columbia => "Columbia",
            FundFamily::CommerzFundsSolutionsSA => "Commerz Funds Solutions SA",
            FundFamily::CommerzbankAGFrankfurtAmMain => "Commerzbank AG, Frankfurt am Main",
            FundFamily::DavisFunds => "Davis Funds",
            FundFamily::DelawareInvestments => "Delaware Investments",
            FundFamily::DeutscheAssetManagement => "Deutsche Asset Management",
            FundFamily::DeutscheBankAG => "Deutsche Bank AG",
            FundFamily::DiamondHillFunds => "Diamond Hill Funds",
            FundFamily::DimensionalFundAdvisors => "Dimensional Fund Advisors",
            FundFamily::DirexionFunds => "Direxion Funds",
            FundFamily::DoubleLine => "DoubleLine",
            FundFamily::Dreyfus => "Dreyfus",
            FundFamily::DunhamFunds => "Dunham Funds",
            FundFamily::EagleFunds => "Eagle Funds",
            FundFamily::EatonVance => "Eaton Vance",
            FundFamily::Federated => "Federated",
            FundFamily::FidelityInvestments => "Fidelity Investments",
            FundFamily::FirstInvestors => "First Investors",
            FundFamily::FirstTrust => "First Trust",
            FundFamily::FlexsharesTrust => "Flexshares Trust",
            FundFamily::FranklinTempletonInvestments => "Franklin Templeton Investments",
            FundFamily::GMO => "GMO",
            FundFamily::Gabelli => "Gabelli",
            FundFamily::GlobalXFunds => "Global X Funds",
            FundFamily::GoldmanSachs => "Goldman Sachs",
            FundFamily::GreatWestFunds => "Great-West Funds",
            FundFamily::GuggenheimInvestments => "Guggenheim Investments",
            FundFamily::GuideStoneFunds => "GuideStone Funds",
            FundFamily::HSBC => "HSBC",
            FundFamily::HancockHorizon => "Hancock Horizon",
            FundFamily::Harbor => "Harbor",
            FundFamily::HartfordMutualFunds => "Hartford Mutual Funds",
            FundFamily::HendersonGlobal => "Henderson Global",
            FundFamily::Hennessy => "Hennessy",
            FundFamily::HighlandFunds => "Highland Funds",
            FundFamily::ICONFunds => "ICON Funds",
            FundFamily::Invesco => "Invesco",
            FundFamily::IvyFunds => "Ivy Funds",
            FundFamily::JPMorgan => "JPMorgan",
            FundFamily::Janus => "Janus",
            FundFamily::JohnHancock => "John Hancock",
            FundFamily::Lazard => "Lazard",
            FundFamily::LeggMason => "Legg Mason",
            FundFamily::LordAbbett => "Lord Abbett",
            FundFamily::MFS => "MFS",
            FundFamily::MadisonFunds => "Madison Funds",
            FundFamily::MainStay => "MainStay",
            FundFamily::ManningNapier => "Manning & Napier",
            FundFamily::MarketVectors => "Market Vectors",
            FundFamily::MassMutual => "MassMutual",
            FundFamily::MatthewsAsiaFunds => "Matthews Asia Funds",
            FundFamily::MorganStanley => "Morgan Stanley",
            FundFamily::Nationwide => "Nationwide",
            FundFamily::NatixisFunds => "Natixis Funds",
            FundFamily::NeubergerBerman => "Neuberger Berman",
            FundFamily::NorthernFunds => "Northern Funds",
            FundFamily::Nuveen => "Nuveen",
            FundFamily::OppenheimerFunds => "OppenheimerFunds",
            FundFamily::PNCFunds => "PNC Funds",
            FundFamily::PacificFundsSeriesTrust => "Pacific funds series trust",
            FundFamily::PaxWorld => "Pax World",
            FundFamily::Paydenfunds => "Paydenfunds",
            FundFamily::Pimco => "Pimco",
            FundFamily::PioneerInvestments => "Pioneer Investments",
            FundFamily::PowerShares => "PowerShares",
            FundFamily::PrincipalFunds => "Principal Funds",
            FundFamily::ProFunds => "ProFunds",
            FundFamily::ProShares => "ProShares",
            FundFamily::PrudentialInvestments => "Prudential Investments",
            FundFamily::Putnam => "Putnam",
            FundFamily::RBCGlobalAssetManagement => "RBC Global Asset Management",
            FundFamily::RidgeWorth => "RidgeWorth",
            FundFamily::Royce => "Royce",
            FundFamily::Russell => "Russell",
            FundFamily::RydexFunds => "Rydex Funds",
            FundFamily::SEI => "SEI",
            FundFamily::SPDRStateStreetGlobalAdvisors => "SPDR State Street Global Advisors",
            FundFamily::SalientFunds => "Salient Funds",
            FundFamily::Saratoga => "Saratoga",
            FundFamily::SchwabFunds => "Schwab Funds",
            FundFamily::Sentinel => "Sentinel",
            FundFamily::SheltonCapitalManagement => "Shelton Capital Management",
            FundFamily::StateFarm => "State Farm",
            FundFamily::StateStreetGlobalAdvisorsChicago => "State Street Global Advisors (Chicago)",
            FundFamily::SterlingCapitalFunds => "Sterling Capital Funds",
            FundFamily::SunAmerica => "SunAmerica",
            FundFamily::TRowePrice => "T. Rowe Price",
            FundFamily::TCW => "TCW",
            FundFamily::TIAACREFAsssetManagement => "TIAA-CREF Asset Management",
            FundFamily::TetonWestwoodFunds => "Teton Westwood Funds",
            FundFamily::Thornburg => "Thornburg",
            FundFamily::Thrivent => "Thrivent",
            FundFamily::TimothyPlan => "Timothy Plan",
            FundFamily::Touchstone => "Touchstone",
            FundFamily::Transamerica => "Transamerica",
            FundFamily::UBS => "UBS",
            FundFamily::UBSGroupAG => "UBS Group AG",
            FundFamily::USAA => "USAA",
            FundFamily::VALIC => "VALIC",
            FundFamily::Vanguard => "Vanguard",
            FundFamily::VantagepointFunds => "Vantagepoint Funds",
            FundFamily::Victory => "Victory",
            FundFamily::Virtus => "Virtus",
            FundFamily::Voya => "Voya",
            FundFamily::WaddellReed => "Waddell & Reed",
            FundFamily::Wasatch => "Wasatch",
            FundFamily::WellsFargoFunds => "Wells Fargo Funds",
            FundFamily::WilliamBlair => "William Blair",
            FundFamily::WisdomTree => "WisdomTree",
        }
    }

    /// The key of this value as an owned string.
    pub fn to_string(&self) -> (s: String)
        ensures
            s@ == self.spec_key(),
    {
        owned(self.as_str())
    }

    /// Parses a key: the value whose key is `s`, and `None` when there is none.
    pub fn from_str(s: &str) -> (r: Option<FundFamily>)
        ensures
            forall|v: FundFamily| #[trigger] v.spec_key() == s@ <==> r == Some(v),
    {
        let r = Self::find(s);
        proof {
            assert forall|v: FundFamily| #[trigger] v.spec_key() == s@ implies r == Some(v) by {
                Self::lemma_key_round_trip(v, r->0);
            }
        }
        r
    }

    /// Tries the keys in declaration order.
    #[verifier::rlimit(60)]
    fn find(s: &str) -> (r: Option<FundFamily>)
        ensures
            r matches Some(v) ==> v.spec_key() == s@,
            r is None ==> forall|v: FundFamily| #[trigger] v.spec_key() != s@,
    {
        if str_eq(s, "ALPS") {
            return Some(FundFamily::ALPS);
        }
        if str_eq(s, "AMG Funds") {
            return Some(FundFamily::AMGFunds);
        }
        if str_eq(s, "AQR Funds") {
            return Some(FundFamily::AQRFunds);
        }
        if str_eq(s, "Aberdeen") {
            return Some(FundFamily::Aberdeen);
        }
        if str_eq(s, "Alger") {
            return Some(FundFamily::Alger);
        }
        if str_eq(s, "AllianceBernstein") {
            return Some(FundFamily::AllianceBernstein);
        }
        if str_eq(s, "Allianz Funds") {
            return Some(FundFamily::AllianzFunds);
        }
        if str_eq(s, "American Beacon") {
            return Some(FundFamily::AmericanBeacon);
        }
        if str_eq(s, "American Century Investments") {
            return Some(FundFamily::AmericanCenturyInvestments);
        }
        if str_eq(s, "American Funds") {
            return Some(FundFamily::AmericanFunds);
        }
        if str_eq(s, "Aquila") {
            return Some(FundFamily::Aquila);
        }
        if str_eq(s, "Artisan") {
            return Some(FundFamily::Artisan);
        }
        if str_eq(s, "BMO Funds") {
            return Some(FundFamily::BMOFunds);
        }
        if str_eq(s, "BNY Mellon Funds") {
            return Some(FundFamily::BNYMellonFunds);
        }
        if str_eq(s, "Baird") {
            return Some(FundFamily::Baird);
        }
        if str_eq(s, "Barclays Funds") {
            return Some(FundFamily::BarclaysFunds);
        }
        if str_eq(s, "Barings Funds") {
            return Some(FundFamily::BaringsFunds);
        }
        if str_eq(s, "Baron Capital Group") {
            return Some(FundFamily::BaronCapitalGroup);
        }
        if str_eq(s, "BlackRock") {
            return Some(FundFamily::BlackRock);
        }
        if str_eq(s, "Brown Advisory Funds") {
            return Some(FundFamily::BrownAdvisoryFunds);
        }
        if str_eq(s, "Calamos") {
            return Some(FundFamily::Calamos);
        }
        if str_eq(s, "Calvert Investments") {
            return Some(FundFamily::CalvertInvestments);
        }
        if str_eq(s, "Catalyst Mutual Funds") {
            return Some(FundFamily::CatalystMutualFunds);
        }
        if str_eq(s, "Cohen & Steers") {
            return Some(FundFamily::CohenSteers);
        }
        if str_eq(s, "Columbia") {
            return Some(FundFamily::Columbia);
        }
        if str_eq(s, "Commerz Funds Solutions SA") {
            return Some(FundFamily::CommerzFundsSolutionsSA);
        }
        if str_eq(s, "Commerzbank AG, Frankfurt am Main") {
            return Some(FundFamily::CommerzbankAGFrankfurtAmMain);
        }
        if str_eq(s, "Davis Funds") {
            return Some(FundFamily::DavisFunds);
        }
        if str_eq(s, "Delaware Investments") {
            return Some(FundFamily::DelawareInvestments);
        }
        if str_eq(s, "Deutsche Asset Management") {
            return Some(FundFamily::DeutscheAssetManagement);
        }
        if str_eq(s, "Deutsche Bank AG") {
            return Some(FundFamily::DeutscheBankAG);
        }
        if str_eq(s, "Diamond Hill Funds") {
            return Some(FundFamily::DiamondHillFunds);
        }
        if str_eq(s, "Dimensional Fund Advisors") {
            return Some(FundFamily::DimensionalFundAdvisors);
        }
        if str_eq(s, "Direxion Funds") {
            return Some(FundFamily::DirexionFunds);
        }
        if str_eq(s, "DoubleLine") {
            return Some(FundFamily::DoubleLine);
        }
        if str_eq(s, "Dreyfus") {
            return Some(FundFamily::Dreyfus);
        }
        if str_eq(s, "Dunham Funds") {
            return Some(FundFamily::DunhamFunds);
        }
        if str_eq(s, "Eagle Funds") {
            return Some(FundFamily::EagleFunds);
        }
        if str_eq(s, "Eaton Vance") {
            return Some(FundFamily::EatonVance);
        }
        if str_eq(s, "Federated") {
            return Some(FundFamily::Federated);
        }
        if str_eq(s, "Fidelity Investments") {
            return Some(FundFamily::FidelityInvestments);
        }
        if str_eq(s, "First Investors") {
            return Some(FundFamily::FirstInvestors);
        }
        if str_eq(s, "First Trust") {
            return Some(FundFamily::FirstTrust);
        }
        if str_eq(s, "Flexshares Trust") {
            return Some(FundFamily::FlexsharesTrust);
        }
        if str_eq(s, "Franklin Templeton Investments") {
            return Some(FundFamily::FranklinTempletonInvestments);
        }
        if str_eq(s, "GMO") {
            return Some(FundFamily::GMO);
        }
        if str_eq(s, "Gabelli") {
            return Some(FundFamily::Gabelli);
        }
        if str_eq(s, "Global X Funds") {
            return Some(FundFamily::GlobalXFunds);
        }
        if str_eq(s, "Goldman Sachs") {
            return Some(FundFamily::GoldmanSachs);
        }
        if str_eq(s, "Great-West Funds") {
            return Some(FundFamily::GreatWestFunds);
        }
        if str_eq(s, "Guggenheim Investments") {
            return Some(FundFamily::GuggenheimInvestments);
        }
        if str_eq(s, "GuideStone Funds") {
            return Some(FundFamily::GuideStoneFunds);
        }
        if str_eq(s, "HSBC") {
            return Some(FundFamily::HSBC);
        }
        if str_eq(s, "Hancock Horizon") {
            return Some(FundFamily::HancockHorizon);
        }
        if str_eq(s, "Harbor") {
            return Some(FundFamily::Harbor);
        }
        if str_eq(s, "Hartford Mutual Funds") {
            return Some(FundFamily::HartfordMutualFunds);
        }
        if str_eq(s, "Henderson Global") {
            return Some(FundFamily::HendersonGlobal);
        }
        if str_eq(s, "Hennessy") {
            return Some(FundFamily::Hennessy);
        }
        if str_eq(s, "Highland Funds") {
            return Some(FundFamily::HighlandFunds);
        }
        if str_eq(s, "ICON Funds") {
            return Some(FundFamily::ICONFunds);
        }
        if str_eq(s, "Invesco") {
            return Some(FundFamily::Invesco);
        }
        if str_eq(s, "Ivy Funds") {
            return Some(FundFamily::IvyFunds);
        }
        if str_eq(s, "JPMorgan") {
            return Some(FundFamily::JPMorgan);
        }
        if str_eq(s, "Janus") {
            return Some(FundFamily::Janus);
        }
        if str_eq(s, "John Hancock") {
            return Some(FundFamily::JohnHancock);
        }
        if str_eq(s, "Lazard") {
            return Some(FundFamily::Lazard);
        }
        if str_eq(s, "Legg Mason") {
            return Some(FundFamily::LeggMason);
        }
        if str_eq(s, "Lord Abbett") {
            return Some(FundFamily::LordAbbett);
        }
        if str_eq(s, "MFS") {
            return Some(FundFamily::MFS);
        }
        if str_eq(s, "Madison Funds") {
            return Some(FundFamily::MadisonFunds);
        }
        if str_eq(s, "MainStay") {
            return Some(FundFamily::MainStay);
        }
        if str_eq(s, "Manning & Napier") {
            return Some(FundFamily::ManningNapier);
        }
        if str_eq(s, "Market Vectors") {
            return Some(FundFamily::MarketVectors);
        }
        if str_eq(s, "MassMutual") {
            return Some(FundFamily::MassMutual);
        }
        if str_eq(s, "Matthews Asia Funds") {
            return Some(FundFamily::MatthewsAsiaFunds);
        }
        if str_eq(s, "Morgan Stanley") {
            return Some(FundFamily::MorganStanley);
        }
        if str_eq(s, "Nationwide") {
            return Some(FundFamily::Nationwide);
        }
        if str_eq(s, "Natixis Funds") {
            return Some(FundFamily::NatixisFunds);
        }
        if str_eq(s, "Neuberger Berman") {
            return Some(FundFamily::NeubergerBerman);
        }
        if str_eq(s, "Northern Funds") {
            return Some(FundFamily::NorthernFunds);
        }
        if str_eq(s, "Nuveen") {
            return Some(FundFamily::Nuveen);
        }
        if str_eq(s, "OppenheimerFunds") {
            return Some(FundFamily::OppenheimerFunds);
        }
        if str_eq(s, "PNC Funds") {
            return Some(FundFamily::PNCFunds);
        }
        if str_eq(s, "Pacific funds series trust") {
            return Some(FundFamily::PacificFundsSeriesTrust);
        }
        if str_eq(s, "Pax World") {
            return Some(FundFamily::PaxWorld);
        }
        if str_eq(s, "Paydenfunds") {
            return Some(FundFamily::Paydenfunds);
        }
        if str_eq(s, "Pimco") {
            return Some(FundFamily::Pimco);
        }
        if str_eq(s, "Pioneer Investments") {
            return Some(FundFamily::PioneerInvestments);
        }
        if str_eq(s, "PowerShares") {
            return Some(FundFamily::PowerShares);
        }
        if str_eq(s, "Principal Funds") {
            return Some(FundFamily::PrincipalFunds);
        }
        if str_eq(s, "ProFunds") {
            return Some(FundFamily::ProFunds);
        }
        if str_eq(s, "ProShares") {
            return Some(FundFamily::ProShares);
        }
        if str_eq(s, "Prudential Investments") {
            return Some(FundFamily::PrudentialInvestments);
        }
        if str_eq(s, "Putnam") {
            return Some(FundFamily::Putnam);
        }
        if str_eq(s, "RBC Global Asset Management") {
            return Some(FundFamily::RBCGlobalAssetManagement);
        }
        if str_eq(s, "RidgeWorth") {
            return Some(FundFamily::RidgeWorth);
        }
        if str_eq(s, "Royce") {
            return Some(FundFamily::Royce);
        }
        if str_eq(s, "Russell") {
            return Some(FundFamily::Russell);
        }
        if str_eq(s, "Rydex Funds") {
            return Some(FundFamily::RydexFunds);
        }
        if str_eq(s, "SEI") {
            return Some(FundFamily::SEI);
        }
        if str_eq(s, "SPDR State Street Global Advisors") {
            return Some(FundFamily::SPDRStateStreetGlobalAdvisors);
        }
        if str_eq(s, "Salient Funds") {
            return Some(FundFamily::SalientFunds);
        }
        if str_eq(s, "Saratoga") {
            return Some(FundFamily::Saratoga);
        }
        if str_eq(s, "Schwab Funds") {
            return Some(FundFamily::SchwabFunds);
        }
        if str_eq(s, "Sentinel") {
            return Some(FundFamily::Sentinel);
        }
        if str_eq(s, "Shelton Capital Management") {
            return Some(FundFamily::SheltonCapitalManagement);
        }
        if str_eq(s, "State Farm") {
            return Some(FundFamily::StateFarm);
        }
        if str_eq(s, "State Street Global Advisors (Chicago)") {
            return Some(FundFamily::StateStreetGlobalAdvisorsChicago);
        }
        if str_eq(s, "Sterling Capital Funds") {
            return Some(FundFamily::SterlingCapitalFunds);
        }
        if str_eq(s, "SunAmerica") {
            return Some(FundFamily::SunAmerica);
        }
        if str_eq(s, "T. Rowe Price") {
            return Some(FundFamily::TRowePrice);
        }
        if str_eq(s, "TCW") {
            return Some(FundFamily::TCW);
        }
        if str_eq(s, "TIAA-CREF Asset Management") {
            return Some(FundFamily::TIAACREFAsssetManagement);
        }
        if str_eq(s, "Teton Westwood Funds") {
            return Some(FundFamily::TetonWestwoodFunds);
        }
        if str_eq(s, "Thornburg") {
            return Some(FundFamily::Thornburg);
        }
        if str_eq(s, "Thrivent") {
            return Some(FundFamily::Thrivent);
        }
        if str_eq(s, "Timothy Plan") {
            return Some(FundFamily::TimothyPlan);
        }
        if str_eq(s, "Touchstone") {
            return Some(FundFamily::Touchstone);
        }
        if str_eq(s, "Transamerica") {
            return Some(FundFamily::Transamerica);
        }
        if str_eq(s, "UBS") {
            return Some(FundFamily::UBS);
        }
        if str_eq(s, "UBS Group AG") {
            return Some(FundFamily::UBSGroupAG);
        }
        if str_eq(s, "USAA") {
            return Some(FundFamily::USAA);
        }
        if str_eq(s, "VALIC") {
            return Some(FundFamily::VALIC);
        }
        if str_eq(s, "Vanguard") {
            return Some(FundFamily::Vanguard);
        }
        if str_eq(s, "Vantagepoint Funds") {
            return Some(FundFamily::VantagepointFunds);
        }
        if str_eq(s, "Victory") {
            return Some(FundFamily::Victory);
        }
        if str_eq(s, "Virtus") {
            return Some(FundFamily::Virtus);
        }
        if str_eq(s, "Voya") {
            return Some(FundFamily::Voya);
        }
        if str_eq(s, "Waddell & Reed") {
            return Some(FundFamily::WaddellReed);
        }
        if str_eq(s, "Wasatch") {
            return Some(FundFamily::Wasatch);
        }
        if str_eq(s, "Wells Fargo Funds") {
            return Some(FundFamily::WellsFargoFunds);
        }
        if str_eq(s, "William Blair") {
            return Some(FundFamily::WilliamBlair);
        }
        if str_eq(s, "WisdomTree") {
            return Some(FundFamily::WisdomTree);
        }
        None
    }

    /// Every value, in declaration order.
    pub fn variants() -> (r: Vec<FundFamily>)
        ensures
            r@ == Self::spec_all(),
    {
        let r = vec![
            FundFamily::ALPS, FundFamily::AMGFunds, FundFamily::AQRFunds, FundFamily::Aberdeen,
            FundFamily::Alger, FundFamily::AllianceBernstein, FundFamily::AllianzFunds,
            FundFamily::AmericanBeacon, FundFamily::AmericanCenturyInvestments,
            FundFamily::AmericanFunds, FundFamily::Aquila, FundFamily::Artisan,
            FundFamily::BMOFunds, FundFamily::BNYMellonFunds, FundFamily::Baird,
            FundFamily::BarclaysFunds, FundFamily::BaringsFunds, FundFamily::BaronCapitalGroup,
            FundFamily::BlackRock, FundFamily::BrownAdvisoryFunds, FundFamily::Calamos,
            FundFamily::CalvertInvestments, FundFamily::CatalystMutualFunds,
            FundFamily::CohenSteers, FundFamily::Columbia, FundFamily::CommerzFundsSolutionsSA,
            FundFamily::CommerzbankAGFrankfurtAmMain, FundFamily::DavisFunds,
            FundFamily::DelawareInvestments, FundFamily::DeutscheAssetManagement,
            FundFamily::DeutscheBankAG, FundFamily::DiamondHillFunds,
            FundFamily::DimensionalFundAdvisors, FundFamily::DirexionFunds, FundFamily::DoubleLine,
            FundFamily::Dreyfus, FundFamily::DunhamFunds, FundFamily::EagleFunds,
            FundFamily::EatonVance, FundFamily::Federated, FundFamily::FidelityInvestments,
            FundFamily::FirstInvestors, FundFamily::FirstTrust, FundFamily::FlexsharesTrust,
            FundFamily::FranklinTempletonInvestments, FundFamily::GMO, FundFamily::Gabelli,
            FundFamily::GlobalXFunds, FundFamily::GoldmanSachs, FundFamily::GreatWestFunds,
            FundFamily::GuggenheimInvestments, FundFamily::GuideStoneFunds, FundFamily::HSBC,
            FundFamily::HancockHorizon, FundFamily::Harbor, FundFamily::HartfordMutualFunds,
            FundFamily::HendersonGlobal, FundFamily::Hennessy, FundFamily::HighlandFunds,
            FundFamily::ICONFunds, FundFamily::Invesco, FundFamily::IvyFunds, FundFamily::JPMorgan,
            FundFamily::Janus, FundFamily::JohnHancock, FundFamily::Lazard, FundFamily::LeggMason,
            FundFamily::LordAbbett, FundFamily::MFS, FundFamily::MadisonFunds, FundFamily::MainStay,
            FundFamily::ManningNapier, FundFamily::MarketVectors, FundFamily::MassMutual,
            FundFamily::MatthewsAsiaFunds, FundFamily::MorganStanley, FundFamily::Nationwide,
            FundFamily::NatixisFunds, FundFamily::NeubergerBerman, FundFamily::NorthernFunds,
            FundFamily::Nuveen, FundFamily::OppenheimerFunds, FundFamily::PNCFunds,
            FundFamily::PacificFundsSeriesTrust, FundFamily::PaxWorld, FundFamily::Paydenfunds,
            FundFamily::Pimco, FundFamily::PioneerInvestments, FundFamily::PowerShares,
            FundFamily::PrincipalFunds, FundFamily::ProFunds, FundFamily::ProShares,
            FundFamily::PrudentialInvestments, FundFamily::Putnam,
            FundFamily::RBCGlobalAssetManagement, FundFamily::RidgeWorth, FundFamily::Royce,
            FundFamily::Russell, FundFamily::RydexFunds, FundFamily::SEI,
            FundFamily::SPDRStateStreetGlobalAdvisors, FundFamily::SalientFunds,
            FundFamily::Saratoga, FundFamily::SchwabFunds, FundFamily::Sentinel,
            FundFamily::SheltonCapitalManagement, FundFamily::StateFarm,
            FundFamily::StateStreetGlobalAdvisorsChicago, FundFamily::SterlingCapitalFunds,
            FundFamily::SunAmerica, FundFamily::TRowePrice, FundFamily::TCW,
            FundFamily::TIAACREFAsssetManagement, FundFamily::TetonWestwoodFunds,
            FundFamily::Thornburg, FundFamily::Thrivent, FundFamily::TimothyPlan,
            FundFamily::Touchstone, FundFamily::Transamerica, FundFamily::UBS,
            FundFamily::UBSGroupAG, FundFamily::USAA, FundFamily::VALIC, FundFamily::Vanguard,
            FundFamily::VantagepointFunds, FundFamily::Victory, FundFamily::Virtus,
            FundFamily::Voya, FundFamily::WaddellReed, FundFamily::Wasatch,
            FundFamily::WellsFargoFunds, FundFamily::WilliamBlair, FundFamily::WisdomTree,
        ];
        assert(r@ =~= Self::spec_all());
        r
    }

    /// The keys of every value, in declaration order.
    pub fn variant_names() -> (r: Vec<&'static str>)
        ensures
            strs_view(r@) == Self::spec_names(),
    {
        let r = vec![
            "ALPS", "AMG Funds", "AQR Funds", "Aberdeen", "Alger", "AllianceBernstein",
            "Allianz Funds", "American Beacon", "American Century Investments", "American Funds",
            "Aquila", "Artisan", "BMO Funds", "BNY Mellon Funds", "Baird", "Barclays Funds",
            "Barings Funds", "Baron Capital Group", "BlackRock", "Brown Advisory Funds", "Calamos",
            "Calvert Investments", "Catalyst Mutual Funds", "Cohen & Steers", "Columbia",
            "Commerz Funds Solutions SA", "Commerzbank AG, Frankfurt am Main", "Davis Funds",
            "Delaware Investments", "Deutsche Asset Management", "Deutsche Bank AG",
            "Diamond Hill Funds", "Dimensional Fund Advisors", "Direxion Funds", "DoubleLine",
            "Dreyfus", "Dunham Funds", "Eagle Funds", "Eaton Vance", "Federated",
            "Fidelity Investments", "First Investors", "First Trust", "Flexshares Trust",
            "Franklin Templeton Investments", "GMO", "Gabelli", "Global X Funds", "Goldman Sachs",
            "Great-West Funds", "Guggenheim Investments", "GuideStone Funds", "HSBC",
            "Hancock Horizon", "Harbor", "Hartford Mutual Funds", "Henderson Global", "Hennessy",
            "Highland Funds", "ICON Funds", "Invesco", "Ivy Funds", "JPMorgan", "Janus",
            "John Hancock", "Lazard", "Legg Mason", "Lord Abbett", "MFS", "Madison Funds",
            "MainStay", "Manning & Napier", "Market Vectors", "MassMutual", "Matthews Asia Funds",
            "Morgan Stanley", "Nationwide", "Natixis Funds", "Neuberger Berman", "Northern Funds",
            "Nuveen", "OppenheimerFunds", "PNC Funds", "Pacific funds series trust", "Pax World",
            "Paydenfunds", "Pimco", "Pioneer Investments", "PowerShares", "Principal Funds",
            "ProFunds", "ProShares", "Prudential Investments", "Putnam",
            "RBC Global Asset Management", "RidgeWorth", "Royce", "Russell", "Rydex Funds", "SEI",
            "SPDR State Street Global Advisors", "Salient Funds", "Saratoga", "Schwab Funds",
            "Sentinel", "Shelton Capital Management", "State Farm",
            "State Street Global Advisors (Chicago)", "Sterling Capital Funds", "SunAmerica",
            "T. Rowe Price", "TCW", "TIAA-CREF Asset Management", "Teton Westwood Funds",
            "Thornburg", "Thrivent", "Timothy Plan", "Touchstone", "Transamerica", "UBS",
            "UBS Group AG", "USAA", "VALIC", "Vanguard", "Vantagepoint Funds", "Victory", "Virtus",
            "Voya", "Waddell & Reed", "Wasatch", "Wells Fargo Funds", "William Blair", "WisdomTree",
        ];
        assert(strs_view(r@) =~= Self::spec_names());
        r
    }

    /// Distinct values have distinct keys: the key of a value decodes to that value.
    pub proof fn lemma_decode_key(v: FundFamily)
        ensures
            Self::spec_decode(v.spec_key()) == Some(v),
    {
        match v {
            FundFamily::ALPS => {
                reveal_strlit("ALPS");
            },
            FundFamily::AMGFunds => {
                reveal_strlit("AMG Funds");
            },
            FundFamily::AQRFunds => {
                reveal_strlit("AQR Funds");
            },
            FundFamily::Aberdeen => {
                reveal_strlit("Aberdeen");
            },
            FundFamily::Alger => {
                reveal_strlit("Alger");
            },
            FundFamily::AllianceBernstein => {
                reveal_strlit("AllianceBernstein");
            },
            FundFamily::AllianzFunds => {
                reveal_strlit("Allianz Funds");
            },
            FundFamily::AmericanBeacon => {
                reveal_strlit("American Beacon");
            },
            FundFamily::AmericanCenturyInvestments => {
                reveal_strlit("American Century Investments");
            },
            FundFamily::AmericanFunds => {
                reveal_strlit("American Funds");
            },
            FundFamily::Aquila => {
                reveal_strlit("Aquila");
            },
            FundFamily::Artisan => {
                reveal_strlit("Artisan");
            },
            FundFamily::BMOFunds => {
                reveal_strlit("BMO Funds");
            },
            FundFamily::BNYMellonFunds => {
                reveal_strlit("BNY Mellon Funds");
            },
            FundFamily::Baird => {
                reveal_strlit("Baird");
            },
            FundFamily::BarclaysFunds => {
                reveal_strlit("Barclays Funds");
            },
            FundFamily::BaringsFunds => {
                reveal_strlit("Barings Funds");
            },
            FundFamily::BaronCapitalGroup => {
                reveal_strlit("Baron Capital Group");
            },
            FundFamily::BlackRock => {
                reveal_strlit("BlackRock");
            },
            FundFamily::BrownAdvisoryFunds => {
                reveal_strlit("Brown Advisory Funds");
            },
            FundFamily::Calamos => {
                reveal_strlit("Calamos");
            },
            FundFamily::CalvertInvestments => {
                reveal_strlit("Calvert Investments");
            },
            FundFamily::CatalystMutualFunds => {
                reveal_strlit("Catalyst Mutual Funds");
            },
            FundFamily::CohenSteers => {
                reveal_strlit("Cohen & Steers");
            },
            FundFamily::Columbia => {
                reveal_strlit("Columbia");
            },
            FundFamily::CommerzFundsSolutionsSA => {
                reveal_strlit("Commerz Funds Solutions SA");
            },
            FundFamily::CommerzbankAGFrankfurtAmMain => {
                reveal_strlit("Commerzbank AG, Frankfurt am Main");
            },
            FundFamily::DavisFunds => {
                reveal_strlit("Davis Funds");
            },
            FundFamily::DelawareInvestments => {
                reveal_strlit("Delaware Investments");
            },
            FundFamily::DeutscheAssetManagement => {
                reveal_strlit("Deutsche Asset Management");
            },
            FundFamily::DeutscheBankAG => {
                reveal_strlit("Deutsche Bank AG");
            },
            FundFamily::DiamondHillFunds => {
                reveal_strlit("Diamond Hill Funds");
            },
            FundFamily::DimensionalFundAdvisors => {
                reveal_strlit("Dimensional Fund Advisors");
            },
            FundFamily::DirexionFunds => {
                reveal_strlit("Direxion Funds");
            },
            FundFamily::DoubleLine => {
                reveal_strlit("DoubleLine");
            },
            FundFamily::Dreyfus => {
                reveal_strlit("Dreyfus");
            },
            FundFamily::DunhamFunds => {
                reveal_strlit("Dunham Funds");
            },
            FundFamily::EagleFunds => {
                reveal_strlit("Eagle Funds");
            },
            FundFamily::EatonVance => {
                reveal_strlit("Eaton Vance");
            },
            FundFamily::Federated => {
                reveal_strlit("Federated");
            },
            FundFamily::FidelityInvestments => {
                reveal_strlit("Fidelity Investments");
            },
            FundFamily::FirstInvestors => {
                reveal_strlit("First Investors");
            },
            FundFamily::FirstTrust => {
                reveal_strlit("First Trust");
            },
            FundFamily::FlexsharesTrust => {
                reveal_strlit("Flexshares Trust");
            },
            FundFamily::FranklinTempletonInvestments => {
                reveal_strlit("Franklin Templeton Investments");
            },
            FundFamily::GMO => {
                reveal_strlit("GMO");
            },
            FundFamily::Gabelli => {
                reveal_strlit("Gabelli");
            },
            FundFamily::GlobalXFunds => {
                reveal_strlit("Global X Funds");
            },
            FundFamily::GoldmanSachs => {
                reveal_strlit("Goldman Sachs");
            },
            FundFamily::GreatWestFunds => {
                reveal_strlit("Great-West Funds");
            },
            FundFamily::GuggenheimInvestments => {
                reveal_strlit("Guggenheim Investments");
            },
            FundFamily::GuideStoneFunds => {
                reveal_strlit("GuideStone Funds");
            },
            FundFamily::HSBC => {
                reveal_strlit("HSBC");
            },
            FundFamily::HancockHorizon => {
                reveal_strlit("Hancock Horizon");
            },
            FundFamily::Harbor => {
                reveal_strlit("Harbor");
            },
            FundFamily::HartfordMutualFunds => {
                reveal_strlit("Hartford Mutual Funds");
            },
            FundFamily::HendersonGlobal => {
                reveal_strlit("Henderson Global");
            },
            FundFamily::Hennessy => {
                reveal_strlit("Hennessy");
            },
            FundFamily::HighlandFunds => {
                reveal_strlit("Highland Funds");
            },
            FundFamily::ICONFunds => {
                reveal_strlit("ICON Funds");
            },
            FundFamily::Invesco => {
                reveal_strlit("Invesco");
            },
            FundFamily::IvyFunds => {
                reveal_strlit("Ivy Funds");
            },
            FundFamily::JPMorgan => {
                reveal_strlit("JPMorgan");
            },
            FundFamily::Janus => {
                reveal_strlit("Janus");
            },
            FundFamily::JohnHancock => {
                reveal_strlit("John Hancock");
            },
            FundFamily::Lazard => {
                reveal_strlit("Lazard");
            },
            FundFamily::LeggMason => {
                reveal_strlit("Legg Mason");
            },
            FundFamily::LordAbbett => {
                reveal_strlit("Lord Abbett");
            },
            FundFamily::MFS => {
                reveal_strlit("MFS");
            },
            FundFamily::MadisonFunds => {
                reveal_strlit("Madison Funds");
            },
            FundFamily::MainStay => {
                reveal_strlit("MainStay");
            },
            FundFamily::ManningNapier => {
                reveal_strlit("Manning & Napier");
            },
            FundFamily::MarketVectors => {
                reveal_strlit("Market Vectors");
            },
            FundFamily::MassMutual => {
                reveal_strlit("MassMutual");
            },
            FundFamily::MatthewsAsiaFunds => {
                reveal_strlit("Matthews Asia Funds");
            },
            FundFamily::MorganStanley => {
                reveal_strlit("Morgan Stanley");
            },
            FundFamily::Nationwide => {
                reveal_strlit("Nationwide");
            },
            FundFamily::NatixisFunds => {
                reveal_strlit("Natixis Funds");
            },
            FundFamily::NeubergerBerman => {
                reveal_strlit("Neuberger Berman");
            },
            FundFamily::NorthernFunds => {
                reveal_strlit("Northern Funds");
            },
            FundFamily::Nuveen => {
                reveal_strlit("Nuveen");
            },
            FundFamily::OppenheimerFunds => {
                reveal_strlit("OppenheimerFunds");
            },
            FundFamily::PNCFunds => {
                reveal_strlit("PNC Funds");
            },
            FundFamily::PacificFundsSeriesTrust => {
                reveal_strlit("Pacific funds series trust");
            },
            FundFamily::PaxWorld => {
                reveal_strlit("Pax World");
            },
            FundFamily::Paydenfunds => {
                reveal_strlit("Paydenfunds");
            },
            FundFamily::Pimco => {
                reveal_strlit("Pimco");
            },
            FundFamily::PioneerInvestments => {
                reveal_strlit("Pioneer Investments");
            },
            FundFamily::PowerShares => {
                reveal_strlit("PowerShares");
            },
            FundFamily::PrincipalFunds => {
                reveal_strlit("Principal Funds");
            },
            FundFamily::ProFunds => {
                reveal_strlit("ProFunds");
            },
            FundFamily::ProShares => {
                reveal_strlit("ProShares");
            },
            FundFamily::PrudentialInvestments => {
                reveal_strlit("Prudential Investments");
            },
            FundFamily::Putnam => {
                reveal_strlit("Putnam");
            },
            FundFamily::RBCGlobalAssetManagement => {
                reveal_strlit("RBC Global Asset Management");
            },
            FundFamily::RidgeWorth => {
                reveal_strlit("RidgeWorth");
            },
            FundFamily::Royce => {
                reveal_strlit("Royce");
            },
            FundFamily::Russell => {
                reveal_strlit("Russell");
            },
            FundFamily::RydexFunds => {
                reveal_strlit("Rydex Funds");
            },
            FundFamily::SEI => {
                reveal_strlit("SEI");
            },
            FundFamily::SPDRStateStreetGlobalAdvisors => {
                reveal_strlit("SPDR State Street Global Advisors");
            },
            FundFamily::SalientFunds => {
                reveal_strlit("Salient Funds");
            },
            FundFamily::Saratoga => {
                reveal_strlit("Saratoga");
            },
            FundFamily::SchwabFunds => {
                reveal_strlit("Schwab Funds");
            },
            FundFamily::Sentinel => {
                reveal_strlit("Sentinel");
            },
            FundFamily::SheltonCapitalManagement => {
                reveal_strlit("Shelton Capital Management");
            },
            FundFamily::StateFarm => {
                reveal_strlit("State Farm");
            },
            FundFamily::StateStreetGlobalAdvisorsChicago => {
                reveal_strlit("State Street Global Advisors (Chicago)");
            },
            FundFamily::SterlingCapitalFunds => {
                reveal_strlit("Sterling Capital Funds");
            },
            FundFamily::SunAmerica => {
                reveal_strlit("SunAmerica");
            },
            FundFamily::TRowePrice => {
                reveal_strlit("T. Rowe Price");
            },
            FundFamily::TCW => {
                reveal_strlit("TCW");
            },
            FundFamily::TIAACREFAsssetManagement => {
                reveal_strlit("TIAA-CREF Asset Management");
            },
            FundFamily::TetonWestwoodFunds => {
                reveal_strlit("Teton Westwood Funds");
            },
            FundFamily::Thornburg => {
                reveal_strlit("Thornburg");
            },
            FundFamily::Thrivent => {
                reveal_strlit("Thrivent");
            },
            FundFamily::TimothyPlan => {
                reveal_strlit("Timothy Plan");
            },
            FundFamily::Touchstone => {
                reveal_strlit("Touchstone");
            },
            FundFamily::Transamerica => {
                reveal_strlit("Transamerica");
            },
            FundFamily::UBS => {
                reveal_strlit("UBS");
            },
            FundFamily::UBSGroupAG => {
                reveal_strlit("UBS Group AG");
            },
            FundFamily::USAA => {
                reveal_strlit("USAA");
            },
            FundFamily::VALIC => {
                reveal_strlit("VALIC");
            },
            FundFamily::Vanguard => {
                reveal_strlit("Vanguard");
            },
            FundFamily::VantagepointFunds => {
                reveal_strlit("Vantagepoint Funds");
            },
            FundFamily::Victory => {
                reveal_strlit("Victory");
            },
            FundFamily::Virtus => {
                reveal_strlit("Virtus");
            },
            FundFamily::Voya => {
                reveal_strlit("Voya");
            },
            FundFamily::WaddellReed => {
                reveal_strlit("Waddell & Reed");
            },
            FundFamily::Wasatch => {
                reveal_strlit("Wasatch");
            },
            FundFamily::WellsFargoFunds => {
                reveal_strlit("Wells Fargo Funds");
            },
            FundFamily::WilliamBlair => {
                reveal_strlit("William Blair");
            },
            FundFamily::WisdomTree => {
                reveal_strlit("WisdomTree");
            },
        }
    }

    /// Parsing the key of a value gives back that value.
    pub proof fn lemma_key_round_trip(a: FundFamily, b: FundFamily)
        requires
            a.spec_key() == b.spec_key(),
        ensures
            a == b,
    {
        Self::lemma_decode_key(a);
        Self::lemma_decode_key(b);
    }
}

/// Industry of an equity; each industry belongs to one sector.
#[derive(Debug, Clone, Copy, PartialEq, Eq, Structural, Hash)]
pub enum Industry {
    AgriculturalInputs,
    BuildingMaterials,
    Chemicals,
    SpecialtyChemicals,
    LumberAndWoodProduction,
    PaperAndPaperProducts,
    Aluminum,
    Copper,
    OtherIndustrialMetalsAndMining,
    Gold,
    Silver,
    OtherPreciousMetalsAndMining,
    CokingCoal,
    Steel,
    AutoAndTruckDealerships,
    AutoManufacturers,
    AutoParts,
    RecreationalVehicles,
    FurnishingsFixturesAndAppliances,
    ResidentialConstruction,
    TextileManufacturing,
    ApparelManufacturing,
    FootwearAndAccessories,
    PackagingAndContainers,
    PersonalServices,
    Restaurants,
    ApparelRetail,
    DepartmentStores,
    HomeImprovementRetail,
    LuxuryGoods,
    InternetRetail,
    SpecialtyRetail,
    Gambling,
    Leisure,
    Lodging,
    ResortsAndCasinos,
    TravelServices,
    AssetManagement,
    BanksDiversified,
    BanksRegional,
    MortgageFinance,
    CapitalMarkets,
    FinancialDataAndStockExchanges,
    InsuranceLife,
    InsurancePropertyAndCasualty,
    InsuranceReinsurance,
    InsuranceSpecialty,
    InsuranceBrokers,
    InsuranceDiversified,
    ShellCompanies,
    FinancialConglomerates,
    CreditServices,
    RealEstateDevelopment,
    RealEstateServices,
    RealEstateDiversified,
    ReitHealthcareFacilities,
    ReitHotelAndMotel,
    ReitIndustrial,
    ReitOffice,
    ReitResidential,
    ReitRetail,
    ReitMortgage,
    ReitSpecialty,
    ReitDiversified,
    Biotechnology,
    DrugManufacturersGeneral,
    DrugManufacturersSpecialtyAndGeneric,
    HealthcarePlans,
    MedicalCareFacilities,
    PharmaceuticalRetailers,
    HealthInformationServices,
    MedicalDevices,
    MedicalInstrumentsAndSupplies,
    DiagnosticsAndResearch,
    MedicalDistribution,
    OilAndGasDrilling,
    OilAndGasEP,
    OilAndGasIntegrated,
    OilAndGasMidstream,
    OilAndGasRefiningAndMarketing,
    OilAndGasEquipmentAndServices,
    ThermalCoal,
    Uranium,
    UtilitiesIndependentPowerProducers,
    UtilitiesRenewable,
    UtilitiesRegulatedWater,
    UtilitiesRegulatedElectric,
    UtilitiesRegulatedGas,
    UtilitiesDiversified,
    TelecomServices,
    AdvertisingAgencies,
    Publishing,
    Broadcasting,
    Entertainment,
    InternetContentAndInformation,
    ElectronicGamingAndMultimedia,
    InformationTechnologyServices,
    SoftwareApplication,
    SoftwareInfrastructure,
    CommunicationEquipment,
    ComputerHardware,
    ConsumerElectronics,
    ElectronicComponents,
    ElectronicsAndComputerDistribution,
    ScientificAndTechnicalInstruments,
    SemiconductorEquipmentAndMaterials,
    Semiconductors,
    Solar,
}

impl Industry {
    /// The name of this industry.
    pub open spec fn spec_key(self) -> Seq<char> {
        match self {
            Industry::AgriculturalInputs => "Agricultural Inputs"@,
            Industry::BuildingMaterials => "Building Materials"@,
            Industry::Chemicals => "Chemicals"@,
            Industry::SpecialtyChemicals => "Specialty Chemicals"@,
            Industry::LumberAndWoodProduction => "Lumber & Wood Production"@,
            Industry::PaperAndPaperProducts => "Paper & Paper Products"@,
            Industry::Aluminum => "Aluminum"@,
            Industry::Copper => "Copper"@,
            Industry::OtherIndustrialMetalsAndMining => "Other Industrial Metals & Mining"@,
            Industry::Gold => "Gold"@,
            Industry::Silver => "Silver"@,
            Industry::OtherPreciousMetalsAndMining => "Other Precious Metals & Mining"@,
            Industry::CokingCoal => "Coking Coal"@,
            Industry::Steel => "Steel"@,
            Industry::AutoAndTruckDealerships => "Auto & Truck Dealerships"@,
            Industry::AutoManufacturers => "Auto Manufacturers"@,
            Industry::AutoParts => "Auto Parts"@,
            Industry::RecreationalVehicles => "Recreational Vehicles"@,
            Industry::FurnishingsFixturesAndAppliances => "Furnishings, Fixtures & Appliances"@,
            Industry::ResidentialConstruction => "Residential Construction"@,
            Industry::TextileManufacturing => "Textile Manufacturing"@,
            Industry::ApparelManufacturing => "Apparel Manufacturing"@,
            Industry::FootwearAndAccessories => "Footwear & Accessories"@,
            Industry::PackagingAndContainers => "Packaging & Containers"@,
            Industry::PersonalServices => "Personal Services"@,
            Industry::Restaurants => "Restaurants"@,
            Industry::ApparelRetail => "Apparel Retail"@,
            Industry::DepartmentStores => "Department Stores"@,
            Industry::HomeImprovementRetail => "Home Improvement Retail"@,
            Industry::LuxuryGoods => "Luxury Goods"@,
            Industry::InternetRetail => "Internet Retail"@,
            Industry::SpecialtyRetail => "Specialty Retail"@,
            Industry::Gambling => "Gambling"@,
            Industry::Leisure => "Leisure"@,
            Industry::Lodging => "Lodging"@,
            Industry::ResortsAndCasinos => "Resorts & Casinos"@,
            Industry::TravelServices => "Travel Services"@,
            Industry::AssetManagement => "Asset Management"@,
            Industry::BanksDiversified => "Banks - Diversified"@,
            Industry::BanksRegional => "Banks - Regional"@,
            Industry::MortgageFinance => "Mortgage Finance"@,
            Industry::CapitalMarkets => "Capital Markets"@,
            Industry::FinancialDataAndStockExchanges => "Financial Data & Stock Exchanges"@,
            Industry::InsuranceLife => "Insurance - Life"@,
            Industry::InsurancePropertyAndCasualty => "Insurance - Property & Casualty"@,
            Industry::InsuranceReinsurance => "Insurance - Reinsurance"@,
            Industry::InsuranceSpecialty => "Insurance - Specialty"@,
            Industry::InsuranceBrokers => "Insurance Brokers"@,
            Industry::InsuranceDiversified => "Insurance - Diversified"@,
            Industry::ShellCompanies => "Shell Companies"@,
            Industry::FinancialConglomerates => "Financial Conglomerates"@,
            Industry::CreditServices => "Credit Services"@,
            Industry::RealEstateDevelopment => "Real Estate - Development"@,
            Industry::RealEstateServices => "Real Estate Services"@,
            Industry::RealEstateDiversified => "Real Estate - Diversified"@,
            Industry::ReitHealthcareFacilities => "REIT - Healthcare Facilities"@,
            Industry::ReitHotelAndMotel => "REIT - Hotel & Motel"@,
            Industry::ReitIndustrial => "REIT - Industrial"@,
            Industry::ReitOffice => "REIT - Office"@,
            Industry::ReitResidential => "REIT - Residential"@,
            Industry::ReitRetail => "REIT - Retail"@,
            Industry::ReitMortgage => "REIT - Mortgage"@,
            Industry::ReitSpecialty => "REIT - Specialty"@,
            Industry::ReitDiversified => "REIT - Diversified"@,
            Industry::Biotechnology => "Biotechnology"@,
            Industry::DrugManufacturersGeneral => "Drug Manufacturers - General"@,
            Industry::DrugManufacturersSpecialtyAndGeneric => "Drug Manufacturers - Specialty & Generic"@,
            Industry::HealthcarePlans => "Healthcare Plans"@,
            Industry::MedicalCareFacilities => "Medical Care Facilities"@,
            Industry::PharmaceuticalRetailers => "Pharmaceutical Retailers"@,
            Industry::HealthInformationServices => "Health Information Services"@,
            Industry::MedicalDevices => "Medical Devices"@,
            Industry::MedicalInstrumentsAndSupplies => "Medical Instruments & Supplies"@,
            Industry::DiagnosticsAndResearch => "Diagnostics & Research"@,
            Industry::MedicalDistribution => "Medical Distribution"@,
            Industry::OilAndGasDrilling => "Oil & Gas Drilling"@,
            Industry::OilAndGasEP => "Oil & Gas E&P"@,
            Industry::OilAndGasIntegrated => "Oil & Gas Integrated"@,
            Industry::OilAndGasMidstream => "Oil & Gas Midstream"@,
            Industry::OilAndGasRefiningAndMarketing => "Oil & Gas Refining & Marketing"@,
            Industry::OilAndGasEquipmentAndServices => "Oil & Gas Equipment & Services"@,
            Industry::ThermalCoal => "Thermal Coal"@,
            Industry::Uranium => "Uranium"@,
            Industry::UtilitiesIndependentPowerProducers => "Utilities - Independent Power Producers"@,
            Industry::UtilitiesRenewable => "Utilities - Renewable"@,
            Industry::UtilitiesRegulatedWater => "Utilities - Regulated Water"@,
            Industry::UtilitiesRegulatedElectric => "Utilities - Regulated Electric"@,
            Industry::UtilitiesRegulatedGas => "Utilities - Regulated Gas"@,
            Industry::UtilitiesDiversified => "Utilities - Diversified"@,
            Industry::TelecomServices => "Telecom Services"@,
            Industry::AdvertisingAgencies => "Advertising Agencies"@,
            Industry::Publishing => "Publishing"@,
            Industry::Broadcasting => "Broadcasting"@,
            Industry::Entertainment => "Entertainment"@,
            Industry::InternetContentAndInformation => "Internet Content & Information"@,
            Industry::ElectronicGamingAndMultimedia => "Electronic Gaming & Multimedia"@,
            Industry::InformationTechnologyServices => "Information Technology Services"@,
            Industry::SoftwareApplication => "Software - Application"@,
            Industry::SoftwareInfrastructure => "Software - Infrastructure"@,
            Industry::CommunicationEquipment => "Communication Equipment"@,
            Industry::ComputerHardware => "Computer Hardware"@,
            Industry::ConsumerElectronics => "Consumer Electronics"@,
            Industry::ElectronicComponents => "Electronic Components"@,
            Industry::ElectronicsAndComputerDistribution => "Electronics & Computer Distribution"@,
            Industry::ScientificAndTechnicalInstruments => "Scientific & Technical Instruments"@,
            Industry::SemiconductorEquipmentAndMaterials => "Semiconductor Equipment & Materials"@,
            Industry::Semiconductors => "Semiconductors"@,
            Industry::Solar => "Solar"@,
        }
    }

    /// Every value, in declaration order.
    pub open spec fn spec_all() -> Seq<Industry> {
        seq![
            Industry::AgriculturalInputs, Industry::BuildingMaterials, Industry::Chemicals,
            Industry::SpecialtyChemicals, Industry::LumberAndWoodProduction,
            Industry::PaperAndPaperProducts, Industry::Aluminum, Industry::Copper,
            Industry::OtherIndustrialMetalsAndMining, Industry::Gold, Industry::Silver,
            Industry::OtherPreciousMetalsAndMining, Industry::CokingCoal, Industry::Steel,
            Industry::AutoAndTruckDealerships, Industry::AutoManufacturers, Industry::AutoParts,
            Industry::RecreationalVehicles, Industry::FurnishingsFixturesAndAppliances,
            Industry::ResidentialConstruction, Industry::TextileManufacturing,
            Industry::ApparelManufacturing, Industry::FootwearAndAccessories,
            Industry::PackagingAndContainers, Industry::PersonalServices, Industry::Restaurants,
            Industry::ApparelRetail, Industry::DepartmentStores, Industry::HomeImprovementRetail,
            Industry::LuxuryGoods, Industry::InternetRetail, Industry::SpecialtyRetail,
            Industry::Gambling, Industry::Leisure, Industry::Lodging, Industry::ResortsAndCasinos,
            Industry::TravelServices, Industry::AssetManagement, Industry::BanksDiversified,
            Industry::BanksRegional, Industry::MortgageFinance, Industry::CapitalMarkets,
            Industry::FinancialDataAndStockExchanges, Industry::InsuranceLife,
            Industry::InsurancePropertyAndCasualty, Industry::InsuranceReinsurance,
            Industry::InsuranceSpecialty, Industry::InsuranceBrokers,
            Industry::InsuranceDiversified, Industry::ShellCompanies,
            Industry::FinancialConglomerates, Industry::CreditServices,
            Industry::RealEstateDevelopment, Industry::RealEstateServices,
            Industry::RealEstateDiversified, Industry::ReitHealthcareFacilities,
            Industry::ReitHotelAndMotel, Industry::ReitIndustrial, Industry::ReitOffice,
            Industry::ReitResidential, Industry::ReitRetail, Industry::ReitMortgage,
            Industry::ReitSpecialty, Industry::ReitDiversified, Industry::Biotechnology,
            Industry::DrugManufacturersGeneral, Industry::DrugManufacturersSpecialtyAndGeneric,
            Industry::HealthcarePlans, Industry::MedicalCareFacilities,
            Industry::PharmaceuticalRetailers, Industry::HealthInformationServices,
            Industry::MedicalDevices, Industry::MedicalInstrumentsAndSupplies,
            Industry::DiagnosticsAndResearch, Industry::MedicalDistribution,
            Industry::OilAndGasDrilling, Industry::OilAndGasEP, Industry::OilAndGasIntegrated,
            Industry::OilAndGasMidstream, Industry::OilAndGasRefiningAndMarketing,
            Industry::OilAndGasEquipmentAndServices, Industry::ThermalCoal, Industry::Uranium,
            Industry::UtilitiesIndependentPowerProducers, Industry::UtilitiesRenewable,
            Industry::UtilitiesRegulatedWater, Industry::UtilitiesRegulatedElectric,
            Industry::UtilitiesRegulatedGas, Industry::UtilitiesDiversified,
            Industry::TelecomServices, Industry::AdvertisingAgencies, Industry::Publishing,
            Industry::Broadcasting, Industry::Entertainment,
            Industry::InternetContentAndInformation, Industry::ElectronicGamingAndMultimedia,
            Industry::InformationTechnologyServices, Industry::SoftwareApplication,
            Industry::SoftwareInfrastructure, Industry::CommunicationEquipment,
            Industry::ComputerHardware, Industry::ConsumerElectronics,
            Industry::ElectronicComponents, Industry::ElectronicsAndComputerDistribution,
            Industry::ScientificAndTechnicalInstruments,
            Industry::SemiconductorEquipmentAndMaterials, Industry::Semiconductors, Industry::Solar,
        ]
    }

    /// The keys of every value, in declaration order.
    pub open spec fn spec_names() -> Seq<Seq<char>> {
        Self::spec_all().map_values(|v: Industry| v.spec_key())
    }

    /// Reads a value back from its key by the characters that tell the keys apart.
    pub open spec fn spec_decode(s: Seq<char>) -> Option<Industry> {
        if s.len() == 4 {
            Some(Industry::Gold)
        } else if s.len() == 5 {
            if s[1] == 'o' {
                Some(Industry::Solar)
            } else if s[1] == 't' {
                Some(Industry::Steel)
            } else {
                None
            }
        } else if s.len() == 6 {
            if s[0] == 'C' {
                Some(Industry::Copper)
            } else if s[0] == 'S' {
                Some(Industry::Silver)
            } else {
                None
            }
        } else if s.len() == 7 {
            if s[1] == 'e' {
                Some(Industry::Leisure)
            } else if s[1] == 'o' {
                Some(Industry::Lodging)
            } else if s[1] == 'r' {
                Some(Industry::Uranium)
            } else {
                None
            }
        } else if s.len() == 8 {
            if s[0] == 'A' {
                Some(Industry::Aluminum)
            } else if s[0] == 'G' {
                Some(Industry::Gambling)
            } else {
                None
            }
        } else if s.len() == 9 {
            Some(Industry::Chemicals)
        } else if s.len() == 10 {
            if s[0] == 'A' {
                Some(Industry::AutoParts)
            } else if s[0] == 'P' {
                Some(Industry::Publishing)
            } else {
                None
            }
        } else if s.len() == 11 {
            if s[0] == 'C' {
                Some(Industry::CokingCoal)
            } else if s[0] == 'R' {
                Some(Industry::Restaurants)
            } else {
                None
            }
        } else if s.len() == 12 {
            if s[0] == 'B' {
                Some(Industry::Broadcasting)
            } else if s[0] == 'L' {
                Some(Industry::LuxuryGoods)
            } else if s[0] == 'T' {
                Some(Industry::ThermalCoal)
            } else {
                None
            }
        } else if s.len() == 13 {
            if s[7] == 'O' {
                Some(Industry::ReitOffice)
            } else if s[7] == 'R' {
                Some(Industry::ReitRetail)
            } else if s[7] == 'a' {
                Some(Industry::OilAndGasEP)
            } else if s[7] == 'i' {
                Some(Industry::Entertainment)
            } else if s[7] == 'n' {
                Some(Industry::Biotechnology)
            } else {
                None
            }
        } else if s.len() == 14 {
            if s[0] == 'A' {
                Some(Industry::ApparelRetail)
            } else if s[0] == 'S' {
                Some(Industry::Semiconductors)
            } else {
                None
            }
        } else if s.len() == 15 {
            if s[4] == ' ' {
                Some(Industry::ReitMortgage)
            } else if s[4] == 'c' {
                Some(Industry::MedicalDevices)
            } else if s[4] == 'e' {
                Some(Industry::TravelServices)
            } else if s[4] == 'i' {
                Some(Industry::CreditServices)
            } else if s[4] == 'l' {
                Some(Industry::ShellCompanies)
            } else if s[4] == 'r' {
                Some(Industry::InternetRetail)
            } else if s[4] == 't' {
                Some(Industry::CapitalMarkets)
            } else {
                None
            }
        } else if s.len() == 16 {
            if s[0] == 'A' {
                Some(Industry::AssetManagement)
            } else if s[0] == 'B' {
                Some(Industry::BanksRegional)
            } else if s[0] == 'H' {
                Some(Industry::HealthcarePlans)
            } else if s[0] == 'I' {
                Some(Industry::InsuranceLife)
            } else if s[0] == 'M' {
                Some(Industry::MortgageFinance)
            } else if s[0] == 'R' {
                Some(Industry::ReitSpecialty)
            } else if s[0] == 'S' {
                Some(Industry::SpecialtyRetail)
            } else if s[0] == 'T' {
                Some(Industry::TelecomServices)
            } else {
                None
            }
        } else if s.len() == 17 {
            if s[3] == 'T' {
                Some(Industry::ReitIndustrial)
            } else if s[3] == 'a' {
                Some(Industry::DepartmentStores)
            } else if s[3] == 'o' {
                Some(Industry::ResortsAndCasinos)
            } else if s[3] == 'p' {
                Some(Industry::ComputerHardware)
            } else if s[3] == 's' {
                Some(Industry::PersonalServices)
            } else if s[3] == 'u' {
                Some(Industry::InsuranceBrokers)
            } else {
                None
            }
        } else if s.len() == 18 {
            if s[7] == 'D' {
                Some(Industry::ReitDiversified)
            } else if s[7] == 'R' {
                Some(Industry::ReitResidential)
            } else if s[7] == 'a' {
                Some(Industry::OilAndGasDrilling)
            } else if s[7] == 'g' {
                Some(Industry::BuildingMaterials)
            } else if s[7] == 'n' {
                Some(Industry::AutoManufacturers)
            } else {
                None
            }
        } else if s.len() == 19 {
            if s[0] == 'A' {
                Some(Industry::AgriculturalInputs)
            } else if s[0] == 'B' {
                Some(Industry::BanksDiversified)
            } else if s[0] == 'O' {
                Some(Industry::OilAndGasMidstream)
            } else if s[0] == 'S' {
                Some(Industry::SpecialtyChemicals)
            } else {
                None
            }
        } else if s.len() == 20 {
            if s[2] == 'I' {
                Some(Industry::ReitHotelAndMotel)
            } else if s[2] == 'a' {
                Some(Industry::RealEstateServices)
            } else if s[2] == 'd' {
                Some(Industry::MedicalDistribution)
            } else if s[2] == 'l' {
                Some(Industry::OilAndGasIntegrated)
            } else if s[2] == 'n' {
                Some(Industry::ConsumerElectronics)
            } else if s[2] == 'v' {
                Some(Industry::AdvertisingAgencies)
            } else {
                None
            }
        } else if s.len() == 21 {
            if s[0] == 'A' {
                Some(Industry::ApparelManufacturing)
            } else if s[0] == 'E' {
                Some(Industry::ElectronicComponents)
            } else if s[0] == 'I' {
                Some(Industry::InsuranceSpecialty)
            } else if s[0] == 'R' {
                Some(Industry::RecreationalVehicles)
            } else if s[0] == 'T' {
                Some(Industry::TextileManufacturing)
            } else if s[0] == 'U' {
                Some(Industry::UtilitiesRenewable)
            } else {
                None
            }
        } else if s.len() == 22 {
            if s[2] == 'a' {
                Some(Industry::DiagnosticsAndResearch)
            } else if s[2] == 'c' {
                Some(Industry::PackagingAndContainers)
            } else if s[2] == 'f' {
                Some(Industry::SoftwareApplication)
            } else if s[2] == 'o' {
                Some(Industry::FootwearAndAccessories)
            } else if s[2] == 'p' {
                Some(Industry::PaperAndPaperProducts)
            } else {
                None
            }
        } else if s.len() == 23 {
            if s[0] == 'C' {
                Some(Industry::CommunicationEquipment)
            } else if s[0] == 'F' {
                Some(Industry::FinancialConglomerates)
            } else if s[0] == 'H' {
                Some(Industry::HomeImprovementRetail)
            } else if s[0] == 'I' {
                if s[12] == 'D' {
                    Some(Industry::InsuranceDiversified)
                } else if s[12] == 'R' {
                    Some(Industry::InsuranceReinsurance)
                } else {
                    None
                }
            } else if s[0] == 'M' {
                Some(Industry::MedicalCareFacilities)
            } else if s[0] == 'U' {
                Some(Industry::UtilitiesDiversified)
            } else {
                None
            }
        } else if s.len() == 24 {
            if s[0] == 'A' {
                Some(Industry::AutoAndTruckDealerships)
            } else if s[0] == 'L' {
                Some(Industry::LumberAndWoodProduction)
            } else if s[0] == 'P' {
                Some(Industry::PharmaceuticalRetailers)
            } else if s[0] == 'R' {
                Some(Industry::ResidentialConstruction)
            } else {
                None
            }
        } else if s.len() == 25 {
            if s[15] == 'a' {
                Some(Industry::SoftwareInfrastructure)
            } else if s[15] == 'e' {
                Some(Industry::RealEstateDevelopment)
            } else if s[15] == 'i' {
                Some(Industry::RealEstateDiversified)
            } else if s[15] == 'u' {
                Some(Industry::UtilitiesRegulatedGas)
            } else {
                None
            }
        } else if s.len() == 27 {
            if s[0] == 'H' {
                Some(Industry::HealthInformationServices)
            } else if s[0] == 'U' {
                Some(Industry::UtilitiesRegulatedWater)
            } else {
                None
            }
        } else if s.len() == 28 {
            if s[0] == 'D' {
                Some(Industry::DrugManufacturersGeneral)
            } else if s[0] == 'R' {
                Some(Industry::ReitHealthcareFacilities)
            } else {
                None
            }
        } else if s.len() == 30 {
            if s[10] == ' ' {
                Some(Industry::ElectronicGamingAndMultimedia)
            } else if s[10] == '-' {
                Some(Industry::UtilitiesRegulatedElectric)
            } else if s[10] == 'E' {
                Some(Industry::OilAndGasEquipmentAndServices)
            } else if s[10] == 'R' {
                Some(Industry::OilAndGasRefiningAndMarketing)
            } else if s[10] == 'i' {
                Some(Industry::OtherPreciousMetalsAndMining)
            } else if s[10] == 'o' {
                Some(Industry::InternetContentAndInformation)
            } else if s[10] == 's' {
                Some(Industry::MedicalInstrumentsAndSupplies)
            } else {
                None
            }
        } else if s.len() == 31 {
            if s[2] == 'f' {
                Some(Industry::InformationTechnologyServices)
            } else if s[2] == 's' {
                Some(Industry::InsurancePropertyAndCasualty)
            } else {
                None
            }
        } else if s.len() == 32 {
            if s[0] == 'F' {
                Some(Industry::FinancialDataAndStockExchanges)
            } else if s[0] == 'O' {
                Some(Industry::OtherIndustrialMetalsAndMining)
            } else {
                None
            }
        } else if s.len() == 34 {
            if s[0] == 'F' {
                Some(Industry::FurnishingsFixturesAndAppliances)
            } else if s[0] == 'S' {
                Some(Industry::ScientificAndTechnicalInstruments)
            } else {
                None
            }
        } else if s.len() == 35 {
            if s[0] == 'E' {
                Some(Industry::ElectronicsAndComputerDistribution)
            } else if s[0] == 'S' {
                Some(Industry::SemiconductorEquipmentAndMaterials)
            } else {
                None
            }
        } else if s.len() == 39 {
            Some(Industry::UtilitiesIndependentPowerProducers)
        } else if s.len() == 40 {
            Some(Industry::DrugManufacturersSpecialtyAndGeneric)
        } else {
            None
        }
    }

    /// The key of this value.
    pub fn as_str(&self) -> (s: &'static str)
        ensures
            s@ == self.spec_key(),
    {
        match self {
            Industry::AgriculturalInputs => "Agricultural Inputs",
            Industry::BuildingMaterials => "Building Materials",
            Industry::Chemicals => "Chemicals",
            Industry::SpecialtyChemicals => "Specialty Chemicals",
            Industry::LumberAndWoodProduction => "Lumber & Wood Production",
            Industry::PaperAndPaperProducts => "Paper & Paper Products",
            Industry::Aluminum => "Aluminum",
            Industry::Copper => "Copper",
            Industry::OtherIndustrialMetalsAndMining => "Other Industrial Metals & Mining",
            Industry::Gold => "Gold",
            Industry::Silver => "Silver",
            Industry::OtherPreciousMetalsAndMining => "Other Precious Metals & Mining",
            Industry::CokingCoal => "Coking Coal",
            Industry::Steel => "Steel",
            Industry::AutoAndTruckDealerships => "Auto & Truck Dealerships",
            Industry::AutoManufacturers => "Auto Manufacturers",
            Industry::AutoParts => "Auto Parts",
            Industry::RecreationalVehicles => "Recreational Vehicles",
            Industry::FurnishingsFixturesAndAppliances => "Furnishings, Fixtures & Appliances",
            Industry::ResidentialConstruction => "Residential Construction",
            Industry::TextileManufacturing => "Textile Manufacturing",
            Industry::ApparelManufacturing => "Apparel Manufacturing",
            Industry::FootwearAndAccessories => "Footwear & Accessories",
            Industry::PackagingAndContainers => "Packaging & Containers",
            Industry::PersonalServices => "Personal Services",
            Industry::Restaurants => "Restaurants",
            Industry::ApparelRetail => "Apparel Retail",
            Industry::DepartmentStores => "Department Stores",
            Industry::HomeImprovementRetail => "Home Improvement Retail",
            Industry::LuxuryGoods => "Luxury Goods",
            Industry::InternetRetail => "Internet Retail",
            Industry::SpecialtyRetail => "Specialty Retail",
            Industry::Gambling => "Gambling",
            Industry::Leisure => "Leisure",
            Industry::Lodging => "Lodging",
            Industry::ResortsAndCasinos => "Resorts & Casinos",
            Industry::TravelServices => "Travel Services",
            Industry::AssetManagement => "Asset Management",
            Industry::BanksDiversified => "Banks - Diversified",
            Industry::BanksRegional => "Banks - Regional",
            Industry::MortgageFinance => "Mortgage Finance",
            Industry::CapitalMarkets => "Capital Markets",
            Industry::FinancialDataAndStockExchanges => "Financial Data & Stock Exchanges",
            Industry::InsuranceLife => "Insurance - Life",
            Industry::InsurancePropertyAndCasualty => "Insurance - Property & Casualty",
            Industry::InsuranceReinsurance => "Insurance - Reinsurance",
            Industry::InsuranceSpecialty => "Insurance - Specialty",
            Industry::InsuranceBrokers => "Insurance Brokers",
            Industry::InsuranceDiversified => "Insurance - Diversified",
            Industry::ShellCompanies => "Shell Companies",
            Industry::FinancialConglomerates => "Financial Conglomerates",
            Industry::CreditServices => "Credit Services",
            Industry::RealEstateDevelopment => "Real Estate - Development",
            Industry::RealEstateServices => "Real Estate Services",
            Industry::RealEstateDiversified => "Real Estate - Diversified",
            Industry::ReitHealthcareFacilities => "REIT - Healthcare Facilities",
            Industry::ReitHotelAndMotel => "REIT - Hotel & Motel",
            Industry::ReitIndustrial => "REIT - Industrial",
            Industry::ReitOffice => "REIT - Office",
            Industry::ReitResidential => "REIT - Residential",
            Industry::ReitRetail => "REIT - Retail",
            Industry::ReitMortgage => "REIT - Mortgage",
            Industry::ReitSpecialty => "REIT - Specialty",
            Industry::ReitDiversified => "REIT - Diversified",
            Industry::Biotechnology => "Biotechnology",
            Industry::DrugManufacturersGeneral => "Drug Manufacturers - General",
            Industry::DrugManufacturersSpecialtyAndGeneric => "Drug Manufacturers - Specialty & Generic",
            Industry::HealthcarePlans => "Healthcare Plans",
            Industry::MedicalCareFacilities => "Medical Care Facilities",
            Industry::PharmaceuticalRetailers => "Pharmaceutical Retailers",
            Industry::HealthInformationServices => "Health Information Services",
            Industry::MedicalDevices => "Medical Devices",
            Industry::MedicalInstrumentsAndSupplies => "Medical Instruments & Supplies",
            Industry::DiagnosticsAndResearch => "Diagnostics & Research",
            Industry::MedicalDistribution => "Medical Distribution",
            Industry::OilAndGasDrilling => "Oil & Gas Drilling",
            Industry::OilAndGasEP => "Oil & Gas E&P",
            Industry::OilAndGasIntegrated => "Oil & Gas Integrated",
            Industry::OilAndGasMidstream => "Oil & Gas Midstream",
            Industry::OilAndGasRefiningAndMarketing => "Oil & Gas Refining & Marketing",
            Industry::OilAndGasEquipmentAndServices => "Oil & Gas Equipment & Services",
            Industry::ThermalCoal => "Thermal Coal",
            Industry::Uranium => "Uranium",
            Industry::UtilitiesIndependentPowerProducers => "Utilities - Independent Power Producers",
            Industry::UtilitiesRenewable => "Utilities - Renewable",
            Industry::UtilitiesRegulatedWater => "Utilities - Regulated Water",
            Industry::UtilitiesRegulatedElectric => "Utilities - Regulated Electric",
            Industry::UtilitiesRegulatedGas => "Utilities - Regulated Gas",
            Industry::UtilitiesDiversified => "Utilities - Diversified",
            Industry::TelecomServices => "Telecom Services",
            Industry::AdvertisingAgencies => "Advertising Agencies",
            Industry::Publishing => "Publishing",
            Industry::Broadcasting => "Broadcasting",
            Industry::Entertainment => "Entertainment",
            Industry::InternetContentAndInformation => "Internet Content & Information",
            Industry::ElectronicGamingAndMultimedia => "Electronic Gaming & Multimedia",
            Industry::InformationTechnologyServices => "Information Technology Services",
            Industry::SoftwareApplication => "Software - Application",
            Industry::SoftwareInfrastructure => "Software - Infrastructure",
            Industry::CommunicationEquipment => "Communication Equipment",
            Industry::ComputerHardware => "Computer Hardware",
            Industry::ConsumerElectronics => "Consumer Electronics",
            Industry::ElectronicComponents => "Electronic Components",
            Industry::ElectronicsAndComputerDistribution => "Electronics & Computer Distribution",
            Industry::ScientificAndTechnicalInstruments => "Scientific & Technical Instruments",
            Industry::SemiconductorEquipmentAndMaterials => "Semiconductor Equipment & Materials",
            Industry::Semiconductors => "Semiconductors",
            Industry::Solar => "Solar",
        }
    }

    /// The key of this value as an owned string.
    pub fn to_string(&self) -> (s: String)
        ensures
            s@ == self.spec_key(),
    {
        owned(self.as_str())
    }

    /// Parses a key: the value whose key is `s`, and `None` when there is none.
    pub fn from_str(s: &str) -> (r: Option<Industry>)
        ensures
            forall|v: Industry| #[trigger] v.spec_key() == s@ <==> r == Some(v),
    {
        let r = Self::find(s);
        proof {
            assert forall|v: Industry| #[trigger] v.spec_key() == s@ implies r == Some(v) by {
                Self::lemma_key_round_trip(v, r->0);
            }
        }
        r
    }

    /// Tries the keys in declaration order.
    #[verifier::rlimit(60)]
    fn find(s: &str) -> (r: Option<Industry>)
        ensures
            r matches Some(v) ==> v.spec_key() == s@,
            r is None ==> forall|v: Industry| #[trigger] v.spec_key() != s@,
    {
        if str_eq(s, "Agricultural Inputs") {
            return Some(Industry::AgriculturalInputs);
        }
        if str_eq(s, "Building Materials") {
            return Some(Industry::BuildingMaterials);
        }
        if str_eq(s, "Chemicals") {
            return Some(Industry::Chemicals);
        }
        if str_eq(s, "Specialty Chemicals") {
            return Some(Industry::SpecialtyChemicals);
        }
        if str_eq(s, "Lumber & Wood Production") {
            return Some(Industry::LumberAndWoodProduction);
        }
        if str_eq(s, "Paper & Paper Products") {
            return Some(Industry::PaperAndPaperProducts);
        }
        if str_eq(s, "Aluminum") {
            return Some(Industry::Aluminum);
        }
        if str_eq(s, "Copper") {
            return Some(Industry::Copper);
        }
        if str_eq(s, "Other Industrial Metals & Mining") {
            return Some(Industry::OtherIndustrialMetalsAndMining);
        }
        if str_eq(s, "Gold") {
            return Some(Industry::Gold);
        }
        if str_eq(s, "Silver") {
            return Some(Industry::Silver);
        }
        if str_eq(s, "Other Precious Metals & Mining") {
            return Some(Industry::OtherPreciousMetalsAndMining);
        }
        if str_eq(s, "Coking Coal") {
            return Some(Industry::CokingCoal);
        }
        if str_eq(s, "Steel") {
            return Some(Industry::Steel);
        }
        if str_eq(s, "Auto & Truck Dealerships") {
            return Some(Industry::AutoAndTruckDealerships);
        }
        if str_eq(s, "Auto Manufacturers") {
            return Some(Industry::AutoManufacturers);
        }
        if str_eq(s, "Auto Parts") {
            return Some(Industry::AutoParts);
        }
        if str_eq(s, "Recreational Vehicles") {
            return Some(Industry::RecreationalVehicles);
        }
        if str_eq(s, "Furnishings, Fixtures & Appliances") {
            return Some(Industry::FurnishingsFixturesAndAppliances);
        }
        if str_eq(s, "Residential Construction") {
            return Some(Industry::ResidentialConstruction);
        }
        if str_eq(s, "Textile Manufacturing") {
            return Some(Industry::TextileManufacturing);
        }
        if str_eq(s, "Apparel Manufacturing") {
            return Some(Industry::ApparelManufacturing);
        }
        if str_eq(s, "Footwear & Accessories") {
            return Some(Industry::FootwearAndAccessories);
        }
        if str_eq(s, "Packaging & Containers") {
            return Some(Industry::PackagingAndContainers);
        }
        if str_eq(s, "Personal Services") {
            return Some(Industry::PersonalServices);
        }
        if str_eq(s, "Restaurants") {
            return Some(Industry::Restaurants);
        }
        if str_eq(s, "Apparel Retail") {
            return Some(Industry::ApparelRetail);
        }
        if str_eq(s, "Department Stores") {
            return Some(Industry::DepartmentStores);
        }
        if str_eq(s, "Home Improvement Retail") {
            return Some(Industry::HomeImprovementRetail);
        }
        if str_eq(s, "Luxury Goods") {
            return Some(Industry::LuxuryGoods);
        }
        if str_eq(s, "Internet Retail") {
            return Some(Industry::InternetRetail);
        }
        if str_eq(s, "Specialty Retail") {
            return Some(Industry::SpecialtyRetail);
        }
        if str_eq(s, "Gambling") {
            return Some(Industry::Gambling);
        }
        if str_eq(s, "Leisure") {
            return Some(Industry::Leisure);
        }
        if str_eq(s, "Lodging") {
            return Some(Industry::Lodging);
        }
        if str_eq(s, "Resorts & Casinos") {
            return Some(Industry::ResortsAndCasinos);
        }
        if str_eq(s, "Travel Services") {
            return Some(Industry::TravelServices);
        }
        if str_eq(s, "Asset Management") {
            return Some(Industry::AssetManagement);
        }
        if str_eq(s, "Banks - Diversified") {
            return Some(Industry::BanksDiversified);
        }
        if str_eq(s, "Banks - Regional") {
            return Some(Industry::BanksRegional);
        }
        if str_eq(s, "Mortgage Finance") {
            return Some(Industry::MortgageFinance);
        }
        if str_eq(s, "Capital Markets") {
            return Some(Industry::CapitalMarkets);
        }
        if str_eq(s, "Financial Data & Stock Exchanges") {
            return Some(Industry::FinancialDataAndStockExchanges);
        }
        if str_eq(s, "Insurance - Life") {
            return Some(Industry::InsuranceLife);
        }
        if str_eq(s, "Insurance - Property & Casualty") {
            return Some(Industry::InsurancePropertyAndCasualty);
        }
        if str_eq(s, "Insurance - Reinsurance") {
            return Some(Industry::InsuranceReinsurance);
        }
        if str_eq(s, "Insurance - Specialty") {
            return Some(Industry::InsuranceSpecialty);
        }
        if str_eq(s, "Insurance Brokers") {
            return Some(Industry::InsuranceBrokers);
        }
        if str_eq(s, "Insurance - Diversified") {
            return Some(Industry::InsuranceDiversified);
        }
        if str_eq(s, "Shell Companies") {
            return Some(Industry::ShellCompanies);
        }
        if str_eq(s, "Financial Conglomerates") {
            return Some(Industry::FinancialConglomerates);
        }
        if str_eq(s, "Credit Services") {
            return Some(Industry::CreditServices);
        }
        if str_eq(s, "Real Estate - Development") {
            return Some(Industry::RealEstateDevelopment);
        }
        if str_eq(s, "Real Estate Services") {
            return Some(Industry::RealEstateServices);
        }
        if str_eq(s, "Real Estate - Diversified") {
            return Some(Industry::RealEstateDiversified);
        }
        if str_eq(s, "REIT - Healthcare Facilities") {
            return Some(Industry::ReitHealthcareFacilities);
        }
        if str_eq(s, "REIT - Hotel & Motel") {
            return Some(Industry::ReitHotelAndMotel);
        }
        if str_eq(s, "REIT - Industrial") {
            return Some(Industry::ReitIndustrial);
        }
        if str_eq(s, "REIT - Office") {
            return Some(Industry::ReitOffice);
        }
        if str_eq(s, "REIT - Residential") {
            return Some(Industry::ReitResidential);
        }
        if str_eq(s, "REIT - Retail") {
            return Some(Industry::ReitRetail);
        }
        if str_eq(s, "REIT - Mortgage") {
            return Some(Industry::ReitMortgage);
        }
        if str_eq(s, "REIT - Specialty") {
            return Some(Industry::ReitSpecialty);
        }
        if str_eq(s, "REIT - Diversified") {
            return Some(Industry::ReitDiversified);
        }
        if str_eq(s, "Biotechnology") {
            return Some(Industry::Biotechnology);
        }
        if str_eq(s, "Drug Manufacturers - General") {
            return Some(Industry::DrugManufacturersGeneral);
        }
        if str_eq(s, "Drug Manufacturers - Specialty & Generic") {
            return Some(Industry::DrugManufacturersSpecialtyAndGeneric);
        }
        if str_eq(s, "Healthcare Plans") {
            return Some(Industry::HealthcarePlans);
        }
        if str_eq(s, "Medical Care Facilities") {
            return Some(Industry::MedicalCareFacilities);
        }
        if str_eq(s, "Pharmaceutical Retailers") {
            return Some(Industry::PharmaceuticalRetailers);
        }
        if str_eq(s, "Health Information Services") {
            return Some(Industry::HealthInformationServices);
        }
        if str_eq(s, "Medical Devices") {
            return Some(Industry::MedicalDevices);
        }
        if str_eq(s, "Medical Instruments & Supplies") {
            return Some(Industry::MedicalInstrumentsAndSupplies);
        }
        if str_eq(s, "Diagnostics & Research") {
            return Some(Industry::DiagnosticsAndResearch);
        }
        if str_eq(s, "Medical Distribution") {
            return Some(Industry::MedicalDistribution);
        }
        if str_eq(s, "Oil & Gas Drilling") {
            return Some(Industry::OilAndGasDrilling);
        }
        if str_eq(s, "Oil & Gas E&P") {
            return Some(Industry::OilAndGasEP);
        }
        if str_eq(s, "Oil & Gas Integrated") {
            return Some(Industry::OilAndGasIntegrated);
        }
        if str_eq(s, "Oil & Gas Midstream") {
            return Some(Industry::OilAndGasMidstream);
        }
        if str_eq(s, "Oil & Gas Refining & Marketing") {
            return Some(Industry::OilAndGasRefiningAndMarketing);
        }
        if str_eq(s, "Oil & Gas Equipment & Services") {
            return Some(Industry::OilAndGasEquipmentAndServices);
        }
        if str_eq(s, "Thermal Coal") {
            return Some(Industry::ThermalCoal);
        }
        if str_eq(s, "Uranium") {
            return Some(Industry::Uranium);
        }
        if str_eq(s, "Utilities - Independent Power Producers") {
            return Some(Industry::UtilitiesIndependentPowerProducers);
        }
        if str_eq(s, "Utilities - Renewable") {
            return Some(Industry::UtilitiesRenewable);
        }
        if str_eq(s, "Utilities - Regulated Water") {
            return Some(Industry::UtilitiesRegulatedWater);
        }
        if str_eq(s, "Utilities - Regulated Electric") {
            return Some(Industry::UtilitiesRegulatedElectric);
        }
        if str_eq(s, "Utilities - Regulated Gas") {
            return Some(Industry::UtilitiesRegulatedGas);
        }
        if str_eq(s, "Utilities - Diversified") {
            return Some(Industry::UtilitiesDiversified);
        }
        if str_eq(s, "Telecom Services") {
            return Some(Industry::TelecomServices);
        }
        if str_eq(s, "Advertising Agencies") {
            return Some(Industry::AdvertisingAgencies);
        }
        if str_eq(s, "Publishing") {
            return Some(Industry::Publishing);
        }
        if str_eq(s, "Broadcasting") {
            return Some(Industry::Broadcasting);
        }
        if str_eq(s, "Entertainment") {
            return Some(Industry::Entertainment);
        }
        if str_eq(s, "Internet Content & Information") {
            return Some(Industry::InternetContentAndInformation);
        }
        if str_eq(s, "Electronic Gaming & Multimedia") {
            return Some(Industry::ElectronicGamingAndMultimedia);
        }
        if str_eq(s, "Information Technology Services") {
            return Some(Industry::InformationTechnologyServices);
        }
        if str_eq(s, "Software - Application") {
            return Some(Industry::SoftwareApplication);
        }
        if str_eq(s, "Software - Infrastructure") {
            return Some(Industry::SoftwareInfrastructure);
        }
        if str_eq(s, "Communication Equipment") {
            return Some(Industry::CommunicationEquipment);
        }
        if str_eq(s, "Computer Hardware") {
            return Some(Industry::ComputerHardware);
        }
        if str_eq(s, "Consumer Electronics") {
            return Some(Industry::ConsumerElectronics);
        }
        if str_eq(s, "Electronic Components") {
            return Some(Industry::ElectronicComponents);
        }
        if str_eq(s, "Electronics & Computer Distribution") {
            return Some(Industry::ElectronicsAndComputerDistribution);
        }
        if str_eq(s, "Scientific & Technical Instruments") {
            return Some(Industry::ScientificAndTechnicalInstruments);
        }
        if str_eq(s, "Semiconductor Equipment & Materials") {
            return Some(Industry::SemiconductorEquipmentAndMaterials);
        }
        if str_eq(s, "Semiconductors") {
            return Some(Industry::Semiconductors);
        }
        if str_eq(s, "Solar") {
            return Some(Industry::Solar);
        }
        None
    }

    /// Every value, in declaration order.
    pub fn variants() -> (r: Vec<Industry>)
        ensures
            r@ == Self::spec_all(),
    {
        let r = vec![
            Industry::AgriculturalInputs, Industry::BuildingMaterials, Industry::Chemicals,
            Industry::SpecialtyChemicals, Industry::LumberAndWoodProduction,
            Industry::PaperAndPaperProducts, Industry::Aluminum, Industry::Copper,
            Industry::OtherIndustrialMetalsAndMining, Industry::Gold, Industry::Silver,
            Industry::OtherPreciousMetalsAndMining, Industry::CokingCoal, Industry::Steel,
            Industry::AutoAndTruckDealerships, Industry::AutoManufacturers, Industry::AutoParts,
            Industry::RecreationalVehicles, Industry::FurnishingsFixturesAndAppliances,
            Industry::ResidentialConstruction, Industry::TextileManufacturing,
            Industry::ApparelManufacturing, Industry::FootwearAndAccessories,
            Industry::PackagingAndContainers, Industry::PersonalServices, Industry::Restaurants,
            Industry::ApparelRetail, Industry::DepartmentStores, Industry::HomeImprovementRetail,
            Industry::LuxuryGoods, Industry::InternetRetail, Industry::SpecialtyRetail,
            Industry::Gambling, Industry::Leisure, Industry::Lodging, Industry::ResortsAndCasinos,
            Industry::TravelServices, Industry::AssetManagement, Industry::BanksDiversified,
            Industry::BanksRegional, Industry::MortgageFinance, Industry::CapitalMarkets,
            Industry::FinancialDataAndStockExchanges, Industry::InsuranceLife,
            Industry::InsurancePropertyAndCasualty, Industry::InsuranceReinsurance,
            Industry::InsuranceSpecialty, Industry::InsuranceBrokers,
            Industry::InsuranceDiversified, Industry::ShellCompanies,
            Industry::FinancialConglomerates, Industry::CreditServices,
            Industry::RealEstateDevelopment, Industry::RealEstateServices,
            Industry::RealEstateDiversified, Industry::ReitHealthcareFacilities,
            Industry::ReitHotelAndMotel, Industry::ReitIndustrial, Industry::ReitOffice,
            Industry::ReitResidential, Industry::ReitRetail, Industry::ReitMortgage,
            Industry::ReitSpecialty, Industry::ReitDiversified, Industry::Biotechnology,
            Industry::DrugManufacturersGeneral, Industry::DrugManufacturersSpecialtyAndGeneric,
            Industry::HealthcarePlans, Industry::MedicalCareFacilities,
            Industry::PharmaceuticalRetailers, Industry::HealthInformationServices,
            Industry::MedicalDevices, Industry::MedicalInstrumentsAndSupplies,
            Industry::DiagnosticsAndResearch, Industry::MedicalDistribution,
            Industry::OilAndGasDrilling, Industry::OilAndGasEP, Industry::OilAndGasIntegrated,
            Industry::OilAndGasMidstream, Industry::OilAndGasRefiningAndMarketing,
            Industry::OilAndGasEquipmentAndServices, Industry::ThermalCoal, Industry::Uranium,
            Industry::UtilitiesIndependentPowerProducers, Industry::UtilitiesRenewable,
            Industry::UtilitiesRegulatedWater, Industry::UtilitiesRegulatedElectric,
            Industry::UtilitiesRegulatedGas, Industry::UtilitiesDiversified,
            Industry::TelecomServices, Industry::AdvertisingAgencies, Industry::Publishing,
            Industry::Broadcasting, Industry::Entertainment,
            Industry::InternetContentAndInformation, Industry::ElectronicGamingAndMultimedia,
            Industry::InformationTechnologyServices, Industry::SoftwareApplication,
            Industry::SoftwareInfrastructure, Industry::CommunicationEquipment,
            Industry::ComputerHardware, Industry::ConsumerElectronics,
            Industry::ElectronicComponents, Industry::ElectronicsAndComputerDistribution,
            Industry::ScientificAndTechnicalInstruments,
            Industry::SemiconductorEquipmentAndMaterials, Industry::Semiconductors, Industry::Solar,
        ];
        assert(r@ =~= Self::spec_all());
        r
    }

    /// The keys of every value, in declaration order.
    pub fn variant_names() -> (r: Vec<&'static str>)
        ensures
            strs_view(r@) == Self::spec_names(),
    {
        let r = vec![
            "Agricultural Inputs", "Building Materials", "Chemicals", "Specialty Chemicals",
            "Lumber & Wood Production", "Paper & Paper Products", "Aluminum", "Copper",
            "Other Industrial Metals & Mining", "Gold", "Silver", "Other Precious Metals & Mining",
            "Coking Coal", "Steel", "Auto & Truck Dealerships", "Auto Manufacturers", "Auto Parts",
            "Recreational Vehicles", "Furnishings, Fixtures & Appliances",
            "Residential Construction", "Textile Manufacturing", "Apparel Manufacturing",
            "Footwear & Accessories", "Packaging & Containers", "Personal Services", "Restaurants",
            "Apparel Retail", "Department Stores", "Home Improvement Retail", "Luxury Goods",
            "Internet Retail", "Specialty Retail", "Gambling", "Leisure", "Lodging",
            "Resorts & Casinos", "Travel Services", "Asset Management", "Banks - Diversified",
            "Banks - Regional", "Mortgage Finance", "Capital Markets",
            "Financial Data & Stock Exchanges", "Insurance - Life",
            "Insurance - Property & Casualty", "Insurance - Reinsurance", "Insurance - Specialty",
            "Insurance Brokers", "Insurance - Diversified", "Shell Companies",
            "Financial Conglomerates", "Credit Services", "Real Estate - Development",
            "Real Estate Services", "Real Estate - Diversified", "REIT - Healthcare Facilities",
            "REIT - Hotel & Motel", "REIT - Industrial", "REIT - Office", "REIT - Residential",
            "REIT - Retail", "REIT - Mortgage", "REIT - Specialty", "REIT - Diversified",
            "Biotechnology", "Drug Manufacturers - General",
            "Drug Manufacturers - Specialty & Generic", "Healthcare Plans",
            "Medical Care Facilities", "Pharmaceutical Retailers", "Health Information Services",
            "Medical Devices", "Medical Instruments & Supplies", "Diagnostics & Research",
            "Medical Distribution", "Oil & Gas Drilling", "Oil & Gas E&P", "Oil & Gas Integrated",
            "Oil & Gas Midstream", "Oil & Gas Refining & Marketing",
            "Oil & Gas Equipment & Services", "Thermal Coal", "Uranium",
            "Utilities - Independent Power Producers", "Utilities - Renewable",
            "Utilities - Regulated Water", "Utilities - Regulated Electric",
            "Utilities - Regulated Gas", "Utilities - Diversified", "Telecom Services",
            "Advertising Agencies", "Publishing", "Broadcasting", "Entertainment",
            "Internet Content & Information", "Electronic Gaming & Multimedia",
            "Information Technology Services", "Software - Application",
            "Software - Infrastructure", "Communication Equipment", "Computer Hardware",
            "Consumer Electronics", "Electronic Components", "Electronics & Computer Distribution",
            "Scientific & Technical Instruments", "Semiconductor Equipment & Materials",
            "Semiconductors", "Solar",
        ];
        assert(strs_view(r@) =~= Self::spec_names());
        r
    }

    /// Distinct values have distinct keys: the key of a value decodes to that value.
    pub proof fn lemma_decode_key(v: Industry)
        ensures
            Self::spec_decode(v.spec_key()) == Some(v),
    {
        match v {
            Industry::AgriculturalInputs => {
                reveal_strlit("Agricultural Inputs");
            },
            Industry::BuildingMaterials => {
                reveal_strlit("Building Materials");
            },
            Industry::Chemicals => {
                reveal_strlit("Chemicals");
            },
            Industry::SpecialtyChemicals => {
                reveal_strlit("Specialty Chemicals");
            },
            Industry::LumberAndWoodProduction => {
                reveal_strlit("Lumber & Wood Production");
            },
            Industry::PaperAndPaperProducts => {
                reveal_strlit("Paper & Paper Products");
            },
            Industry::Aluminum => {
                reveal_strlit("Aluminum");
            },
            Industry::Copper => {
                reveal_strlit("Copper");
            },
            Industry::OtherIndustrialMetalsAndMining => {
                reveal_strlit("Other Industrial Metals & Mining");
            },
            Industry::Gold => {
                reveal_strlit("Gold");
            },
            Industry::Silver => {
                reveal_strlit("Silver");
            },
            Industry::OtherPreciousMetalsAndMining => {
                reveal_strlit("Other Precious Metals & Mining");
            },
            Industry::CokingCoal => {
                reveal_strlit("Coking Coal");
            },
            Industry::Steel => {
                reveal_strlit("Steel");
            },
            Industry::AutoAndTruckDealerships => {
                reveal_strlit("Auto & Truck Dealerships");
            },
            Industry::AutoManufacturers => {
                reveal_strlit("Auto Manufacturers");
            },
            Industry::AutoParts => {
                reveal_strlit("Auto Parts");
            },
            Industry::RecreationalVehicles => {
                reveal_strlit("Recreational Vehicles");
            },
            Industry::FurnishingsFixturesAndAppliances => {
                reveal_strlit("Furnishings, Fixtures & Appliances");
            },
            Industry::ResidentialConstruction => {
                reveal_strlit("Residential Construction");
            },
            Industry::TextileManufacturing => {
                reveal_strlit("Textile Manufacturing");
            },
            Industry::ApparelManufacturing => {
                reveal_strlit("Apparel Manufacturing");
            },
            Industry::FootwearAndAccessories => {
                reveal_strlit("Footwear & Accessories");
            },
            Industry::PackagingAndContainers => {
                reveal_strlit("Packaging & Containers");
            },
            Industry::PersonalServices => {
                reveal_strlit("Personal Services");
            },
            Industry::Restaurants => {
                reveal_strlit("Restaurants");
            },
            Industry::ApparelRetail => {
                reveal_strlit("Apparel Retail");
            },
            Industry::DepartmentStores => {
                reveal_strlit("Department Stores");
            },
            Industry::HomeImprovementRetail => {
                reveal_strlit("Home Improvement Retail");
            },
            Industry::LuxuryGoods => {
                reveal_strlit("Luxury Goods");
            },
            Industry::InternetRetail => {
                reveal_strlit("Internet Retail");
            },
            Industry::SpecialtyRetail => {
                reveal_strlit("Specialty Retail");
            },
            Industry::Gambling => {
                reveal_strlit("Gambling");
            },
            Industry::Leisure => {
                reveal_strlit("Leisure");
            },
            Industry::Lodging => {
                reveal_strlit("Lodging");
            },
            Industry::ResortsAndCasinos => {
                reveal_strlit("Resorts & Casinos");
            },
            Industry::TravelServices => {
                reveal_strlit("Travel Services");
            },
            Industry::AssetManagement => {
                reveal_strlit("Asset Management");
            },
            Industry::BanksDiversified => {
                reveal_strlit("Banks - Diversified");
            },
            Industry::BanksRegional => {
                reveal_strlit("Banks - Regional");
            },
            Industry::MortgageFinance => {
                reveal_strlit("Mortgage Finance");
            },
            Industry::CapitalMarkets => {
                reveal_strlit("Capital Markets");
            },
            Industry::FinancialDataAndStockExchanges => {
                reveal_strlit("Financial Data & Stock Exchanges");
            },
            Industry::InsuranceLife => {
                reveal_strlit("Insurance - Life");
            },
            Industry::InsurancePropertyAndCasualty => {
                reveal_strlit("Insurance - Property & Casualty");
            },
            Industry::InsuranceReinsurance => {
                reveal_strlit("Insurance - Reinsurance");
            },
            Industry::InsuranceSpecialty => {
                reveal_strlit("Insurance - Specialty");
            },
            Industry::InsuranceBrokers => {
                reveal_strlit("Insurance Brokers");
            },
            Industry::InsuranceDiversified => {
                reveal_strlit("Insurance - Diversified");
            },
            Industry::ShellCompanies => {
                reveal_strlit("Shell Companies");
            },
            Industry::FinancialConglomerates => {
                reveal_strlit("Financial Conglomerates");
            },
            Industry::CreditServices => {
                reveal_strlit("Credit Services");
            },
            Industry::RealEstateDevelopment => {
                reveal_strlit("Real Estate - Development");
            },
            Industry::RealEstateServices => {
                reveal_strlit("Real Estate Services");
            },
            Industry::RealEstateDiversified => {
                reveal_strlit("Real Estate - Diversified");
            },
            Industry::ReitHealthcareFacilities => {
                reveal_strlit("REIT - Healthcare Facilities");
            },
            Industry::ReitHotelAndMotel => {
                reveal_strlit("REIT - Hotel & Motel");
            },
            Industry::ReitIndustrial => {
                reveal_strlit("REIT - Industrial");
            },
            Industry::ReitOffice => {
                reveal_strlit("REIT - Office");
            },
            Industry::ReitResidential => {
                reveal_strlit("REIT - Residential");
            },
            Industry::ReitRetail => {
                reveal_strlit("REIT - Retail");
            },
            Industry::ReitMortgage => {
                reveal_strlit("REIT - Mortgage");
            },
            Industry::ReitSpecialty => {
                reveal_strlit("REIT - Specialty");
            },
            Industry::ReitDiversified => {
                reveal_strlit("REIT - Diversified");
            },
            Industry::Biotechnology => {
                reveal_strlit("Biotechnology");
            },
            Industry::DrugManufacturersGeneral => {
                reveal_strlit("Drug Manufacturers - General");
            },
            Industry::DrugManufacturersSpecialtyAndGeneric => {
                reveal_strlit("Drug Manufacturers - Specialty & Generic");
            },
            Industry::HealthcarePlans => {
                reveal_strlit("Healthcare Plans");
            },
            Industry::MedicalCareFacilities => {
                reveal_strlit("Medical Care Facilities");
            },
            Industry::PharmaceuticalRetailers => {
                reveal_strlit("Pharmaceutical Retailers");
            },
            Industry::HealthInformationServices => {
                reveal_strlit("Health Information Services");
            },
            Industry::MedicalDevices => {
                reveal_strlit("Medical Devices");
            },
            Industry::MedicalInstrumentsAndSupplies => {
                reveal_strlit("Medical Instruments & Supplies");
            },
            Industry::DiagnosticsAndResearch => {
                reveal_strlit("Diagnostics & Research");
            },
            Industry::MedicalDistribution => {
                reveal_strlit("Medical Distribution");
            },
            Industry::OilAndGasDrilling => {
                reveal_strlit("Oil & Gas Drilling");
            },
            Industry::OilAndGasEP => {
                reveal_strlit("Oil & Gas E&P");
            },
            Industry::OilAndGasIntegrated => {
                reveal_strlit("Oil & Gas Integrated");
            },
            Industry::OilAndGasMidstream => {
                reveal_strlit("Oil & Gas Midstream");
            },
            Industry::OilAndGasRefiningAndMarketing => {
                reveal_strlit("Oil & Gas Refining & Marketing");
            },
            Industry::OilAndGasEquipmentAndServices => {
                reveal_strlit("Oil & Gas Equipment & Services");
            },
            Industry::ThermalCoal => {
                reveal_strlit("Thermal Coal");
            },
            Industry::Uranium => {
                reveal_strlit("Uranium");
            },
            Industry::UtilitiesIndependentPowerProducers => {
                reveal_strlit("Utilities - Independent Power Producers");
            },
            Industry::UtilitiesRenewable => {
                reveal_strlit("Utilities - Renewable");
            },
            Industry::UtilitiesRegulatedWater => {
                reveal_strlit("Utilities - Regulated Water");
            },
            Industry::UtilitiesRegulatedElectric => {
                reveal_strlit("Utilities - Regulated Electric");
            },
            Industry::UtilitiesRegulatedGas => {
                reveal_strlit("Utilities - Regulated Gas");
            },
            Industry::UtilitiesDiversified => {
                reveal_strlit("Utilities - Diversified");
            },
            Industry::TelecomServices => {
                reveal_strlit("Telecom Services");
            },
            Industry::AdvertisingAgencies => {
                reveal_strlit("Advertising Agencies");
            },
            Industry::Publishing => {
                reveal_strlit("Publishing");
            },
            Industry::Broadcasting => {
                reveal_strlit("Broadcasting");
            },
            Industry::Entertainment => {
                reveal_strlit("Entertainment");
            },
            Industry::InternetContentAndInformation => {
                reveal_strlit("Internet Content & Information");
            },
            Industry::ElectronicGamingAndMultimedia => {
                reveal_strlit("Electronic Gaming & Multimedia");
            },
            Industry::InformationTechnologyServices => {
                reveal_strlit("Information Technology Services");
            },
            Industry::SoftwareApplication => {
                reveal_strlit("Software - Application");
            },
            Industry::SoftwareInfrastructure => {
                reveal_strlit("Software - Infrastructure");
            },
            Industry::CommunicationEquipment => {
                reveal_strlit("Communication Equipment");
            },
            Industry::ComputerHardware => {
                reveal_strlit("Computer Hardware");
            },
            Industry::ConsumerElectronics => {
                reveal_strlit("Consumer Electronics");
            },
            Industry::ElectronicComponents => {
                reveal_strlit("Electronic Components");
            },
            Industry::ElectronicsAndComputerDistribution => {
                reveal_strlit("Electronics & Computer Distribution");
            },
            Industry::ScientificAndTechnicalInstruments => {
                reveal_strlit("Scientific & Technical Instruments");
            },
            Industry::SemiconductorEquipmentAndMaterials => {
                reveal_strlit("Semiconductor Equipment & Materials");
            },
            Industry::Semiconductors => {
                reveal_strlit("Semiconductors");
            },
            Industry::Solar => {
                reveal_strlit("Solar");
            },
        }
    }

    /// Parsing the key of a value gives back that value.
    pub proof fn lemma_key_round_trip(a: Industry, b: Industry)
        requires
            a.spec_key() == b.spec_key(),
        ensures
            a == b,
    {
        Self::lemma_decode_key(a);
        Self::lemma_decode_key(b);
    }
}

impl Industry {
    /// The name of the sector this industry belongs to.
    pub open spec fn spec_sector(self) -> Seq<char> {
        match self {
            Industry::AgriculturalInputs => "Basic Materials"@,
            Industry::BuildingMaterials => "Basic Materials"@,
            Industry::Chemicals => "Basic Materials"@,
            Industry::SpecialtyChemicals => "Basic Materials"@,
            Industry::LumberAndWoodProduction => "Basic Materials"@,
            Industry::PaperAndPaperProducts => "Basic Materials"@,
            Industry::Aluminum => "Basic Materials"@,
            Industry::Copper => "Basic Materials"@,
            Industry::OtherIndustrialMetalsAndMining => "Basic Materials"@,
            Industry::Gold => "Basic Materials"@,
            Industry::Silver => "Basic Materials"@,
            Industry::OtherPreciousMetalsAndMining => "Basic Materials"@,
            Industry::CokingCoal => "Basic Materials"@,
            Industry::Steel => "Basic Materials"@,
            Industry::AutoAndTruckDealerships => "Consumer Cyclical"@,
            Industry::AutoManufacturers => "Consumer Cyclical"@,
            Industry::AutoParts => "Consumer Cyclical"@,
            Industry::RecreationalVehicles => "Consumer Cyclical"@,
            Industry::FurnishingsFixturesAndAppliances => "Consumer Cyclical"@,
            Industry::ResidentialConstruction => "Consumer Cyclical"@,
            Industry::TextileManufacturing => "Consumer Cyclical"@,
            Industry::ApparelManufacturing => "Consumer Cyclical"@,
            Industry::FootwearAndAccessories => "Consumer Cyclical"@,
            Industry::PackagingAndContainers => "Consumer Cyclical"@,
            Industry::PersonalServices => "Consumer Cyclical"@,
            Industry::Restaurants => "Consumer Cyclical"@,
            Industry::ApparelRetail => "Consumer Cyclical"@,
            Industry::DepartmentStores => "Consumer Cyclical"@,
            Industry::HomeImprovementRetail => "Consumer Cyclical"@,
            Industry::LuxuryGoods => "Consumer Cyclical"@,
            Industry::InternetRetail => "Consumer Cyclical"@,
            Industry::SpecialtyRetail => "Consumer Cyclical"@,
            Industry::Gambling => "Consumer Cyclical"@,
            Industry::Leisure => "Consumer Cyclical"@,
            Industry::Lodging => "Consumer Cyclical"@,
            Industry::ResortsAndCasinos => "Consumer Cyclical"@,
            Industry::TravelServices => "Consumer Cyclical"@,
            Industry::AssetManagement => "Financial Services"@,
            Industry::BanksDiversified => "Financial Services"@,
            Industry::BanksRegional => "Financial Services"@,
            Industry::MortgageFinance => "Financial Services"@,
            Industry::CapitalMarkets => "Financial Services"@,
            Industry::FinancialDataAndStockExchanges => "Financial Services"@,
            Industry::InsuranceLife => "Financial Services"@,
            Industry::InsurancePropertyAndCasualty => "Financial Services"@,
            Industry::InsuranceReinsurance => "Financial Services"@,
            Industry::InsuranceSpecialty => "Financial Services"@,
            Industry::InsuranceBrokers => "Financial Services"@,
            Industry::InsuranceDiversified => "Financial Services"@,
            Industry::ShellCompanies => "Financial Services"@,
            Industry::FinancialConglomerates => "Financial Services"@,
            Industry::CreditServices => "Financial Services"@,
            Industry::RealEstateDevelopment => "Real Estate"@,
            Industry::RealEstateServices => "Real Estate"@,
            Industry::RealEstateDiversified => "Real Estate"@,
            Industry::ReitHealthcareFacilities => "Real Estate"@,
            Industry::ReitHotelAndMotel => "Real Estate"@,
            Industry::ReitIndustrial => "Real Estate"@,
            Industry::ReitOffice => "Real Estate"@,
            Industry::ReitResidential => "Real Estate"@,
            Industry::ReitRetail => "Real Estate"@,
            Industry::ReitMortgage => "Real Estate"@,
            Industry::ReitSpecialty => "Real Estate"@,
            Industry::ReitDiversified => "Real Estate"@,
            Industry::Biotechnology => "Healthcare"@,
            Industry::DrugManufacturersGeneral => "Healthcare"@,
            Industry::DrugManufacturersSpecialtyAndGeneric => "Healthcare"@,
            Industry::HealthcarePlans => "Healthcare"@,
            Industry::MedicalCareFacilities => "Healthcare"@,
            Industry::PharmaceuticalRetailers => "Healthcare"@,
            Industry::HealthInformationServices => "Healthcare"@,
            Industry::MedicalDevices => "Healthcare"@,
            Industry::MedicalInstrumentsAndSupplies => "Healthcare"@,
            Industry::DiagnosticsAndResearch => "Healthcare"@,
            Industry::MedicalDistribution => "Healthcare"@,
            Industry::OilAndGasDrilling => "Energy"@,
            Industry::OilAndGasEP => "Energy"@,
            Industry::OilAndGasIntegrated => "Energy"@,
            Industry::OilAndGasMidstream => "Energy"@,
            Industry::OilAndGasRefiningAndMarketing => "Energy"@,
            Industry::OilAndGasEquipmentAndServices => "Energy"@,
            Industry::ThermalCoal => "Energy"@,
            Industry::Uranium => "Energy"@,
            Industry::UtilitiesIndependentPowerProducers => "Utilities"@,
            Industry::UtilitiesRenewable => "Utilities"@,
            Industry::UtilitiesRegulatedWater => "Utilities"@,
            Industry::UtilitiesRegulatedElectric => "Utilities"@,
            Industry::UtilitiesRegulatedGas => "Utilities"@,
            Industry::UtilitiesDiversified => "Utilities"@,
            Industry::TelecomServices => "Communication Services"@,
            Industry::AdvertisingAgencies => "Communication Services"@,
            Industry::Publishing => "Communication Services"@,
            Industry::Broadcasting => "Communication Services"@,
            Industry::Entertainment => "Communication Services"@,
            Industry::InternetContentAndInformation => "Communication Services"@,
            Industry::ElectronicGamingAndMultimedia => "Communication Services"@,
            Industry::InformationTechnologyServices => "Technology"@,
            Industry::SoftwareApplication => "Technology"@,
            Industry::SoftwareInfrastructure => "Technology"@,
            Industry::CommunicationEquipment => "Technology"@,
            Industry::ComputerHardware => "Technology"@,
            Industry::ConsumerElectronics => "Technology"@,
            Industry::ElectronicComponents => "Technology"@,
            Industry::ElectronicsAndComputerDistribution => "Technology"@,
            Industry::ScientificAndTechnicalInstruments => "Technology"@,
            Industry::SemiconductorEquipmentAndMaterials => "Technology"@,
            Industry::Semiconductors => "Technology"@,
            Industry::Solar => "Technology"@,
        }
    }

    /// The name of the sector this industry belongs to.
    pub fn sector(&self) -> (s: &'static str)
        ensures
            s@ == self.spec_sector(),
    {
        match self {
            Industry::AgriculturalInputs => "Basic Materials",
            Industry::BuildingMaterials => "Basic Materials",
            Industry::Chemicals => "Basic Materials",
            Industry::SpecialtyChemicals => "Basic Materials",
            Industry::LumberAndWoodProduction => "Basic Materials",
            Industry::PaperAndPaperProducts => "Basic Materials",
            Industry::Aluminum => "Basic Materials",
            Industry::Copper => "Basic Materials",
            Industry::OtherIndustrialMetalsAndMining => "Basic Materials",
            Industry::Gold => "Basic Materials",
            Industry::Silver => "Basic Materials",
            Industry::OtherPreciousMetalsAndMining => "Basic Materials",
            Industry::CokingCoal => "Basic Materials",
            Industry::Steel => "Basic Materials",
            Industry::AutoAndTruckDealerships => "Consumer Cyclical",
            Industry::AutoManufacturers => "Consumer Cyclical",
            Industry::AutoParts => "Consumer Cyclical",
            Industry::RecreationalVehicles => "Consumer Cyclical",
            Industry::FurnishingsFixturesAndAppliances => "Consumer Cyclical",
            Industry::ResidentialConstruction => "Consumer Cyclical",
            Industry::TextileManufacturing => "Consumer Cyclical",
            Industry::ApparelManufacturing => "Consumer Cyclical",
            Industry::FootwearAndAccessories => "Consumer Cyclical",
            Industry::PackagingAndContainers => "Consumer Cyclical",
            Industry::PersonalServices => "Consumer Cyclical",
            Industry::Restaurants => "Consumer Cyclical",
            Industry::ApparelRetail => "Consumer Cyclical",
            Industry::DepartmentStores => "Consumer Cyclical",
            Industry::HomeImprovementRetail => "Consumer Cyclical",
            Industry::LuxuryGoods => "Consumer Cyclical",
            Industry::InternetRetail => "Consumer Cyclical",
            Industry::SpecialtyRetail => "Consumer Cyclical",
            Industry::Gambling => "Consumer Cyclical",
            Industry::Leisure => "Consumer Cyclical",
            Industry::Lodging => "Consumer Cyclical",
            Industry::ResortsAndCasinos => "Consumer Cyclical",
            Industry::TravelServices => "Consumer Cyclical",
            Industry::AssetManagement => "Financial Services",
            Industry::BanksDiversified => "Financial Services",
            Industry::BanksRegional => "Financial Services",
            Industry::MortgageFinance => "Financial Services",
            Industry::CapitalMarkets => "Financial Services",
            Industry::FinancialDataAndStockExchanges => "Financial Services",
            Industry::InsuranceLife => "Financial Services",
            Industry::InsurancePropertyAndCasualty => "Financial Services",
            Industry::InsuranceReinsurance => "Financial Services",
            Industry::InsuranceSpecialty => "Financial Services",
            Industry::InsuranceBrokers => "Financial Services",
            Industry::InsuranceDiversified => "Financial Services",
            Industry::ShellCompanies => "Financial Services",
            Industry::FinancialConglomerates => "Financial Services",
            Industry::CreditServices => "Financial Services",
            Industry::RealEstateDevelopment => "Real Estate",
            Industry::RealEstateServices => "Real Estate",
            Industry::RealEstateDiversified => "Real Estate",
            Industry::ReitHealthcareFacilities => "Real Estate",
            Industry::ReitHotelAndMotel => "Real Estate",
            Industry::ReitIndustrial => "Real Estate",
            Industry::ReitOffice => "Real Estate",
            Industry::ReitResidential => "Real Estate",
            Industry::ReitRetail => "Real Estate",
            Industry::ReitMortgage => "Real Estate",
            Industry::ReitSpecialty => "Real Estate",
            Industry::ReitDiversified => "Real Estate",
            Industry::Biotechnology => "Healthcare",
            Industry::DrugManufacturersGeneral => "Healthcare",
            Industry::DrugManufacturersSpecialtyAndGeneric => "Healthcare",
            Industry::HealthcarePlans => "Healthcare",
            Industry::MedicalCareFacilities => "Healthcare",
            Industry::PharmaceuticalRetailers => "Healthcare",
            Industry::HealthInformationServices => "Healthcare",
            Industry::MedicalDevices => "Healthcare",
            Industry::MedicalInstrumentsAndSupplies => "Healthcare",
            Industry::DiagnosticsAndResearch => "Healthcare",
            Industry::MedicalDistribution => "Healthcare",
            Industry::OilAndGasDrilling => "Energy",
            Industry::OilAndGasEP => "Energy",
            Industry::OilAndGasIntegrated => "Energy",
            Industry::OilAndGasMidstream => "Energy",
            Industry::OilAndGasRefiningAndMarketing => "Energy",
            Industry::OilAndGasEquipmentAndServices => "Energy",
            Industry::ThermalCoal => "Energy",
            Industry::Uranium => "Energy",
            Industry::UtilitiesIndependentPowerProducers => "Utilities",
            Industry::UtilitiesRenewable => "Utilities",
            Industry::UtilitiesRegulatedWater => "Utilities",
            Industry::UtilitiesRegulatedElectric => "Utilities",
            Industry::UtilitiesRegulatedGas => "Utilities",
            Industry::UtilitiesDiversified => "Utilities",
            Industry::TelecomServices => "Communication Services",
            Industry::AdvertisingAgencies => "Communication Services",
            Industry::Publishing => "Communication Services",
            Industry::Broadcasting => "Communication Services",
            Industry::Entertainment => "Communication Services",
            Industry::InternetContentAndInformation => "Communication Services",
            Industry::ElectronicGamingAndMultimedia => "Communication Services",
            Industry::InformationTechnologyServices => "Technology",
            Industry::SoftwareApplication => "Technology",
            Industry::SoftwareInfrastructure => "Technology",
            Industry::CommunicationEquipment => "Technology",
            Industry::ComputerHardware => "Technology",
            Industry::ConsumerElectronics => "Technology",
            Industry::ElectronicComponents => "Technology",
            Industry::ElectronicsAndComputerDistribution => "Technology",
            Industry::ScientificAndTechnicalInstruments => "Technology",
            Industry::SemiconductorEquipmentAndMaterials => "Technology",
            Industry::Semiconductors => "Technology",
            Industry::Solar => "Technology",
        }
    }
}

/// Morningstar-style category of a fund.
#[derive(Debug, Clone, Copy, PartialEq, Eq, Structural, Hash)]
pub enum FundCategory {
    Allocation15to30Equity,
    Allocation30to50Equity,
    Allocation50to70Equity,
    Allocation70to85Equity,
    Allocation85PlusEquity,
    BankLoan,
    BearMarket,
    ChinaRegion,
    CommoditiesAgriculture,
    CommoditiesBroadBasket,
    Convertibles,
    CorporateBond,
    DiversifiedEmergingMkts,
    DiversifiedPacificAsia,
    EmergingMarketsBond,
    EmergingMarketsLocalCurrencyBond,
    EnergyLimitedPartnership,
    EquityEnergy,
    EquityPreciousMetals,
    EuropeStock,
    Financial,
    ForeignLargeBlend,
    ForeignLargeGrowth,
    ForeignLargeValue,
    ForeignSmallMidBlend,
    ForeignSmallMidGrowth,
    ForeignSmallMidValue,
    GlobalRealEstate,
    Health,
    HighYieldBond,
    HighYieldMuni,
    InflationProtectedBond,
    Infrastructure,
    IntermediateGovernment,
    IntermediateTermBond,
    JapanStock,
    LargeBlend,
    LargeGrowth,
    LargeValue,
    LongGovernment,
    LongShortCredit,
    LongShortEquity,
    LongTermBond,
    ManagedFutures,
    MarketNeutral,
    MidCapBlend,
    MidCapGrowth,
    MidCapValue,
    MiscellaneousRegion,
    Multialternative,
    Multicurrency,
    MultisectorBond,
    MuniCaliforniaIntermediate,
    MuniCaliforniaLong,
    MuniMassachusetts,
    MuniMinnesota,
    MuniNationalInterm,
    MuniNationalLong,
    MuniNationalShort,
    MuniNewJersey,
    MuniNewYorkIntermediate,
    MuniNewYorkLong,
    MuniOhio,
    MuniPennsylvania,
    MuniSingleStateInterm,
    MuniSingleStateLong,
    MuniSingleStateShort,
    NaturalResources,
    NontraditionalBond,
    OptionWriting,
    Other,
    OtherAllocation,
    PacificAsiaExJapanStk,
    PreferredStock,
    RealEstate,
    ShortGovernment,
    ShortTermBond,
    SmallBlend,
    SmallGrowth,
    SmallValue,
    TacticalAllocation,
    TargetDate20002010,
    TargetDate2015,
    TargetDate2020,
    TargetDate2025,
    TargetDate2030,
    TargetDate2035,
    TargetDate2040,
    TargetDate2045,
    TargetDate2050,
    TargetDate2055,
    TargetDate2060Plus,
    TargetDateRetirement,
    Technology,
    TradingLeveragedInverseCommodities,
    TradingLeveragedInverseEquity,
    TradingInverseEquity,
    TradingLeveragedEquity,
    UltrashortBond,
    Utilities,
    WorldAllocation,
    WorldBond,
    WorldStock,
}

impl FundCategory {
    /// The name of this fund category.
    pub open spec fn spec_key(self) -> Seq<char> {
        match self {
            FundCategory::Allocation15to30Equity => "Allocation - 15% to 30% Equity"@,
            FundCategory::Allocation30to50Equity => "Allocation - 30% to 50% Equity"@,
            FundCategory::Allocation50to70Equity => "Allocation - 50% to 70% Equity"@,
            FundCategory::Allocation70to85Equity => "Allocation - 70% to 85% Equity"@,
            FundCategory::Allocation85PlusEquity => "Allocation - 85%+ Equity"@,
            FundCategory::BankLoan => "Bank Loan"@,
            FundCategory::BearMarket => "Bear Market"@,
            FundCategory::ChinaRegion => "China Region"@,
            FundCategory::CommoditiesAgriculture => "Commodities Agriculture"@,
            FundCategory::CommoditiesBroadBasket => "Commodities Broad Basket"@,
            FundCategory::Convertibles => "Convertibles"@,
            FundCategory::CorporateBond => "Corporate Bond"@,
            FundCategory::DiversifiedEmergingMkts => "Diversified Emerging Mkts"@,
            FundCategory::DiversifiedPacificAsia => "Diversified Pacific/Asia"@,
            FundCategory::EmergingMarketsBond => "Emerging Markets Bond"@,
            FundCategory::EmergingMarketsLocalCurrencyBond => "Emerging-Markets Local-Currency Bond"@,
            FundCategory::EnergyLimitedPartnership => "Energy Limited Partnership"@,
            FundCategory::EquityEnergy => "Equity Energy"@,
            FundCategory::EquityPreciousMetals => "Equity Precious Metals"@,
            FundCategory::EuropeStock => "Europe Stock"@,
            FundCategory::Financial => "Financial"@,
            FundCategory::ForeignLargeBlend => "Foreign Large Blend"@,
            FundCategory::ForeignLargeGrowth => "Foreign Large Growth"@,
            FundCategory::ForeignLargeValue => "Foreign Large Value"@,
            FundCategory::ForeignSmallMidBlend => "Foreign Small/Mid Blend"@,
            FundCategory::ForeignSmallMidGrowth => "Foreign Small/Mid Growth"@,
            FundCategory::ForeignSmallMidValue => "Foreign Small/Mid Value"@,
            FundCategory::GlobalRealEstate => "Global Real Estate"@,
            FundCategory::Health => "Health"@,
            FundCategory::HighYieldBond => "High Yield Bond"@,
            FundCategory::HighYieldMuni => "High Yield Muni"@,
            FundCategory::InflationProtectedBond => "Inflation-Protected Bond"@,
            FundCategory::Infrastructure => "Infrastructure"@,
            FundCategory::IntermediateGovernment => "Intermediate Government"@,
            FundCategory::IntermediateTermBond => "Intermediate-Term Bond"@,
            FundCategory::JapanStock => "Japan Stock"@,
            FundCategory::LargeBlend => "Large Blend"@,
            FundCategory::LargeGrowth => "Large Growth"@,
            FundCategory::LargeValue => "Large Value"@,
            FundCategory::LongGovernment => "Long Government"@,
            FundCategory::LongShortCredit => "Long-Short Credit"@,
            FundCategory::LongShortEquity => "Long-Short Equity"@,
            FundCategory::LongTermBond => "Long-Term Bond"@,
            FundCategory::ManagedFutures => "Managed Futures"@,
            FundCategory::MarketNeutral => "Market Neutral"@,
            FundCategory::MidCapBlend => "Mid-Cap Blend"@,
            FundCategory::MidCapGrowth => "Mid-Cap Growth"@,
            FundCategory::MidCapValue => "Mid-Cap Value"@,
            FundCategory::MiscellaneousRegion => "Miscellaneous Region"@,
            FundCategory::Multialternative => "Multialternative"@,
            FundCategory::Multicurrency => "Multicurrency"@,
            FundCategory::MultisectorBond => "Multisector Bond"@,
            FundCategory::MuniCaliforniaIntermediate => "Muni California Intermediate"@,
            FundCategory::MuniCaliforniaLong => "Muni California Long"@,
            FundCategory::MuniMassachusetts => "Muni Massachusetts"@,
            FundCategory::MuniMinnesota => "Muni Minnesota"@,
            FundCategory::MuniNationalInterm => "Muni National Interm"@,
            FundCategory::MuniNationalLong => "Muni National Long"@,
            FundCategory::MuniNationalShort => "Muni National Short"@,
            FundCategory::MuniNewJersey => "Muni New Jersey"@,
            FundCategory::MuniNewYorkIntermediate => "Muni New York Intermediate"@,
            FundCategory::MuniNewYorkLong => "Muni New York Long"@,
            FundCategory::MuniOhio => "Muni Ohio"@,
            FundCategory::MuniPennsylvania => "Muni Pennsylvania"@,
            FundCategory::MuniSingleStateInterm => "Muni Single State Interm"@,
            FundCategory::MuniSingleStateLong => "Muni Single State Long"@,
            FundCategory::MuniSingleStateShort => "Muni Single State Short"@,
            FundCategory::NaturalResources => "Natural Resources"@,
            FundCategory::NontraditionalBond => "Nontraditional Bond"@,
            FundCategory::OptionWriting => "Option Writing"@,
            FundCategory::Other => "Other"@,
            FundCategory::OtherAllocation => "Other Allocation"@,
            FundCategory::PacificAsiaExJapanStk => "Pacific/Asia ex-Japan Stk"@,
            FundCategory::PreferredStock => "Preferred Stock"@,
            FundCategory::RealEstate => "Real Estate"@,
            FundCategory::ShortGovernment => "Short Government"@,
            FundCategory::ShortTermBond => "Short-Term Bond"@,
            FundCategory::SmallBlend => "Small Blend"@,
            FundCategory::SmallGrowth => "Small Growth"@,
            FundCategory::SmallValue => "Small Value"@,
            FundCategory::TacticalAllocation => "Tactical Allocation"@,
            FundCategory::TargetDate20002010 => "Target-Date 2000-2010"@,
            FundCategory::TargetDate2015 => "Target-Date 2015"@,
            FundCategory::TargetDate2020 => "Target-Date 2020"@,
            FundCategory::TargetDate2025 => "Target-Date 2025"@,
            FundCategory::TargetDate2030 => "Target-Date 2030"@,
            FundCategory::TargetDate2035 => "Target-Date 2035"@,
            FundCategory::TargetDate2040 => "Target-Date 2040"@,
            FundCategory::TargetDate2045 => "Target-Date 2045"@,
            FundCategory::TargetDate2050 => "Target-Date 2050"@,
            FundCategory::TargetDate2055 => "Target-Date 2055"@,
            FundCategory::TargetDate2060Plus => "Target-Date 2060+"@,
            FundCategory::TargetDateRetirement => "Target-Date Retirement"@,
            FundCategory::Technology => "Technology"@,
            FundCategory::TradingLeveragedInverseCommodities => "Trading - Leveraged/Inverse Commodities"@,
            FundCategory::TradingLeveragedInverseEquity => "Trading - Leveraged/Inverse Equity"@,
            FundCategory::TradingInverseEquity => "Trading - Inverse Equity"@,
            FundCategory::TradingLeveragedEquity => "Trading - Leveraged Equity"@,
            FundCategory::UltrashortBond => "Ultrashort Bond"@,
            FundCategory::Utilities => "Utilities"@,
            FundCategory::WorldAllocation => "World Allocation"@,
            FundCategory::WorldBond => "World Bond"@,
            FundCategory::WorldStock => "World Stock"@,
        }
    }

    /// Every value, in declaration order.
    pub open spec fn spec_all() -> Seq<FundCategory> {
        seq![
            FundCategory::Allocation15to30Equity, FundCategory::Allocation30to50Equity,
            FundCategory::Allocation50to70Equity, FundCategory::Allocation70to85Equity,
            FundCategory::Allocation85PlusEquity, FundCategory::BankLoan, FundCategory::BearMarket,
            FundCategory::ChinaRegion, FundCategory::CommoditiesAgriculture,
            FundCategory::CommoditiesBroadBasket, FundCategory::Convertibles,
            FundCategory::CorporateBond, FundCategory::DiversifiedEmergingMkts,
            FundCategory::DiversifiedPacificAsia, FundCategory::EmergingMarketsBond,
            FundCategory::EmergingMarketsLocalCurrencyBond, FundCategory::EnergyLimitedPartnership,
            FundCategory::EquityEnergy, FundCategory::EquityPreciousMetals,
            FundCategory::EuropeStock, FundCategory::Financial, FundCategory::ForeignLargeBlend,
            FundCategory::ForeignLargeGrowth, FundCategory::ForeignLargeValue,
            FundCategory::ForeignSmallMidBlend, FundCategory::ForeignSmallMidGrowth,
            FundCategory::ForeignSmallMidValue, FundCategory::GlobalRealEstate,
            FundCategory::Health, FundCategory::HighYieldBond, FundCategory::HighYieldMuni,
            FundCategory::InflationProtectedBond, FundCategory::Infrastructure,
            FundCategory::IntermediateGovernment, FundCategory::IntermediateTermBond,
            FundCategory::JapanStock, FundCategory::LargeBlend, FundCategory::LargeGrowth,
            FundCategory::LargeValue, FundCategory::LongGovernment, FundCategory::LongShortCredit,
            FundCategory::LongShortEquity, FundCategory::LongTermBond, FundCategory::ManagedFutures,
            FundCategory::MarketNeutral, FundCategory::MidCapBlend, FundCategory::MidCapGrowth,
            FundCategory::MidCapValue, FundCategory::MiscellaneousRegion,
            FundCategory::Multialternative, FundCategory::Multicurrency,
            FundCategory::MultisectorBond, FundCategory::MuniCaliforniaIntermediate,
            FundCategory::MuniCaliforniaLong, FundCategory::MuniMassachusetts,
            FundCategory::MuniMinnesota, FundCategory::MuniNationalInterm,
            FundCategory::MuniNationalLong, FundCategory::MuniNationalShort,
            FundCategory::MuniNewJersey, FundCategory::MuniNewYorkIntermediate,
            FundCategory::MuniNewYorkLong, FundCategory::MuniOhio, FundCategory::MuniPennsylvania,
            FundCategory::MuniSingleStateInterm, FundCategory::MuniSingleStateLong,
            FundCategory::MuniSingleStateShort, FundCategory::NaturalResources,
            FundCategory::NontraditionalBond, FundCategory::OptionWriting, FundCategory::Other,
            FundCategory::OtherAllocation, FundCategory::PacificAsiaExJapanStk,
            FundCategory::PreferredStock, FundCategory::RealEstate, FundCategory::ShortGovernment,
            FundCategory::ShortTermBond, FundCategory::SmallBlend, FundCategory::SmallGrowth,
            FundCategory::SmallValue, FundCategory::TacticalAllocation,
            FundCategory::TargetDate20002010, FundCategory::TargetDate2015,
            FundCategory::TargetDate2020, FundCategory::TargetDate2025,
            FundCategory::TargetDate2030, FundCategory::TargetDate2035,
            FundCategory::TargetDate2040, FundCategory::TargetDate2045,
            FundCategory::TargetDate2050, FundCategory::TargetDate2055,
            FundCategory::TargetDate2060Plus, FundCategory::TargetDateRetirement,
            FundCategory::Technology, FundCategory::TradingLeveragedInverseCommodities,
            FundCategory::TradingLeveragedInverseEquity, FundCategory::TradingInverseEquity,
            FundCategory::TradingLeveragedEquity, FundCategory::UltrashortBond,
            FundCategory::Utilities, FundCategory::WorldAllocation, FundCategory::WorldBond,
            FundCategory::WorldStock,
        ]
    }

    /// The keys of every value, in declaration order.
    pub open spec fn spec_names() -> Seq<Seq<char>> {
        Self::spec_all().map_values(|v: FundCategory| v.spec_key())
    }

    /// Reads a value back from its key by the characters that tell the keys apart.
    pub open spec fn spec_decode(s: Seq<char>) -> Option<FundCategory> {
        if s.len() == 5 {
            Some(FundCategory::Other)
        } else if s.len() == 6 {
            Some(FundCategory::Health)
        } else if s.len() == 9 {
            if s[0] == 'B' {
                Some(FundCategory::BankLoan)
            } else if s[0] == 'F' {
                Some(FundCategory::Financial)
            } else if s[0] == 'M' {
                Some(FundCategory::MuniOhio)
            } else if s[0] == 'U' {
                Some(FundCategory::Utilities)
            } else {
                None
            }
        } else if s.len() == 10 {
            if s[0] == 'T' {
                Some(FundCategory::Technology)
            } else if s[0] == 'W' {
                Some(FundCategory::WorldBond)
            } else {
                None
            }
        } else if s.len() == 11 {
            if s[0] == 'B' {
                Some(FundCategory::BearMarket)
            } else if s[0] == 'J' {
                Some(FundCategory::JapanStock)
            } else if s[0] == 'L' {
                if s[6] == 'B' {
                    Some(FundCategory::LargeBlend)
                } else if s[6] == 'V' {
                    Some(FundCategory::LargeValue)
                } else {
                    None
                }
            } else if s[0] == 'R' {
                Some(FundCategory::RealEstate)
            } else if s[0] == 'S' {
                if s[6] == 'B' {
                    Some(FundCategory::SmallBlend)
                } else if s[6] == 'V' {
                    Some(FundCategory::SmallValue)
                } else {
                    None
                }
            } else if s[0] == 'W' {
                Some(FundCategory::WorldStock)
            } else {
                None
            }
        } else if s.len() == 12 {
            if s[1] == 'a' {
                Some(FundCategory::LargeGrowth)
            } else if s[1] == 'h' {
                Some(FundCategory::ChinaRegion)
            } else if s[1] == 'm' {
                Some(FundCategory::SmallGrowth)
            } else if s[1] == 'o' {
                Some(FundCategory::Convertibles)
            } else if s[1] == 'u' {
                Some(FundCategory::EuropeStock)
            } else {
                None
            }
        } else if s.len() == 13 {
            if s[8] == 'B' {
                Some(FundCategory::MidCapBlend)
            } else if s[8] == 'V' {
                Some(FundCategory::MidCapValue)
            } else if s[8] == 'n' {
                Some(FundCategory::EquityEnergy)
            } else if s[8] == 'r' {
                Some(FundCategory::Multicurrency)
            } else {
                None
            }
        } else if s.len() == 14 {
            if s[5] == 'M' {
                Some(FundCategory::MuniMinnesota)
            } else if s[5] == 'T' {
                Some(FundCategory::LongTermBond)
            } else if s[5] == 'a' {
                Some(FundCategory::MidCapGrowth)
            } else if s[5] == 'n' {
                Some(FundCategory::OptionWriting)
            } else if s[5] == 'r' {
                Some(FundCategory::CorporateBond)
            } else if s[5] == 's' {
                Some(FundCategory::Infrastructure)
            } else if s[5] == 't' {
                Some(FundCategory::MarketNeutral)
            } else {
                None
            }
        } else if s.len() == 15 {
            if s[1] == 'a' {
                Some(FundCategory::ManagedFutures)
            } else if s[1] == 'h' {
                Some(FundCategory::ShortTermBond)
            } else if s[1] == 'i' {
                if s[11] == 'B' {
                    Some(FundCategory::HighYieldBond)
                } else if s[11] == 'M' {
                    Some(FundCategory::HighYieldMuni)
                } else {
                    None
                }
            } else if s[1] == 'l' {
                Some(FundCategory::UltrashortBond)
            } else if s[1] == 'o' {
                Some(FundCategory::LongGovernment)
            } else if s[1] == 'r' {
                Some(FundCategory::PreferredStock)
            } else if s[1] == 'u' {
                Some(FundCategory::MuniNewJersey)
            } else {
                None
            }
        } else if s.len() == 16 {
            if s[14] == '1' {
                Some(FundCategory::TargetDate2015)
            } else if s[14] == '2' {
                if s[15] == '0' {
                    Some(FundCategory::TargetDate2020)
                } else if s[15] == '5' {
                    Some(FundCategory::TargetDate2025)
                } else {
                    None
                }
            } else if s[14] == '3' {
                if s[15] == '0' {
                    Some(FundCategory::TargetDate2030)
                } else if s[15] == '5' {
                    Some(FundCategory::TargetDate2035)
                } else {
                    None
                }
            } else if s[14] == '4' {
                if s[15] == '0' {
                    Some(FundCategory::TargetDate2040)
                } else if s[15] == '5' {
                    Some(FundCategory::TargetDate2045)
                } else {
                    None
                }
            } else if s[14] == '5' {
                if s[15] == '0' {
                    Some(FundCategory::TargetDate2050)
                } else if s[15] == '5' {
                    Some(FundCategory::TargetDate2055)
                } else {
                    None
                }
            } else if s[14] == 'n' {
                if s[0] == 'M' {
                    Some(FundCategory::MultisectorBond)
                } else if s[0] == 'S' {
                    Some(FundCategory::ShortGovernment)
                } else {
                    None
                }
            } else if s[14] == 'o' {
                if s[0] == 'O' {
                    Some(FundCategory::OtherAllocation)
                } else if s[0] == 'W' {
                    Some(FundCategory::WorldAllocation)
                } else {
                    None
                }
            } else if s[14] == 'v' {
                Some(FundCategory::Multialternative)
            } else {
                None
            }
        } else if s.len() == 17 {
            if s[11] == ' ' {
                Some(FundCategory::TargetDate2060Plus)
            } else if s[11] == 'C' {
                Some(FundCategory::LongShortCredit)
            } else if s[11] == 'E' {
                Some(FundCategory::LongShortEquity)
            } else if s[11] == 'l' {
                Some(FundCategory::MuniPennsylvania)
            } else if s[11] == 'o' {
                Some(FundCategory::NaturalResources)
            } else {
                None
            }
        } else if s.len() == 18 {
            if s[7] == 'R' {
                Some(FundCategory::GlobalRealEstate)
            } else if s[7] == 's' {
                Some(FundCategory::MuniMassachusetts)
            } else if s[7] == 't' {
                Some(FundCategory::MuniNationalLong)
            } else if s[7] == 'w' {
                Some(FundCategory::MuniNewYorkLong)
            } else {
                None
            }
        } else if s.len() == 19 {
            if s[14] == ' ' {
                Some(FundCategory::NontraditionalBond)
            } else if s[14] == 'B' {
                Some(FundCategory::ForeignLargeBlend)
            } else if s[14] == 'S' {
                Some(FundCategory::MuniNationalShort)
            } else if s[14] == 'V' {
                Some(FundCategory::ForeignLargeValue)
            } else if s[14] == 'a' {
                Some(FundCategory::TacticalAllocation)
            } else {
                None
            }
        } else if s.len() == 20 {
            if s[5] == 'C' {
                Some(FundCategory::MuniCaliforniaLong)
            } else if s[5] == 'N' {
                Some(FundCategory::MuniNationalInterm)
            } else if s[5] == 'g' {
                Some(FundCategory::ForeignLargeGrowth)
            } else if s[5] == 'l' {
                Some(FundCategory::MiscellaneousRegion)
            } else {
                None
            }
        } else if s.len() == 21 {
            if s[0] == 'E' {
                Some(FundCategory::EmergingMarketsBond)
            } else if s[0] == 'T' {
                Some(FundCategory::TargetDate20002010)
            } else {
                None
            }
        } else if s.len() == 22 {
            if s[0] == 'E' {
                Some(FundCategory::EquityPreciousMetals)
            } else if s[0] == 'I' {
                Some(FundCategory::IntermediateTermBond)
            } else if s[0] == 'M' {
                Some(FundCategory::MuniSingleStateLong)
            } else if s[0] == 'T' {
                Some(FundCategory::TargetDateRetirement)
            } else {
                None
            }
        } else if s.len() == 23 {
            if s[18] == 'B' {
                Some(FundCategory::ForeignSmallMidBlend)
            } else if s[18] == 'S' {
                Some(FundCategory::MuniSingleStateShort)
            } else if s[18] == 'V' {
                Some(FundCategory::ForeignSmallMidValue)
            } else if s[18] == 'l' {
                Some(FundCategory::CommoditiesAgriculture)
            } else if s[18] == 'n' {
                Some(FundCategory::IntermediateGovernment)
            } else {
                None
            }
        } else if s.len() == 24 {
            if s[0] == 'A' {
                Some(FundCategory::Allocation85PlusEquity)
            } else if s[0] == 'C' {
                Some(FundCategory::CommoditiesBroadBasket)
            } else if s[0] == 'D' {
                Some(FundCategory::DiversifiedPacificAsia)
            } else if s[0] == 'F' {
                Some(FundCategory::ForeignSmallMidGrowth)
            } else if s[0] == 'I' {
                Some(FundCategory::InflationProtectedBond)
            } else if s[0] == 'M' {
                Some(FundCategory::MuniSingleStateInterm)
            } else if s[0] == 'T' {
                Some(FundCategory::TradingInverseEquity)
            } else {
                None
            }
        } else if s.len() == 25 {
            if s[0] == 'D' {
                Some(FundCategory::DiversifiedEmergingMkts)
            } else if s[0] == 'P' {
                Some(FundCategory::PacificAsiaExJapanStk)
            } else {
                None
            }
        } else if s.len() == 26 {
            if s[0] == 'E' {
                Some(FundCategory::EnergyLimitedPartnership)
            } else if s[0] == 'M' {
                Some(FundCategory::MuniNewYorkIntermediate)
            } else if s[0] == 'T' {
                Some(FundCategory::TradingLeveragedEquity)
            } else {
                None
            }
        } else if s.len() == 28 {
            Some(FundCategory::MuniCaliforniaIntermediate)
        } else if s.len() == 30 {
            if s[13] == '1' {
                Some(FundCategory::Allocation15to30Equity)
            } else if s[13] == '3' {
                Some(FundCategory::Allocation30to50Equity)
            } else if s[13] == '5' {
                Some(FundCategory::Allocation50to70Equity)
            } else if s[13] == '7' {
                Some(FundCategory::Allocation70to85Equity)
            } else {
                None
            }
        } else if s.len() == 34 {
            Some(FundCategory::TradingLeveragedInverseEquity)
        } else if s.len() == 36 {
            Some(FundCategory::EmergingMarketsLocalCurrencyBond)
        } else if s.len() == 39 {
            Some(FundCategory::TradingLeveragedInverseCommodities)
        } else {
            None
        }
    }

    /// The key of this value.
    pub fn as_str(&self) -> (s: &'static str)
        ensures
            s@ == self.spec_key(),
    {
        match self {
            FundCategory::Allocation15to30Equity => "Allocation - 15% to 30% Equity",
            FundCategory::Allocation30to50Equity => "Allocation - 30% to 50% Equity",
            FundCategory::Allocation50to70Equity => "Allocation - 50% to 70% Equity",
            FundCategory::Allocation70to85Equity => "Allocation - 70% to 85% Equity",
            FundCategory::Allocation85PlusEquity => "Allocation - 85%+ Equity",
            FundCategory::BankLoan => "Bank Loan",
            FundCategory::BearMarket => "Bear Market",
            FundCategory::ChinaRegion => "China Region",
            FundCategory::CommoditiesAgriculture => "Commodities Agriculture",
            FundCategory::CommoditiesBroadBasket => "Commodities Broad Basket",
            FundCategory::Convertibles => "Convertibles",
            FundCategory::CorporateBond => "Corporate Bond",
            FundCategory::DiversifiedEmergingMkts => "Diversified Emerging Mkts",
            FundCategory::DiversifiedPacificAsia => "Diversified Pacific/Asia",
            FundCategory::EmergingMarketsBond => "Emerging Markets Bond",
            FundCategory::EmergingMarketsLocalCurrencyBond => "Emerging-Markets Local-Currency Bond",
            FundCategory::EnergyLimitedPartnership => "Energy Limited Partnership",
            FundCategory::EquityEnergy => "Equity Energy",
            FundCategory::EquityPreciousMetals => "Equity Precious Metals",
            FundCategory::EuropeStock => "Europe Stock",
            FundCategory::Financial => "Financial",
            FundCategory::ForeignLargeBlend => "Foreign Large Blend",
            FundCategory::ForeignLargeGrowth => "Foreign Large Growth",
            FundCategory::ForeignLargeValue => "Foreign Large Value",
            FundCategory::ForeignSmallMidBlend => "Foreign Small/Mid Blend",
            FundCategory::ForeignSmallMidGrowth => "Foreign Small/Mid Growth",
            FundCategory::ForeignSmallMidValue => "Foreign Small/Mid Value",
            FundCategory::GlobalRealEstate => "Global Real Estate",
            FundCategory::Health => "Health",
            FundCategory::HighYieldBond => "High Yield Bond",
            FundCategory::HighYieldMuni => "High Yield Muni",
            FundCategory::InflationProtectedBond => "Inflation-Protected Bond",
            FundCategory::Infrastructure => "Infrastructure",
            FundCategory::IntermediateGovernment => "Intermediate Government",
            FundCategory::IntermediateTermBond => "Intermediate-Term Bond",
            FundCategory::JapanStock => "Japan Stock",
            FundCategory::LargeBlend => "Large Blend",
            FundCategory::LargeGrowth => "Large Growth",
            FundCategory::LargeValue => "Large Value",
            FundCategory::LongGovernment => "Long Government",
            FundCategory::LongShortCredit => "Long-Short Credit",
            FundCategory::LongShortEquity => "Long-Short Equity",
            FundCategory::LongTermBond => "Long-Term Bond",
            FundCategory::ManagedFutures => "Managed Futures",
            FundCategory::MarketNeutral => "Market Neutral",
            FundCategory::MidCapBlend => "Mid-Cap Blend",
            FundCategory::MidCapGrowth => "Mid-Cap Growth",
            FundCategory::MidCapValue => "Mid-Cap Value",
            FundCategory::MiscellaneousRegion => "Miscellaneous Region",
            FundCategory::Multialternative => "Multialternative",
            FundCategory::Multicurrency => "Multicurrency",
            FundCategory::MultisectorBond => "Multisector Bond",
            FundCategory::MuniCaliforniaIntermediate => "Muni California Intermediate",
            FundCategory::MuniCaliforniaLong => "Muni California Long",
            FundCategory::MuniMassachusetts => "Muni Massachusetts",
            FundCategory::MuniMinnesota => "Muni Minnesota",
            FundCategory::MuniNationalInterm => "Muni National Interm",
            FundCategory::MuniNationalLong => "Muni National Long",
            FundCategory::MuniNationalShort => "Muni National Short",
            FundCategory::MuniNewJersey => "Muni New Jersey",
            FundCategory::MuniNewYorkIntermediate => "Muni New York Intermediate",
            FundCategory::MuniNewYorkLong => "Muni New York Long",
            FundCategory::MuniOhio => "Muni Ohio",
            FundCategory::MuniPennsylvania => "Muni Pennsylvania",
            FundCategory::MuniSingleStateInterm => "Muni Single State Interm",
            FundCategory::MuniSingleStateLong => "Muni Single State Long",
            FundCategory::MuniSingleStateShort => "Muni Single State Short",
            FundCategory::NaturalResources => "Natural Resources",
            FundCategory::NontraditionalBond => "Nontraditional Bond",
            FundCategory::OptionWriting => "Option Writing",
            FundCategory::Other => "Other",
            FundCategory::OtherAllocation => "Other Allocation",
            FundCategory::PacificAsiaExJapanStk => "Pacific/Asia ex-Japan Stk",
            FundCategory::PreferredStock => "Preferred Stock",
            FundCategory::RealEstate => "Real Estate",
            FundCategory::ShortGovernment => "Short Government",
            FundCategory::ShortTermBond => "Short-Term Bond",
            FundCategory::SmallBlend => "Small Blend",
            FundCategory::SmallGrowth => "Small Growth",
            FundCategory::SmallValue => "Small Value",
            FundCategory::TacticalAllocation => "Tactical Allocation",
            FundCategory::TargetDate20002010 => "Target-Date 2000-2010",
            FundCategory::TargetDate2015 => "Target-Date 2015",
            FundCategory::TargetDate2020 => "Target-Date 2020",
            FundCategory::TargetDate2025 => "Target-Date 2025",
            FundCategory::TargetDate2030 => "Target-Date 2030",
            FundCategory::TargetDate2035 => "Target-Date 2035",
            FundCategory::TargetDate2040 => "Target-Date 2040",
            FundCategory::TargetDate2045 => "Target-Date 2045",
            FundCategory::TargetDate2050 => "Target-Date 2050",
            FundCategory::TargetDate2055 => "Target-Date 2055",
            FundCategory::TargetDate2060Plus => "Target-Date 2060+",
            FundCategory::TargetDateRetirement => "Target-Date Retirement",
            FundCategory::Technology => "Technology",
            FundCategory::TradingLeveragedInverseCommodities => "Trading - Leveraged/Inverse Commodities",
            FundCategory::TradingLeveragedInverseEquity => "Trading - Leveraged/Inverse Equity",
            FundCategory::TradingInverseEquity => "Trading - Inverse Equity",
            FundCategory::TradingLeveragedEquity => "Trading - Leveraged Equity",
            FundCategory::UltrashortBond => "Ultrashort Bond",
            FundCategory::Utilities => "Utilities",
            FundCategory::WorldAllocation => "World Allocation",
            FundCategory::WorldBond => "World Bond",
            FundCategory::WorldStock => "World Stock",
        }
    }

    /// The key of this value as an owned string.
    pub fn to_string(&self) -> (s: String)
        ensures
            s@ == self.spec_key(),
    {
        owned(self.as_str())
    }

    /// Parses a key: the value whose key is `s`, and `None` when there is none.
    pub fn from_str(s: &str) -> (r: Option<FundCategory>)
        ensures
            forall|v: FundCategory| #[trigger] v.spec_key() == s@ <==> r == Some(v),
    {
        let r = Self::find(s);
        proof {
            assert forall|v: FundCategory| #[trigger] v.spec_key() == s@ implies r == Some(v) by {
                Self::lemma_key_round_trip(v, r->0);
            }
        }
        r
    }

    /// Tries the keys in declaration order.
    #[verifier::rlimit(60)]
    fn find(s: &str) -> (r: Option<FundCategory>)
        ensures
            r matches Some(v) ==> v.spec_key() == s@,
            r is None ==> forall|v: FundCategory| #[trigger] v.spec_key() != s@,
    {
        if str_eq(s, "Allocation - 15% to 30% Equity") {
            return Some(FundCategory::Allocation15to30Equity);
        }
        if str_eq(s, "Allocation - 30% to 50% Equity") {
            return Some(FundCategory::Allocation30to50Equity);
        }
        if str_eq(s, "Allocation - 50% to 70% Equity") {
            return Some(FundCategory::Allocation50to70Equity);
        }
        if str_eq(s, "Allocation - 70% to 85% Equity") {
            return Some(FundCategory::Allocation70to85Equity);
        }
        if str_eq(s, "Allocation - 85%+ Equity") {
            return Some(FundCategory::Allocation85PlusEquity);
        }
        if str_eq(s, "Bank Loan") {
            return Some(FundCategory::BankLoan);
        }
        if str_eq(s, "Bear Market") {
            return Some(FundCategory::BearMarket);
        }
        if str_eq(s, "China Region") {
            return Some(FundCategory::ChinaRegion);
        }
        if str_eq(s, "Commodities Agriculture") {
            return Some(FundCategory::CommoditiesAgriculture);
        }
        if str_eq(s, "Commodities Broad Basket") {
            return Some(FundCategory::CommoditiesBroadBasket);
        }
        if str_eq(s, "Convertibles") {
            return Some(FundCategory::Convertibles);
        }
        if str_eq(s, "Corporate Bond") {
            return Some(FundCategory::CorporateBond);
        }
        if str_eq(s, "Diversified Emerging Mkts") {
            return Some(FundCategory::DiversifiedEmergingMkts);
        }
        if str_eq(s, "Diversified Pacific/Asia") {
            return Some(FundCategory::DiversifiedPacificAsia);
        }
        if str_eq(s, "Emerging Markets Bond") {
            return Some(FundCategory::EmergingMarketsBond);
        }
        if str_eq(s, "Emerging-Markets Local-Currency Bond") {
            return Some(FundCategory::EmergingMarketsLocalCurrencyBond);
        }
        if str_eq(s, "Energy Limited Partnership") {
            return Some(FundCategory::EnergyLimitedPartnership);
        }
        if str_eq(s, "Equity Energy") {
            return Some(FundCategory::EquityEnergy);
        }
        if str_eq(s, "Equity Precious Metals") {
            return Some(FundCategory::EquityPreciousMetals);
        }
        if str_eq(s, "Europe Stock") {
            return Some(FundCategory::EuropeStock);
        }
        if str_eq(s, "Financial") {
            return Some(FundCategory::Financial);
        }
        if str_eq(s, "Foreign Large Blend") {
            return Some(FundCategory::ForeignLargeBlend);
        }
        if str_eq(s, "Foreign Large Growth") {
            return Some(FundCategory::ForeignLargeGrowth);
        }
        if str_eq(s, "Foreign Large Value") {
            return Some(FundCategory::ForeignLargeValue);
        }
        if str_eq(s, "Foreign Small/Mid Blend") {
            return Some(FundCategory::ForeignSmallMidBlend);
        }
        if str_eq(s, "Foreign Small/Mid Growth") {
            return Some(FundCategory::ForeignSmallMidGrowth);
        }
        if str_eq(s, "Foreign Small/Mid Value") {
            return Some(FundCategory::ForeignSmallMidValue);
        }
        if str_eq(s, "Global Real Estate") {
            return Some(FundCategory::GlobalRealEstate);
        }
        if str_eq(s, "Health") {
            return Some(FundCategory::Health);
        }
        if str_eq(s, "High Yield Bond") {
            return Some(FundCategory::HighYieldBond);
        }
        if str_eq(s, "High Yield Muni") {
            return Some(FundCategory::HighYieldMuni);
        }
        if str_eq(s, "Inflation-Protected Bond") {
            return Some(FundCategory::InflationProtectedBond);
        }
        if str_eq(s, "Infrastructure") {
            return Some(FundCategory::Infrastructure);
        }
        if str_eq(s, "Intermediate Government") {
            return Some(FundCategory::IntermediateGovernment);
        }
        if str_eq(s, "Intermediate-Term Bond") {
            return Some(FundCategory::IntermediateTermBond);
        }
        if str_eq(s, "Japan Stock") {
            return Some(FundCategory::JapanStock);
        }
        if str_eq(s, "Large Blend") {
            return Some(FundCategory::LargeBlend);
        }
        if str_eq(s, "Large Growth") {
            return Some(FundCategory::LargeGrowth);
        }
        if str_eq(s, "Large Value") {
            return Some(FundCategory::LargeValue);
        }
        if str_eq(s, "Long Government") {
            return Some(FundCategory::LongGovernment);
        }
        if str_eq(s, "Long-Short Credit") {
            return Some(FundCategory::LongShortCredit);
        }
        if str_eq(s, "Long-Short Equity") {
            return Some(FundCategory::LongShortEquity);
        }
        if str_eq(s, "Long-Term Bond") {
            return Some(FundCategory::LongTermBond);
        }
        if str_eq(s, "Managed Futures") {
            return Some(FundCategory::ManagedFutures);
        }
        if str_eq(s, "Market Neutral") {
            return Some(FundCategory::MarketNeutral);
        }
        if str_eq(s, "Mid-Cap Blend") {
            return Some(FundCategory::MidCapBlend);
        }
        if str_eq(s, "Mid-Cap Growth") {
            return Some(FundCategory::MidCapGrowth);
        }
        if str_eq(s, "Mid-Cap Value") {
            return Some(FundCategory::MidCapValue);
        }
        if str_eq(s, "Miscellaneous Region") {
            return Some(FundCategory::MiscellaneousRegion);
        }
        if str_eq(s, "Multialternative") {
            return Some(FundCategory::Multialternative);
        }
        if str_eq(s, "Multicurrency") {
            return Some(FundCategory::Multicurrency);
        }
        if str_eq(s, "Multisector Bond") {
            return Some(FundCategory::MultisectorBond);
        }
        if str_eq(s, "Muni California Intermediate") {
            return Some(FundCategory::MuniCaliforniaIntermediate);
        }
        if str_eq(s, "Muni California Long") {
            return Some(FundCategory::MuniCaliforniaLong);
        }
        if str_eq(s, "Muni Massachusetts") {
            return Some(FundCategory::MuniMassachusetts);
        }
        if str_eq(s, "Muni Minnesota") {
            return Some(FundCategory::MuniMinnesota);
        }
        if str_eq(s, "Muni National Interm") {
            return Some(FundCategory::MuniNationalInterm);
        }
        if str_eq(s, "Muni National Long") {
            return Some(FundCategory::MuniNationalLong);
        }
        if str_eq(s, "Muni National Short") {
            return Some(FundCategory::MuniNationalShort);
        }
        if str_eq(s, "Muni New Jersey") {
            return Some(FundCategory::MuniNewJersey);
        }
        if str_eq(s, "Muni New York Intermediate") {
            return Some(FundCategory::MuniNewYorkIntermediate);
        }
        if str_eq(s, "Muni New York Long") {
            return Some(FundCategory::MuniNewYorkLong);
        }
        if str_eq(s, "Muni Ohio") {
            return Some(FundCategory::MuniOhio);
        }
        if str_eq(s, "Muni Pennsylvania") {
            return Some(FundCategory::MuniPennsylvania);
        }
        if str_eq(s, "Muni Single State Interm") {
            return Some(FundCategory::MuniSingleStateInterm);
        }
        if str_eq(s, "Muni Single State Long") {
            return Some(FundCategory::MuniSingleStateLong);
        }
        if str_eq(s, "Muni Single State Short") {
            return Some(FundCategory::MuniSingleStateShort);
        }
        if str_eq(s, "Natural Resources") {
            return Some(FundCategory::NaturalResources);
        }
        if str_eq(s, "Nontraditional Bond") {
            return Some(FundCategory::NontraditionalBond);
        }
        if str_eq(s, "Option Writing") {
            return Some(FundCategory::OptionWriting);
        }
        if str_eq(s, "Other") {
            return Some(FundCategory::Other);
        }
        if str_eq(s, "Other Allocation") {
            return Some(FundCategory::OtherAllocation);
        }
        if str_eq(s, "Pacific/Asia ex-Japan Stk") {
            return Some(FundCategory::PacificAsiaExJapanStk);
        }
        if str_eq(s, "Preferred Stock") {
            return Some(FundCategory::PreferredStock);
        }
        if str_eq(s, "Real Estate") {
            return Some(FundCategory::RealEstate);
        }
        if str_eq(s, "Short Government") {
            return Some(FundCategory::ShortGovernment);
        }
        if str_eq(s, "Short-Term Bond") {
            return Some(FundCategory::ShortTermBond);
        }
        if str_eq(s, "Small Blend") {
            return Some(FundCategory::SmallBlend);
        }
        if str_eq(s, "Small Growth") {
            return Some(FundCategory::SmallGrowth);
        }
        if str_eq(s, "Small Value") {
            return Some(FundCategory::SmallValue);
        }
        if str_eq(s, "Tactical Allocation") {
            return Some(FundCategory::TacticalAllocation);
        }
        if str_eq(s, "Target-Date 2000-2010") {
            return Some(FundCategory::TargetDate20002010);
        }
        if str_eq(s, "Target-Date 2015") {
            return Some(FundCategory::TargetDate2015);
        }
        if str_eq(s, "Target-Date 2020") {
            return Some(FundCategory::TargetDate2020);
        }
        if str_eq(s, "Target-Date 2025") {
            return Some(FundCategory::TargetDate2025);
        }
        if str_eq(s, "Target-Date 2030") {
            return Some(FundCategory::TargetDate2030);
        }
        if str_eq(s, "Target-Date 2035") {
            return Some(FundCategory::TargetDate2035);
        }
        if str_eq(s, "Target-Date 2040") {
            return Some(FundCategory::TargetDate2040);
        }
        if str_eq(s, "Target-Date 2045") {
            return Some(FundCategory::TargetDate2045);
        }
        if str_eq(s, "Target-Date 2050") {
            return Some(FundCategory::TargetDate2050);
        }
        if str_eq(s, "Target-Date 2055") {
            return Some(FundCategory::TargetDate2055);
        }
        if str_eq(s, "Target-Date 2060+") {
            return Some(FundCategory::TargetDate2060Plus);
        }
        if str_eq(s, "Target-Date Retirement") {
            return Some(FundCategory::TargetDateRetirement);
        }
        if str_eq(s, "Technology") {
            return Some(FundCategory::Technology);
        }
        if str_eq(s, "Trading - Leveraged/Inverse Commodities") {
            return Some(FundCategory::TradingLeveragedInverseCommodities);
        }
        if str_eq(s, "Trading - Leveraged/Inverse Equity") {
            return Some(FundCategory::TradingLeveragedInverseEquity);
        }
        if str_eq(s, "Trading - Inverse Equity") {
            return Some(FundCategory::TradingInverseEquity);
        }
        if str_eq(s, "Trading - Leveraged Equity") {
            return Some(FundCategory::TradingLeveragedEquity);
        }
        if str_eq(s, "Ultrashort Bond") {
            return Some(FundCategory::UltrashortBond);
        }
        if str_eq(s, "Utilities") {
            return Some(FundCategory::Utilities);
        }
        if str_eq(s, "World Allocation") {
            return Some(FundCategory::WorldAllocation);
        }
        if str_eq(s, "World Bond") {
            return Some(FundCategory::WorldBond);
        }
        if str_eq(s, "World Stock") {
            return Some(FundCategory::WorldStock);
        }
        None
    }

    /// Every value, in declaration order.
    pub fn variants() -> (r: Vec<FundCategory>)
        ensures
            r@ == Self::spec_all(),
    {
        let r = vec![
            FundCategory::Allocation15to30Equity, FundCategory::Allocation30to50Equity,
            FundCategory::Allocation50to70Equity, FundCategory::Allocation70to85Equity,
            FundCategory::Allocation85PlusEquity, FundCategory::BankLoan, FundCategory::BearMarket,
            FundCategory::ChinaRegion, FundCategory::CommoditiesAgriculture,
            FundCategory::CommoditiesBroadBasket, FundCategory::Convertibles,
            FundCategory::CorporateBond, FundCategory::DiversifiedEmergingMkts,
            FundCategory::DiversifiedPacificAsia, FundCategory::EmergingMarketsBond,
            FundCategory::EmergingMarketsLocalCurrencyBond, FundCategory::EnergyLimitedPartnership,
            FundCategory::EquityEnergy, FundCategory::EquityPreciousMetals,
            FundCategory::EuropeStock, FundCategory::Financial, FundCategory::ForeignLargeBlend,
            FundCategory::ForeignLargeGrowth, FundCategory::ForeignLargeValue,
            FundCategory::ForeignSmallMidBlend, FundCategory::ForeignSmallMidGrowth,
            FundCategory::ForeignSmallMidValue, FundCategory::GlobalRealEstate,
            FundCategory::Health, FundCategory::HighYieldBond, FundCategory::HighYieldMuni,
            FundCategory::InflationProtectedBond, FundCategory::Infrastructure,
            FundCategory::IntermediateGovernment, FundCategory::IntermediateTermBond,
            FundCategory::JapanStock, FundCategory::LargeBlend, FundCategory::LargeGrowth,
            FundCategory::LargeValue, FundCategory::LongGovernment, FundCategory::LongShortCredit,
            FundCategory::LongShortEquity, FundCategory::LongTermBond, FundCategory::ManagedFutures,
            FundCategory::MarketNeutral, FundCategory::MidCapBlend, FundCategory::MidCapGrowth,
            FundCategory::MidCapValue, FundCategory::MiscellaneousRegion,
            FundCategory::Multialternative, FundCategory::Multicurrency,
            FundCategory::MultisectorBond, FundCategory::MuniCaliforniaIntermediate,
            FundCategory::MuniCaliforniaLong, FundCategory::MuniMassachusetts,
            FundCategory::MuniMinnesota, FundCategory::MuniNationalInterm,
            FundCategory::MuniNationalLong, FundCategory::MuniNationalShort,
            FundCategory::MuniNewJersey, FundCategory::MuniNewYorkIntermediate,
            FundCategory::MuniNewYorkLong, FundCategory::MuniOhio, FundCategory::MuniPennsylvania,
            FundCategory::MuniSingleStateInterm, FundCategory::MuniSingleStateLong,
            FundCategory::MuniSingleStateShort, FundCategory::NaturalResources,
            FundCategory::NontraditionalBond, FundCategory::OptionWriting, FundCategory::Other,
            FundCategory::OtherAllocation, FundCategory::PacificAsiaExJapanStk,
            FundCategory::PreferredStock, FundCategory::RealEstate, FundCategory::ShortGovernment,
            FundCategory::ShortTermBond, FundCategory::SmallBlend, FundCategory::SmallGrowth,
            FundCategory::SmallValue, FundCategory::TacticalAllocation,
            FundCategory::TargetDate20002010, FundCategory::TargetDate2015,
            FundCategory::TargetDate2020, FundCategory::TargetDate2025,
            FundCategory::TargetDate2030, FundCategory::TargetDate2035,
            FundCategory::TargetDate2040, FundCategory::TargetDate2045,
            FundCategory::TargetDate2050, FundCategory::TargetDate2055,
            FundCategory::TargetDate2060Plus, FundCategory::TargetDateRetirement,
            FundCategory::Technology, FundCategory::TradingLeveragedInverseCommodities,
            FundCategory::TradingLeveragedInverseEquity, FundCategory::TradingInverseEquity,
            FundCategory::TradingLeveragedEquity, FundCategory::UltrashortBond,
            FundCategory::Utilities, FundCategory::WorldAllocation, FundCategory::WorldBond,
            FundCategory::WorldStock,
        ];
        assert(r@ =~= Self::spec_all());
        r
    }

    /// The keys of every value, in declaration order.
    pub fn variant_names() -> (r: Vec<&'static str>)
        ensures
            strs_view(r@) == Self::spec_names(),
    {
        let r = vec![
            "Allocation - 15% to 30% Equity", "Allocation - 30% to 50% Equity",
            "Allocation - 50% to 70% Equity", "Allocation - 70% to 85% Equity",
            "Allocation - 85%+ Equity", "Bank Loan", "Bear Market", "China Region",
            "Commodities Agriculture", "Commodities Broad Basket", "Convertibles", "Corporate Bond",
            "Diversified Emerging Mkts", "Diversified Pacific/Asia", "Emerging Markets Bond",
            "Emerging-Markets Local-Currency Bond", "Energy Limited Partnership", "Equity Energy",
            "Equity Precious Metals", "Europe Stock", "Financial", "Foreign Large Blend",
            "Foreign Large Growth", "Foreign Large Value", "Foreign Small/Mid Blend",
            "Foreign Small/Mid Growth", "Foreign Small/Mid Value", "Global Real Estate", "Health",
            "High Yield Bond", "High Yield Muni", "Inflation-Protected Bond", "Infrastructure",
            "Intermediate Government", "Intermediate-Term Bond", "Japan Stock", "Large Blend",
            "Large Growth", "Large Value", "Long Government", "Long-Short Credit",
            "Long-Short Equity", "Long-Term Bond", "Managed Futures", "Market Neutral",
            "Mid-Cap Blend", "Mid-Cap Growth", "Mid-Cap Value", "Miscellaneous Region",
            "Multialternative", "Multicurrency", "Multisector Bond", "Muni California Intermediate",
            "Muni California Long", "Muni Massachusetts", "Muni Minnesota", "Muni National Interm",
            "Muni National Long", "Muni National Short", "Muni New Jersey",
            "Muni New York Intermediate", "Muni New York Long", "Muni Ohio", "Muni Pennsylvania",
            "Muni Single State Interm", "Muni Single State Long", "Muni Single State Short",
            "Natural Resources", "Nontraditional Bond", "Option Writing", "Other",
            "Other Allocation", "Pacific/Asia ex-Japan Stk", "Preferred Stock", "Real Estate",
            "Short Government", "Short-Term Bond", "Small Blend", "Small Growth", "Small Value",
            "Tactical Allocation", "Target-Date 2000-2010", "Target-Date 2015", "Target-Date 2020",
            "Target-Date 2025", "Target-Date 2030", "Target-Date 2035", "Target-Date 2040",
            "Target-Date 2045", "Target-Date 2050", "Target-Date 2055", "Target-Date 2060+",
            "Target-Date Retirement", "Technology", "Trading - Leveraged/Inverse Commodities",
            "Trading - Leveraged/Inverse Equity", "Trading - Inverse Equity",
            "Trading - Leveraged Equity", "Ultrashort Bond", "Utilities", "World Allocation",
            "World Bond", "World Stock",
        ];
        assert(strs_view(r@) =~= Self::spec_names());
        r
    }

    /// Distinct values have distinct keys: the key of a value decodes to that value.
    pub proof fn lemma_decode_key(v: FundCategory)
        ensures
            Self::spec_decode(v.spec_key()) == Some(v),
    {
        match v {
            FundCategory::Allocation15to30Equity => {
                reveal_strlit("Allocation - 15% to 30% Equity");
            },
            FundCategory::Allocation30to50Equity => {
                reveal_strlit("Allocation - 30% to 50% Equity");
            },
            FundCategory::Allocation50to70Equity => {
                reveal_strlit("Allocation - 50% to 70% Equity");
            },
            FundCategory::Allocation70to85Equity => {
                reveal_strlit("Allocation - 70% to 85% Equity");
            },
            FundCategory::Allocation85PlusEquity => {
                reveal_strlit("Allocation - 85%+ Equity");
            },
            FundCategory::BankLoan => {
                reveal_strlit("Bank Loan");
            },
            FundCategory::BearMarket => {
                reveal_strlit("Bear Market");
            },
            FundCategory::ChinaRegion => {
                reveal_strlit("China Region");
            },
            FundCategory::CommoditiesAgriculture => {
                reveal_strlit("Commodities Agriculture");
            },
            FundCategory::CommoditiesBroadBasket => {
                reveal_strlit("Commodities Broad Basket");
            },
            FundCategory::Convertibles => {
                reveal_strlit("Convertibles");
            },
            FundCategory::CorporateBond => {
                reveal_strlit("Corporate Bond");
            },
            FundCategory::DiversifiedEmergingMkts => {
                reveal_strlit("Diversified Emerging Mkts");
            },
            FundCategory::DiversifiedPacificAsia => {
                reveal_strlit("Diversified Pacific/Asia");
            },
            FundCategory::EmergingMarketsBond => {
                reveal_strlit("Emerging Markets Bond");
            },
            FundCategory::EmergingMarketsLocalCurrencyBond => {
                reveal_strlit("Emerging-Markets Local-Currency Bond");
            },
            FundCategory::EnergyLimitedPartnership => {
                reveal_strlit("Energy Limited Partnership");
            },
            FundCategory::EquityEnergy => {
                reveal_strlit("Equity Energy");
            },
            FundCategory::EquityPreciousMetals => {
                reveal_strlit("Equity Precious Metals");
            },
            FundCategory::EuropeStock => {
                reveal_strlit("Europe Stock");
            },
            FundCategory::Financial => {
                reveal_strlit("Financial");
            },
            FundCategory::ForeignLargeBlend => {
                reveal_strlit("Foreign Large Blend");
            },
            FundCategory::ForeignLargeGrowth => {
                reveal_strlit("Foreign Large Growth");
            },
            FundCategory::ForeignLargeValue => {
                reveal_strlit("Foreign Large Value");
            },
            FundCategory::ForeignSmallMidBlend => {
                reveal_strlit("Foreign Small/Mid Blend");
            },
            FundCategory::ForeignSmallMidGrowth => {
                reveal_strlit("Foreign Small/Mid Growth");
            },
            FundCategory::ForeignSmallMidValue => {
                reveal_strlit("Foreign Small/Mid Value");
            },
            FundCategory::GlobalRealEstate => {
                reveal_strlit("Global Real Estate");
            },
            FundCategory::Health => {
                reveal_strlit("Health");
            },
            FundCategory::HighYieldBond => {
                reveal_strlit("High Yield Bond");
            },
            FundCategory::HighYieldMuni => {
                reveal_strlit("High Yield Muni");
            },
            FundCategory::InflationProtectedBond => {
                reveal_strlit("Inflation-Protected Bond");
            },
            FundCategory::Infrastructure => {
                reveal_strlit("Infrastructure");
            },
            FundCategory::IntermediateGovernment => {
                reveal_strlit("Intermediate Government");
            },
            FundCategory::IntermediateTermBond => {
                reveal_strlit("Intermediate-Term Bond");
            },
            FundCategory::JapanStock => {
                reveal_strlit("Japan Stock");
            },
            FundCategory::LargeBlend => {
                reveal_strlit("Large Blend");
            },
            FundCategory::LargeGrowth => {
                reveal_strlit("Large Growth");
            },
            FundCategory::LargeValue => {
                reveal_strlit("Large Value");
            },
            FundCategory::LongGovernment => {
                reveal_strlit("Long Government");
            },
            FundCategory::LongShortCredit => {
                reveal_strlit("Long-Short Credit");
            },
            FundCategory::LongShortEquity => {
                reveal_strlit("Long-Short Equity");
            },
            FundCategory::LongTermBond => {
                reveal_strlit("Long-Term Bond");
            },
            FundCategory::ManagedFutures => {
                reveal_strlit("Managed Futures");
            },
            FundCategory::MarketNeutral => {
                reveal_strlit("Market Neutral");
            },
            FundCategory::MidCapBlend => {
                reveal_strlit("Mid-Cap Blend");
            },
            FundCategory::MidCapGrowth => {
                reveal_strlit("Mid-Cap Growth");
            },
            FundCategory::MidCapValue => {
                reveal_strlit("Mid-Cap Value");
            },
            FundCategory::MiscellaneousRegion => {
                reveal_strlit("Miscellaneous Region");
            },
            FundCategory::Multialternative => {
                reveal_strlit("Multialternative");
            },
            FundCategory::Multicurrency => {
                reveal_strlit("Multicurrency");
            },
            FundCategory::MultisectorBond => {
                reveal_strlit("Multisector Bond");
            },
            FundCategory::MuniCaliforniaIntermediate => {
                reveal_strlit("Muni California Intermediate");
            },
            FundCategory::MuniCaliforniaLong => {
                reveal_strlit("Muni California Long");
            },
            FundCategory::MuniMassachusetts => {
                reveal_strlit("Muni Massachusetts");
            },
            FundCategory::MuniMinnesota => {
                reveal_strlit("Muni Minnesota");
            },
            FundCategory::MuniNationalInterm => {
                reveal_strlit("Muni National Interm");
            },
            FundCategory::MuniNationalLong => {
                reveal_strlit("Muni National Long");
            },
            FundCategory::MuniNationalShort => {
                reveal_strlit("Muni National Short");
            },
            FundCategory::MuniNewJersey => {
                reveal_strlit("Muni New Jersey");
            },
            FundCategory::MuniNewYorkIntermediate => {
                reveal_strlit("Muni New York Intermediate");
            },
            FundCategory::MuniNewYorkLong => {
                reveal_strlit("Muni New York Long");
            },
            FundCategory::MuniOhio => {
                reveal_strlit("Muni Ohio");
            },
            FundCategory::MuniPennsylvania => {
                reveal_strlit("Muni Pennsylvania");
            },
            FundCategory::MuniSingleStateInterm => {
                reveal_strlit("Muni Single State Interm");
            },
            FundCategory::MuniSingleStateLong => {
                reveal_strlit("Muni Single State Long");
            },
            FundCategory::MuniSingleStateShort => {
                reveal_strlit("Muni Single State Short");
            },
            FundCategory::NaturalResources => {
                reveal_strlit("Natural Resources");
            },
            FundCategory::NontraditionalBond => {
                reveal_strlit("Nontraditional Bond");
            },
            FundCategory::OptionWriting => {
                reveal_strlit("Option Writing");
            },
            FundCategory::Other => {
                reveal_strlit("Other");
            },
            FundCategory::OtherAllocation => {
                reveal_strlit("Other Allocation");
            },
            FundCategory::PacificAsiaExJapanStk => {
                reveal_strlit("Pacific/Asia ex-Japan Stk");
            },
            FundCategory::PreferredStock => {
                reveal_strlit("Preferred Stock");
            },
            FundCategory::RealEstate => {
                reveal_strlit("Real Estate");
            },
            FundCategory::ShortGovernment => {
                reveal_strlit("Short Government");
            },
            FundCategory::ShortTermBond => {
                reveal_strlit("Short-Term Bond");
            },
            FundCategory::SmallBlend => {
                reveal_strlit("Small Blend");
            },
            FundCategory::SmallGrowth => {
                reveal_strlit("Small Growth");
            },
            FundCategory::SmallValue => {
                reveal_strlit("Small Value");
            },
            FundCategory::TacticalAllocation => {
                reveal_strlit("Tactical Allocation");
            },
            FundCategory::TargetDate20002010 => {
                reveal_strlit("Target-Date 2000-2010");
            },
            FundCategory::TargetDate2015 => {
                reveal_strlit("Target-Date 2015");
            },
            FundCategory::TargetDate2020 => {
                reveal_strlit("Target-Date 2020");
            },
            FundCategory::TargetDate2025 => {
                reveal_strlit("Target-Date 2025");
            },
            FundCategory::TargetDate2030 => {
                reveal_strlit("Target-Date 2030");
            },
            FundCategory::TargetDate2035 => {
                reveal_strlit("Target-Date 2035");
            },
            FundCategory::TargetDate2040 => {
                reveal_strlit("Target-Date 2040");
            },
            FundCategory::TargetDate2045 => {
                reveal_strlit("Target-Date 2045");
            },
            FundCategory::TargetDate2050 => {
                reveal_strlit("Target-Date 2050");
            },
            FundCategory::TargetDate2055 => {
                reveal_strlit("Target-Date 2055");
            },
            FundCategory::TargetDate2060Plus => {
                reveal_strlit("Target-Date 2060+");
            },
            FundCategory::TargetDateRetirement => {
                reveal_strlit("Target-Date Retirement");
            },
            FundCategory::Technology => {
                reveal_strlit("Technology");
            },
            FundCategory::TradingLeveragedInverseCommodities => {
                reveal_strlit("Trading - Leveraged/Inverse Commodities");
            },
            FundCategory::TradingLeveragedInverseEquity => {
                reveal_strlit("Trading - Leveraged/Inverse Equity");
            },
            FundCategory::TradingInverseEquity => {
                reveal_strlit("Trading - Inverse Equity");
            },
            FundCategory::TradingLeveragedEquity => {
                reveal_strlit("Trading - Leveraged Equity");
            },
            FundCategory::UltrashortBond => {
                reveal_strlit("Ultrashort Bond");
            },
            FundCategory::Utilities => {
                reveal_strlit("Utilities");
            },
            FundCategory::WorldAllocation => {
                reveal_strlit("World Allocation");
            },
            FundCategory::WorldBond => {
                reveal_strlit("World Bond");
            },
            FundCategory::WorldStock => {
                reveal_strlit("World Stock");
            },
        }
    }

    /// Parsing the key of a value gives back that value.
    pub proof fn lemma_key_round_trip(a: FundCategory, b: FundCategory)
        requires
            a.spec_key() == b.spec_key(),
        ensures
            a == b,
    {
        Self::lemma_decode_key(a);
        Self::lemma_decode_key(b);
    }
}

/// Every industry names an existing sector, and that sector lists the industry among its industries.
pub proof fn lemma_industry_in_its_sector(i: Industry)
    ensures
        exists|s: Sector| #[trigger] s.spec_key() == i.spec_sector() && s.spec_industries().contains(i.spec_key()),
{
    match i {
        Industry::AgriculturalInputs => {
            assert(Sector::BasicMaterials.spec_industries()[0] == i.spec_key());
            assert(Sector::BasicMaterials.spec_key() == i.spec_sector());
        },
        Industry::BuildingMaterials => {
            assert(Sector::BasicMaterials.spec_industries()[1] == i.spec_key());
            assert(Sector::BasicMaterials.spec_key() == i.spec_sector());
        },
        Industry::Chemicals => {
            assert(Sector::BasicMaterials.spec_industries()[2] == i.spec_key());
            assert(Sector::BasicMaterials.spec_key() == i.spec_sector());
        },
        Industry::SpecialtyChemicals => {
            assert(Sector::BasicMaterials.spec_industries()[3] == i.spec_key());
            assert(Sector::BasicMaterials.spec_key() == i.spec_sector());
        },
        Industry::LumberAndWoodProduction => {
            assert(Sector::BasicMaterials.spec_industries()[4] == i.spec_key());
            assert(Sector::BasicMaterials.spec_key() == i.spec_sector());
        },
        Industry::PaperAndPaperProducts => {
            assert(Sector::BasicMaterials.spec_industries()[5] == i.spec_key());
            assert(Sector::BasicMaterials.spec_key() == i.spec_sector());
        },
        Industry::Aluminum => {
            assert(Sector::BasicMaterials.spec_industries()[6] == i.spec_key());
            assert(Sector::BasicMaterials.spec_key() == i.spec_sector());
        },
        Industry::Copper => {
            assert(Sector::BasicMaterials.spec_industries()[7] == i.spec_key());
            assert(Sector::BasicMaterials.spec_key() == i.spec_sector());
        },
        Industry::OtherIndustrialMetalsAndMining => {
            assert(Sector::BasicMaterials.spec_industries()[8] == i.spec_key());
            assert(Sector::BasicMaterials.spec_key() == i.spec_sector());
        },
        Industry::Gold => {
            assert(Sector::BasicMaterials.spec_industries()[9] == i.spec_key());
            assert(Sector::BasicMaterials.spec_key() == i.spec_sector());
        },
        Industry::Silver => {
            assert(Sector::BasicMaterials.spec_industries()[10] == i.spec_key());
            assert(Sector::BasicMaterials.spec_key() == i.spec_sector());
        },
        Industry::OtherPreciousMetalsAndMining => {
            assert(Sector::BasicMaterials.spec_industries()[11] == i.spec_key());
            assert(Sector::BasicMaterials.spec_key() == i.spec_sector());
        },
        Industry::CokingCoal => {
            assert(Sector::BasicMaterials.spec_industries()[12] == i.spec_key());
            assert(Sector::BasicMaterials.spec_key() == i.spec_sector());
        },
        Industry::Steel => {
            assert(Sector::BasicMaterials.spec_industries()[13] == i.spec_key());
            assert(Sector::BasicMaterials.spec_key() == i.spec_sector());
        },
        Industry::AutoAndTruckDealerships => {
            assert(Sector::ConsumerCyclical.spec_industries()[0] == i.spec_key());
            assert(Sector::ConsumerCyclical.spec_key() == i.spec_sector());
        },
        Industry::AutoManufacturers => {
            assert(Sector::ConsumerCyclical.spec_industries()[1] == i.spec_key());
            assert(Sector::ConsumerCyclical.spec_key() == i.spec_sector());
        },
        Industry::AutoParts => {
            assert(Sector::ConsumerCyclical.spec_industries()[2] == i.spec_key());
            assert(Sector::ConsumerCyclical.spec_key() == i.spec_sector());
        },
        Industry::RecreationalVehicles => {
            assert(Sector::ConsumerCyclical.spec_industries()[3] == i.spec_key());
            assert(Sector::ConsumerCyclical.spec_key() == i.spec_sector());
        },
        Industry::FurnishingsFixturesAndAppliances => {
            assert(Sector::ConsumerCyclical.spec_industries()[4] == i.spec_key());
            assert(Sector::ConsumerCyclical.spec_key() == i.spec_sector());
        },
        Industry::ResidentialConstruction => {
            assert(Sector::ConsumerCyclical.spec_industries()[5] == i.spec_key());
            assert(Sector::ConsumerCyclical.spec_key() == i.spec_sector());
        },
        Industry::TextileManufacturing => {
            assert(Sector::ConsumerCyclical.spec_industries()[6] == i.spec_key());
            assert(Sector::ConsumerCyclical.spec_key() == i.spec_sector());
        },
        Industry::ApparelManufacturing => {
            assert(Sector::ConsumerCyclical.spec_industries()[7] == i.spec_key());
            assert(Sector::ConsumerCyclical.spec_key() == i.spec_sector());
        },
        Industry::FootwearAndAccessories => {
            assert(Sector::ConsumerCyclical.spec_industries()[8] == i.spec_key());
            assert(Sector::ConsumerCyclical.spec_key() == i.spec_sector());
        },
        Industry::PackagingAndContainers => {
            assert(Sector::ConsumerCyclical.spec_industries()[9] == i.spec_key());
            assert(Sector::ConsumerCyclical.spec_key() == i.spec_sector());
        },
        Industry::PersonalServices => {
            assert(Sector::ConsumerCyclical.spec_industries()[10] == i.spec_key());
            assert(Sector::ConsumerCyclical.spec_key() == i.spec_sector());
        },
        Industry::Restaurants => {
            assert(Sector::ConsumerCyclical.spec_industries()[11] == i.spec_key());
            assert(Sector::ConsumerCyclical.spec_key() == i.spec_sector());
        },
        Industry::ApparelRetail => {
            assert(Sector::ConsumerCyclical.spec_industries()[12] == i.spec_key());
            assert(Sector::ConsumerCyclical.spec_key() == i.spec_sector());
        },
        Industry::DepartmentStores => {
            assert(Sector::ConsumerCyclical.spec_industries()[13] == i.spec_key());
            assert(Sector::ConsumerCyclical.spec_key() == i.spec_sector());
        },
        Industry::HomeImprovementRetail => {
            assert(Sector::ConsumerCyclical.spec_industries()[14] == i.spec_key());
            assert(Sector::ConsumerCyclical.spec_key() == i.spec_sector());
        },
        Industry::LuxuryGoods => {
            assert(Sector::ConsumerCyclical.spec_industries()[15] == i.spec_key());
            assert(Sector::ConsumerCyclical.spec_key() == i.spec_sector());
        },
        Industry::InternetRetail => {
            assert(Sector::ConsumerCyclical.spec_industries()[16] == i.spec_key());
            assert(Sector::ConsumerCyclical.spec_key() == i.spec_sector());
        },
        Industry::SpecialtyRetail => {
            assert(Sector::ConsumerCyclical.spec_industries()[17] == i.spec_key());
            assert(Sector::ConsumerCyclical.spec_key() == i.spec_sector());
        },
        Industry::Gambling => {
            assert(Sector::ConsumerCyclical.spec_industries()[18] == i.spec_key());
            assert(Sector::ConsumerCyclical.spec_key() == i.spec_sector());
        },
        Industry::Leisure => {
            assert(Sector::ConsumerCyclical.spec_industries()[19] == i.spec_key());
            assert(Sector::ConsumerCyclical.spec_key() == i.spec_sector());
        },
        Industry::Lodging => {
            assert(Sector::ConsumerCyclical.spec_industries()[20] == i.spec_key());
            assert(Sector::ConsumerCyclical.spec_key() == i.spec_sector());
        },
        Industry::ResortsAndCasinos => {
            assert(Sector::ConsumerCyclical.spec_industries()[21] == i.spec_key());
            assert(Sector::ConsumerCyclical.spec_key() == i.spec_sector());
        },
        Industry::TravelServices => {
            assert(Sector::ConsumerCyclical.spec_industries()[22] == i.spec_key());
            assert(Sector::ConsumerCyclical.spec_key() == i.spec_sector());
        },
        Industry::AssetManagement => {
            assert(Sector::FinancialServices.spec_industries()[0] == i.spec_key());
            assert(Sector::FinancialServices.spec_key() == i.spec_sector());
        },
        Industry::BanksDiversified => {
            assert(Sector::FinancialServices.spec_industries()[1] == i.spec_key());
            assert(Sector::FinancialServices.spec_key() == i.spec_sector());
        },
        Industry::BanksRegional => {
            assert(Sector::FinancialServices.spec_industries()[2] == i.spec_key());
            assert(Sector::FinancialServices.spec_key() == i.spec_sector());
        },
        Industry::MortgageFinance => {
            assert(Sector::FinancialServices.spec_industries()[3] == i.spec_key());
            assert(Sector::FinancialServices.spec_key() == i.spec_sector());
        },
        Industry::CapitalMarkets => {
            assert(Sector::FinancialServices.spec_industries()[4] == i.spec_key());
            assert(Sector::FinancialServices.spec_key() == i.spec_sector());
        },
        Industry::FinancialDataAndStockExchanges => {
            assert(Sector::FinancialServices.spec_industries()[5] == i.spec_key());
            assert(Sector::FinancialServices.spec_key() == i.spec_sector());
        },
        Industry::InsuranceLife => {
            assert(Sector::FinancialServices.spec_industries()[6] == i.spec_key());
            assert(Sector::FinancialServices.spec_key() == i.spec_sector());
        },
        Industry::InsurancePropertyAndCasualty => {
            assert(Sector::FinancialServices.spec_industries()[7] == i.spec_key());
            assert(Sector::FinancialServices.spec_key() == i.spec_sector());
        },
        Industry::InsuranceReinsurance => {
            assert(Sector::FinancialServices.spec_industries()[8] == i.spec_key());
            assert(Sector::FinancialServices.spec_key() == i.spec_sector());
        },
        Industry::InsuranceSpecialty => {
            assert(Sector::FinancialServices.spec_industries()[9] == i.spec_key());
            assert(Sector::FinancialServices.spec_key() == i.spec_sector());
        },
        Industry::InsuranceBrokers => {
            assert(Sector::FinancialServices.spec_industries()[10] == i.spec_key());
            assert(Sector::FinancialServices.spec_key() == i.spec_sector());
        },
        Industry::InsuranceDiversified => {
            assert(Sector::FinancialServices.spec_industries()[11] == i.spec_key());
            assert(Sector::FinancialServices.spec_key() == i.spec_sector());
        },
        Industry::ShellCompanies => {
            assert(Sector::FinancialServices.spec_industries()[12] == i.spec_key());
            assert(Sector::FinancialServices.spec_key() == i.spec_sector());
        },
        Industry::FinancialConglomerates => {
            assert(Sector::FinancialServices.spec_industries()[13] == i.spec_key());
            assert(Sector::FinancialServices.spec_key() == i.spec_sector());
        },
        Industry::CreditServices => {
            assert(Sector::FinancialServices.spec_industries()[14] == i.spec_key());
            assert(Sector::FinancialServices.spec_key() == i.spec_sector());
        },
        Industry::RealEstateDevelopment => {
            assert(Sector::RealEstate.spec_industries()[0] == i.spec_key());
            assert(Sector::RealEstate.spec_key() == i.spec_sector());
        },
        Industry::RealEstateServices => {
            assert(Sector::RealEstate.spec_industries()[1] == i.spec_key());
            assert(Sector::RealEstate.spec_key() == i.spec_sector());
        },
        Industry::RealEstateDiversified => {
            assert(Sector::RealEstate.spec_industries()[2] == i.spec_key());
            assert(Sector::RealEstate.spec_key() == i.spec_sector());
        },
        Industry::ReitHealthcareFacilities => {
            assert(Sector::RealEstate.spec_industries()[3] == i.spec_key());
            assert(Sector::RealEstate.spec_key() == i.spec_sector());
        },
        Industry::ReitHotelAndMotel => {
            assert(Sector::RealEstate.spec_industries()[4] == i.spec_key());
            assert(Sector::RealEstate.spec_key() == i.spec_sector());
        },
        Industry::ReitIndustrial => {
            assert(Sector::RealEstate.spec_industries()[5] == i.spec_key());
            assert(Sector::RealEstate.spec_key() == i.spec_sector());
        },
        Industry::ReitOffice => {
            assert(Sector::RealEstate.spec_industries()[6] == i.spec_key());
            assert(Sector::RealEstate.spec_key() == i.spec_sector());
        },
        Industry::ReitResidential => {
            assert(Sector::RealEstate.spec_industries()[7] == i.spec_key());
            assert(Sector::RealEstate.spec_key() == i.spec_sector());
        },
        Industry::ReitRetail => {
            assert(Sector::RealEstate.spec_industries()[8] == i.spec_key());
            assert(Sector::RealEstate.spec_key() == i.spec_sector());
        },
        Industry::ReitMortgage => {
            assert(Sector::RealEstate.spec_industries()[9] == i.spec_key());
            assert(Sector::RealEstate.spec_key() == i.spec_sector());
        },
        Industry::ReitSpecialty => {
            assert(Sector::RealEstate.spec_industries()[10] == i.spec_key());
            assert(Sector::RealEstate.spec_key() == i.spec_sector());
        },
        Industry::ReitDiversified => {
            assert(Sector::RealEstate.spec_industries()[11] == i.spec_key());
            assert(Sector::RealEstate.spec_key() == i.spec_sector());
        },
        Industry::Biotechnology => {
            assert(Sector::Healthcare.spec_industries()[0] == i.spec_key());
            assert(Sector::Healthcare.spec_key() == i.spec_sector());
        },
        Industry::DrugManufacturersGeneral => {
            assert(Sector::Healthcare.spec_industries()[1] == i.spec_key());
            assert(Sector::Healthcare.spec_key() == i.spec_sector());
        },
        Industry::DrugManufacturersSpecialtyAndGeneric => {
            assert(Sector::Healthcare.spec_industries()[2] == i.spec_key());
            assert(Sector::Healthcare.spec_key() == i.spec_sector());
        },
        Industry::HealthcarePlans => {
            assert(Sector::Healthcare.spec_industries()[3] == i.spec_key());
            assert(Sector::Healthcare.spec_key() == i.spec_sector());
        },
        Industry::MedicalCareFacilities => {
            assert(Sector::Healthcare.spec_industries()[4] == i.spec_key());
            assert(Sector::Healthcare.spec_key() == i.spec_sector());
        },
        Industry::PharmaceuticalRetailers => {
            assert(Sector::Healthcare.spec_industries()[5] == i.spec_key());
            assert(Sector::Healthcare.spec_key() == i.spec_sector());
        },
        Industry::HealthInformationServices => {
            assert(Sector::Healthcare.spec_industries()[6] == i.spec_key());
            assert(Sector::Healthcare.spec_key() == i.spec_sector());
        },
        Industry::MedicalDevices => {
            assert(Sector::Healthcare.spec_industries()[7] == i.spec_key());
            assert(Sector::Healthcare.spec_key() == i.spec_sector());
        },
        Industry::MedicalInstrumentsAndSupplies => {
            assert(Sector::Healthcare.spec_industries()[8] == i.spec_key());
            assert(Sector::Healthcare.spec_key() == i.spec_sector());
        },
        Industry::DiagnosticsAndResearch => {
            assert(Sector::Healthcare.spec_industries()[9] == i.spec_key());
            assert(Sector::Healthcare.spec_key() == i.spec_sector());
        },
        Industry::MedicalDistribution => {
            assert(Sector::Healthcare.spec_industries()[10] == i.spec_key());
            assert(Sector::Healthcare.spec_key() == i.spec_sector());
        },
        Industry::OilAndGasDrilling => {
            assert(Sector::Energy.spec_industries()[0] == i.spec_key());
            assert(Sector::Energy.spec_key() == i.spec_sector());
        },
        Industry::OilAndGasEP => {
            assert(Sector::Energy.spec_industries()[1] == i.spec_key());
            assert(Sector::Energy.spec_key() == i.spec_sector());
        },
        Industry::OilAndGasIntegrated => {
            assert(Sector::Energy.spec_industries()[2] == i.spec_key());
            assert(Sector::Energy.spec_key() == i.spec_sector());
        },
        Industry::OilAndGasMidstream => {
            assert(Sector::Energy.spec_industries()[3] == i.spec_key());
            assert(Sector::Energy.spec_key() == i.spec_sector());
        },
        Industry::OilAndGasRefiningAndMarketing => {
            assert(Sector::Energy.spec_industries()[4] == i.spec_key());
            assert(Sector::Energy.spec_key() == i.spec_sector());
        },
        Industry::OilAndGasEquipmentAndServices => {
            assert(Sector::Energy.spec_industries()[5] == i.spec_key());
            assert(Sector::Energy.spec_key() == i.spec_sector());
        },
        Industry::ThermalCoal => {
            assert(Sector::Energy.spec_industries()[6] == i.spec_key());
            assert(Sector::Energy.spec_key() == i.spec_sector());
        },
        Industry::Uranium => {
            assert(Sector::Energy.spec_industries()[7] == i.spec_key());
            assert(Sector::Energy.spec_key() == i.spec_sector());
        },
        Industry::UtilitiesIndependentPowerProducers => {
            assert(Sector::Utilities.spec_industries()[0] == i.spec_key());
            assert(Sector::Utilities.spec_key() == i.spec_sector());
        },
        Industry::UtilitiesRenewable => {
            assert(Sector::Utilities.spec_industries()[1] == i.spec_key());
            assert(Sector::Utilities.spec_key() == i.spec_sector());
        },
        Industry::UtilitiesRegulatedWater => {
            assert(Sector::Utilities.spec_industries()[2] == i.spec_key());
            assert(Sector::Utilities.spec_key() == i.spec_sector());
        },
        Industry::UtilitiesRegulatedElectric => {
            assert(Sector::Utilities.spec_industries()[3] == i.spec_key());
            assert(Sector::Utilities.spec_key() == i.spec_sector());
        },
        Industry::UtilitiesRegulatedGas => {
            assert(Sector::Utilities.spec_industries()[4] == i.spec_key());
            assert(Sector::Utilities.spec_key() == i.spec_sector());
        },
        Industry::UtilitiesDiversified => {
            assert(Sector::Utilities.spec_industries()[5] == i.spec_key());
            assert(Sector::Utilities.spec_key() == i.spec_sector());
        },
        Industry::TelecomServices => {
            assert(Sector::CommunicationServices.spec_industries()[0] == i.spec_key());
            assert(Sector::CommunicationServices.spec_key() == i.spec_sector());
        },
        Industry::AdvertisingAgencies => {
            assert(Sector::CommunicationServices.spec_industries()[1] == i.spec_key());
            assert(Sector::CommunicationServices.spec_key() == i.spec_sector());
        },
        Industry::Publishing => {
            assert(Sector::CommunicationServices.spec_industries()[2] == i.spec_key());
            assert(Sector::CommunicationServices.spec_key() == i.spec_sector());
        },
        Industry::Broadcasting => {
            assert(Sector::CommunicationServices.spec_industries()[3] == i.spec_key());
            assert(Sector::CommunicationServices.spec_key() == i.spec_sector());
        },
        Industry::Entertainment => {
            assert(Sector::CommunicationServices.spec_industries()[4] == i.spec_key());
            assert(Sector::CommunicationServices.spec_key() == i.spec_sector());
        },
        Industry::InternetContentAndInformation => {
            assert(Sector::CommunicationServices.spec_industries()[5] == i.spec_key());
            assert(Sector::CommunicationServices.spec_key() == i.spec_sector());
        },
        Industry::ElectronicGamingAndMultimedia => {
            assert(Sector::CommunicationServices.spec_industries()[6] == i.spec_key());
            assert(Sector::CommunicationServices.spec_key() == i.spec_sector());
        },
        Industry::InformationTechnologyServices => {
            assert(Sector::Technology.spec_industries()[0] == i.spec_key());
            assert(Sector::Technology.spec_key() == i.spec_sector());
        },
        Industry::SoftwareApplication => {
            assert(Sector::Technology.spec_industries()[1] == i.spec_key());
            assert(Sector::Technology.spec_key() == i.spec_sector());
        },
        Industry::SoftwareInfrastructure => {
            assert(Sector::Technology.spec_industries()[2] == i.spec_key());
            assert(Sector::Technology.spec_key() == i.spec_sector());
        },
        Industry::CommunicationEquipment => {
            assert(Sector::Technology.spec_industries()[3] == i.spec_key());
            assert(Sector::Technology.spec_key() == i.spec_sector());
        },
        Industry::ComputerHardware => {
            assert(Sector::Technology.spec_industries()[4] == i.spec_key());
            assert(Sector::Technology.spec_key() == i.spec_sector());
        },
        Industry::ConsumerElectronics => {
            assert(Sector::Technology.spec_industries()[5] == i.spec_key());
            assert(Sector::Technology.spec_key() == i.spec_sector());
        },
        Industry::ElectronicComponents => {
            assert(Sector::Technology.spec_industries()[6] == i.spec_key());
            assert(Sector::Technology.spec_key() == i.spec_sector());
        },
        Industry::ElectronicsAndComputerDistribution => {
            assert(Sector::Technology.spec_industries()[7] == i.spec_key());
            assert(Sector::Technology.spec_key() == i.spec_sector());
        },
        Industry::ScientificAndTechnicalInstruments => {
            assert(Sector::Technology.spec_industries()[8] == i.spec_key());
            assert(Sector::Technology.spec_key() == i.spec_sector());
        },
        Industry::SemiconductorEquipmentAndMaterials => {
            assert(Sector::Technology.spec_industries()[9] == i.spec_key());
            assert(Sector::Technology.spec_key() == i.spec_sector());
        },
        Industry::Semiconductors => {
            assert(Sector::Technology.spec_industries()[10] == i.spec_key());
            assert(Sector::Technology.spec_key() == i.spec_sector());
        },
        Industry::Solar => {
            assert(Sector::Technology.spec_industries()[11] == i.spec_key());
            assert(Sector::Technology.spec_key() == i.spec_sector());
        },
    }
}

/// A key enum of the screener vocabulary, seen through its set of keys.
pub trait KeyEnum: Sized {
    /// Whether `s` is the key of some value.
    spec fn spec_is_key(s: Seq<char>) -> bool;

    /// The keys of every value, in declaration order.
    spec fn spec_key_names() -> Seq<Seq<char>>;

    /// Whether `s` is the key of some value.
    fn is_key(s: &str) -> (b: bool)
        ensures
            b == Self::spec_is_key(s@);

    /// The keys of every value, in declaration order.
    fn key_names() -> (r: Vec<&'static str>)
        ensures
            strs_view(r@) == Self::spec_key_names();
}

impl KeyEnum for QuoteType {
    open spec fn spec_is_key(s: Seq<char>) -> bool {
        exists|v: QuoteType| #[trigger] v.spec_key() == s
    }

    open spec fn spec_key_names() -> Seq<Seq<char>> {
        Self::spec_names()
    }

    fn is_key(s: &str) -> (b: bool) {
        let r = Self::from_str(s);
        proof {
            if r is Some {
                assert(r->0.spec_key() == s@);
            }
        }
        r.is_some()
    }

    fn key_names() -> (r: Vec<&'static str>) {
        Self::variant_names()
    }
}

impl KeyEnum for Sector {
    open spec fn spec_is_key(s: Seq<char>) -> bool {
        exists|v: Sector| #[trigger] v.spec_key() == s
    }

    open spec fn spec_key_names() -> Seq<Seq<char>> {
        Self::spec_names()
    }

    fn is_key(s: &str) -> (b: bool) {
        let r = Self::from_str(s);
        proof {
            if r is Some {
                assert(r->0.spec_key() == s@);
            }
        }
        r.is_some()
    }

    fn key_names() -> (r: Vec<&'static str>) {
        Self::variant_names()
    }
}

impl KeyEnum for Exchange {
    open spec fn spec_is_key(s: Seq<char>) -> bool {
        exists|v: Exchange| #[trigger] v.spec_key() == s
    }

    open spec fn spec_key_names() -> Seq<Seq<char>> {
        Self::spec_names()
    }

    fn is_key(s: &str) -> (b: bool) {
        let r = Self::from_str(s);
        proof {
            if r is Some {
                assert(r->0.spec_key() == s@);
            }
        }
        r.is_some()
    }

    fn key_names() -> (r: Vec<&'static str>) {
        Self::variant_names()
    }
}

impl KeyEnum for Region {
    open spec fn spec_is_key(s: Seq<char>) -> bool {
        exists|v: Region| #[trigger] v.spec_key() == s
    }

    open spec fn spec_key_names() -> Seq<Seq<char>> {
        Self::spec_names()
    }

    fn is_key(s: &str) -> (b: bool) {
        let r = Self::from_str(s);
        proof {
            if r is Some {
                assert(r->0.spec_key() == s@);
            }
        }
        r.is_some()
    }

    fn key_names() -> (r: Vec<&'static str>) {
        Self::variant_names()
    }
}

impl KeyEnum for PeerGroup {
    open spec fn spec_is_key(s: Seq<char>) -> bool {
        exists|v: PeerGroup| #[trigger] v.spec_key() == s
    }

    open spec fn spec_key_names() -> Seq<Seq<char>> {
        Self::spec_names()
    }

    fn is_key(s: &str) -> (b: bool) {
        let r = Self::from_str(s);
        proof {
            if r is Some {
                assert(r->0.spec_key() == s@);
            }
        }
        r.is_some()
    }

    fn key_names() -> (r: Vec<&'static str>) {
        Self::variant_names()
    }
}

impl KeyEnum for FundFamily {
    open spec fn spec_is_key(s: Seq<char>) -> bool {
        exists|v: FundFamily| #[trigger] v.spec_key() == s
    }

    open spec fn spec_key_names() -> Seq<Seq<char>> {
        Self::spec_names()
    }

    fn is_key(s: &str) -> (b: bool) {
        let r = Self::from_str(s);
        proof {
            if r is Some {
                assert(r->0.spec_key() == s@);
            }
        }
        r.is_some()
    }

    fn key_names() -> (r: Vec<&'static str>) {
        Self::variant_names()
    }
}

impl KeyEnum for Industry {
    open spec fn spec_is_key(s: Seq<char>) -> bool {
        exists|v: Industry| #[trigger] v.spec_key() == s
    }

    open spec fn spec_key_names() -> Seq<Seq<char>> {
        Self::spec_names()
    }

    fn is_key(s: &str) -> (b: bool) {
        let r = Self::from_str(s);
        proof {
            if r is Some {
                assert(r->0.spec_key() == s@);
            }
        }
        r.is_some()
    }

    fn key_names() -> (r: Vec<&'static str>) {
        Self::variant_names()
    }
}

impl KeyEnum for FundCategory {
    open spec fn spec_is_key(s: Seq<char>) -> bool {
        exists|v: FundCategory| #[trigger] v.spec_key() == s
    }

    open spec fn spec_key_names() -> Seq<Seq<char>> {
        Self::spec_names()
    }

    fn is_key(s: &str) -> (b: bool) {
        let r = Self::from_str(s);
        proof {
            if r is Some {
                assert(r->0.spec_key() == s@);
            }
        }
        r.is_some()
    }

    fn key_names() -> (r: Vec<&'static str>) {
        Self::variant_names()
    }
}

} // verus!
