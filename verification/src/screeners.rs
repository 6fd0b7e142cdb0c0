//! Screener fields of each asset class, their metadata tables and the
//! validation of the values a query gives for them.

use vstd::prelude::*;
use crate::text::{str_eq, owned, strs_view, seq_join, join_strs};
use crate::keys::{KeyEnum, Exchange, Region, Sector, Industry, PeerGroup, FundFamily, FundCategory};
use vstd::string::StringExecFns;

verus! {

/// Display name, description, data type and unit of a screener field.
#[derive(Debug, Clone)]
pub struct FieldMetadata {
    pub name: String,
    pub description: String,
    pub data_type: String,
    pub unit: String,
}

/// Metadata of the screener fields of one asset class, keyed by field name.
#[derive(Debug, Clone)]
pub struct MetricTable {
    pub entries: Vec<(String, FieldMetadata)>,
}

/// The entry that a lookup of `key` finds in `entries`: the first one with that key.
pub open spec fn lookup_in(entries: Seq<(String, FieldMetadata)>, key: Seq<char>) -> Option<FieldMetadata>
    decreases entries.len(),
{
    if entries.len() == 0 {
        None
    } else if entries[0].0@ == key {
        Some(entries[0].1)
    } else {
        lookup_in(entries.drop_first(), key)
    }
}

impl MetricTable {
    /// The metadata stored for `key`.
    pub open spec fn spec_lookup(self, key: Seq<char>) -> Option<FieldMetadata> {
        lookup_in(self.entries@, key)
    }

    /// Whether the table describes `key`.
    pub open spec fn spec_has(self, key: Seq<char>) -> bool {
        self.spec_lookup(key) is Some
    }

    /// The metadata stored for `key`, if any.
    pub fn get(&self, key: &str) -> (r: Option<&FieldMetadata>)
        ensures
            r matches Some(m) ==> self.spec_lookup(key@) == Some(*m),
            r is None ==> self.spec_lookup(key@) is None,
    {
        let n = self.entries.len();
        let mut i: usize = 0;
        assert(self.entries@.skip(0) =~= self.entries@);
        while i < n
            invariant
                n == self.entries@.len(),
                0 <= i <= n,
                self.spec_lookup(key@) == lookup_in(self.entries@.skip(i as int), key@),
            decreases n - i,
        {
            assert(self.entries@.skip(i as int).drop_first() =~= self.entries@.skip(i + 1));
            if str_eq(self.entries[i].0.as_str(), key) {
                return Some(&self.entries[i].1);
            }
            i = i + 1;
        }
        None
    }

    /// The metadata stored for `key`, which the table must describe.
    pub fn entry(&self, key: &str) -> (r: &FieldMetadata)
        requires
            self.spec_has(key@),
        ensures
            self.spec_lookup(key@) == Some(*r),
    {
        match self.get(key) {
            Some(m) => m,
            None => {
                assert(false);
                &self.entries[0].1
            },
        }
    }

    /// The number of fields the table describes.
    pub fn len(&self) -> (r: usize)
        ensures
            r == self.entries@.len(),
    {
        self.entries.len()
    }
}

/// The screener metadata of every asset class.
#[derive(Debug, Clone)]
pub struct ScreenerData {
    pub equity: MetricTable,
    pub mutualfund: MetricTable,
    pub etf: MetricTable,
    pub index: MetricTable,
    pub future: MetricTable,
    pub crypto: MetricTable,
}

/// The view of a validation result: the accepted value or the error message.
pub open spec fn result_view(r: Result<String, String>) -> Result<Seq<char>, Seq<char>> {
    match r {
        Ok(s) => Ok(s@),
        Err(e) => Err(e@),
    }
}

/// The message given when `value` is not a key of the vocabulary named `field`.
pub open spec fn invalid_value_message(value: Seq<char>, field: Seq<char>, names: Seq<Seq<char>>) -> Seq<char> {
    "Invalid value '"@ + value + "' for "@ + field + ". Allowed values: ["@ + seq_join(names, ", "@) + "]"@
}

/// What checking `value` against the keys of `K` gives.
pub open spec fn spec_validate_key<K: KeyEnum>(field: Seq<char>, value: Seq<char>) -> Result<Seq<char>, Seq<char>> {
    if K::spec_is_key(value) {
        Ok(value)
    } else {
        Err(invalid_value_message(value, field, K::spec_key_names()))
    }
}

/// Accepts `value` when it is a key of `K`; otherwise an error lists the keys.
pub fn validate_enum_value<K: KeyEnum>(field_name: &str, value: &str) -> (r: Result<String, String>)
    ensures
        result_view(r) == spec_validate_key::<K>(field_name@, value@),
{
    if K::is_key(value) {
        Ok(owned(value))
    } else {
        let names = K::key_names();
        let allowed = join_strs(&names, ", ");
        let mut msg = owned("Invalid value '");
        msg.append(value);
        msg.append("' for ");
        msg.append(field_name);
        msg.append(". Allowed values: [");
        msg.append(allowed.as_str());
        msg.append("]");
        Err(msg)
    }
}


/// A field that equity screener queries can filter and sort on.
#[derive(Debug, Clone, Copy, PartialEq, Eq, Structural, Hash)]
pub enum EquityScreener {
    Region,
    Symbol,
    PriceIntraday,
    PriceEndOfDay,
    Volume,
    VolumeEndOfDay,
    AvgVol3Month,
    MarketCapIntraday,
    Sector,
    Industry,
    Beta5YMonthly,
    Exchange,
    Index,
    ShortInterestRatio,
    ShortInterest,
    ShortInterestPercentChange,
    ShortPercentOfFloat,
    ShortPercentOfSharesOutstanding,
    PeerGroup,
    ReturnOnEquity,
    Yr1PercentChangeInEPSBasic,
    DebtEquity,
    CurrentRatio,
    GrossProfitMargin,
    ReturnOnAssets,
    LongTermDebtEquity,
    ReturnOnInvestedCapital,
    NetIncomeMargin,
    AltmanZScore,
    DividendYield,
    QuickRatio,
    TotalDebtEBITDA,
    EBITDAMargin,
    NetDebtEBITDA,
    OperatingCashFlowRatio,
    ForwardDividendYield,
    EBITDAInterestExpenseLTM,
    EBITInterestExpenseLTM,
    Week52PricePercentChange,
    PriceChangeIntraday,
    Week52PriceHighLastClose,
    Week52PriceLowLastClose,
    PercentChangeInPriceIntraday,
    ConsecutiveYearsOfDividendGrowthCount,
    RecentHighTimeframe,
    RecentLowTimeframe,
    Yr1PercentChangeInTotalRevenue,
    Yr1PercentChangeInNetIncome,
    EPSBasicContinuingOperations,
    QuarterlyRevenueGrowthYOY,
    TotalRevenue,
    EPSBasic,
    Yr1PercentChangeInEBITDA,
    Yr1PercentChangeInEPSDiluted,
    EPSDiluted,
    NetIncome,
    OperatingIncome,
    GrossProfit,
    EBITDA,
    EPSDilutedContinuingOperations,
    EBIT,
    BookValuePerShare,
    TotalSharesOutstanding,
    TotalDebt,
    TotalAssets,
    TotalCashAndShortTermInvestments,
    TotalCurrentAssets,
    TotalEquity,
    TotalCommonSharesOutstanding,
    TotalCurrentLiabilities,
    TotalCommonEquity,
    Yr1PercentChangeInCashFromOperations,
    UnleveredFreeCashFlow,
    LeveredFreeCashFlow,
    Yr1PercentChangeInLeveredFreeCashFlow,
    DividendPerShare,
    CapitalExpenditure,
    ForwardDividendPerShare,
    CashFromOperations,
    TotalEnterpriseValueEBITDA,
    PriceTangibleBookValue,
    TotalEnterpriseValueEBIT,
    PriceSales,
    TotalEnterpriseValueTotalRevenue,
    PriceBookValue,
    PriceEarnings,
    PriceEarningsToGrowth,
    TrailingPE,
    PBMostRecentQuarterToMRQ,
    EnvironmentalScore,
    ESGScore,
    GovernanceScore,
    SocialScore,
    HighestControversy,
    PercentOfSharesOutstandingHeldByInsiders,
    PercentOfSharesOutstandingHeldByInstitutions,
}

impl EquityScreener {
    /// The field name used in screener queries.
    pub open spec fn spec_key(self) -> Seq<char> {
        match self {
            EquityScreener::Region => "region"@,
            EquityScreener::Symbol => "ticker"@,
            EquityScreener::PriceIntraday => "intradayprice"@,
            EquityScreener::PriceEndOfDay => "eodprice"@,
            EquityScreener::Volume => "dayvolume"@,
            EquityScreener::VolumeEndOfDay => "eodvolume"@,
            EquityScreener::AvgVol3Month => "avgdailyvol3m"@,
            EquityScreener::MarketCapIntraday => "intradaymarketcap"@,
            EquityScreener::Sector => "sector"@,
            EquityScreener::Industry => "industry"@,
            EquityScreener::Beta5YMonthly => "beta"@,
            EquityScreener::Exchange => "exchange"@,
            EquityScreener::Index => "indexmembership"@,
            EquityScreener::ShortInterestRatio => "days_to_cover_short.value"@,
            EquityScreener::ShortInterest => "short_interest.value"@,
            EquityScreener::ShortInterestPercentChange => "short_interest_percentage_change.value"@,
            EquityScreener::ShortPercentOfFloat => "short_percentage_of_float.value"@,
            EquityScreener::ShortPercentOfSharesOutstanding => "short_percentage_of_shares_outstanding.value"@,
            EquityScreener::PeerGroup => "peer_group"@,
            EquityScreener::ReturnOnEquity => "returnonequity.lasttwelvemonths"@,
            EquityScreener::Yr1PercentChangeInEPSBasic => "epsgrowth.lasttwelvemonths"@,
            EquityScreener::DebtEquity => "totaldebtequity.lasttwelvemonths"@,
            EquityScreener::CurrentRatio => "currentratio.lasttwelvemonths"@,
            EquityScreener::GrossProfitMargin => "grossprofitmargin.lasttwelvemonths"@,
            EquityScreener::ReturnOnAssets => "returnonassets.lasttwelvemonths"@,
            EquityScreener::LongTermDebtEquity => "ltdebtequity.lasttwelvemonths"@,
            EquityScreener::ReturnOnInvestedCapital => "returnontotalcapital.lasttwelvemonths"@,
            EquityScreener::NetIncomeMargin => "netincomemargin.lasttwelvemonths"@,
            EquityScreener::AltmanZScore => "altmanzscoreusingtheaveragestockinformationforaperiod.lasttwelvemonths"@,
            EquityScreener::DividendYield => "dividendyield"@,
            EquityScreener::QuickRatio => "quickratio.lasttwelvemonths"@,
            EquityScreener::TotalDebtEBITDA => "totaldebtebitda.lasttwelvemonths"@,
            EquityScreener::EBITDAMargin => "ebitdamargin.lasttwelvemonths"@,
            EquityScreener::NetDebtEBITDA => "netdebtebitda.lasttwelvemonths"@,
            EquityScreener::OperatingCashFlowRatio => "operatingcashflowtocurrentliabilities.lasttwelvemonths"@,
            EquityScreener::ForwardDividendYield => "forward_dividend_yield"@,
            EquityScreener::EBITDAInterestExpenseLTM => "ebitdainterestexpense.lasttwelvemonths"@,
            EquityScreener::EBITInterestExpenseLTM => "ebitinterestexpense.lasttwelvemonths"@,
            EquityScreener::Week52PricePercentChange => "fiftytwowkpercentchange"@,
            EquityScreener::PriceChangeIntraday => "intradaypricechange"@,
            EquityScreener::Week52PriceHighLastClose => "lastclose52weekhigh.lasttwelvemonths"@,
            EquityScreener::Week52PriceLowLastClose => "lastclose52weeklow.lasttwelvemonths"@,
            EquityScreener::PercentChangeInPriceIntraday => "percentchange"@,
            EquityScreener::ConsecutiveYearsOfDividendGrowthCount => "consecutive_years_of_dividend_growth_count"@,
            EquityScreener::RecentHighTimeframe => "price_signal_fifty_two_wk_high.datetime"@,
            EquityScreener::RecentLowTimeframe => "price_signal_fifty_two_wk_low.datetime"@,
            EquityScreener::Yr1PercentChangeInTotalRevenue => "totalrevenues1yrgrowth.lasttwelvemonths"@,
            EquityScreener::Yr1PercentChangeInNetIncome => "netincome1yrgrowth.lasttwelvemonths"@,
            EquityScreener::EPSBasicContinuingOperations => "basicepscontinuingoperations.lasttwelvemonths"@,
            EquityScreener::QuarterlyRevenueGrowthYOY => "quarterlyrevenuegrowth.quarterly"@,
            EquityScreener::TotalRevenue => "totalrevenues.lasttwelvemonths"@,
            EquityScreener::EPSBasic => "netepsbasic.lasttwelvemonths"@,
            EquityScreener::Yr1PercentChangeInEBITDA => "ebitda1yrgrowth.lasttwelvemonths"@,
            EquityScreener::Yr1PercentChangeInEPSDiluted => "dilutedeps1yrgrowth.lasttwelvemonths"@,
            EquityScreener::EPSDiluted => "netepsdiluted.lasttwelvemonths"@,
            EquityScreener::NetIncome => "netincomeis.lasttwelvemonths"@,
            EquityScreener::OperatingIncome => "operatingincome.lasttwelvemonths"@,
            EquityScreener::GrossProfit => "grossprofit.lasttwelvemonths"@,
            EquityScreener::EBITDA => "ebitda.lasttwelvemonths"@,
            EquityScreener::EPSDilutedContinuingOperations => "dilutedepscontinuingoperations.lasttwelvemonths"@,
            EquityScreener::EBIT => "ebit.lasttwelvemonths"@,
            EquityScreener::BookValuePerShare => "bookvalueshare.lasttwelvemonths"@,
            EquityScreener::TotalSharesOutstanding => "totalsharesoutstanding"@,
            EquityScreener::TotalDebt => "totaldebt.lasttwelvemonths"@,
            EquityScreener::TotalAssets => "totalassets.lasttwelvemonths"@,
            EquityScreener::TotalCashAndShortTermInvestments => "totalcashandshortterminvestments.lasttwelvemonths"@,
            EquityScreener::TotalCurrentAssets => "totalcurrentassets.lasttwelvemonths"@,
            EquityScreener::TotalEquity => "totalequity.lasttwelvemonths"@,
            EquityScreener::TotalCommonSharesOutstanding => "totalcommonsharesoutstanding.lasttwelvemonths"@,
            EquityScreener::TotalCurrentLiabilities => "totalcurrentliabilities.lasttwelvemonths"@,
            EquityScreener::TotalCommonEquity => "totalcommonequity.lasttwelvemonths"@,
            EquityScreener::Yr1PercentChangeInCashFromOperations => "cashfromoperations1yrgrowth.lasttwelvemonths"@,
            EquityScreener::UnleveredFreeCashFlow => "unleveredfreecashflow.lasttwelvemonths"@,
            EquityScreener::LeveredFreeCashFlow => "leveredfreecashflow.lasttwelvemonths"@,
            EquityScreener::Yr1PercentChangeInLeveredFreeCashFlow => "leveredfreecashflow1yrgrowth.lasttwelvemonths"@,
            EquityScreener::DividendPerShare => "dividendpershare.lasttwelvemonths"@,
            EquityScreener::CapitalExpenditure => "capitalexpenditure.lasttwelvemonths"@,
            EquityScreener::ForwardDividendPerShare => "forward_dividend_per_share"@,
            EquityScreener::CashFromOperations => "cashfromoperations.lasttwelvemonths"@,
            EquityScreener::TotalEnterpriseValueEBITDA => "lastclosetevebitda.lasttwelvemonths"@,
            EquityScreener::PriceTangibleBookValue => "lastclosepricetangiblebookvalue.lasttwelvemonths"@,
            EquityScreener::TotalEnterpriseValueEBIT => "lastclosetevebit.lasttwelvemonths"@,
            EquityScreener::PriceSales => "lastclosemarketcaptotalrevenue.lasttwelvemonths"@,
            EquityScreener::TotalEnterpriseValueTotalRevenue => "lastclosetevtotalrevenue.lasttwelvemonths"@,
            EquityScreener::PriceBookValue => "lastclosepricebookvalue.lasttwelvemonths"@,
            EquityScreener::PriceEarnings => "lastclosepriceearnings.lasttwelvemonths"@,
            EquityScreener::PriceEarningsToGrowth => "pegratio_5y"@,
            EquityScreener::TrailingPE => "peratio.lasttwelvemonths"@,
            EquityScreener::PBMostRecentQuarterToMRQ => "pricebookratio.quarterly"@,
            EquityScreener::EnvironmentalScore => "environmental_score"@,
            EquityScreener::ESGScore => "esg_score"@,
            EquityScreener::GovernanceScore => "governance_score"@,
            EquityScreener::SocialScore => "social_score"@,
            EquityScreener::HighestControversy => "highest_controversy"@,
            EquityScreener::PercentOfSharesOutstandingHeldByInsiders => "pctheldinsider"@,
            EquityScreener::PercentOfSharesOutstandingHeldByInstitutions => "pctheldinst"@,
        }
    }

    /// Every value, in declaration order.
    pub open spec fn spec_all() -> Seq<EquityScreener> {
        seq![
            EquityScreener::Region, EquityScreener::Symbol, EquityScreener::PriceIntraday,
            EquityScreener::PriceEndOfDay, EquityScreener::Volume, EquityScreener::VolumeEndOfDay,
            EquityScreener::AvgVol3Month, EquityScreener::MarketCapIntraday, EquityScreener::Sector,
            EquityScreener::Industry, EquityScreener::Beta5YMonthly, EquityScreener::Exchange,
            EquityScreener::Index, EquityScreener::ShortInterestRatio,
            EquityScreener::ShortInterest, EquityScreener::ShortInterestPercentChange,
            EquityScreener::ShortPercentOfFloat, EquityScreener::ShortPercentOfSharesOutstanding,
            EquityScreener::PeerGroup, EquityScreener::ReturnOnEquity,
            EquityScreener::Yr1PercentChangeInEPSBasic, EquityScreener::DebtEquity,
            EquityScreener::CurrentRatio, EquityScreener::GrossProfitMargin,
            EquityScreener::ReturnOnAssets, EquityScreener::LongTermDebtEquity,
            EquityScreener::ReturnOnInvestedCapital, EquityScreener::NetIncomeMargin,
            EquityScreener::AltmanZScore, EquityScreener::DividendYield, EquityScreener::QuickRatio,
            EquityScreener::TotalDebtEBITDA, EquityScreener::EBITDAMargin,
            EquityScreener::NetDebtEBITDA, EquityScreener::OperatingCashFlowRatio,
            EquityScreener::ForwardDividendYield, EquityScreener::EBITDAInterestExpenseLTM,
            EquityScreener::EBITInterestExpenseLTM, EquityScreener::Week52PricePercentChange,
            EquityScreener::PriceChangeIntraday, EquityScreener::Week52PriceHighLastClose,
            EquityScreener::Week52PriceLowLastClose, EquityScreener::PercentChangeInPriceIntraday,
            EquityScreener::ConsecutiveYearsOfDividendGrowthCount,
            EquityScreener::RecentHighTimeframe, EquityScreener::RecentLowTimeframe,
            EquityScreener::Yr1PercentChangeInTotalRevenue,
            EquityScreener::Yr1PercentChangeInNetIncome,
            EquityScreener::EPSBasicContinuingOperations, EquityScreener::QuarterlyRevenueGrowthYOY,
            EquityScreener::TotalRevenue, EquityScreener::EPSBasic,
            EquityScreener::Yr1PercentChangeInEBITDA, EquityScreener::Yr1PercentChangeInEPSDiluted,
            EquityScreener::EPSDiluted, EquityScreener::NetIncome, EquityScreener::OperatingIncome,
            EquityScreener::GrossProfit, EquityScreener::EBITDA,
            EquityScreener::EPSDilutedContinuingOperations, EquityScreener::EBIT,
            EquityScreener::BookValuePerShare, EquityScreener::TotalSharesOutstanding,
            EquityScreener::TotalDebt, EquityScreener::TotalAssets,
            EquityScreener::TotalCashAndShortTermInvestments, EquityScreener::TotalCurrentAssets,
            EquityScreener::TotalEquity, EquityScreener::TotalCommonSharesOutstanding,
            EquityScreener::TotalCurrentLiabilities, EquityScreener::TotalCommonEquity,
            EquityScreener::Yr1PercentChangeInCashFromOperations,
            EquityScreener::UnleveredFreeCashFlow, EquityScreener::LeveredFreeCashFlow,
            EquityScreener::Yr1PercentChangeInLeveredFreeCashFlow, EquityScreener::DividendPerShare,
            EquityScreener::CapitalExpenditure, EquityScreener::ForwardDividendPerShare,
            EquityScreener::CashFromOperations, EquityScreener::TotalEnterpriseValueEBITDA,
            EquityScreener::PriceTangibleBookValue, EquityScreener::TotalEnterpriseValueEBIT,
            EquityScreener::PriceSales, EquityScreener::TotalEnterpriseValueTotalRevenue,
            EquityScreener::PriceBookValue, EquityScreener::PriceEarnings,
            EquityScreener::PriceEarningsToGrowth, EquityScreener::TrailingPE,
            EquityScreener::PBMostRecentQuarterToMRQ, EquityScreener::EnvironmentalScore,
            EquityScreener::ESGScore, EquityScreener::GovernanceScore, EquityScreener::SocialScore,
            EquityScreener::HighestControversy,
            EquityScreener::PercentOfSharesOutstandingHeldByInsiders,
            EquityScreener::PercentOfSharesOutstandingHeldByInstitutions,
        ]
    }

    /// The keys of every value, in declaration order.
    pub open spec fn spec_names() -> Seq<Seq<char>> {
        Self::spec_all().map_values(|v: EquityScreener| v.spec_key())
    }

    /// Reads a value back from its key by the characters that tell the keys apart.
    pub open spec fn spec_decode(s: Seq<char>) -> Option<EquityScreener> {
        if s.len() == 4 {
            Some(EquityScreener::Beta5YMonthly)
        } else if s.len() == 6 {
            if s[0] == 'r' {
                Some(EquityScreener::Region)
            } else if s[0] == 's' {
                Some(EquityScreener::Sector)
            } else if s[0] == 't' {
                Some(EquityScreener::Symbol)
            } else {
                None
            }
        } else if s.len() == 8 {
            if s[1] == 'n' {
                Some(EquityScreener::Industry)
            } else if s[1] == 'o' {
                Some(EquityScreener::PriceEndOfDay)
            } else if s[1] == 'x' {
                Some(EquityScreener::Exchange)
            } else {
                None
            }
        } else if s.len() == 9 {
            if s[1] == 'a' {
                Some(EquityScreener::Volume)
            } else if s[1] == 'o' {
                Some(EquityScreener::VolumeEndOfDay)
            } else if s[1] == 's' {
                Some(EquityScreener::ESGScore)
            } else {
                None
            }
        } else if s.len() == 10 {
            Some(EquityScreener::PeerGroup)
        } else if s.len() == 11 {
            if s[1] == 'c' {
                Some(EquityScreener::PercentOfSharesOutstandingHeldByInstitutions)
            } else if s[1] == 'e' {
                Some(EquityScreener::PriceEarningsToGrowth)
            } else {
                None
            }
        } else if s.len() == 12 {
            Some(EquityScreener::SocialScore)
        } else if s.len() == 13 {
            if s[0] == 'a' {
                Some(EquityScreener::AvgVol3Month)
            } else if s[0] == 'd' {
                Some(EquityScreener::DividendYield)
            } else if s[0] == 'i' {
                Some(EquityScreener::PriceIntraday)
            } else if s[0] == 'p' {
                Some(EquityScreener::PercentChangeInPriceIntraday)
            } else {
                None
            }
        } else if s.len() == 14 {
            Some(EquityScreener::PercentOfSharesOutstandingHeldByInsiders)
        } else if s.len() == 15 {
            Some(EquityScreener::Index)
        } else if s.len() == 16 {
            Some(EquityScreener::GovernanceScore)
        } else if s.len() == 17 {
            Some(EquityScreener::MarketCapIntraday)
        } else if s.len() == 19 {
            if s[0] == 'e' {
                Some(EquityScreener::EnvironmentalScore)
            } else if s[0] == 'h' {
                Some(EquityScreener::HighestControversy)
            } else if s[0] == 'i' {
                Some(EquityScreener::PriceChangeIntraday)
            } else {
                None
            }
        } else if s.len() == 20 {
            Some(EquityScreener::ShortInterest)
        } else if s.len() == 21 {
            Some(EquityScreener::EBIT)
        } else if s.len() == 22 {
            if s[0] == 'f' {
                Some(EquityScreener::ForwardDividendYield)
            } else if s[0] == 't' {
                Some(EquityScreener::TotalSharesOutstanding)
            } else {
                None
            }
        } else if s.len() == 23 {
            if s[0] == 'e' {
                Some(EquityScreener::EBITDA)
            } else if s[0] == 'f' {
                Some(EquityScreener::Week52PricePercentChange)
            } else {
                None
            }
        } else if s.len() == 24 {
            if s[1] == 'e' {
                Some(EquityScreener::TrailingPE)
            } else if s[1] == 'r' {
                Some(EquityScreener::PBMostRecentQuarterToMRQ)
            } else {
                None
            }
        } else if s.len() == 25 {
            Some(EquityScreener::ShortInterestRatio)
        } else if s.len() == 26 {
            if s[0] == 'e' {
                Some(EquityScreener::Yr1PercentChangeInEPSBasic)
            } else if s[0] == 'f' {
                Some(EquityScreener::ForwardDividendPerShare)
            } else if s[0] == 't' {
                Some(EquityScreener::TotalDebt)
            } else {
                None
            }
        } else if s.len() == 27 {
            Some(EquityScreener::QuickRatio)
        } else if s.len() == 28 {
            if s[5] == 'a' {
                Some(EquityScreener::TotalAssets)
            } else if s[5] == 'c' {
                Some(EquityScreener::NetIncome)
            } else if s[5] == 'e' {
                Some(EquityScreener::TotalEquity)
            } else if s[5] == 'p' {
                Some(EquityScreener::GrossProfit)
            } else if s[5] == 's' {
                Some(EquityScreener::EPSBasic)
            } else {
                None
            }
        } else if s.len() == 29 {
            if s[0] == 'c' {
                Some(EquityScreener::CurrentRatio)
            } else if s[0] == 'e' {
                Some(EquityScreener::EBITDAMargin)
            } else if s[0] == 'l' {
                Some(EquityScreener::LongTermDebtEquity)
            } else {
                None
            }
        } else if s.len() == 30 {
            if s[3] == 'a' {
                Some(EquityScreener::TotalRevenue)
            } else if s[3] == 'd' {
                Some(EquityScreener::NetDebtEBITDA)
            } else if s[3] == 'e' {
                Some(EquityScreener::EPSDiluted)
            } else {
                None
            }
        } else if s.len() == 31 {
            if s[10] == 'e' {
                Some(EquityScreener::ShortPercentOfFloat)
            } else if s[10] == 'h' {
                Some(EquityScreener::BookValuePerShare)
            } else if s[10] == 's' {
                Some(EquityScreener::ReturnOnAssets)
            } else if s[10] == 'u' {
                Some(EquityScreener::ReturnOnEquity)
            } else {
                None
            }
        } else if s.len() == 32 {
            if s[10] == 'a' {
                Some(EquityScreener::NetIncomeMargin)
            } else if s[10] == 'b' {
                Some(EquityScreener::TotalDebtEBITDA)
            } else if s[10] == 'e' {
                Some(EquityScreener::QuarterlyRevenueGrowthYOY)
            } else if s[10] == 'n' {
                Some(EquityScreener::OperatingIncome)
            } else if s[10] == 'q' {
                Some(EquityScreener::DebtEquity)
            } else if s[10] == 'r' {
                Some(EquityScreener::Yr1PercentChangeInEBITDA)
            } else {
                None
            }
        } else if s.len() == 33 {
            if s[0] == 'd' {
                Some(EquityScreener::DividendPerShare)
            } else if s[0] == 'l' {
                Some(EquityScreener::TotalEnterpriseValueEBIT)
            } else {
                None
            }
        } else if s.len() == 34 {
            if s[0] == 'g' {
                Some(EquityScreener::GrossProfitMargin)
            } else if s[0] == 't' {
                Some(EquityScreener::TotalCommonEquity)
            } else {
                None
            }
        } else if s.len() == 35 {
            if s[13] == 'b' {
                Some(EquityScreener::TotalEnterpriseValueEBITDA)
            } else if s[13] == 'e' {
                Some(EquityScreener::Week52PriceLowLastClose)
            } else if s[13] == 'i' {
                Some(EquityScreener::CapitalExpenditure)
            } else if s[13] == 'r' {
                Some(EquityScreener::Yr1PercentChangeInNetIncome)
            } else if s[13] == 's' {
                Some(EquityScreener::TotalCurrentAssets)
            } else if s[13] == 't' {
                Some(EquityScreener::CashFromOperations)
            } else {
                None
            }
        } else if s.len() == 36 {
            if s[1] == 'a' {
                Some(EquityScreener::Week52PriceHighLastClose)
            } else if s[1] == 'b' {
                Some(EquityScreener::EBITInterestExpenseLTM)
            } else if s[1] == 'e' {
                Some(EquityScreener::LeveredFreeCashFlow)
            } else if s[1] == 'i' {
                Some(EquityScreener::Yr1PercentChangeInEPSDiluted)
            } else {
                None
            }
        } else if s.len() == 37 {
            Some(EquityScreener::ReturnOnInvestedCapital)
        } else if s.len() == 38 {
            if s[0] == 'e' {
                Some(EquityScreener::EBITDAInterestExpenseLTM)
            } else if s[0] == 'p' {
                Some(EquityScreener::RecentLowTimeframe)
            } else if s[0] == 's' {
                Some(EquityScreener::ShortInterestPercentChange)
            } else if s[0] == 'u' {
                Some(EquityScreener::UnleveredFreeCashFlow)
            } else {
                None
            }
        } else if s.len() == 39 {
            if s[0] == 'l' {
                Some(EquityScreener::PriceEarnings)
            } else if s[0] == 'p' {
                Some(EquityScreener::RecentHighTimeframe)
            } else if s[0] == 't' {
                Some(EquityScreener::Yr1PercentChangeInTotalRevenue)
            } else {
                None
            }
        } else if s.len() == 40 {
            if s[0] == 'l' {
                Some(EquityScreener::PriceBookValue)
            } else if s[0] == 't' {
                Some(EquityScreener::TotalCurrentLiabilities)
            } else {
                None
            }
        } else if s.len() == 41 {
            Some(EquityScreener::TotalEnterpriseValueTotalRevenue)
        } else if s.len() == 42 {
            Some(EquityScreener::ConsecutiveYearsOfDividendGrowthCount)
        } else if s.len() == 44 {
            if s[0] == 'c' {
                Some(EquityScreener::Yr1PercentChangeInCashFromOperations)
            } else if s[0] == 's' {
                Some(EquityScreener::ShortPercentOfSharesOutstanding)
            } else {
                None
            }
        } else if s.len() == 45 {
            if s[0] == 'b' {
                Some(EquityScreener::EPSBasicContinuingOperations)
            } else if s[0] == 'l' {
                Some(EquityScreener::Yr1PercentChangeInLeveredFreeCashFlow)
            } else if s[0] == 't' {
                Some(EquityScreener::TotalCommonSharesOutstanding)
            } else {
                None
            }
        } else if s.len() == 47 {
            if s[0] == 'd' {
                Some(EquityScreener::EPSDilutedContinuingOperations)
            } else if s[0] == 'l' {
                Some(EquityScreener::PriceSales)
            } else {
                None
            }
        } else if s.len() == 48 {
            Some(EquityScreener::PriceTangibleBookValue)
        } else if s.len() == 49 {
            Some(EquityScreener::TotalCashAndShortTermInvestments)
        } else if s.len() == 54 {
            Some(EquityScreener::OperatingCashFlowRatio)
        } else if s.len() == 70 {
            Some(EquityScreener::AltmanZScore)
        } else {
            None
        }
    }

    /// The key of this value.
    pub fn as_str(&self) -> (s: &'static str)
        ensures
            s@ == self.spec_key(),
    {
        match self {
            EquityScreener::Region => "region",
            EquityScreener::Symbol => "ticker",
            EquityScreener::PriceIntraday => "intradayprice",
            EquityScreener::PriceEndOfDay => "eodprice",
            EquityScreener::Volume => "dayvolume",
            EquityScreener::VolumeEndOfDay => "eodvolume",
            EquityScreener::AvgVol3Month => "avgdailyvol3m",
            EquityScreener::MarketCapIntraday => "intradaymarketcap",
            EquityScreener::Sector => "sector",
            EquityScreener::Industry => "industry",
            EquityScreener::Beta5YMonthly => "beta",
            EquityScreener::Exchange => "exchange",
            EquityScreener::Index => "indexmembership",
            EquityScreener::ShortInterestRatio => "days_to_cover_short.value",
            EquityScreener::ShortInterest => "short_interest.value",
            EquityScreener::ShortInterestPercentChange => "short_interest_percentage_change.value",
            EquityScreener::ShortPercentOfFloat => "short_percentage_of_float.value",
            EquityScreener::ShortPercentOfSharesOutstanding => "short_percentage_of_shares_outstanding.value",
            EquityScreener::PeerGroup => "peer_group",
            EquityScreener::ReturnOnEquity => "returnonequity.lasttwelvemonths",
            EquityScreener::Yr1PercentChangeInEPSBasic => "epsgrowth.lasttwelvemonths",
            EquityScreener::DebtEquity => "totaldebtequity.lasttwelvemonths",
            EquityScreener::CurrentRatio => "currentratio.lasttwelvemonths",
            EquityScreener::GrossProfitMargin => "grossprofitmargin.lasttwelvemonths",
            EquityScreener::ReturnOnAssets => "returnonassets.lasttwelvemonths",
            EquityScreener::LongTermDebtEquity => "ltdebtequity.lasttwelvemonths",
            EquityScreener::ReturnOnInvestedCapital => "returnontotalcapital.lasttwelvemonths",
            EquityScreener::NetIncomeMargin => "netincomemargin.lasttwelvemonths",
            EquityScreener::AltmanZScore => "altmanzscoreusingtheaveragestockinformationforaperiod.lasttwelvemonths",
            EquityScreener::DividendYield => "dividendyield",
            EquityScreener::QuickRatio => "quickratio.lasttwelvemonths",
            EquityScreener::TotalDebtEBITDA => "totaldebtebitda.lasttwelvemonths",
            EquityScreener::EBITDAMargin => "ebitdamargin.lasttwelvemonths",
            EquityScreener::NetDebtEBITDA => "netdebtebitda.lasttwelvemonths",
            EquityScreener::OperatingCashFlowRatio => "operatingcashflowtocurrentliabilities.lasttwelvemonths",
            EquityScreener::ForwardDividendYield => "forward_dividend_yield",
            EquityScreener::EBITDAInterestExpenseLTM => "ebitdainterestexpense.lasttwelvemonths",
            EquityScreener::EBITInterestExpenseLTM => "ebitinterestexpense.lasttwelvemonths",
            EquityScreener::Week52PricePercentChange => "fiftytwowkpercentchange",
            EquityScreener::PriceChangeIntraday => "intradaypricechange",
            EquityScreener::Week52PriceHighLastClose => "lastclose52weekhigh.lasttwelvemonths",
            EquityScreener::Week52PriceLowLastClose => "lastclose52weeklow.lasttwelvemonths",
            EquityScreener::PercentChangeInPriceIntraday => "percentchange",
            EquityScreener::ConsecutiveYearsOfDividendGrowthCount => "consecutive_years_of_dividend_growth_count",
            EquityScreener::RecentHighTimeframe => "price_signal_fifty_two_wk_high.datetime",
            EquityScreener::RecentLowTimeframe => "price_signal_fifty_two_wk_low.datetime",
            EquityScreener::Yr1PercentChangeInTotalRevenue => "totalrevenues1yrgrowth.lasttwelvemonths",
            EquityScreener::Yr1PercentChangeInNetIncome => "netincome1yrgrowth.lasttwelvemonths",
            EquityScreener::EPSBasicContinuingOperations => "basicepscontinuingoperations.lasttwelvemonths",
            EquityScreener::QuarterlyRevenueGrowthYOY => "quarterlyrevenuegrowth.quarterly",
            EquityScreener::TotalRevenue => "totalrevenues.lasttwelvemonths",
            EquityScreener::EPSBasic => "netepsbasic.lasttwelvemonths",
            EquityScreener::Yr1PercentChangeInEBITDA => "ebitda1yrgrowth.lasttwelvemonths",
            EquityScreener::Yr1PercentChangeInEPSDiluted => "dilutedeps1yrgrowth.lasttwelvemonths",
            EquityScreener::EPSDiluted => "netepsdiluted.lasttwelvemonths",
            EquityScreener::NetIncome => "netincomeis.lasttwelvemonths",
            EquityScreener::OperatingIncome => "operatingincome.lasttwelvemonths",
            EquityScreener::GrossProfit => "grossprofit.lasttwelvemonths",
            EquityScreener::EBITDA => "ebitda.lasttwelvemonths",
            EquityScreener::EPSDilutedContinuingOperations => "dilutedepscontinuingoperations.lasttwelvemonths",
            EquityScreener::EBIT => "ebit.lasttwelvemonths",
            EquityScreener::BookValuePerShare => "bookvalueshare.lasttwelvemonths",
            EquityScreener::TotalSharesOutstanding => "totalsharesoutstanding",
            EquityScreener::TotalDebt => "totaldebt.lasttwelvemonths",
            EquityScreener::TotalAssets => "totalassets.lasttwelvemonths",
            EquityScreener::TotalCashAndShortTermInvestments => "totalcashandshortterminvestments.lasttwelvemonths",
            EquityScreener::TotalCurrentAssets => "totalcurrentassets.lasttwelvemonths",
            EquityScreener::TotalEquity => "totalequity.lasttwelvemonths",
            EquityScreener::TotalCommonSharesOutstanding => "totalcommonsharesoutstanding.lasttwelvemonths",
            EquityScreener::TotalCurrentLiabilities => "totalcurrentliabilities.lasttwelvemonths",
            EquityScreener::TotalCommonEquity => "totalcommonequity.lasttwelvemonths",
            EquityScreener::Yr1PercentChangeInCashFromOperations => "cashfromoperations1yrgrowth.lasttwelvemonths",
            EquityScreener::UnleveredFreeCashFlow => "unleveredfreecashflow.lasttwelvemonths",
            EquityScreener::LeveredFreeCashFlow => "leveredfreecashflow.lasttwelvemonths",
            EquityScreener::Yr1PercentChangeInLeveredFreeCashFlow => "leveredfreecashflow1yrgrowth.lasttwelvemonths",
            EquityScreener::DividendPerShare => "dividendpershare.lasttwelvemonths",
            EquityScreener::CapitalExpenditure => "capitalexpenditure.lasttwelvemonths",
            EquityScreener::ForwardDividendPerShare => "forward_dividend_per_share",
            EquityScreener::CashFromOperations => "cashfromoperations.lasttwelvemonths",
            EquityScreener::TotalEnterpriseValueEBITDA => "lastclosetevebitda.lasttwelvemonths",
            EquityScreener::PriceTangibleBookValue => "lastclosepricetangiblebookvalue.lasttwelvemonths",
            EquityScreener::TotalEnterpriseValueEBIT => "lastclosetevebit.lasttwelvemonths",
            EquityScreener::PriceSales => "lastclosemarketcaptotalrevenue.lasttwelvemonths",
            EquityScreener::TotalEnterpriseValueTotalRevenue => "lastclosetevtotalrevenue.lasttwelvemonths",
            EquityScreener::PriceBookValue => "lastclosepricebookvalue.lasttwelvemonths",
            EquityScreener::PriceEarnings => "lastclosepriceearnings.lasttwelvemonths",
            EquityScreener::PriceEarningsToGrowth => "pegratio_5y",
            EquityScreener::TrailingPE => "peratio.lasttwelvemonths",
            EquityScreener::PBMostRecentQuarterToMRQ => "pricebookratio.quarterly",
            EquityScreener::EnvironmentalScore => "environmental_score",
            EquityScreener::ESGScore => "esg_score",
            EquityScreener::GovernanceScore => "governance_score",
            EquityScreener::SocialScore => "social_score",
            EquityScreener::HighestControversy => "highest_controversy",
            EquityScreener::PercentOfSharesOutstandingHeldByInsiders => "pctheldinsider",
            EquityScreener::PercentOfSharesOutstandingHeldByInstitutions => "pctheldinst",
        }
    }

    /// The key of this value as an owned string.
    pub fn to_string(&self) -> (s: String)
        ensures
            s@ == self.spec_key(),
    {
        owned(self.as_str())
    }

    /// Parses a key: the value whose key is `s`, and `None` when there is none.
    pub fn from_str(s: &str) -> (r: Option<EquityScreener>)
        ensures
            forall|v: EquityScreener| #[trigger] v.spec_key() == s@ <==> r == Some(v),
    {
        let r = Self::find(s);
        proof {
            assert forall|v: EquityScreener| #[trigger] v.spec_key() == s@ implies r == Some(v) by {
                Self::lemma_key_round_trip(v, r->0);
            }
        }
        r
    }

    /// Tries the keys in declaration order.
    #[verifier::rlimit(60)]
    fn find(s: &str) -> (r: Option<EquityScreener>)
        ensures
            r matches Some(v) ==> v.spec_key() == s@,
            r is None ==> forall|v: EquityScreener| #[trigger] v.spec_key() != s@,
    {
        if str_eq(s, "region") {
            return Some(EquityScreener::Region);
        }
        if str_eq(s, "ticker") {
            return Some(EquityScreener::Symbol);
        }
        if str_eq(s, "intradayprice") {
            return Some(EquityScreener::PriceIntraday);
        }
        if str_eq(s, "eodprice") {
            return Some(EquityScreener::PriceEndOfDay);
        }
        if str_eq(s, "dayvolume") {
            return Some(EquityScreener::Volume);
        }
        if str_eq(s, "eodvolume") {
            return Some(EquityScreener::VolumeEndOfDay);
        }
        if str_eq(s, "avgdailyvol3m") {
            return Some(EquityScreener::AvgVol3Month);
        }
        if str_eq(s, "intradaymarketcap") {
            return Some(EquityScreener::MarketCapIntraday);
        }
        if str_eq(s, "sector") {
            return Some(EquityScreener::Sector);
        }
        if str_eq(s, "industry") {
            return Some(EquityScreener::Industry);
        }
        if str_eq(s, "beta") {
            return Some(EquityScreener::Beta5YMonthly);
        }
        if str_eq(s, "exchange") {
            return Some(EquityScreener::Exchange);
        }
        if str_eq(s, "indexmembership") {
            return Some(EquityScreener::Index);
        }
        if str_eq(s, "days_to_cover_short.value") {
            return Some(EquityScreener::ShortInterestRatio);
        }
        if str_eq(s, "short_interest.value") {
            return Some(EquityScreener::ShortInterest);
        }
        if str_eq(s, "short_interest_percentage_change.value") {
            return Some(EquityScreener::ShortInterestPercentChange);
        }
        if str_eq(s, "short_percentage_of_float.value") {
            return Some(EquityScreener::ShortPercentOfFloat);
        }
        if str_eq(s, "short_percentage_of_shares_outstanding.value") {
            return Some(EquityScreener::ShortPercentOfSharesOutstanding);
        }
        if str_eq(s, "peer_group") {
            return Some(EquityScreener::PeerGroup);
        }
        if str_eq(s, "returnonequity.lasttwelvemonths") {
            return Some(EquityScreener::ReturnOnEquity);
        }
        if str_eq(s, "epsgrowth.lasttwelvemonths") {
            return Some(EquityScreener::Yr1PercentChangeInEPSBasic);
        }
        if str_eq(s, "totaldebtequity.lasttwelvemonths") {
            return Some(EquityScreener::DebtEquity);
        }
        if str_eq(s, "currentratio.lasttwelvemonths") {
            return Some(EquityScreener::CurrentRatio);
        }
        if str_eq(s, "grossprofitmargin.lasttwelvemonths") {
            return Some(EquityScreener::GrossProfitMargin);
        }
        if str_eq(s, "returnonassets.lasttwelvemonths") {
            return Some(EquityScreener::ReturnOnAssets);
        }
        if str_eq(s, "ltdebtequity.lasttwelvemonths") {
            return Some(EquityScreener::LongTermDebtEquity);
        }
        if str_eq(s, "returnontotalcapital.lasttwelvemonths") {
            return Some(EquityScreener::ReturnOnInvestedCapital);
        }
        if str_eq(s, "netincomemargin.lasttwelvemonths") {
            return Some(EquityScreener::NetIncomeMargin);
        }
        if str_eq(s, "altmanzscoreusingtheaveragestockinformationforaperiod.lasttwelvemonths") {
            return Some(EquityScreener::AltmanZScore);
        }
        if str_eq(s, "dividendyield") {
            return Some(EquityScreener::DividendYield);
        }
        if str_eq(s, "quickratio.lasttwelvemonths") {
            return Some(EquityScreener::QuickRatio);
        }
        if str_eq(s, "totaldebtebitda.lasttwelvemonths") {
            return Some(EquityScreener::TotalDebtEBITDA);
        }
        if str_eq(s, "ebitdamargin.lasttwelvemonths") {
            return Some(EquityScreener::EBITDAMargin);
        }
        if str_eq(s, "netdebtebitda.lasttwelvemonths") {
            return Some(EquityScreener::NetDebtEBITDA);
        }
        if str_eq(s, "operatingcashflowtocurrentliabilities.lasttwelvemonths") {
            return Some(EquityScreener::OperatingCashFlowRatio);
        }
        if str_eq(s, "forward_dividend_yield") {
            return Some(EquityScreener::ForwardDividendYield);
        }
        if str_eq(s, "ebitdainterestexpense.lasttwelvemonths") {
            return Some(EquityScreener::EBITDAInterestExpenseLTM);
        }
        if str_eq(s, "ebitinterestexpense.lasttwelvemonths") {
            return Some(EquityScreener::EBITInterestExpenseLTM);
        }
        if str_eq(s, "fiftytwowkpercentchange") {
            return Some(EquityScreener::Week52PricePercentChange);
        }
        if str_eq(s, "intradaypricechange") {
            return Some(EquityScreener::PriceChangeIntraday);
        }
        if str_eq(s, "lastclose52weekhigh.lasttwelvemonths") {
            return Some(EquityScreener::Week52PriceHighLastClose);
        }
        if str_eq(s, "lastclose52weeklow.lasttwelvemonths") {
            return Some(EquityScreener::Week52PriceLowLastClose);
        }
        if str_eq(s, "percentchange") {
            return Some(EquityScreener::PercentChangeInPriceIntraday);
        }
        if str_eq(s, "consecutive_years_of_dividend_growth_count") {
            return Some(EquityScreener::ConsecutiveYearsOfDividendGrowthCount);
        }
        if str_eq(s, "price_signal_fifty_two_wk_high.datetime") {
            return Some(EquityScreener::RecentHighTimeframe);
        }
        if str_eq(s, "price_signal_fifty_two_wk_low.datetime") {
            return Some(EquityScreener::RecentLowTimeframe);
        }
        if str_eq(s, "totalrevenues1yrgrowth.lasttwelvemonths") {
            return Some(EquityScreener::Yr1PercentChangeInTotalRevenue);
        }
        if str_eq(s, "netincome1yrgrowth.lasttwelvemonths") {
            return Some(EquityScreener::Yr1PercentChangeInNetIncome);
        }
        if str_eq(s, "basicepscontinuingoperations.lasttwelvemonths") {
            return Some(EquityScreener::EPSBasicContinuingOperations);
        }
        if str_eq(s, "quarterlyrevenuegrowth.quarterly") {
            return Some(EquityScreener::QuarterlyRevenueGrowthYOY);
        }
        if str_eq(s, "totalrevenues.lasttwelvemonths") {
            return Some(EquityScreener::TotalRevenue);
        }
        if str_eq(s, "netepsbasic.lasttwelvemonths") {
            return Some(EquityScreener::EPSBasic);
        }
        if str_eq(s, "ebitda1yrgrowth.lasttwelvemonths") {
            return Some(EquityScreener::Yr1PercentChangeInEBITDA);
        }
        if str_eq(s, "dilutedeps1yrgrowth.lasttwelvemonths") {
            return Some(EquityScreener::Yr1PercentChangeInEPSDiluted);
        }
        if str_eq(s, "netepsdiluted.lasttwelvemonths") {
            return Some(EquityScreener::EPSDiluted);
        }
        if str_eq(s, "netincomeis.lasttwelvemonths") {
            return Some(EquityScreener::NetIncome);
        }
        if str_eq(s, "operatingincome.lasttwelvemonths") {
            return Some(EquityScreener::OperatingIncome);
        }
        if str_eq(s, "grossprofit.lasttwelvemonths") {
            return Some(EquityScreener::GrossProfit);
        }
        if str_eq(s, "ebitda.lasttwelvemonths") {
            return Some(EquityScreener::EBITDA);
        }
        if str_eq(s, "dilutedepscontinuingoperations.lasttwelvemonths") {
            return Some(EquityScreener::EPSDilutedContinuingOperations);
        }
        if str_eq(s, "ebit.lasttwelvemonths") {
            return Some(EquityScreener::EBIT);
        }
        if str_eq(s, "bookvalueshare.lasttwelvemonths") {
            return Some(EquityScreener::BookValuePerShare);
        }
        if str_eq(s, "totalsharesoutstanding") {
            return Some(EquityScreener::TotalSharesOutstanding);
        }
        if str_eq(s, "totaldebt.lasttwelvemonths") {
            return Some(EquityScreener::TotalDebt);
        }
        if str_eq(s, "totalassets.lasttwelvemonths") {
            return Some(EquityScreener::TotalAssets);
        }
        if str_eq(s, "totalcashandshortterminvestments.lasttwelvemonths") {
            return Some(EquityScreener::TotalCashAndShortTermInvestments);
        }
        if str_eq(s, "totalcurrentassets.lasttwelvemonths") {
            return Some(EquityScreener::TotalCurrentAssets);
        }
        if str_eq(s, "totalequity.lasttwelvemonths") {
            return Some(EquityScreener::TotalEquity);
        }
        if str_eq(s, "totalcommonsharesoutstanding.lasttwelvemonths") {
            return Some(EquityScreener::TotalCommonSharesOutstanding);
        }
        if str_eq(s, "totalcurrentliabilities.lasttwelvemonths") {
            return Some(EquityScreener::TotalCurrentLiabilities);
        }
        if str_eq(s, "totalcommonequity.lasttwelvemonths") {
            return Some(EquityScreener::TotalCommonEquity);
        }
        if str_eq(s, "cashfromoperations1yrgrowth.lasttwelvemonths") {
            return Some(EquityScreener::Yr1PercentChangeInCashFromOperations);
        }
        if str_eq(s, "unleveredfreecashflow.lasttwelvemonths") {
            return Some(EquityScreener::UnleveredFreeCashFlow);
        }
        if str_eq(s, "leveredfreecashflow.lasttwelvemonths") {
            return Some(EquityScreener::LeveredFreeCashFlow);
        }
        if str_eq(s, "leveredfreecashflow1yrgrowth.lasttwelvemonths") {
            return Some(EquityScreener::Yr1PercentChangeInLeveredFreeCashFlow);
        }
        if str_eq(s, "dividendpershare.lasttwelvemonths") {
            return Some(EquityScreener::DividendPerShare);
        }
        if str_eq(s, "capitalexpenditure.lasttwelvemonths") {
            return Some(EquityScreener::CapitalExpenditure);
        }
        if str_eq(s, "forward_dividend_per_share") {
            return Some(EquityScreener::ForwardDividendPerShare);
        }
        if str_eq(s, "cashfromoperations.lasttwelvemonths") {
            return Some(EquityScreener::CashFromOperations);
        }
        if str_eq(s, "lastclosetevebitda.lasttwelvemonths") {
            return Some(EquityScreener::TotalEnterpriseValueEBITDA);
        }
        if str_eq(s, "lastclosepricetangiblebookvalue.lasttwelvemonths") {
            return Some(EquityScreener::PriceTangibleBookValue);
        }
        if str_eq(s, "lastclosetevebit.lasttwelvemonths") {
            return Some(EquityScreener::TotalEnterpriseValueEBIT);
        }
        if str_eq(s, "lastclosemarketcaptotalrevenue.lasttwelvemonths") {
            return Some(EquityScreener::PriceSales);
        }
        if str_eq(s, "lastclosetevtotalrevenue.lasttwelvemonths") {
            return Some(EquityScreener::TotalEnterpriseValueTotalRevenue);
        }
        if str_eq(s, "lastclosepricebookvalue.lasttwelvemonths") {
            return Some(EquityScreener::PriceBookValue);
        }
        if str_eq(s, "lastclosepriceearnings.lasttwelvemonths") {
            return Some(EquityScreener::PriceEarnings);
        }
        if str_eq(s, "pegratio_5y") {
            return Some(EquityScreener::PriceEarningsToGrowth);
        }
        if str_eq(s, "peratio.lasttwelvemonths") {
            return Some(EquityScreener::TrailingPE);
        }
        if str_eq(s, "pricebookratio.quarterly") {
            return Some(EquityScreener::PBMostRecentQuarterToMRQ);
        }
        if str_eq(s, "environmental_score") {
            return Some(EquityScreener::EnvironmentalScore);
        }
        if str_eq(s, "esg_score") {
            return Some(EquityScreener::ESGScore);
        }
        if str_eq(s, "governance_score") {
            return Some(EquityScreener::GovernanceScore);
        }
        if str_eq(s, "social_score") {
            return Some(EquityScreener::SocialScore);
        }
        if str_eq(s, "highest_controversy") {
            return Some(EquityScreener::HighestControversy);
        }
        if str_eq(s, "pctheldinsider") {
            return Some(EquityScreener::PercentOfSharesOutstandingHeldByInsiders);
        }
        if str_eq(s, "pctheldinst") {
            return Some(EquityScreener::PercentOfSharesOutstandingHeldByInstitutions);
        }
        None
    }

    /// Every value, in declaration order.
    pub fn variants() -> (r: Vec<EquityScreener>)
        ensures
            r@ == Self::spec_all(),
    {
        let r = vec![
            EquityScreener::Region, EquityScreener::Symbol, EquityScreener::PriceIntraday,
            EquityScreener::PriceEndOfDay, EquityScreener::Volume, EquityScreener::VolumeEndOfDay,
            EquityScreener::AvgVol3Month, EquityScreener::MarketCapIntraday, EquityScreener::Sector,
            EquityScreener::Industry, EquityScreener::Beta5YMonthly, EquityScreener::Exchange,
            EquityScreener::Index, EquityScreener::ShortInterestRatio,
            EquityScreener::ShortInterest, EquityScreener::ShortInterestPercentChange,
            EquityScreener::ShortPercentOfFloat, EquityScreener::ShortPercentOfSharesOutstanding,
            EquityScreener::PeerGroup, EquityScreener::ReturnOnEquity,
            EquityScreener::Yr1PercentChangeInEPSBasic, EquityScreener::DebtEquity,
            EquityScreener::CurrentRatio, EquityScreener::GrossProfitMargin,
            EquityScreener::ReturnOnAssets, EquityScreener::LongTermDebtEquity,
            EquityScreener::ReturnOnInvestedCapital, EquityScreener::NetIncomeMargin,
            EquityScreener::AltmanZScore, EquityScreener::DividendYield, EquityScreener::QuickRatio,
            EquityScreener::TotalDebtEBITDA, EquityScreener::EBITDAMargin,
            EquityScreener::NetDebtEBITDA, EquityScreener::OperatingCashFlowRatio,
            EquityScreener::ForwardDividendYield, EquityScreener::EBITDAInterestExpenseLTM,
            EquityScreener::EBITInterestExpenseLTM, EquityScreener::Week52PricePercentChange,
            EquityScreener::PriceChangeIntraday, EquityScreener::Week52PriceHighLastClose,
            EquityScreener::Week52PriceLowLastClose, EquityScreener::PercentChangeInPriceIntraday,
            EquityScreener::ConsecutiveYearsOfDividendGrowthCount,
            EquityScreener::RecentHighTimeframe, EquityScreener::RecentLowTimeframe,
            EquityScreener::Yr1PercentChangeInTotalRevenue,
            EquityScreener::Yr1PercentChangeInNetIncome,
            EquityScreener::EPSBasicContinuingOperations, EquityScreener::QuarterlyRevenueGrowthYOY,
            EquityScreener::TotalRevenue, EquityScreener::EPSBasic,
            EquityScreener::Yr1PercentChangeInEBITDA, EquityScreener::Yr1PercentChangeInEPSDiluted,
            EquityScreener::EPSDiluted, EquityScreener::NetIncome, EquityScreener::OperatingIncome,
            EquityScreener::GrossProfit, EquityScreener::EBITDA,
            EquityScreener::EPSDilutedContinuingOperations, EquityScreener::EBIT,
            EquityScreener::BookValuePerShare, EquityScreener::TotalSharesOutstanding,
            EquityScreener::TotalDebt, EquityScreener::TotalAssets,
            EquityScreener::TotalCashAndShortTermInvestments, EquityScreener::TotalCurrentAssets,
            EquityScreener::TotalEquity, EquityScreener::TotalCommonSharesOutstanding,
            EquityScreener::TotalCurrentLiabilities, EquityScreener::TotalCommonEquity,
            EquityScreener::Yr1PercentChangeInCashFromOperations,
            EquityScreener::UnleveredFreeCashFlow, EquityScreener::LeveredFreeCashFlow,
            EquityScreener::Yr1PercentChangeInLeveredFreeCashFlow, EquityScreener::DividendPerShare,
            EquityScreener::CapitalExpenditure, EquityScreener::ForwardDividendPerShare,
            EquityScreener::CashFromOperations, EquityScreener::TotalEnterpriseValueEBITDA,
            EquityScreener::PriceTangibleBookValue, EquityScreener::TotalEnterpriseValueEBIT,
            EquityScreener::PriceSales, EquityScreener::TotalEnterpriseValueTotalRevenue,
            EquityScreener::PriceBookValue, EquityScreener::PriceEarnings,
            EquityScreener::PriceEarningsToGrowth, EquityScreener::TrailingPE,
            EquityScreener::PBMostRecentQuarterToMRQ, EquityScreener::EnvironmentalScore,
            EquityScreener::ESGScore, EquityScreener::GovernanceScore, EquityScreener::SocialScore,
            EquityScreener::HighestControversy,
            EquityScreener::PercentOfSharesOutstandingHeldByInsiders,
            EquityScreener::PercentOfSharesOutstandingHeldByInstitutions,
        ];
        assert(r@ =~= Self::spec_all());
        r
    }

    /// The keys of every value, in declaration order.
    pub fn variant_names() -> (r: Vec<&'static str>)
        ensures
            strs_view(r@) == Self::spec_names(),
    {
        let r = vec![
            "region", "ticker", "intradayprice", "eodprice", "dayvolume", "eodvolume",
            "avgdailyvol3m", "intradaymarketcap", "sector", "industry", "beta", "exchange",
            "indexmembership", "days_to_cover_short.value", "short_interest.value",
            "short_interest_percentage_change.value", "short_percentage_of_float.value",
            "short_percentage_of_shares_outstanding.value", "peer_group",
            "returnonequity.lasttwelvemonths", "epsgrowth.lasttwelvemonths",
            "totaldebtequity.lasttwelvemonths", "currentratio.lasttwelvemonths",
            "grossprofitmargin.lasttwelvemonths", "returnonassets.lasttwelvemonths",
            "ltdebtequity.lasttwelvemonths", "returnontotalcapital.lasttwelvemonths",
            "netincomemargin.lasttwelvemonths",
            "altmanzscoreusingtheaveragestockinformationforaperiod.lasttwelvemonths",
            "dividendyield", "quickratio.lasttwelvemonths", "totaldebtebitda.lasttwelvemonths",
            "ebitdamargin.lasttwelvemonths", "netdebtebitda.lasttwelvemonths",
            "operatingcashflowtocurrentliabilities.lasttwelvemonths", "forward_dividend_yield",
            "ebitdainterestexpense.lasttwelvemonths", "ebitinterestexpense.lasttwelvemonths",
            "fiftytwowkpercentchange", "intradaypricechange",
            "lastclose52weekhigh.lasttwelvemonths", "lastclose52weeklow.lasttwelvemonths",
            "percentchange", "consecutive_years_of_dividend_growth_count",
            "price_signal_fifty_two_wk_high.datetime", "price_signal_fifty_two_wk_low.datetime",
            "totalrevenues1yrgrowth.lasttwelvemonths", "netincome1yrgrowth.lasttwelvemonths",
            "basicepscontinuingoperations.lasttwelvemonths", "quarterlyrevenuegrowth.quarterly",
            "totalrevenues.lasttwelvemonths", "netepsbasic.lasttwelvemonths",
            "ebitda1yrgrowth.lasttwelvemonths", "dilutedeps1yrgrowth.lasttwelvemonths",
            "netepsdiluted.lasttwelvemonths", "netincomeis.lasttwelvemonths",
            "operatingincome.lasttwelvemonths", "grossprofit.lasttwelvemonths",
            "ebitda.lasttwelvemonths", "dilutedepscontinuingoperations.lasttwelvemonths",
            "ebit.lasttwelvemonths", "bookvalueshare.lasttwelvemonths", "totalsharesoutstanding",
            "totaldebt.lasttwelvemonths", "totalassets.lasttwelvemonths",
            "totalcashandshortterminvestments.lasttwelvemonths",
            "totalcurrentassets.lasttwelvemonths", "totalequity.lasttwelvemonths",
            "totalcommonsharesoutstanding.lasttwelvemonths",
            "totalcurrentliabilities.lasttwelvemonths", "totalcommonequity.lasttwelvemonths",
            "cashfromoperations1yrgrowth.lasttwelvemonths",
            "unleveredfreecashflow.lasttwelvemonths", "leveredfreecashflow.lasttwelvemonths",
            "leveredfreecashflow1yrgrowth.lasttwelvemonths", "dividendpershare.lasttwelvemonths",
            "capitalexpenditure.lasttwelvemonths", "forward_dividend_per_share",
            "cashfromoperations.lasttwelvemonths", "lastclosetevebitda.lasttwelvemonths",
            "lastclosepricetangiblebookvalue.lasttwelvemonths", "lastclosetevebit.lasttwelvemonths",
            "lastclosemarketcaptotalrevenue.lasttwelvemonths",
            "lastclosetevtotalrevenue.lasttwelvemonths", "lastclosepricebookvalue.lasttwelvemonths",
            "lastclosepriceearnings.lasttwelvemonths", "pegratio_5y", "peratio.lasttwelvemonths",
            "pricebookratio.quarterly", "environmental_score", "esg_score", "governance_score",
            "social_score", "highest_controversy", "pctheldinsider", "pctheldinst",
        ];
        assert(strs_view(r@) =~= Self::spec_names());
        r
    }

    /// Distinct values have distinct keys: the key of a value decodes to that value.
    pub proof fn lemma_decode_key(v: EquityScreener)
        ensures
            Self::spec_decode(v.spec_key()) == Some(v),
    {
        match v {
            EquityScreener::Region => {
                reveal_strlit("region");
            },
            EquityScreener::Symbol => {
                reveal_strlit("ticker");
            },
            EquityScreener::PriceIntraday => {
                reveal_strlit("intradayprice");
            },
            EquityScreener::PriceEndOfDay => {
                reveal_strlit("eodprice");
            },
            EquityScreener::Volume => {
                reveal_strlit("dayvolume");
            },
            EquityScreener::VolumeEndOfDay => {
                reveal_strlit("eodvolume");
            },
            EquityScreener::AvgVol3Month => {
                reveal_strlit("avgdailyvol3m");
            },
            EquityScreener::MarketCapIntraday => {
                reveal_strlit("intradaymarketcap");
            },
            EquityScreener::Sector => {
                reveal_strlit("sector");
            },
            EquityScreener::Industry => {
                reveal_strlit("industry");
            },
            EquityScreener::Beta5YMonthly => {
                reveal_strlit("beta");
            },
            EquityScreener::Exchange => {
                reveal_strlit("exchange");
            },
            EquityScreener::Index => {
                reveal_strlit("indexmembership");
            },
            EquityScreener::ShortInterestRatio => {
                reveal_strlit("days_to_cover_short.value");
            },
            EquityScreener::ShortInterest => {
                reveal_strlit("short_interest.value");
            },
            EquityScreener::ShortInterestPercentChange => {
                reveal_strlit("short_interest_percentage_change.value");
            },
            EquityScreener::ShortPercentOfFloat => {
                reveal_strlit("short_percentage_of_float.value");
            },
            EquityScreener::ShortPercentOfSharesOutstanding => {
                reveal_strlit("short_percentage_of_shares_outstanding.value");
            },
            EquityScreener::PeerGroup => {
                reveal_strlit("peer_group");
            },
            EquityScreener::ReturnOnEquity => {
                reveal_strlit("returnonequity.lasttwelvemonths");
            },
            EquityScreener::Yr1PercentChangeInEPSBasic => {
                reveal_strlit("epsgrowth.lasttwelvemonths");
            },
            EquityScreener::DebtEquity => {
                reveal_strlit("totaldebtequity.lasttwelvemonths");
            },
            EquityScreener::CurrentRatio => {
                reveal_strlit("currentratio.lasttwelvemonths");
            },
            EquityScreener::GrossProfitMargin => {
                reveal_strlit("grossprofitmargin.lasttwelvemonths");
            },
            EquityScreener::ReturnOnAssets => {
                reveal_strlit("returnonassets.lasttwelvemonths");
            },
            EquityScreener::LongTermDebtEquity => {
                reveal_strlit("ltdebtequity.lasttwelvemonths");
            },
            EquityScreener::ReturnOnInvestedCapital => {
                reveal_strlit("returnontotalcapital.lasttwelvemonths");
            },
            EquityScreener::NetIncomeMargin => {
                reveal_strlit("netincomemargin.lasttwelvemonths");
            },
            EquityScreener::AltmanZScore => {
                reveal_strlit("altmanzscoreusingtheaveragestockinformationforaperiod.lasttwelvemonths");
            },
            EquityScreener::DividendYield => {
                reveal_strlit("dividendyield");
            },
            EquityScreener::QuickRatio => {
                reveal_strlit("quickratio.lasttwelvemonths");
            },
            EquityScreener::TotalDebtEBITDA => {
                reveal_strlit("totaldebtebitda.lasttwelvemonths");
            },
            EquityScreener::EBITDAMargin => {
                reveal_strlit("ebitdamargin.lasttwelvemonths");
            },
            EquityScreener::NetDebtEBITDA => {
                reveal_strlit("netdebtebitda.lasttwelvemonths");
            },
            EquityScreener::OperatingCashFlowRatio => {
                reveal_strlit("operatingcashflowtocurrentliabilities.lasttwelvemonths");
            },
            EquityScreener::ForwardDividendYield => {
                reveal_strlit("forward_dividend_yield");
            },
            EquityScreener::EBITDAInterestExpenseLTM => {
                reveal_strlit("ebitdainterestexpense.lasttwelvemonths");
            },
            EquityScreener::EBITInterestExpenseLTM => {
                reveal_strlit("ebitinterestexpense.lasttwelvemonths");
            },
            EquityScreener::Week52PricePercentChange => {
                reveal_strlit("fiftytwowkpercentchange");
            },
            EquityScreener::PriceChangeIntraday => {
                reveal_strlit("intradaypricechange");
            },
            EquityScreener::Week52PriceHighLastClose => {
                reveal_strlit("lastclose52weekhigh.lasttwelvemonths");
            },
            EquityScreener::Week52PriceLowLastClose => {
                reveal_strlit("lastclose52weeklow.lasttwelvemonths");
            },
            EquityScreener::PercentChangeInPriceIntraday => {
                reveal_strlit("percentchange");
            },
            EquityScreener::ConsecutiveYearsOfDividendGrowthCount => {
                reveal_strlit("consecutive_years_of_dividend_growth_count");
            },
            EquityScreener::RecentHighTimeframe => {
                reveal_strlit("price_signal_fifty_two_wk_high.datetime");
            },
            EquityScreener::RecentLowTimeframe => {
                reveal_strlit("price_signal_fifty_two_wk_low.datetime");
            },
            EquityScreener::Yr1PercentChangeInTotalRevenue => {
                reveal_strlit("totalrevenues1yrgrowth.lasttwelvemonths");
            },
            EquityScreener::Yr1PercentChangeInNetIncome => {
                reveal_strlit("netincome1yrgrowth.lasttwelvemonths");
            },
            EquityScreener::EPSBasicContinuingOperations => {
                reveal_strlit("basicepscontinuingoperations.lasttwelvemonths");
            },
            EquityScreener::QuarterlyRevenueGrowthYOY => {
                reveal_strlit("quarterlyrevenuegrowth.quarterly");
            },
            EquityScreener::TotalRevenue => {
                reveal_strlit("totalrevenues.lasttwelvemonths");
            },
            EquityScreener::EPSBasic => {
                reveal_strlit("netepsbasic.lasttwelvemonths");
            },
            EquityScreener::Yr1PercentChangeInEBITDA => {
                reveal_strlit("ebitda1yrgrowth.lasttwelvemonths");
            },
            EquityScreener::Yr1PercentChangeInEPSDiluted => {
                reveal_strlit("dilutedeps1yrgrowth.lasttwelvemonths");
            },
            EquityScreener::EPSDiluted => {
                reveal_strlit("netepsdiluted.lasttwelvemonths");
            },
            EquityScreener::NetIncome => {
                reveal_strlit("netincomeis.lasttwelvemonths");
            },
            EquityScreener::OperatingIncome => {
                reveal_strlit("operatingincome.lasttwelvemonths");
            },
            EquityScreener::GrossProfit => {
                reveal_strlit("grossprofit.lasttwelvemonths");
            },
            EquityScreener::EBITDA => {
                reveal_strlit("ebitda.lasttwelvemonths");
            },
            EquityScreener::EPSDilutedContinuingOperations => {
                reveal_strlit("dilutedepscontinuingoperations.lasttwelvemonths");
            },
            EquityScreener::EBIT => {
                reveal_strlit("ebit.lasttwelvemonths");
            },
            EquityScreener::BookValuePerShare => {
                reveal_strlit("bookvalueshare.lasttwelvemonths");
            },
            EquityScreener::TotalSharesOutstanding => {
                reveal_strlit("totalsharesoutstanding");
            },
            EquityScreener::TotalDebt => {
                reveal_strlit("totaldebt.lasttwelvemonths");
            },
            EquityScreener::TotalAssets => {
                reveal_strlit("totalassets.lasttwelvemonths");
            },
            EquityScreener::TotalCashAndShortTermInvestments => {
                reveal_strlit("totalcashandshortterminvestments.lasttwelvemonths");
            },
            EquityScreener::TotalCurrentAssets => {
                reveal_strlit("totalcurrentassets.lasttwelvemonths");
            },
            EquityScreener::TotalEquity => {
                reveal_strlit("totalequity.lasttwelvemonths");
            },
            EquityScreener::TotalCommonSharesOutstanding => {
                reveal_strlit("totalcommonsharesoutstanding.lasttwelvemonths");
            },
            EquityScreener::TotalCurrentLiabilities => {
                reveal_strlit("totalcurrentliabilities.lasttwelvemonths");
            },
            EquityScreener::TotalCommonEquity => {
                reveal_strlit("totalcommonequity.lasttwelvemonths");
            },
            EquityScreener::Yr1PercentChangeInCashFromOperations => {
                reveal_strlit("cashfromoperations1yrgrowth.lasttwelvemonths");
            },
            EquityScreener::UnleveredFreeCashFlow => {
                reveal_strlit("unleveredfreecashflow.lasttwelvemonths");
            },
            EquityScreener::LeveredFreeCashFlow => {
                reveal_strlit("leveredfreecashflow.lasttwelvemonths");
            },
            EquityScreener::Yr1PercentChangeInLeveredFreeCashFlow => {
                reveal_strlit("leveredfreecashflow1yrgrowth.lasttwelvemonths");
            },
            EquityScreener::DividendPerShare => {
                reveal_strlit("dividendpershare.lasttwelvemonths");
            },
            EquityScreener::CapitalExpenditure => {
                reveal_strlit("capitalexpenditure.lasttwelvemonths");
            },
            EquityScreener::ForwardDividendPerShare => {
                reveal_strlit("forward_dividend_per_share");
            },
            EquityScreener::CashFromOperations => {
                reveal_strlit("cashfromoperations.lasttwelvemonths");
            },
            EquityScreener::TotalEnterpriseValueEBITDA => {
                reveal_strlit("lastclosetevebitda.lasttwelvemonths");
            },
            EquityScreener::PriceTangibleBookValue => {
                reveal_strlit("lastclosepricetangiblebookvalue.lasttwelvemonths");
            },
            EquityScreener::TotalEnterpriseValueEBIT => {
                reveal_strlit("lastclosetevebit.lasttwelvemonths");
            },
            EquityScreener::PriceSales => {
                reveal_strlit("lastclosemarketcaptotalrevenue.lasttwelvemonths");
            },
            EquityScreener::TotalEnterpriseValueTotalRevenue => {
                reveal_strlit("lastclosetevtotalrevenue.lasttwelvemonths");
            },
            EquityScreener::PriceBookValue => {
                reveal_strlit("lastclosepricebookvalue.lasttwelvemonths");
            },
            EquityScreener::PriceEarnings => {
                reveal_strlit("lastclosepriceearnings.lasttwelvemonths");
            },
            EquityScreener::PriceEarningsToGrowth => {
                reveal_strlit("pegratio_5y");
            },
            EquityScreener::TrailingPE => {
                reveal_strlit("peratio.lasttwelvemonths");
            },
            EquityScreener::PBMostRecentQuarterToMRQ => {
                reveal_strlit("pricebookratio.quarterly");
            },
            EquityScreener::EnvironmentalScore => {
                reveal_strlit("environmental_score");
            },
            EquityScreener::ESGScore => {
                reveal_strlit("esg_score");
            },
            EquityScreener::GovernanceScore => {
                reveal_strlit("governance_score");
            },
            EquityScreener::SocialScore => {
                reveal_strlit("social_score");
            },
            EquityScreener::HighestControversy => {
                reveal_strlit("highest_controversy");
            },
            EquityScreener::PercentOfSharesOutstandingHeldByInsiders => {
                reveal_strlit("pctheldinsider");
            },
            EquityScreener::PercentOfSharesOutstandingHeldByInstitutions => {
                reveal_strlit("pctheldinst");
            },
        }
    }

    /// Parsing the key of a value gives back that value.
    pub proof fn lemma_key_round_trip(a: EquityScreener, b: EquityScreener)
        requires
            a.spec_key() == b.spec_key(),
        ensures
            a == b,
    {
        Self::lemma_decode_key(a);
        Self::lemma_decode_key(b);
    }
}

impl EquityScreener {
    /// What `validate_value` gives for `value` on this field.
    pub open spec fn spec_validate(self, value: Seq<char>) -> Result<Seq<char>, Seq<char>> {
        match self {
            EquityScreener::Exchange => spec_validate_key::<Exchange>("Exchange"@, value),
            EquityScreener::Region => spec_validate_key::<Region>("Region"@, value),
            EquityScreener::Sector => spec_validate_key::<Sector>("Sector"@, value),
            EquityScreener::Industry => spec_validate_key::<Industry>("Industry"@, value),
            EquityScreener::PeerGroup => spec_validate_key::<PeerGroup>("PeerGroup"@, value),
            _ => Ok(value),
        }
    }

    /// The metadata table of all equity screener fields.
    pub fn metrics(data: &ScreenerData) -> (r: &MetricTable)
        ensures
            *r == data.equity,
    {
        &data.equity
    }

    /// The metadata of this field; the table must describe it.
    pub fn metadata<'a>(&self, data: &'a ScreenerData) -> (r: &'a FieldMetadata)
        requires
            data.equity.spec_has(self.spec_key()),
        ensures
            data.equity.spec_lookup(self.spec_key()) == Some(*r),
    {
        data.equity.entry(self.as_str())
    }

    /// The display name of this field; the table must describe it.
    pub fn name<'a>(&self, data: &'a ScreenerData) -> (r: &'a str)
        requires
            data.equity.spec_has(self.spec_key()),
        ensures
            r@ == data.equity.spec_lookup(self.spec_key())->0.name@,
    {
        self.metadata(data).name.as_str()
    }

    /// The description of this field; the table must describe it.
    pub fn description<'a>(&self, data: &'a ScreenerData) -> (r: &'a str)
        requires
            data.equity.spec_has(self.spec_key()),
        ensures
            r@ == data.equity.spec_lookup(self.spec_key())->0.description@,
    {
        self.metadata(data).description.as_str()
    }

    /// The data type of this field; the table must describe it.
    pub fn data_type<'a>(&self, data: &'a ScreenerData) -> (r: &'a str)
        requires
            data.equity.spec_has(self.spec_key()),
        ensures
            r@ == data.equity.spec_lookup(self.spec_key())->0.data_type@,
    {
        self.metadata(data).data_type.as_str()
    }

    /// The unit of this field; the table must describe it.
    pub fn unit<'a>(&self, data: &'a ScreenerData) -> (r: &'a str)
        requires
            data.equity.spec_has(self.spec_key()),
        ensures
            r@ == data.equity.spec_lookup(self.spec_key())->0.unit@,
    {
        self.metadata(data).unit.as_str()
    }

    /// Checks a value given for this field: fields that name a key of the
    /// vocabulary accept only such keys; other fields accept any value.
    pub fn validate_value(&self, value: &str) -> (r: Result<String, String>)
        ensures
            result_view(r) == self.spec_validate(value@),
    {
        match self {
            EquityScreener::Exchange => validate_enum_value::<Exchange>("Exchange", value),
            EquityScreener::Region => validate_enum_value::<Region>("Region", value),
            EquityScreener::Sector => validate_enum_value::<Sector>("Sector", value),
            EquityScreener::Industry => validate_enum_value::<Industry>("Industry", value),
            EquityScreener::PeerGroup => validate_enum_value::<PeerGroup>("PeerGroup", value),
            _ => Ok(owned(value)),
        }
    }
}

/// A field that mutual fund screener queries can filter and sort on.
#[derive(Debug, Clone, Copy, PartialEq, Eq, Structural, Hash)]
pub enum MutualFundScreener {
    FundsByCategory,
    FundsByCompany,
    FundNetAssets,
    PriceEndOfDay,
    PriceIntraday,
    Change,
    PercentChange,
    Region,
    Symbol,
    Exchange,
    Sector,
    InitialInvestment,
    MarketCapitalValueLong,
    Week52PricePercentChange,
    AnnualReturnNAVYear1,
    AnnualReturnNAVYear3,
    AnnualReturnNAVYear5,
    AnnualReturnNAVYear1CategoryRank,
    QuarterEndTrailingReturnYTD,
    Trailing3MReturn,
    TrailingYTDReturn,
    AnnualReportNetExpenseRatio,
    TurnoverRatio,
    AnnualReportGrossExpenseRatio,
    MorningstarPerformanceRatingOverall,
    MorningstarRiskRatingOverall,
    Day200MovingAverage,
    Day50MovingAverage,
}

impl MutualFundScreener {
    /// The field name used in screener queries.
    pub open spec fn spec_key(self) -> Seq<char> {
        match self {
            MutualFundScreener::FundsByCategory => "categoryname"@,
            MutualFundScreener::FundsByCompany => "fundfamilyname"@,
            MutualFundScreener::FundNetAssets => "fundnetassets"@,
            MutualFundScreener::PriceEndOfDay => "eodprice"@,
            MutualFundScreener::PriceIntraday => "intradayprice"@,
            MutualFundScreener::Change => "intradaypricechange"@,
            MutualFundScreener::PercentChange => "percentchange"@,
            MutualFundScreener::Region => "region"@,
            MutualFundScreener::Symbol => "ticker"@,
            MutualFundScreener::Exchange => "exchange"@,
            MutualFundScreener::Sector => "primary_sector"@,
            MutualFundScreener::InitialInvestment => "initialinvestment"@,
            MutualFundScreener::MarketCapitalValueLong => "marketcapitalvaluelong"@,
            MutualFundScreener::Week52PricePercentChange => "fiftytwowkpercentchange"@,
            MutualFundScreener::AnnualReturnNAVYear1 => "annualreturnnavy1"@,
            MutualFundScreener::AnnualReturnNAVYear3 => "annualreturnnavy3"@,
            MutualFundScreener::AnnualReturnNAVYear5 => "annualreturnnavy5"@,
            MutualFundScreener::AnnualReturnNAVYear1CategoryRank => "annualreturnnavy1categoryrank"@,
            MutualFundScreener::QuarterEndTrailingReturnYTD => "quarterendtrailingreturnytd"@,
            MutualFundScreener::Trailing3MReturn => "trailing_3m_return"@,
            MutualFundScreener::TrailingYTDReturn => "trailing_ytd_return"@,
            MutualFundScreener::AnnualReportNetExpenseRatio => "annualreportnetexpenseratio"@,
            MutualFundScreener::TurnoverRatio => "turnoverratio"@,
            MutualFundScreener::AnnualReportGrossExpenseRatio => "annualreportgrossexpenseratio"@,
            MutualFundScreener::MorningstarPerformanceRatingOverall => "performanceratingoverall"@,
            MutualFundScreener::MorningstarRiskRatingOverall => "riskratingoverall"@,
            MutualFundScreener::Day200MovingAverage => "twohundreddaymovingavg"@,
            MutualFundScreener::Day50MovingAverage => "fiftydaymovingavg"@,
        }
    }

    /// Every value, in declaration order.
    pub open spec fn spec_all() -> Seq<MutualFundScreener> {
        seq![
            MutualFundScreener::FundsByCategory, MutualFundScreener::FundsByCompany,
            MutualFundScreener::FundNetAssets, MutualFundScreener::PriceEndOfDay,
            MutualFundScreener::PriceIntraday, MutualFundScreener::Change,
            MutualFundScreener::PercentChange, MutualFundScreener::Region,
            MutualFundScreener::Symbol, MutualFundScreener::Exchange, MutualFundScreener::Sector,
            MutualFundScreener::InitialInvestment, MutualFundScreener::MarketCapitalValueLong,
            MutualFundScreener::Week52PricePercentChange, MutualFundScreener::AnnualReturnNAVYear1,
            MutualFundScreener::AnnualReturnNAVYear3, MutualFundScreener::AnnualReturnNAVYear5,
            MutualFundScreener::AnnualReturnNAVYear1CategoryRank,
            MutualFundScreener::QuarterEndTrailingReturnYTD, MutualFundScreener::Trailing3MReturn,
            MutualFundScreener::TrailingYTDReturn, MutualFundScreener::AnnualReportNetExpenseRatio,
            MutualFundScreener::TurnoverRatio, MutualFundScreener::AnnualReportGrossExpenseRatio,
            MutualFundScreener::MorningstarPerformanceRatingOverall,
            MutualFundScreener::MorningstarRiskRatingOverall,
            MutualFundScreener::Day200MovingAverage, MutualFundScreener::Day50MovingAverage,
        ]
    }

    /// The keys of every value, in declaration order.
    pub open spec fn spec_names() -> Seq<Seq<char>> {
        Self::spec_all().map_values(|v: MutualFundScreener| v.spec_key())
    }

    /// Reads a value back from its key by the characters that tell the keys apart.
    pub open spec fn spec_decode(s: Seq<char>) -> Option<MutualFundScreener> {
        if s.len() == 6 {
            if s[0] == 'r' {
                Some(MutualFundScreener::Region)
            } else if s[0] == 't' {
                Some(MutualFundScreener::Symbol)
            } else {
                None
            }
        } else if s.len() == 8 {
            if s[1] == 'o' {
                Some(MutualFundScreener::PriceEndOfDay)
            } else if s[1] == 'x' {
                Some(MutualFundScreener::Exchange)
            } else {
                None
            }
        } else if s.len() == 12 {
            Some(MutualFundScreener::FundsByCategory)
        } else if s.len() == 13 {
            if s[0] == 'f' {
                Some(MutualFundScreener::FundNetAssets)
            } else if s[0] == 'i' {
                Some(MutualFundScreener::PriceIntraday)
            } else if s[0] == 'p' {
                Some(MutualFundScreener::PercentChange)
            } else if s[0] == 't' {
                Some(MutualFundScreener::TurnoverRatio)
            } else {
                None
            }
        } else if s.len() == 14 {
            if s[0] == 'f' {
                Some(MutualFundScreener::FundsByCompany)
            } else if s[0] == 'p' {
                Some(MutualFundScreener::Sector)
            } else {
                None
            }
        } else if s.len() == 17 {
            if s[16] == '1' {
                Some(MutualFundScreener::AnnualReturnNAVYear1)
            } else if s[16] == '3' {
                Some(MutualFundScreener::AnnualReturnNAVYear3)
            } else if s[16] == '5' {
                Some(MutualFundScreener::AnnualReturnNAVYear5)
            } else if s[16] == 'g' {
                Some(MutualFundScreener::Day50MovingAverage)
            } else if s[16] == 'l' {
                Some(MutualFundScreener::MorningstarRiskRatingOverall)
            } else if s[16] == 't' {
                Some(MutualFundScreener::InitialInvestment)
            } else {
                None
            }
        } else if s.len() == 18 {
            Some(MutualFundScreener::Trailing3MReturn)
        } else if s.len() == 19 {
            if s[0] == 'i' {
                Some(MutualFundScreener::Change)
            } else if s[0] == 't' {
                Some(MutualFundScreener::TrailingYTDReturn)
            } else {
                None
            }
        } else if s.len() == 22 {
            if s[0] == 'm' {
                Some(MutualFundScreener::MarketCapitalValueLong)
            } else if s[0] == 't' {
                Some(MutualFundScreener::Day200MovingAverage)
            } else {
                None
            }
        } else if s.len() == 23 {
            Some(MutualFundScreener::Week52PricePercentChange)
        } else if s.len() == 24 {
            Some(MutualFundScreener::MorningstarPerformanceRatingOverall)
        } else if s.len() == 27 {
            if s[0] == 'a' {
                Some(MutualFundScreener::AnnualReportNetExpenseRatio)
            } else if s[0] == 'q' {
                Some(MutualFundScreener::QuarterEndTrailingReturnYTD)
            } else {
                None
            }
        } else if s.len() == 29 {
            if s[8] == 'p' {
                Some(MutualFundScreener::AnnualReportGrossExpenseRatio)
            } else if s[8] == 't' {
                Some(MutualFundScreener::AnnualReturnNAVYear1CategoryRank)
            } else {
                None
            }
        } else {
            None
        }
    }

    /// The key of this value.
    pub fn as_str(&self) -> (s: &'static str)
        ensures
            s@ == self.spec_key(),
    {
        match self {
            MutualFundScreener::FundsByCategory => "categoryname",
            MutualFundScreener::FundsByCompany => "fundfamilyname",
            MutualFundScreener::FundNetAssets => "fundnetassets",
            MutualFundScreener::PriceEndOfDay => "eodprice",
            MutualFundScreener::PriceIntraday => "intradayprice",
            MutualFundScreener::Change => "intradaypricechange",
            MutualFundScreener::PercentChange => "percentchange",
            MutualFundScreener::Region => "region",
            MutualFundScreener::Symbol => "ticker",
            MutualFundScreener::Exchange => "exchange",
            MutualFundScreener::Sector => "primary_sector",
            MutualFundScreener::InitialInvestment => "initialinvestment",
            MutualFundScreener::MarketCapitalValueLong => "marketcapitalvaluelong",
            MutualFundScreener::Week52PricePercentChange => "fiftytwowkpercentchange",
            MutualFundScreener::AnnualReturnNAVYear1 => "annualreturnnavy1",
            MutualFundScreener::AnnualReturnNAVYear3 => "annualreturnnavy3",
            MutualFundScreener::AnnualReturnNAVYear5 => "annualreturnnavy5",
            MutualFundScreener::AnnualReturnNAVYear1CategoryRank => "annualreturnnavy1categoryrank",
            MutualFundScreener::QuarterEndTrailingReturnYTD => "quarterendtrailingreturnytd",
            MutualFundScreener::Trailing3MReturn => "trailing_3m_return",
            MutualFundScreener::TrailingYTDReturn => "trailing_ytd_return",
            MutualFundScreener::AnnualReportNetExpenseRatio => "annualreportnetexpenseratio",
            MutualFundScreener::TurnoverRatio => "turnoverratio",
            MutualFundScreener::AnnualReportGrossExpenseRatio => "annualreportgrossexpenseratio",
            MutualFundScreener::MorningstarPerformanceRatingOverall => "performanceratingoverall",
            MutualFundScreener::MorningstarRiskRatingOverall => "riskratingoverall",
            MutualFundScreener::Day200MovingAverage => "twohundreddaymovingavg",
            MutualFundScreener::Day50MovingAverage => "fiftydaymovingavg",
        }
    }

    /// The key of this value as an owned string.
    pub fn to_string(&self) -> (s: String)
        ensures
            s@ == self.spec_key(),
    {
        owned(self.as_str())
    }

    /// Parses a key: the value whose key is `s`, and `None` when there is none.
    pub fn from_str(s: &str) -> (r: Option<MutualFundScreener>)
        ensures
            forall|v: MutualFundScreener| #[trigger] v.spec_key() == s@ <==> r == Some(v),
    {
        let r = Self::find(s);
        proof {
            assert forall|v: MutualFundScreener| #[trigger] v.spec_key() == s@ implies r == Some(v) by {
                Self::lemma_key_round_trip(v, r->0);
            }
        }
        r
    }

    /// Tries the keys in declaration order.
    fn find(s: &str) -> (r: Option<MutualFundScreener>)
        ensures
            r matches Some(v) ==> v.spec_key() == s@,
            r is None ==> forall|v: MutualFundScreener| #[trigger] v.spec_key() != s@,
    {
        if str_eq(s, "categoryname") {
            return Some(MutualFundScreener::FundsByCategory);
        }
        if str_eq(s, "fundfamilyname") {
            return Some(MutualFundScreener::FundsByCompany);
        }
        if str_eq(s, "fundnetassets") {
            return Some(MutualFundScreener::FundNetAssets);
        }
        if str_eq(s, "eodprice") {
            return Some(MutualFundScreener::PriceEndOfDay);
        }
        if str_eq(s, "intradayprice") {
            return Some(MutualFundScreener::PriceIntraday);
        }
        if str_eq(s, "intradaypricechange") {
            return Some(MutualFundScreener::Change);
        }
        if str_eq(s, "percentchange") {
            return Some(MutualFundScreener::PercentChange);
        }
        if str_eq(s, "region") {
            return Some(MutualFundScreener::Region);
        }
        if str_eq(s, "ticker") {
            return Some(MutualFundScreener::Symbol);
        }
        if str_eq(s, "exchange") {
            return Some(MutualFundScreener::Exchange);
        }
        if str_eq(s, "primary_sector") {
            return Some(MutualFundScreener::Sector);
        }
        if str_eq(s, "initialinvestment") {
            return Some(MutualFundScreener::InitialInvestment);
        }
        if str_eq(s, "marketcapitalvaluelong") {
            return Some(MutualFundScreener::MarketCapitalValueLong);
        }
        if str_eq(s, "fiftytwowkpercentchange") {
            return Some(MutualFundScreener::Week52PricePercentChange);
        }
        if str_eq(s, "annualreturnnavy1") {
            return Some(MutualFundScreener::AnnualReturnNAVYear1);
        }
        if str_eq(s, "annualreturnnavy3") {
            return Some(MutualFundScreener::AnnualReturnNAVYear3);
        }
        if str_eq(s, "annualreturnnavy5") {
            return Some(MutualFundScreener::AnnualReturnNAVYear5);
        }
        if str_eq(s, "annualreturnnavy1categoryrank") {
            return Some(MutualFundScreener::AnnualReturnNAVYear1CategoryRank);
        }
        if str_eq(s, "quarterendtrailingreturnytd") {
            return Some(MutualFundScreener::QuarterEndTrailingReturnYTD);
        }
        if str_eq(s, "trailing_3m_return") {
            return Some(MutualFundScreener::Trailing3MReturn);
        }
        if str_eq(s, "trailing_ytd_return") {
            return Some(MutualFundScreener::TrailingYTDReturn);
        }
        if str_eq(s, "annualreportnetexpenseratio") {
            return Some(MutualFundScreener::AnnualReportNetExpenseRatio);
        }
        if str_eq(s, "turnoverratio") {
            return Some(MutualFundScreener::TurnoverRatio);
        }
        if str_eq(s, "annualreportgrossexpenseratio") {
            return Some(MutualFundScreener::AnnualReportGrossExpenseRatio);
        }
        if str_eq(s, "performanceratingoverall") {
            return Some(MutualFundScreener::MorningstarPerformanceRatingOverall);
        }
        if str_eq(s, "riskratingoverall") {
            return Some(MutualFundScreener::MorningstarRiskRatingOverall);
        }
        if str_eq(s, "twohundreddaymovingavg") {
            return Some(MutualFundScreener::Day200MovingAverage);
        }
        if str_eq(s, "fiftydaymovingavg") {
            return Some(MutualFundScreener::Day50MovingAverage);
        }
        None
    }

    /// Every value, in declaration order.
    pub fn variants() -> (r: Vec<MutualFundScreener>)
        ensures
            r@ == Self::spec_all(),
    {
        let r = vec![
            MutualFundScreener::FundsByCategory, MutualFundScreener::FundsByCompany,
            MutualFundScreener::FundNetAssets, MutualFundScreener::PriceEndOfDay,
            MutualFundScreener::PriceIntraday, MutualFundScreener::Change,
            MutualFundScreener::PercentChange, MutualFundScreener::Region,
            MutualFundScreener::Symbol, MutualFundScreener::Exchange, MutualFundScreener::Sector,
            MutualFundScreener::InitialInvestment, MutualFundScreener::MarketCapitalValueLong,
            MutualFundScreener::Week52PricePercentChange, MutualFundScreener::AnnualReturnNAVYear1,
            MutualFundScreener::AnnualReturnNAVYear3, MutualFundScreener::AnnualReturnNAVYear5,
            MutualFundScreener::AnnualReturnNAVYear1CategoryRank,
            MutualFundScreener::QuarterEndTrailingReturnYTD, MutualFundScreener::Trailing3MReturn,
            MutualFundScreener::TrailingYTDReturn, MutualFundScreener::AnnualReportNetExpenseRatio,
            MutualFundScreener::TurnoverRatio, MutualFundScreener::AnnualReportGrossExpenseRatio,
            MutualFundScreener::MorningstarPerformanceRatingOverall,
            MutualFundScreener::MorningstarRiskRatingOverall,
            MutualFundScreener::Day200MovingAverage, MutualFundScreener::Day50MovingAverage,
        ];
        assert(r@ =~= Self::spec_all());
        r
    }

    /// The keys of every value, in declaration order.
    pub fn variant_names() -> (r: Vec<&'static str>)
        ensures
            strs_view(r@) == Self::spec_names(),
    {
        let r = vec![
            "categoryname", "fundfamilyname", "fundnetassets", "eodprice", "intradayprice",
            "intradaypricechange", "percentchange", "region", "ticker", "exchange",
            "primary_sector", "initialinvestment", "marketcapitalvaluelong",
            "fiftytwowkpercentchange", "annualreturnnavy1", "annualreturnnavy3",
            "annualreturnnavy5", "annualreturnnavy1categoryrank", "quarterendtrailingreturnytd",
            "trailing_3m_return", "trailing_ytd_return", "annualreportnetexpenseratio",
            "turnoverratio", "annualreportgrossexpenseratio", "performanceratingoverall",
            "riskratingoverall", "twohundreddaymovingavg", "fiftydaymovingavg",
        ];
        assert(strs_view(r@) =~= Self::spec_names());
        r
    }

    /// Distinct values have distinct keys: the key of a value decodes to that value.
    pub proof fn lemma_decode_key(v: MutualFundScreener)
        ensures
            Self::spec_decode(v.spec_key()) == Some(v),
    {
        match v {
            MutualFundScreener::FundsByCategory => {
                reveal_strlit("categoryname");
            },
            MutualFundScreener::FundsByCompany => {
                reveal_strlit("fundfamilyname");
            },
            MutualFundScreener::FundNetAssets => {
                reveal_strlit("fundnetassets");
            },
            MutualFundScreener::PriceEndOfDay => {
                reveal_strlit("eodprice");
            },
            MutualFundScreener::PriceIntraday => {
                reveal_strlit("intradayprice");
            },
            MutualFundScreener::Change => {
                reveal_strlit("intradaypricechange");
            },
            MutualFundScreener::PercentChange => {
                reveal_strlit("percentchange");
            },
            MutualFundScreener::Region => {
                reveal_strlit("region");
            },
            MutualFundScreener::Symbol => {
                reveal_strlit("ticker");
            },
            MutualFundScreener::Exchange => {
                reveal_strlit("exchange");
            },
            MutualFundScreener::Sector => {
                reveal_strlit("primary_sector");
            },
            MutualFundScreener::InitialInvestment => {
                reveal_strlit("initialinvestment");
            },
            MutualFundScreener::MarketCapitalValueLong => {
                reveal_strlit("marketcapitalvaluelong");
            },
            MutualFundScreener::Week52PricePercentChange => {
                reveal_strlit("fiftytwowkpercentchange");
            },
            MutualFundScreener::AnnualReturnNAVYear1 => {
                reveal_strlit("annualreturnnavy1");
            },
            MutualFundScreener::AnnualReturnNAVYear3 => {
                reveal_strlit("annualreturnnavy3");
            },
            MutualFundScreener::AnnualReturnNAVYear5 => {
                reveal_strlit("annualreturnnavy5");
            },
            MutualFundScreener::AnnualReturnNAVYear1CategoryRank => {
                reveal_strlit("annualreturnnavy1categoryrank");
            },
            MutualFundScreener::QuarterEndTrailingReturnYTD => {
                reveal_strlit("quarterendtrailingreturnytd");
            },
            MutualFundScreener::Trailing3MReturn => {
                reveal_strlit("trailing_3m_return");
            },
            MutualFundScreener::TrailingYTDReturn => {
                reveal_strlit("trailing_ytd_return");
            },
            MutualFundScreener::AnnualReportNetExpenseRatio => {
                reveal_strlit("annualreportnetexpenseratio");
            },
            MutualFundScreener::TurnoverRatio => {
                reveal_strlit("turnoverratio");
            },
            MutualFundScreener::AnnualReportGrossExpenseRatio => {
                reveal_strlit("annualreportgrossexpenseratio");
            },
            MutualFundScreener::MorningstarPerformanceRatingOverall => {
                reveal_strlit("performanceratingoverall");
            },
            MutualFundScreener::MorningstarRiskRatingOverall => {
                reveal_strlit("riskratingoverall");
            },
            MutualFundScreener::Day200MovingAverage => {
                reveal_strlit("twohundreddaymovingavg");
            },
            MutualFundScreener::Day50MovingAverage => {
                reveal_strlit("fiftydaymovingavg");
            },
        }
    }

    /// Parsing the key of a value gives back that value.
    pub proof fn lemma_key_round_trip(a: MutualFundScreener, b: MutualFundScreener)
        requires
            a.spec_key() == b.spec_key(),
        ensures
            a == b,
    {
        Self::lemma_decode_key(a);
        Self::lemma_decode_key(b);
    }
}

impl MutualFundScreener {
    /// What `validate_value` gives for `value` on this field.
    pub open spec fn spec_validate(self, value: Seq<char>) -> Result<Seq<char>, Seq<char>> {
        match self {
            MutualFundScreener::Exchange => spec_validate_key::<Exchange>("Exchange"@, value),
            MutualFundScreener::Region => spec_validate_key::<Region>("Region"@, value),
            MutualFundScreener::FundsByCompany => spec_validate_key::<FundFamily>("FundFamily"@, value),
            MutualFundScreener::FundsByCategory => spec_validate_key::<FundCategory>("FundCategory"@, value),
            _ => Ok(value),
        }
    }

    /// The metadata table of all mutual fund screener fields.
    pub fn metrics(data: &ScreenerData) -> (r: &MetricTable)
        ensures
            *r == data.mutualfund,
    {
        &data.mutualfund
    }

    /// The metadata of this field; the table must describe it.
    pub fn metadata<'a>(&self, data: &'a ScreenerData) -> (r: &'a FieldMetadata)
        requires
            data.mutualfund.spec_has(self.spec_key()),
        ensures
            data.mutualfund.spec_lookup(self.spec_key()) == Some(*r),
    {
        data.mutualfund.entry(self.as_str())
    }

    /// The display name of this field; the table must describe it.
    pub fn name<'a>(&self, data: &'a ScreenerData) -> (r: &'a str)
        requires
            data.mutualfund.spec_has(self.spec_key()),
        ensures
            r@ == data.mutualfund.spec_lookup(self.spec_key())->0.name@,
    {
        self.metadata(data).name.as_str()
    }

    /// The description of this field; the table must describe it.
    pub fn description<'a>(&self, data: &'a ScreenerData) -> (r: &'a str)
        requires
            data.mutualfund.spec_has(self.spec_key()),
        ensures
            r@ == data.mutualfund.spec_lookup(self.spec_key())->0.description@,
    {
        self.metadata(data).description.as_str()
    }

    /// The data type of this field; the table must describe it.
    pub fn data_type<'a>(&self, data: &'a ScreenerData) -> (r: &'a str)
        requires
            data.mutualfund.spec_has(self.spec_key()),
        ensures
            r@ == data.mutualfund.spec_lookup(self.spec_key())->0.data_type@,
    {
        self.metadata(data).data_type.as_str()
    }

    /// The unit of this field; the table must describe it.
    pub fn unit<'a>(&self, data: &'a ScreenerData) -> (r: &'a str)
        requires
            data.mutualfund.spec_has(self.spec_key()),
        ensures
            r@ == data.mutualfund.spec_lookup(self.spec_key())->0.unit@,
    {
        self.metadata(data).unit.as_str()
    }

    /// Checks a value given for this field: fields that name a key of the
    /// vocabulary accept only such keys; other fields accept any value.
    pub fn validate_value(&self, value: &str) -> (r: Result<String, String>)
        ensures
            result_view(r) == self.spec_validate(value@),
    {
        match self {
            MutualFundScreener::Exchange => validate_enum_value::<Exchange>("Exchange", value),
            MutualFundScreener::Region => validate_enum_value::<Region>("Region", value),
            MutualFundScreener::FundsByCompany => validate_enum_value::<FundFamily>("FundFamily", value),
            MutualFundScreener::FundsByCategory => validate_enum_value::<FundCategory>("FundCategory", value),
            _ => Ok(owned(value)),
        }
    }
}

/// A field that ETF screener queries can filter and sort on.
#[derive(Debug, Clone, Copy, PartialEq, Eq, Structural, Hash)]
pub enum EtfScreener {
    FundsByCategory,
    FundsByCompany,
    FundNetAssets,
    PriceEndOfDay,
    PriceIntraday,
    Change,
    PercentChange,
    Region,
    Symbol,
    Exchange,
    Sector,
    InitialInvestment,
    MarketCapitalValueLong,
    Volume,
    VolumeEndOfDay,
    AvgVol3Month,
    Week52PricePercentChange,
    AnnualReturnNAVYear1,
    AnnualReturnNAVYear3,
    AnnualReturnNAVYear5,
    AnnualReturnNAVYear1CategoryRank,
    Trailing3MReturn,
    QuarterEndTrailingReturnYTD,
    TrailingYTDReturn,
    AnnualReportGrossExpenseRatio,
    AnnualReportNetExpenseRatio,
    TurnoverRatio,
    MorningstarPerformanceRatingOverall,
    MorningstarRiskRatingOverall,
}

impl EtfScreener {
    /// The field name used in screener queries.
    pub open spec fn spec_key(self) -> Seq<char> {
        match self {
            EtfScreener::FundsByCategory => "categoryname"@,
            EtfScreener::FundsByCompany => "fundfamilyname"@,
            EtfScreener::FundNetAssets => "fundnetassets"@,
            EtfScreener::PriceEndOfDay => "eodprice"@,
            EtfScreener::PriceIntraday => "intradayprice"@,
            EtfScreener::Change => "intradaypricechange"@,
            EtfScreener::PercentChange => "percentchange"@,
            EtfScreener::Region => "region"@,
            EtfScreener::Symbol => "ticker"@,
            EtfScreener::Exchange => "exchange"@,
            EtfScreener::Sector => "primary_sector"@,
            EtfScreener::InitialInvestment => "initialinvestment"@,
            EtfScreener::MarketCapitalValueLong => "marketcapitalvaluelong"@,
            EtfScreener::Volume => "dayvolume"@,
            EtfScreener::VolumeEndOfDay => "eodvolume"@,
            EtfScreener::AvgVol3Month => "avgdailyvol3m"@,
            EtfScreener::Week52PricePercentChange => "fiftytwowkpercentchange"@,
            EtfScreener::AnnualReturnNAVYear1 => "annualreturnnavy1"@,
            EtfScreener::AnnualReturnNAVYear3 => "annualreturnnavy3"@,
            EtfScreener::AnnualReturnNAVYear5 => "annualreturnnavy5"@,
            EtfScreener::AnnualReturnNAVYear1CategoryRank => "annualreturnnavy1categoryrank"@,
            EtfScreener::Trailing3MReturn => "trailing_3m_return"@,
            EtfScreener::QuarterEndTrailingReturnYTD => "quarterendtrailingreturnytd"@,
            EtfScreener::TrailingYTDReturn => "trailing_ytd_return"@,
            EtfScreener::AnnualReportGrossExpenseRatio => "annualreportgrossexpenseratio"@,
            EtfScreener::AnnualReportNetExpenseRatio => "annualreportnetexpenseratio"@,
            EtfScreener::TurnoverRatio => "turnoverratio"@,
            EtfScreener::MorningstarPerformanceRatingOverall => "performanceratingoverall"@,
            EtfScreener::MorningstarRiskRatingOverall => "riskratingoverall"@,
        }
    }

    /// Every value, in declaration order.
    pub open spec fn spec_all() -> Seq<EtfScreener> {
        seq![
            EtfScreener::FundsByCategory, EtfScreener::FundsByCompany, EtfScreener::FundNetAssets,
            EtfScreener::PriceEndOfDay, EtfScreener::PriceIntraday, EtfScreener::Change,
            EtfScreener::PercentChange, EtfScreener::Region, EtfScreener::Symbol,
            EtfScreener::Exchange, EtfScreener::Sector, EtfScreener::InitialInvestment,
            EtfScreener::MarketCapitalValueLong, EtfScreener::Volume, EtfScreener::VolumeEndOfDay,
            EtfScreener::AvgVol3Month, EtfScreener::Week52PricePercentChange,
            EtfScreener::AnnualReturnNAVYear1, EtfScreener::AnnualReturnNAVYear3,
            EtfScreener::AnnualReturnNAVYear5, EtfScreener::AnnualReturnNAVYear1CategoryRank,
            EtfScreener::Trailing3MReturn, EtfScreener::QuarterEndTrailingReturnYTD,
            EtfScreener::TrailingYTDReturn, EtfScreener::AnnualReportGrossExpenseRatio,
            EtfScreener::AnnualReportNetExpenseRatio, EtfScreener::TurnoverRatio,
            EtfScreener::MorningstarPerformanceRatingOverall,
            EtfScreener::MorningstarRiskRatingOverall,
        ]
    }

    /// The keys of every value, in declaration order.
    pub open spec fn spec_names() -> Seq<Seq<char>> {
        Self::spec_all().map_values(|v: EtfScreener| v.spec_key())
    }

    /// Reads a value back from its key by the characters that tell the keys apart.
    pub open spec fn spec_decode(s: Seq<char>) -> Option<EtfScreener> {
        if s.len() == 6 {
            if s[0] == 'r' {
                Some(EtfScreener::Region)
            } else if s[0] == 't' {
                Some(EtfScreener::Symbol)
            } else {
                None
            }
        } else if s.len() == 8 {
            if s[1] == 'o' {
                Some(EtfScreener::PriceEndOfDay)
            } else if s[1] == 'x' {
                Some(EtfScreener::Exchange)
            } else {
                None
            }
        } else if s.len() == 9 {
            if s[0] == 'd' {
                Some(EtfScreener::Volume)
            } else if s[0] == 'e' {
                Some(EtfScreener::VolumeEndOfDay)
            } else {
                None
            }
        } else if s.len() == 12 {
            Some(EtfScreener::FundsByCategory)
        } else if s.len() == 13 {
            if s[0] == 'a' {
                Some(EtfScreener::AvgVol3Month)
            } else if s[0] == 'f' {
                Some(EtfScreener::FundNetAssets)
            } else if s[0] == 'i' {
                Some(EtfScreener::PriceIntraday)
            } else if s[0] == 'p' {
                Some(EtfScreener::PercentChange)
            } else if s[0] == 't' {
                Some(EtfScreener::TurnoverRatio)
            } else {
                None
            }
        } else if s.len() == 14 {
            if s[0] == 'f' {
                Some(EtfScreener::FundsByCompany)
            } else if s[0] == 'p' {
                Some(EtfScreener::Sector)
            } else {
                None
            }
        } else if s.len() == 17 {
            if s[16] == '1' {
                Some(EtfScreener::AnnualReturnNAVYear1)
            } else if s[16] == '3' {
                Some(EtfScreener::AnnualReturnNAVYear3)
            } else if s[16] == '5' {
                Some(EtfScreener::AnnualReturnNAVYear5)
            } else if s[16] == 'l' {
                Some(EtfScreener::MorningstarRiskRatingOverall)
            } else if s[16] == 't' {
                Some(EtfScreener::InitialInvestment)
            } else {
                None
            }
        } else if s.len() == 18 {
            Some(EtfScreener::Trailing3MReturn)
        } else if s.len() == 19 {
            if s[0] == 'i' {
                Some(EtfScreener::Change)
            } else if s[0] == 't' {
                Some(EtfScreener::TrailingYTDReturn)
            } else {
                None
            }
        } else if s.len() == 22 {
            Some(EtfScreener::MarketCapitalValueLong)
        } else if s.len() == 23 {
            Some(EtfScreener::Week52PricePercentChange)
        } else if s.len() == 24 {
            Some(EtfScreener::MorningstarPerformanceRatingOverall)
        } else if s.len() == 27 {
            if s[0] == 'a' {
                Some(EtfScreener::AnnualReportNetExpenseRatio)
            } else if s[0] == 'q' {
                Some(EtfScreener::QuarterEndTrailingReturnYTD)
            } else {
                None
            }
        } else if s.len() == 29 {
            if s[8] == 'p' {
                Some(EtfScreener::AnnualReportGrossExpenseRatio)
            } else if s[8] == 't' {
                Some(EtfScreener::AnnualReturnNAVYear1CategoryRank)
            } else {
                None
            }
        } else {
            None
        }
    }

    /// The key of this value.
    pub fn as_str(&self) -> (s: &'static str)
        ensures
            s@ == self.spec_key(),
    {
        match self {
            EtfScreener::FundsByCategory => "categoryname",
            EtfScreener::FundsByCompany => "fundfamilyname",
            EtfScreener::FundNetAssets => "fundnetassets",
            EtfScreener::PriceEndOfDay => "eodprice",
            EtfScreener::PriceIntraday => "intradayprice",
            EtfScreener::Change => "intradaypricechange",
            EtfScreener::PercentChange => "percentchange",
            EtfScreener::Region => "region",
            EtfScreener::Symbol => "ticker",
            EtfScreener::Exchange => "exchange",
            EtfScreener::Sector => "primary_sector",
            EtfScreener::InitialInvestment => "initialinvestment",
            EtfScreener::MarketCapitalValueLong => "marketcapitalvaluelong",
            EtfScreener::Volume => "dayvolume",
            EtfScreener::VolumeEndOfDay => "eodvolume",
            EtfScreener::AvgVol3Month => "avgdailyvol3m",
            EtfScreener::Week52PricePercentChange => "fiftytwowkpercentchange",
            EtfScreener::AnnualReturnNAVYear1 => "annualreturnnavy1",
            EtfScreener::AnnualReturnNAVYear3 => "annualreturnnavy3",
            EtfScreener::AnnualReturnNAVYear5 => "annualreturnnavy5",
            EtfScreener::AnnualReturnNAVYear1CategoryRank => "annualreturnnavy1categoryrank",
            EtfScreener::Trailing3MReturn => "trailing_3m_return",
            EtfScreener::QuarterEndTrailingReturnYTD => "quarterendtrailingreturnytd",
            EtfScreener::TrailingYTDReturn => "trailing_ytd_return",
            EtfScreener::AnnualReportGrossExpenseRatio => "annualreportgrossexpenseratio",
            EtfScreener::AnnualReportNetExpenseRatio => "annualreportnetexpenseratio",
            EtfScreener::TurnoverRatio => "turnoverratio",
            EtfScreener::MorningstarPerformanceRatingOverall => "performanceratingoverall",
            EtfScreener::MorningstarRiskRatingOverall => "riskratingoverall",
        }
    }

    /// The key of this value as an owned string.
    pub fn to_string(&self) -> (s: String)
        ensures
            s@ == self.spec_key(),
    {
        owned(self.as_str())
    }

    /// Parses a key: the value whose key is `s`, and `None` when there is none.
    pub fn from_str(s: &str) -> (r: Option<EtfScreener>)
        ensures
            forall|v: EtfScreener| #[trigger] v.spec_key() == s@ <==> r == Some(v),
    {
        let r = Self::find(s);
        proof {
            assert forall|v: EtfScreener| #[trigger] v.spec_key() == s@ implies r == Some(v) by {
                Self::lemma_key_round_trip(v, r->0);
            }
        }
        r
    }

    /// Tries the keys in declaration order.
    fn find(s: &str) -> (r: Option<EtfScreener>)
        ensures
            r matches Some(v) ==> v.spec_key() == s@,
            r is None ==> forall|v: EtfScreener| #[trigger] v.spec_key() != s@,
    {
        if str_eq(s, "categoryname") {
            return Some(EtfScreener::FundsByCategory);
        }
        if str_eq(s, "fundfamilyname") {
            return Some(EtfScreener::FundsByCompany);
        }
        if str_eq(s, "fundnetassets") {
            return Some(EtfScreener::FundNetAssets);
        }
        if str_eq(s, "eodprice") {
            return Some(EtfScreener::PriceEndOfDay);
        }
        if str_eq(s, "intradayprice") {
            return Some(EtfScreener::PriceIntraday);
        }
        if str_eq(s, "intradaypricechange") {
            return Some(EtfScreener::Change);
        }
        if str_eq(s, "percentchange") {
            return Some(EtfScreener::PercentChange);
        }
        if str_eq(s, "region") {
            return Some(EtfScreener::Region);
        }
        if str_eq(s, "ticker") {
            return Some(EtfScreener::Symbol);
        }
        if str_eq(s, "exchange") {
            return Some(EtfScreener::Exchange);
        }
        if str_eq(s, "primary_sector") {
            return Some(EtfScreener::Sector);
        }
        if str_eq(s, "initialinvestment") {
            return Some(EtfScreener::InitialInvestment);
        }
        if str_eq(s, "marketcapitalvaluelong") {
            return Some(EtfScreener::MarketCapitalValueLong);
        }
        if str_eq(s, "dayvolume") {
            return Some(EtfScreener::Volume);
        }
        if str_eq(s, "eodvolume") {
            return Some(EtfScreener::VolumeEndOfDay);
        }
        if str_eq(s, "avgdailyvol3m") {
            return Some(EtfScreener::AvgVol3Month);
        }
        if str_eq(s, "fiftytwowkpercentchange") {
            return Some(EtfScreener::Week52PricePercentChange);
        }
        if str_eq(s, "annualreturnnavy1") {
            return Some(EtfScreener::AnnualReturnNAVYear1);
        }
        if str_eq(s, "annualreturnnavy3") {
            return Some(EtfScreener::AnnualReturnNAVYear3);
        }
        if str_eq(s, "annualreturnnavy5") {
            return Some(EtfScreener::AnnualReturnNAVYear5);
        }
        if str_eq(s, "annualreturnnavy1categoryrank") {
            return Some(EtfScreener::AnnualReturnNAVYear1CategoryRank);
        }
        if str_eq(s, "trailing_3m_return") {
            return Some(EtfScreener::Trailing3MReturn);
        }
        if str_eq(s, "quarterendtrailingreturnytd") {
            return Some(EtfScreener::QuarterEndTrailingReturnYTD);
        }
        if str_eq(s, "trailing_ytd_return") {
            return Some(EtfScreener::TrailingYTDReturn);
        }
        if str_eq(s, "annualreportgrossexpenseratio") {
            return Some(EtfScreener::AnnualReportGrossExpenseRatio);
        }
        if str_eq(s, "annualreportnetexpenseratio") {
            return Some(EtfScreener::AnnualReportNetExpenseRatio);
        }
        if str_eq(s, "turnoverratio") {
            return Some(EtfScreener::TurnoverRatio);
        }
        if str_eq(s, "performanceratingoverall") {
            return Some(EtfScreener::MorningstarPerformanceRatingOverall);
        }
        if str_eq(s, "riskratingoverall") {
            return Some(EtfScreener::MorningstarRiskRatingOverall);
        }
        None
    }

    /// Every value, in declaration order.
    pub fn variants() -> (r: Vec<EtfScreener>)
        ensures
            r@ == Self::spec_all(),
    {
        let r = vec![
            EtfScreener::FundsByCategory, EtfScreener::FundsByCompany, EtfScreener::FundNetAssets,
            EtfScreener::PriceEndOfDay, EtfScreener::PriceIntraday, EtfScreener::Change,
            EtfScreener::PercentChange, EtfScreener::Region, EtfScreener::Symbol,
            EtfScreener::Exchange, EtfScreener::Sector, EtfScreener::InitialInvestment,
            EtfScreener::MarketCapitalValueLong, EtfScreener::Volume, EtfScreener::VolumeEndOfDay,
            EtfScreener::AvgVol3Month, EtfScreener::Week52PricePercentChange,
            EtfScreener::AnnualReturnNAVYear1, EtfScreener::AnnualReturnNAVYear3,
            EtfScreener::AnnualReturnNAVYear5, EtfScreener::AnnualReturnNAVYear1CategoryRank,
            EtfScreener::Trailing3MReturn, EtfScreener::QuarterEndTrailingReturnYTD,
            EtfScreener::TrailingYTDReturn, EtfScreener::AnnualReportGrossExpenseRatio,
            EtfScreener::AnnualReportNetExpenseRatio, EtfScreener::TurnoverRatio,
            EtfScreener::MorningstarPerformanceRatingOverall,
            EtfScreener::MorningstarRiskRatingOverall,
        ];
        assert(r@ =~= Self::spec_all());
        r
    }

    /// The keys of every value, in declaration order.
    pub fn variant_names() -> (r: Vec<&'static str>)
        ensures
            strs_view(r@) == Self::spec_names(),
    {
        let r = vec![
            "categoryname", "fundfamilyname", "fundnetassets", "eodprice", "intradayprice",
            "intradaypricechange", "percentchange", "region", "ticker", "exchange",
            "primary_sector", "initialinvestment", "marketcapitalvaluelong", "dayvolume",
            "eodvolume", "avgdailyvol3m", "fiftytwowkpercentchange", "annualreturnnavy1",
            "annualreturnnavy3", "annualreturnnavy5", "annualreturnnavy1categoryrank",
            "trailing_3m_return", "quarterendtrailingreturnytd", "trailing_ytd_return",
            "annualreportgrossexpenseratio", "annualreportnetexpenseratio", "turnoverratio",
            "performanceratingoverall", "riskratingoverall",
        ];
        assert(strs_view(r@) =~= Self::spec_names());
        r
    }

    /// Distinct values have distinct keys: the key of a value decodes to that value.
    pub proof fn lemma_decode_key(v: EtfScreener)
        ensures
            Self::spec_decode(v.spec_key()) == Some(v),
    {
        match v {
            EtfScreener::FundsByCategory => {
                reveal_strlit("categoryname");
            },
            EtfScreener::FundsByCompany => {
                reveal_strlit("fundfamilyname");
            },
            EtfScreener::FundNetAssets => {
                reveal_strlit("fundnetassets");
            },
            EtfScreener::PriceEndOfDay => {
                reveal_strlit("eodprice");
            },
            EtfScreener::PriceIntraday => {
                reveal_strlit("intradayprice");
            },
            EtfScreener::Change => {
                reveal_strlit("intradaypricechange");
            },
            EtfScreener::PercentChange => {
                reveal_strlit("percentchange");
            },
            EtfScreener::Region => {
                reveal_strlit("region");
            },
            EtfScreener::Symbol => {
                reveal_strlit("ticker");
            },
            EtfScreener::Exchange => {
                reveal_strlit("exchange");
            },
            EtfScreener::Sector => {
                reveal_strlit("primary_sector");
            },
            EtfScreener::InitialInvestment => {
                reveal_strlit("initialinvestment");
            },
            EtfScreener::MarketCapitalValueLong => {
                reveal_strlit("marketcapitalvaluelong");
            },
            EtfScreener::Volume => {
                reveal_strlit("dayvolume");
            },
            EtfScreener::VolumeEndOfDay => {
                reveal_strlit("eodvolume");
            },
            EtfScreener::AvgVol3Month => {
                reveal_strlit("avgdailyvol3m");
            },
            EtfScreener::Week52PricePercentChange => {
                reveal_strlit("fiftytwowkpercentchange");
            },
            EtfScreener::AnnualReturnNAVYear1 => {
                reveal_strlit("annualreturnnavy1");
            },
            EtfScreener::AnnualReturnNAVYear3 => {
                reveal_strlit("annualreturnnavy3");
            },
            EtfScreener::AnnualReturnNAVYear5 => {
                reveal_strlit("annualreturnnavy5");
            },
            EtfScreener::AnnualReturnNAVYear1CategoryRank => {
                reveal_strlit("annualreturnnavy1categoryrank");
            },
            EtfScreener::Trailing3MReturn => {
                reveal_strlit("trailing_3m_return");
            },
            EtfScreener::QuarterEndTrailingReturnYTD => {
                reveal_strlit("quarterendtrailingreturnytd");
            },
            EtfScreener::TrailingYTDReturn => {
                reveal_strlit("trailing_ytd_return");
            },
            EtfScreener::AnnualReportGrossExpenseRatio => {
                reveal_strlit("annualreportgrossexpenseratio");
            },
            EtfScreener::AnnualReportNetExpenseRatio => {
                reveal_strlit("annualreportnetexpenseratio");
            },
            EtfScreener::TurnoverRatio => {
                reveal_strlit("turnoverratio");
            },
            EtfScreener::MorningstarPerformanceRatingOverall => {
                reveal_strlit("performanceratingoverall");
            },
            EtfScreener::MorningstarRiskRatingOverall => {
                reveal_strlit("riskratingoverall");
            },
        }
    }

    /// Parsing the key of a value gives back that value.
    pub proof fn lemma_key_round_trip(a: EtfScreener, b: EtfScreener)
        requires
            a.spec_key() == b.spec_key(),
        ensures
            a == b,
    {
        Self::lemma_decode_key(a);
        Self::lemma_decode_key(b);
    }
}

impl EtfScreener {
    /// What `validate_value` gives for `value` on this field.
    pub open spec fn spec_validate(self, value: Seq<char>) -> Result<Seq<char>, Seq<char>> {
        match self {
            EtfScreener::Exchange => spec_validate_key::<Exchange>("Exchange"@, value),
            EtfScreener::Region => spec_validate_key::<Region>("Region"@, value),
            EtfScreener::FundsByCompany => spec_validate_key::<FundFamily>("FundFamily"@, value),
            EtfScreener::FundsByCategory => spec_validate_key::<FundCategory>("FundCategory"@, value),
            _ => Ok(value),
        }
    }

    /// The metadata table of all ETF screener fields.
    pub fn metrics(data: &ScreenerData) -> (r: &MetricTable)
        ensures
            *r == data.etf,
    {
        &data.etf
    }

    /// The metadata of this field; the table must describe it.
    pub fn metadata<'a>(&self, data: &'a ScreenerData) -> (r: &'a FieldMetadata)
        requires
            data.etf.spec_has(self.spec_key()),
        ensures
            data.etf.spec_lookup(self.spec_key()) == Some(*r),
    {
        data.etf.entry(self.as_str())
    }

    /// The display name of this field; the table must describe it.
    pub fn name<'a>(&self, data: &'a ScreenerData) -> (r: &'a str)
        requires
            data.etf.spec_has(self.spec_key()),
        ensures
            r@ == data.etf.spec_lookup(self.spec_key())->0.name@,
    {
        self.metadata(data).name.as_str()
    }

    /// The description of this field; the table must describe it.
    pub fn description<'a>(&self, data: &'a ScreenerData) -> (r: &'a str)
        requires
            data.etf.spec_has(self.spec_key()),
        ensures
            r@ == data.etf.spec_lookup(self.spec_key())->0.description@,
    {
        self.metadata(data).description.as_str()
    }

    /// The data type of this field; the table must describe it.
    pub fn data_type<'a>(&self, data: &'a ScreenerData) -> (r: &'a str)
        requires
            data.etf.spec_has(self.spec_key()),
        ensures
            r@ == data.etf.spec_lookup(self.spec_key())->0.data_type@,
    {
        self.metadata(data).data_type.as_str()
    }

    /// The unit of this field; the table must describe it.
    pub fn unit<'a>(&self, data: &'a ScreenerData) -> (r: &'a str)
        requires
            data.etf.spec_has(self.spec_key()),
        ensures
            r@ == data.etf.spec_lookup(self.spec_key())->0.unit@,
    {
        self.metadata(data).unit.as_str()
    }

    /// Checks a value given for this field: fields that name a key of the
    /// vocabulary accept only such keys; other fields accept any value.
    pub fn validate_value(&self, value: &str) -> (r: Result<String, String>)
        ensures
            result_view(r) == self.spec_validate(value@),
    {
        match self {
            EtfScreener::Exchange => validate_enum_value::<Exchange>("Exchange", value),
            EtfScreener::Region => validate_enum_value::<Region>("Region", value),
            EtfScreener::FundsByCompany => validate_enum_value::<FundFamily>("FundFamily", value),
            EtfScreener::FundsByCategory => validate_enum_value::<FundCategory>("FundCategory", value),
            _ => Ok(owned(value)),
        }
    }
}

/// A field that index screener queries can filter and sort on.
#[derive(Debug, Clone, Copy, PartialEq, Eq, Structural, Hash)]
pub enum IndexScreener {
    PriceEndOfDay,
    PriceIntraday,
    Change,
    PercentChange,
    VolumeEndOfDay,
    Region,
    Symbol,
    Exchange,
    Sector,
    Industry,
    Week52PricePercentChange,
    AvgVol3Month,
}

impl IndexScreener {
    /// The field name used in screener queries.
    pub open spec fn spec_key(self) -> Seq<char> {
        match self {
            IndexScreener::PriceEndOfDay => "eodprice"@,
            IndexScreener::PriceIntraday => "intradayprice"@,
            IndexScreener::Change => "intradaypricechange"@,
            IndexScreener::PercentChange => "percentchange"@,
            IndexScreener::VolumeEndOfDay => "eodvolume"@,
            IndexScreener::Region => "region"@,
            IndexScreener::Symbol => "ticker"@,
            IndexScreener::Exchange => "exchange"@,
            IndexScreener::Sector => "sector"@,
            IndexScreener::Industry => "industry"@,
            IndexScreener::Week52PricePercentChange => "fiftytwowkpercentchange"@,
            IndexScreener::AvgVol3Month => "avgdailyvol3m"@,
        }
    }

    /// Every value, in declaration order.
    pub open spec fn spec_all() -> Seq<IndexScreener> {
        seq![
            IndexScreener::PriceEndOfDay, IndexScreener::PriceIntraday, IndexScreener::Change,
            IndexScreener::PercentChange, IndexScreener::VolumeEndOfDay, IndexScreener::Region,
            IndexScreener::Symbol, IndexScreener::Exchange, IndexScreener::Sector,
            IndexScreener::Industry, IndexScreener::Week52PricePercentChange,
            IndexScreener::AvgVol3Month,
        ]
    }

    /// The keys of every value, in declaration order.
    pub open spec fn spec_names() -> Seq<Seq<char>> {
        Self::spec_all().map_values(|v: IndexScreener| v.spec_key())
    }

    /// Reads a value back from its key by the characters that tell the keys apart.
    pub open spec fn spec_decode(s: Seq<char>) -> Option<IndexScreener> {
        if s.len() == 6 {
            if s[0] == 'r' {
                Some(IndexScreener::Region)
            } else if s[0] == 's' {
                Some(IndexScreener::Sector)
            } else if s[0] == 't' {
                Some(IndexScreener::Symbol)
            } else {
                None
            }
        } else if s.len() == 8 {
            if s[1] == 'n' {
                Some(IndexScreener::Industry)
            } else if s[1] == 'o' {
                Some(IndexScreener::PriceEndOfDay)
            } else if s[1] == 'x' {
                Some(IndexScreener::Exchange)
            } else {
                None
            }
        } else if s.len() == 9 {
            Some(IndexScreener::VolumeEndOfDay)
        } else if s.len() == 13 {
            if s[0] == 'a' {
                Some(IndexScreener::AvgVol3Month)
            } else if s[0] == 'i' {
                Some(IndexScreener::PriceIntraday)
            } else if s[0] == 'p' {
                Some(IndexScreener::PercentChange)
            } else {
                None
            }
        } else if s.len() == 19 {
            Some(IndexScreener::Change)
        } else if s.len() == 23 {
            Some(IndexScreener::Week52PricePercentChange)
        } else {
            None
        }
    }

    /// The key of this value.
    pub fn as_str(&self) -> (s: &'static str)
        ensures
            s@ == self.spec_key(),
    {
        match self {
            IndexScreener::PriceEndOfDay => "eodprice",
            IndexScreener::PriceIntraday => "intradayprice",
            IndexScreener::Change => "intradaypricechange",
            IndexScreener::PercentChange => "percentchange",
            IndexScreener::VolumeEndOfDay => "eodvolume",
            IndexScreener::Region => "region",
            IndexScreener::Symbol => "ticker",
            IndexScreener::Exchange => "exchange",
            IndexScreener::Sector => "sector",
            IndexScreener::Industry => "industry",
            IndexScreener::Week52PricePercentChange => "fiftytwowkpercentchange",
            IndexScreener::AvgVol3Month => "avgdailyvol3m",
        }
    }

    /// The key of this value as an owned string.
    pub fn to_string(&self) -> (s: String)
        ensures
            s@ == self.spec_key(),
    {
        owned(self.as_str())
    }

    /// Parses a key: the value whose key is `s`, and `None` when there is none.
    pub fn from_str(s: &str) -> (r: Option<IndexScreener>)
        ensures
            forall|v: IndexScreener| #[trigger] v.spec_key() == s@ <==> r == Some(v),
    {
        let r = Self::find(s);
        proof {
            assert forall|v: IndexScreener| #[trigger] v.spec_key() == s@ implies r == Some(v) by {
                Self::lemma_key_round_trip(v, r->0);
            }
        }
        r
    }

    /// Tries the keys in declaration order.
    fn find(s: &str) -> (r: Option<IndexScreener>)
        ensures
            r matches Some(v) ==> v.spec_key() == s@,
            r is None ==> forall|v: IndexScreener| #[trigger] v.spec_key() != s@,
    {
        if str_eq(s, "eodprice") {
            return Some(IndexScreener::PriceEndOfDay);
        }
        if str_eq(s, "intradayprice") {
            return Some(IndexScreener::PriceIntraday);
        }
        if str_eq(s, "intradaypricechange") {
            return Some(IndexScreener::Change);
        }
        if str_eq(s, "percentchange") {
            return Some(IndexScreener::PercentChange);
        }
        if str_eq(s, "eodvolume") {
            return Some(IndexScreener::VolumeEndOfDay);
        }
        if str_eq(s, "region") {
            return Some(IndexScreener::Region);
        }
        if str_eq(s, "ticker") {
            return Some(IndexScreener::Symbol);
        }
        if str_eq(s, "exchange") {
            return Some(IndexScreener::Exchange);
        }
        if str_eq(s, "sector") {
            return Some(IndexScreener::Sector);
        }
        if str_eq(s, "industry") {
            return Some(IndexScreener::Industry);
        }
        if str_eq(s, "fiftytwowkpercentchange") {
            return Some(IndexScreener::Week52PricePercentChange);
        }
        if str_eq(s, "avgdailyvol3m") {
            return Some(IndexScreener::AvgVol3Month);
        }
        None
    }

    /// Every value, in declaration order.
    pub fn variants() -> (r: Vec<IndexScreener>)
        ensures
            r@ == Self::spec_all(),
    {
        let r = vec![
            IndexScreener::PriceEndOfDay, IndexScreener::PriceIntraday, IndexScreener::Change,
            IndexScreener::PercentChange, IndexScreener::VolumeEndOfDay, IndexScreener::Region,
            IndexScreener::Symbol, IndexScreener::Exchange, IndexScreener::Sector,
            IndexScreener::Industry, IndexScreener::Week52PricePercentChange,
            IndexScreener::AvgVol3Month,
        ];
        assert(r@ =~= Self::spec_all());
        r
    }

    /// The keys of every value, in declaration order.
    pub fn variant_names() -> (r: Vec<&'static str>)
        ensures
            strs_view(r@) == Self::spec_names(),
    {
        let r = vec![
            "eodprice", "intradayprice", "intradaypricechange", "percentchange", "eodvolume",
            "region", "ticker", "exchange", "sector", "industry", "fiftytwowkpercentchange",
            "avgdailyvol3m",
        ];
        assert(strs_view(r@) =~= Self::spec_names());
        r
    }

    /// Distinct values have distinct keys: the key of a value decodes to that value.
    pub proof fn lemma_decode_key(v: IndexScreener)
        ensures
            Self::spec_decode(v.spec_key()) == Some(v),
    {
        match v {
            IndexScreener::PriceEndOfDay => {
                reveal_strlit("eodprice");
            },
            IndexScreener::PriceIntraday => {
                reveal_strlit("intradayprice");
            },
            IndexScreener::Change => {
                reveal_strlit("intradaypricechange");
            },
            IndexScreener::PercentChange => {
                reveal_strlit("percentchange");
            },
            IndexScreener::VolumeEndOfDay => {
                reveal_strlit("eodvolume");
            },
            IndexScreener::Region => {
                reveal_strlit("region");
            },
            IndexScreener::Symbol => {
                reveal_strlit("ticker");
            },
            IndexScreener::Exchange => {
                reveal_strlit("exchange");
            },
            IndexScreener::Sector => {
                reveal_strlit("sector");
            },
            IndexScreener::Industry => {
                reveal_strlit("industry");
            },
            IndexScreener::Week52PricePercentChange => {
                reveal_strlit("fiftytwowkpercentchange");
            },
            IndexScreener::AvgVol3Month => {
                reveal_strlit("avgdailyvol3m");
            },
        }
    }

    /// Parsing the key of a value gives back that value.
    pub proof fn lemma_key_round_trip(a: IndexScreener, b: IndexScreener)
        requires
            a.spec_key() == b.spec_key(),
        ensures
            a == b,
    {
        Self::lemma_decode_key(a);
        Self::lemma_decode_key(b);
    }
}

impl IndexScreener {
    /// What `validate_value` gives for `value` on this field.
    pub open spec fn spec_validate(self, value: Seq<char>) -> Result<Seq<char>, Seq<char>> {
        match self {
            IndexScreener::Exchange => spec_validate_key::<Exchange>("Exchange"@, value),
            IndexScreener::Region => spec_validate_key::<Region>("Region"@, value),
            IndexScreener::Sector => spec_validate_key::<Sector>("Sector"@, value),
            IndexScreener::Industry => spec_validate_key::<Industry>("Industry"@, value),
            _ => Ok(value),
        }
    }

    /// The metadata table of all index screener fields.
    pub fn metrics(data: &ScreenerData) -> (r: &MetricTable)
        ensures
            *r == data.index,
    {
        &data.index
    }

    /// The metadata of this field; the table must describe it.
    pub fn metadata<'a>(&self, data: &'a ScreenerData) -> (r: &'a FieldMetadata)
        requires
            data.index.spec_has(self.spec_key()),
        ensures
            data.index.spec_lookup(self.spec_key()) == Some(*r),
    {
        data.index.entry(self.as_str())
    }

    /// The display name of this field; the table must describe it.
    pub fn name<'a>(&self, data: &'a ScreenerData) -> (r: &'a str)
        requires
            data.index.spec_has(self.spec_key()),
        ensures
            r@ == data.index.spec_lookup(self.spec_key())->0.name@,
    {
        self.metadata(data).name.as_str()
    }

    /// The description of this field; the table must describe it.
    pub fn description<'a>(&self, data: &'a ScreenerData) -> (r: &'a str)
        requires
            data.index.spec_has(self.spec_key()),
        ensures
            r@ == data.index.spec_lookup(self.spec_key())->0.description@,
    {
        self.metadata(data).description.as_str()
    }

    /// The data type of this field; the table must describe it.
    pub fn data_type<'a>(&self, data: &'a ScreenerData) -> (r: &'a str)
        requires
            data.index.spec_has(self.spec_key()),
        ensures
            r@ == data.index.spec_lookup(self.spec_key())->0.data_type@,
    {
        self.metadata(data).data_type.as_str()
    }

    /// The unit of this field; the table must describe it.
    pub fn unit<'a>(&self, data: &'a ScreenerData) -> (r: &'a str)
        requires
            data.index.spec_has(self.spec_key()),
        ensures
            r@ == data.index.spec_lookup(self.spec_key())->0.unit@,
    {
        self.metadata(data).unit.as_str()
    }

    /// Checks a value given for this field: fields that name a key of the
    /// vocabulary accept only such keys; other fields accept any value.
    pub fn validate_value(&self, value: &str) -> (r: Result<String, String>)
        ensures
            result_view(r) == self.spec_validate(value@),
    {
        match self {
            IndexScreener::Exchange => validate_enum_value::<Exchange>("Exchange", value),
            IndexScreener::Region => validate_enum_value::<Region>("Region", value),
            IndexScreener::Sector => validate_enum_value::<Sector>("Sector", value),
            IndexScreener::Industry => validate_enum_value::<Industry>("Industry", value),
            _ => Ok(owned(value)),
        }
    }
}

/// A field that futures screener queries can filter and sort on.
#[derive(Debug, Clone, Copy, PartialEq, Eq, Structural, Hash)]
pub enum FutureScreener {
    PriceEndOfDay,
    PriceIntraday,
    Change,
    PercentChange,
    Volume,
    Symbol,
    OpenInterest,
    Region,
    Exchange,
    Week52PricePercentChange,
    AvgVol3Month,
}

impl FutureScreener {
    /// The field name used in screener queries.
    pub open spec fn spec_key(self) -> Seq<char> {
        match self {
            FutureScreener::PriceEndOfDay => "eodprice"@,
            FutureScreener::PriceIntraday => "intradayprice"@,
            FutureScreener::Change => "intradaypricechange"@,
            FutureScreener::PercentChange => "percentchange"@,
            FutureScreener::Volume => "dayvolume"@,
            FutureScreener::Symbol => "ticker"@,
            FutureScreener::OpenInterest => "open_interest"@,
            FutureScreener::Region => "region"@,
            FutureScreener::Exchange => "exchange"@,
            FutureScreener::Week52PricePercentChange => "fiftytwowkpercentchange"@,
            FutureScreener::AvgVol3Month => "avgdailyvol3m"@,
        }
    }

    /// Every value, in declaration order.
    pub open spec fn spec_all() -> Seq<FutureScreener> {
        seq![
            FutureScreener::PriceEndOfDay, FutureScreener::PriceIntraday, FutureScreener::Change,
            FutureScreener::PercentChange, FutureScreener::Volume, FutureScreener::Symbol,
            FutureScreener::OpenInterest, FutureScreener::Region, FutureScreener::Exchange,
            FutureScreener::Week52PricePercentChange, FutureScreener::AvgVol3Month,
        ]
    }

    /// The keys of every value, in declaration order.
    pub open spec fn spec_names() -> Seq<Seq<char>> {
        Self::spec_all().map_values(|v: FutureScreener| v.spec_key())
    }

    /// Reads a value back from its key by the characters that tell the keys apart.
    pub open spec fn spec_decode(s: Seq<char>) -> Option<FutureScreener> {
        if s.len() == 6 {
            if s[0] == 'r' {
                Some(FutureScreener::Region)
            } else if s[0] == 't' {
                Some(FutureScreener::Symbol)
            } else {
                None
            }
        } else if s.len() == 8 {
            if s[1] == 'o' {
                Some(FutureScreener::PriceEndOfDay)
            } else if s[1] == 'x' {
                Some(FutureScreener::Exchange)
            } else {
                None
            }
        } else if s.len() == 9 {
            Some(FutureScreener::Volume)
        } else if s.len() == 13 {
            if s[0] == 'a' {
                Some(FutureScreener::AvgVol3Month)
            } else if s[0] == 'i' {
                Some(FutureScreener::PriceIntraday)
            } else if s[0] == 'o' {
                Some(FutureScreener::OpenInterest)
            } else if s[0] == 'p' {
                Some(FutureScreener::PercentChange)
            } else {
                None
            }
        } else if s.len() == 19 {
            Some(FutureScreener::Change)
        } else if s.len() == 23 {
            Some(FutureScreener::Week52PricePercentChange)
        } else {
            None
        }
    }

    /// The key of this value.
    pub fn as_str(&self) -> (s: &'static str)
        ensures
            s@ == self.spec_key(),
    {
        match self {
            FutureScreener::PriceEndOfDay => "eodprice",
            FutureScreener::PriceIntraday => "intradayprice",
            FutureScreener::Change => "intradaypricechange",
            FutureScreener::PercentChange => "percentchange",
            FutureScreener::Volume => "dayvolume",
            FutureScreener::Symbol => "ticker",
            FutureScreener::OpenInterest => "open_interest",
            FutureScreener::Region => "region",
            FutureScreener::Exchange => "exchange",
            FutureScreener::Week52PricePercentChange => "fiftytwowkpercentchange",
            FutureScreener::AvgVol3Month => "avgdailyvol3m",
        }
    }

    /// The key of this value as an owned string.
    pub fn to_string(&self) -> (s: String)
        ensures
            s@ == self.spec_key(),
    {
        owned(self.as_str())
    }

    /// Parses a key: the value whose key is `s`, and `None` when there is none.
    pub fn from_str(s: &str) -> (r: Option<FutureScreener>)
        ensures
            forall|v: FutureScreener| #[trigger] v.spec_key() == s@ <==> r == Some(v),
    {
        let r = Self::find(s);
        proof {
            assert forall|v: FutureScreener| #[trigger] v.spec_key() == s@ implies r == Some(v) by {
                Self::lemma_key_round_trip(v, r->0);
            }
        }
        r
    }

    /// Tries the keys in declaration order.
    fn find(s: &str) -> (r: Option<FutureScreener>)
        ensures
            r matches Some(v) ==> v.spec_key() == s@,
            r is None ==> forall|v: FutureScreener| #[trigger] v.spec_key() != s@,
    {
        if str_eq(s, "eodprice") {
            return Some(FutureScreener::PriceEndOfDay);
        }
        if str_eq(s, "intradayprice") {
            return Some(FutureScreener::PriceIntraday);
        }
        if str_eq(s, "intradaypricechange") {
            return Some(FutureScreener::Change);
        }
        if str_eq(s, "percentchange") {
            return Some(FutureScreener::PercentChange);
        }
        if str_eq(s, "dayvolume") {
            return Some(FutureScreener::Volume);
        }
        if str_eq(s, "ticker") {
            return Some(FutureScreener::Symbol);
        }
        if str_eq(s, "open_interest") {
            return Some(FutureScreener::OpenInterest);
        }
        if str_eq(s, "region") {
            return Some(FutureScreener::Region);
        }
        if str_eq(s, "exchange") {
            return Some(FutureScreener::Exchange);
        }
        if str_eq(s, "fiftytwowkpercentchange") {
            return Some(FutureScreener::Week52PricePercentChange);
        }
        if str_eq(s, "avgdailyvol3m") {
            return Some(FutureScreener::AvgVol3Month);
        }
        None
    }

    /// Every value, in declaration order.
    pub fn variants() -> (r: Vec<FutureScreener>)
        ensures
            r@ == Self::spec_all(),
    {
        let r = vec![
            FutureScreener::PriceEndOfDay, FutureScreener::PriceIntraday, FutureScreener::Change,
            FutureScreener::PercentChange, FutureScreener::Volume, FutureScreener::Symbol,
            FutureScreener::OpenInterest, FutureScreener::Region, FutureScreener::Exchange,
            FutureScreener::Week52PricePercentChange, FutureScreener::AvgVol3Month,
        ];
        assert(r@ =~= Self::spec_all());
        r
    }

    /// The keys of every value, in declaration order.
    pub fn variant_names() -> (r: Vec<&'static str>)
        ensures
            strs_view(r@) == Self::spec_names(),
    {
        let r = vec![
            "eodprice", "intradayprice", "intradaypricechange", "percentchange", "dayvolume",
            "ticker", "open_interest", "region", "exchange", "fiftytwowkpercentchange",
            "avgdailyvol3m",
        ];
        assert(strs_view(r@) =~= Self::spec_names());
        r
    }

    /// Distinct values have distinct keys: the key of a value decodes to that value.
    pub proof fn lemma_decode_key(v: FutureScreener)
        ensures
            Self::spec_decode(v.spec_key()) == Some(v),
    {
        match v {
            FutureScreener::PriceEndOfDay => {
                reveal_strlit("eodprice");
            },
            FutureScreener::PriceIntraday => {
                reveal_strlit("intradayprice");
            },
            FutureScreener::Change => {
                reveal_strlit("intradaypricechange");
            },
            FutureScreener::PercentChange => {
                reveal_strlit("percentchange");
            },
            FutureScreener::Volume => {
                reveal_strlit("dayvolume");
            },
            FutureScreener::Symbol => {
                reveal_strlit("ticker");
            },
            FutureScreener::OpenInterest => {
                reveal_strlit("open_interest");
            },
            FutureScreener::Region => {
                reveal_strlit("region");
            },
            FutureScreener::Exchange => {
                reveal_strlit("exchange");
            },
            FutureScreener::Week52PricePercentChange => {
                reveal_strlit("fiftytwowkpercentchange");
            },
            FutureScreener::AvgVol3Month => {
                reveal_strlit("avgdailyvol3m");
            },
        }
    }

    /// Parsing the key of a value gives back that value.
    pub proof fn lemma_key_round_trip(a: FutureScreener, b: FutureScreener)
        requires
            a.spec_key() == b.spec_key(),
        ensures
            a == b,
    {
        Self::lemma_decode_key(a);
        Self::lemma_decode_key(b);
    }
}

impl FutureScreener {
    /// What `validate_value` gives for `value` on this field.
    pub open spec fn spec_validate(self, value: Seq<char>) -> Result<Seq<char>, Seq<char>> {
        match self {
            FutureScreener::Exchange => spec_validate_key::<Exchange>("Exchange"@, value),
            FutureScreener::Region => spec_validate_key::<Region>("Region"@, value),
            _ => Ok(value),
        }
    }

    /// The metadata table of all futures screener fields.
    pub fn metrics(data: &ScreenerData) -> (r: &MetricTable)
        ensures
            *r == data.future,
    {
        &data.future
    }

    /// The metadata of this field; the table must describe it.
    pub fn metadata<'a>(&self, data: &'a ScreenerData) -> (r: &'a FieldMetadata)
        requires
            data.future.spec_has(self.spec_key()),
        ensures
            data.future.spec_lookup(self.spec_key()) == Some(*r),
    {
        data.future.entry(self.as_str())
    }

    /// The display name of this field; the table must describe it.
    pub fn name<'a>(&self, data: &'a ScreenerData) -> (r: &'a str)
        requires
            data.future.spec_has(self.spec_key()),
        ensures
            r@ == data.future.spec_lookup(self.spec_key())->0.name@,
    {
        self.metadata(data).name.as_str()
    }

    /// The description of this field; the table must describe it.
    pub fn description<'a>(&self, data: &'a ScreenerData) -> (r: &'a str)
        requires
            data.future.spec_has(self.spec_key()),
        ensures
            r@ == data.future.spec_lookup(self.spec_key())->0.description@,
    {
        self.metadata(data).description.as_str()
    }

    /// The data type of this field; the table must describe it.
    pub fn data_type<'a>(&self, data: &'a ScreenerData) -> (r: &'a str)
        requires
            data.future.spec_has(self.spec_key()),
        ensures
            r@ == data.future.spec_lookup(self.spec_key())->0.data_type@,
    {
        self.metadata(data).data_type.as_str()
    }

    /// The unit of this field; the table must describe it.
    pub fn unit<'a>(&self, data: &'a ScreenerData) -> (r: &'a str)
        requires
            data.future.spec_has(self.spec_key()),
        ensures
            r@ == data.future.spec_lookup(self.spec_key())->0.unit@,
    {
        self.metadata(data).unit.as_str()
    }

    /// Checks a value given for this field: fields that name a key of the
    /// vocabulary accept only such keys; other fields accept any value.
    pub fn validate_value(&self, value: &str) -> (r: Result<String, String>)
        ensures
            result_view(r) == self.spec_validate(value@),
    {
        match self {
            FutureScreener::Exchange => validate_enum_value::<Exchange>("Exchange", value),
            FutureScreener::Region => validate_enum_value::<Region>("Region", value),
            _ => Ok(owned(value)),
        }
    }
}

/// A field that cryptocurrency screener queries can filter and sort on.
#[derive(Debug, Clone, Copy, PartialEq, Eq, Structural, Hash)]
pub enum CryptoScreener {
    PercentChange,
    Volume,
    Symbol,
    Currency,
    MarketCapIntraday,
    Exchange,
    Week52PricePercentChange,
    AvgVol3Month,
}

impl CryptoScreener {
    /// The field name used in screener queries.
    pub open spec fn spec_key(self) -> Seq<char> {
        match self {
            CryptoScreener::PercentChange => "percentchange"@,
            CryptoScreener::Volume => "dayvolume"@,
            CryptoScreener::Symbol => "ticker"@,
            CryptoScreener::Currency => "currency"@,
            CryptoScreener::MarketCapIntraday => "intradaymarketcap"@,
            CryptoScreener::Exchange => "exchange"@,
            CryptoScreener::Week52PricePercentChange => "fiftytwowkpercentchange"@,
            CryptoScreener::AvgVol3Month => "avgdailyvol3m"@,
        }
    }

    /// Every value, in declaration order.
    pub open spec fn spec_all() -> Seq<CryptoScreener> {
        seq![
            CryptoScreener::PercentChange, CryptoScreener::Volume, CryptoScreener::Symbol,
            CryptoScreener::Currency, CryptoScreener::MarketCapIntraday, CryptoScreener::Exchange,
            CryptoScreener::Week52PricePercentChange, CryptoScreener::AvgVol3Month,
        ]
    }

    /// The keys of every value, in declaration order.
    pub open spec fn spec_names() -> Seq<Seq<char>> {
        Self::spec_all().map_values(|v: CryptoScreener| v.spec_key())
    }

    /// Reads a value back from its key by the characters that tell the keys apart.
    pub open spec fn spec_decode(s: Seq<char>) -> Option<CryptoScreener> {
        if s.len() == 6 {
            Some(CryptoScreener::Symbol)
        } else if s.len() == 8 {
            if s[0] == 'c' {
                Some(CryptoScreener::Currency)
            } else if s[0] == 'e' {
                Some(CryptoScreener::Exchange)
            } else {
                None
            }
        } else if s.len() == 9 {
            Some(CryptoScreener::Volume)
        } else if s.len() == 13 {
            if s[0] == 'a' {
                Some(CryptoScreener::AvgVol3Month)
            } else if s[0] == 'p' {
                Some(CryptoScreener::PercentChange)
            } else {
                None
            }
        } else if s.len() == 17 {
            Some(CryptoScreener::MarketCapIntraday)
        } else if s.len() == 23 {
            Some(CryptoScreener::Week52PricePercentChange)
        } else {
            None
        }
    }

    /// The key of this value.
    pub fn as_str(&self) -> (s: &'static str)
        ensures
            s@ == self.spec_key(),
    {
        match self {
            CryptoScreener::PercentChange => "percentchange",
            CryptoScreener::Volume => "dayvolume",
            CryptoScreener::Symbol => "ticker",
            CryptoScreener::Currency => "currency",
            CryptoScreener::MarketCapIntraday => "intradaymarketcap",
            CryptoScreener::Exchange => "exchange",
            CryptoScreener::Week52PricePercentChange => "fiftytwowkpercentchange",
            CryptoScreener::AvgVol3Month => "avgdailyvol3m",
        }
    }

    /// The key of this value as an owned string.
    pub fn to_string(&self) -> (s: String)
        ensures
            s@ == self.spec_key(),
    {
        owned(self.as_str())
    }

    /// Parses a key: the value whose key is `s`, and `None` when there is none.
    pub fn from_str(s: &str) -> (r: Option<CryptoScreener>)
        ensures
            forall|v: CryptoScreener| #[trigger] v.spec_key() == s@ <==> r == Some(v),
    {
        let r = Self::find(s);
        proof {
            assert forall|v: CryptoScreener| #[trigger] v.spec_key() == s@ implies r == Some(v) by {
                Self::lemma_key_round_trip(v, r->0);
            }
        }
        r
    }

    /// Tries the keys in declaration order.
    fn find(s: &str) -> (r: Option<CryptoScreener>)
        ensures
            r matches Some(v) ==> v.spec_key() == s@,
            r is None ==> forall|v: CryptoScreener| #[trigger] v.spec_key() != s@,
    {
        if str_eq(s, "percentchange") {
            return Some(CryptoScreener::PercentChange);
        }
        if str_eq(s, "dayvolume") {
            return Some(CryptoScreener::Volume);
        }
        if str_eq(s, "ticker") {
            return Some(CryptoScreener::Symbol);
        }
        if str_eq(s, "currency") {
            return Some(CryptoScreener::Currency);
        }
        if str_eq(s, "intradaymarketcap") {
            return Some(CryptoScreener::MarketCapIntraday);
        }
        if str_eq(s, "exchange") {
            return Some(CryptoScreener::Exchange);
        }
        if str_eq(s, "fiftytwowkpercentchange") {
            return Some(CryptoScreener::Week52PricePercentChange);
        }
        if str_eq(s, "avgdailyvol3m") {
            return Some(CryptoScreener::AvgVol3Month);
        }
        None
    }

    /// Every value, in declaration order.
    pub fn variants() -> (r: Vec<CryptoScreener>)
        ensures
            r@ == Self::spec_all(),
    {
        let r = vec![
            CryptoScreener::PercentChange, CryptoScreener::Volume, CryptoScreener::Symbol,
            CryptoScreener::Currency, CryptoScreener::MarketCapIntraday, CryptoScreener::Exchange,
            CryptoScreener::Week52PricePercentChange, CryptoScreener::AvgVol3Month,
        ];
        assert(r@ =~= Self::spec_all());
        r
    }

    /// The keys of every value, in declaration order.
    pub fn variant_names() -> (r: Vec<&'static str>)
        ensures
            strs_view(r@) == Self::spec_names(),
    {
        let r = vec![
            "percentchange", "dayvolume", "ticker", "currency", "intradaymarketcap", "exchange",
            "fiftytwowkpercentchange", "avgdailyvol3m",
        ];
        assert(strs_view(r@) =~= Self::spec_names());
        r
    }

    /// Distinct values have distinct keys: the key of a value decodes to that value.
    pub proof fn lemma_decode_key(v: CryptoScreener)
        ensures
            Self::spec_decode(v.spec_key()) == Some(v),
    {
        match v {
            CryptoScreener::PercentChange => {
                reveal_strlit("percentchange");
            },
            CryptoScreener::Volume => {
                reveal_strlit("dayvolume");
            },
            CryptoScreener::Symbol => {
                reveal_strlit("ticker");
            },
            CryptoScreener::Currency => {
                reveal_strlit("currency");
            },
            CryptoScreener::MarketCapIntraday => {
                reveal_strlit("intradaymarketcap");
            },
            CryptoScreener::Exchange => {
                reveal_strlit("exchange");
            },
            CryptoScreener::Week52PricePercentChange => {
                reveal_strlit("fiftytwowkpercentchange");
            },
            CryptoScreener::AvgVol3Month => {
                reveal_strlit("avgdailyvol3m");
            },
        }
    }

    /// Parsing the key of a value gives back that value.
    pub proof fn lemma_key_round_trip(a: CryptoScreener, b: CryptoScreener)
        requires
            a.spec_key() == b.spec_key(),
        ensures
            a == b,
    {
        Self::lemma_decode_key(a);
        Self::lemma_decode_key(b);
    }
}

impl CryptoScreener {
    /// What `validate_value` gives for `value` on this field.
    pub open spec fn spec_validate(self, value: Seq<char>) -> Result<Seq<char>, Seq<char>> {
        match self {
            CryptoScreener::Exchange => if value == "CCC"@ {
                Ok(value)
            } else {
                Err("For CryptoScreener::Exchange only 'CCC' is allowed."@)
            },
            _ => Ok(value),
        }
    }

    /// The metadata table of all cryptocurrency screener fields.
    pub fn metrics(data: &ScreenerData) -> (r: &MetricTable)
        ensures
            *r == data.crypto,
    {
        &data.crypto
    }

    /// The metadata of this field; the table must describe it.
    pub fn metadata<'a>(&self, data: &'a ScreenerData) -> (r: &'a FieldMetadata)
        requires
            data.crypto.spec_has(self.spec_key()),
        ensures
            data.crypto.spec_lookup(self.spec_key()) == Some(*r),
    {
        data.crypto.entry(self.as_str())
    }

    /// The display name of this field; the table must describe it.
    pub fn name<'a>(&self, data: &'a ScreenerData) -> (r: &'a str)
        requires
            data.crypto.spec_has(self.spec_key()),
        ensures
            r@ == data.crypto.spec_lookup(self.spec_key())->0.name@,
    {
        self.metadata(data).name.as_str()
    }

    /// The description of this field; the table must describe it.
    pub fn description<'a>(&self, data: &'a ScreenerData) -> (r: &'a str)
        requires
            data.crypto.spec_has(self.spec_key()),
        ensures
            r@ == data.crypto.spec_lookup(self.spec_key())->0.description@,
    {
        self.metadata(data).description.as_str()
    }

    /// The data type of this field; the table must describe it.
    pub fn data_type<'a>(&self, data: &'a ScreenerData) -> (r: &'a str)
        requires
            data.crypto.spec_has(self.spec_key()),
        ensures
            r@ == data.crypto.spec_lookup(self.spec_key())->0.data_type@,
    {
        self.metadata(data).data_type.as_str()
    }

    /// The unit of this field; the table must describe it.
    pub fn unit<'a>(&self, data: &'a ScreenerData) -> (r: &'a str)
        requires
            data.crypto.spec_has(self.spec_key()),
        ensures
            r@ == data.crypto.spec_lookup(self.spec_key())->0.unit@,
    {
        self.metadata(data).unit.as_str()
    }

    /// Checks a value given for this field: fields that name a key of the
    /// vocabulary accept only such keys; other fields accept any value.
    pub fn validate_value(&self, value: &str) -> (r: Result<String, String>)
        ensures
            result_view(r) == self.spec_validate(value@),
    {
        match self {
            CryptoScreener::Exchange => {
                if str_eq(value, "CCC") {
                    Ok(owned(value))
                } else {
                    Err(owned("For CryptoScreener::Exchange only 'CCC' is allowed."))
                }
            },
            _ => Ok(owned(value)),
        }
    }
}

/// The beginning of the message that rejects `value` for the vocabulary `field`.
pub open spec fn rejection_prefix(value: Seq<char>, field: Seq<char>) -> Seq<char> {
    "Invalid value '"@ + value + "' for "@ + field + ". Allowed values: ["@
}

proof fn lemma_rejection_prefix(value: Seq<char>, field: Seq<char>, names: Seq<Seq<char>>)
    ensures
        invalid_value_message(value, field, names).take(rejection_prefix(value, field).len() as int)
            == rejection_prefix(value, field),
{
    assert(invalid_value_message(value, field, names).take(rejection_prefix(value, field).len() as int)
        =~= rejection_prefix(value, field));
}

/// A equity screener field that names a vocabulary accepts a value exactly
/// when it is a key of that vocabulary: Exchange, Region, Sector, Industry, PeerGroup; a rejection names the value and
/// the vocabulary.  Every other field accepts any value, and an accepted value
/// is passed on unchanged.
pub proof fn lemma_equity_values(value: Seq<char>)
    ensures
        EquityScreener::Exchange.spec_validate(value) is Ok <==> exists|k: Exchange| #[trigger] k.spec_key() == value,
        EquityScreener::Exchange.spec_validate(value) matches Err(e)
            ==> e.take(rejection_prefix(value, "Exchange"@).len() as int) == rejection_prefix(value, "Exchange"@),
        EquityScreener::Region.spec_validate(value) is Ok <==> exists|k: Region| #[trigger] k.spec_key() == value,
        EquityScreener::Region.spec_validate(value) matches Err(e)
            ==> e.take(rejection_prefix(value, "Region"@).len() as int) == rejection_prefix(value, "Region"@),
        EquityScreener::Sector.spec_validate(value) is Ok <==> exists|k: Sector| #[trigger] k.spec_key() == value,
        EquityScreener::Sector.spec_validate(value) matches Err(e)
            ==> e.take(rejection_prefix(value, "Sector"@).len() as int) == rejection_prefix(value, "Sector"@),
        EquityScreener::Industry.spec_validate(value) is Ok <==> exists|k: Industry| #[trigger] k.spec_key() == value,
        EquityScreener::Industry.spec_validate(value) matches Err(e)
            ==> e.take(rejection_prefix(value, "Industry"@).len() as int) == rejection_prefix(value, "Industry"@),
        EquityScreener::PeerGroup.spec_validate(value) is Ok <==> exists|k: PeerGroup| #[trigger] k.spec_key() == value,
        EquityScreener::PeerGroup.spec_validate(value) matches Err(e)
            ==> e.take(rejection_prefix(value, "PeerGroup"@).len() as int) == rejection_prefix(value, "PeerGroup"@),
        forall|f: EquityScreener| !(f == EquityScreener::Exchange || f == EquityScreener::Region || f == EquityScreener::Sector || f == EquityScreener::Industry || f == EquityScreener::PeerGroup) ==> #[trigger] f.spec_validate(value) == Ok::<Seq<char>, Seq<char>>(value),
        forall|f: EquityScreener| #[trigger] f.spec_validate(value) matches Ok(w) ==> w == value,
{
    lemma_rejection_prefix(value, "Exchange"@, Exchange::spec_key_names());
    lemma_rejection_prefix(value, "Industry"@, Industry::spec_key_names());
    lemma_rejection_prefix(value, "PeerGroup"@, PeerGroup::spec_key_names());
    lemma_rejection_prefix(value, "Region"@, Region::spec_key_names());
    lemma_rejection_prefix(value, "Sector"@, Sector::spec_key_names());
}

/// A mutual fund screener field that names a vocabulary accepts a value exactly
/// when it is a key of that vocabulary: Exchange, Region, FundsByCompany (FundFamily keys), FundsByCategory (FundCategory keys); a rejection names the value and
/// the vocabulary.  Every other field accepts any value, and an accepted value
/// is passed on unchanged.
pub proof fn lemma_mutual_fund_values(value: Seq<char>)
    ensures
        MutualFundScreener::Exchange.spec_validate(value) is Ok <==> exists|k: Exchange| #[trigger] k.spec_key() == value,
        MutualFundScreener::Exchange.spec_validate(value) matches Err(e)
            ==> e.take(rejection_prefix(value, "Exchange"@).len() as int) == rejection_prefix(value, "Exchange"@),
        MutualFundScreener::Region.spec_validate(value) is Ok <==> exists|k: Region| #[trigger] k.spec_key() == value,
        MutualFundScreener::Region.spec_validate(value) matches Err(e)
            ==> e.take(rejection_prefix(value, "Region"@).len() as int) == rejection_prefix(value, "Region"@),
        MutualFundScreener::FundsByCompany.spec_validate(value) is Ok <==> exists|k: FundFamily| #[trigger] k.spec_key() == value,
        MutualFundScreener::FundsByCompany.spec_validate(value) matches Err(e)
            ==> e.take(rejection_prefix(value, "FundFamily"@).len() as int) == rejection_prefix(value, "FundFamily"@),
        MutualFundScreener::FundsByCategory.spec_validate(value) is Ok <==> exists|k: FundCategory| #[trigger] k.spec_key() == value,
        MutualFundScreener::FundsByCategory.spec_validate(value) matches Err(e)
            ==> e.take(rejection_prefix(value, "FundCategory"@).len() as int) == rejection_prefix(value, "FundCategory"@),
        forall|f: MutualFundScreener| !(f == MutualFundScreener::Exchange || f == MutualFundScreener::Region || f == MutualFundScreener::FundsByCompany || f == MutualFundScreener::FundsByCategory) ==> #[trigger] f.spec_validate(value) == Ok::<Seq<char>, Seq<char>>(value),
        forall|f: MutualFundScreener| #[trigger] f.spec_validate(value) matches Ok(w) ==> w == value,
{
    lemma_rejection_prefix(value, "Exchange"@, Exchange::spec_key_names());
    lemma_rejection_prefix(value, "FundCategory"@, FundCategory::spec_key_names());
    lemma_rejection_prefix(value, "FundFamily"@, FundFamily::spec_key_names());
    lemma_rejection_prefix(value, "Region"@, Region::spec_key_names());
}

/// A ETF screener field that names a vocabulary accepts a value exactly
/// when it is a key of that vocabulary: Exchange, Region, FundsByCompany (FundFamily keys), FundsByCategory (FundCategory keys); a rejection names the value and
/// the vocabulary.  Every other field accepts any value, and an accepted value
/// is passed on unchanged.
pub proof fn lemma_etf_values(value: Seq<char>)
    ensures
        EtfScreener::Exchange.spec_validate(value) is Ok <==> exists|k: Exchange| #[trigger] k.spec_key() == value,
        EtfScreener::Exchange.spec_validate(value) matches Err(e)
            ==> e.take(rejection_prefix(value, "Exchange"@).len() as int) == rejection_prefix(value, "Exchange"@),
        EtfScreener::Region.spec_validate(value) is Ok <==> exists|k: Region| #[trigger] k.spec_key() == value,
        EtfScreener::Region.spec_validate(value) matches Err(e)
            ==> e.take(rejection_prefix(value, "Region"@).len() as int) == rejection_prefix(value, "Region"@),
        EtfScreener::FundsByCompany.spec_validate(value) is Ok <==> exists|k: FundFamily| #[trigger] k.spec_key() == value,
        EtfScreener::FundsByCompany.spec_validate(value) matches Err(e)
            ==> e.take(rejection_prefix(value, "FundFamily"@).len() as int) == rejection_prefix(value, "FundFamily"@),
        EtfScreener::FundsByCategory.spec_validate(value) is Ok <==> exists|k: FundCategory| #[trigger] k.spec_key() == value,
        EtfScreener::FundsByCategory.spec_validate(value) matches Err(e)
            ==> e.take(rejection_prefix(value, "FundCategory"@).len() as int) == rejection_prefix(value, "FundCategory"@),
        forall|f: EtfScreener| !(f == EtfScreener::Exchange || f == EtfScreener::Region || f == EtfScreener::FundsByCompany || f == EtfScreener::FundsByCategory) ==> #[trigger] f.spec_validate(value) == Ok::<Seq<char>, Seq<char>>(value),
        forall|f: EtfScreener| #[trigger] f.spec_validate(value) matches Ok(w) ==> w == value,
{
    lemma_rejection_prefix(value, "Exchange"@, Exchange::spec_key_names());
    lemma_rejection_prefix(value, "FundCategory"@, FundCategory::spec_key_names());
    lemma_rejection_prefix(value, "FundFamily"@, FundFamily::spec_key_names());
    lemma_rejection_prefix(value, "Region"@, Region::spec_key_names());
}

/// A index screener field that names a vocabulary accepts a value exactly
/// when it is a key of that vocabulary: Exchange, Region, Sector, Industry; a rejection names the value and
/// the vocabulary.  Every other field accepts any value, and an accepted value
/// is passed on unchanged.
pub proof fn lemma_index_values(value: Seq<char>)
    ensures
        IndexScreener::Exchange.spec_validate(value) is Ok <==> exists|k: Exchange| #[trigger] k.spec_key() == value,
        IndexScreener::Exchange.spec_validate(value) matches Err(e)
            ==> e.take(rejection_prefix(value, "Exchange"@).len() as int) == rejection_prefix(value, "Exchange"@),
        IndexScreener::Region.spec_validate(value) is Ok <==> exists|k: Region| #[trigger] k.spec_key() == value,
        IndexScreener::Region.spec_validate(value) matches Err(e)
            ==> e.take(rejection_prefix(value, "Region"@).len() as int) == rejection_prefix(value, "Region"@),
        IndexScreener::Sector.spec_validate(value) is Ok <==> exists|k: Sector| #[trigger] k.spec_key() == value,
        IndexScreener::Sector.spec_validate(value) matches Err(e)
            ==> e.take(rejection_prefix(value, "Sector"@).len() as int) == rejection_prefix(value, "Sector"@),
        IndexScreener::Industry.spec_validate(value) is Ok <==> exists|k: Industry| #[trigger] k.spec_key() == value,
        IndexScreener::Industry.spec_validate(value) matches Err(e)
            ==> e.take(rejection_prefix(value, "Industry"@).len() as int) == rejection_prefix(value, "Industry"@),
        forall|f: IndexScreener| !(f == IndexScreener::Exchange || f == IndexScreener::Region || f == IndexScreener::Sector || f == IndexScreener::Industry) ==> #[trigger] f.spec_validate(value) == Ok::<Seq<char>, Seq<char>>(value),
        forall|f: IndexScreener| #[trigger] f.spec_validate(value) matches Ok(w) ==> w == value,
{
    lemma_rejection_prefix(value, "Exchange"@, Exchange::spec_key_names());
    lemma_rejection_prefix(value, "Industry"@, Industry::spec_key_names());
    lemma_rejection_prefix(value, "Region"@, Region::spec_key_names());
    lemma_rejection_prefix(value, "Sector"@, Sector::spec_key_names());
}

/// A futures screener field that names a vocabulary accepts a value exactly
/// when it is a key of that vocabulary: Exchange, Region; a rejection names the value and
/// the vocabulary.  Every other field accepts any value, and an accepted value
/// is passed on unchanged.
pub proof fn lemma_futures_values(value: Seq<char>)
    ensures
        FutureScreener::Exchange.spec_validate(value) is Ok <==> exists|k: Exchange| #[trigger] k.spec_key() == value,
        FutureScreener::Exchange.spec_validate(value) matches Err(e)
            ==> e.take(rejection_prefix(value, "Exchange"@).len() as int) == rejection_prefix(value, "Exchange"@),
        FutureScreener::Region.spec_validate(value) is Ok <==> exists|k: Region| #[trigger] k.spec_key() == value,
        FutureScreener::Region.spec_validate(value) matches Err(e)
            ==> e.take(rejection_prefix(value, "Region"@).len() as int) == rejection_prefix(value, "Region"@),
        forall|f: FutureScreener| !(f == FutureScreener::Exchange || f == FutureScreener::Region) ==> #[trigger] f.spec_validate(value) == Ok::<Seq<char>, Seq<char>>(value),
        forall|f: FutureScreener| #[trigger] f.spec_validate(value) matches Ok(w) ==> w == value,
{
    lemma_rejection_prefix(value, "Exchange"@, Exchange::spec_key_names());
    lemma_rejection_prefix(value, "Region"@, Region::spec_key_names());
}

/// The cryptocurrency exchange field accepts only `CCC`; every other field
/// accepts any value, and an accepted value is passed on unchanged.
pub proof fn lemma_crypto_values(value: Seq<char>)
    ensures
        CryptoScreener::Exchange.spec_validate(value) is Ok <==> value == "CCC"@,
        forall|f: CryptoScreener| f != CryptoScreener::Exchange ==> #[trigger] f.spec_validate(value) == Ok::<Seq<char>, Seq<char>>(value),
        forall|f: CryptoScreener| #[trigger] f.spec_validate(value) matches Ok(w) ==> w == value,
{
}

} // verus!
