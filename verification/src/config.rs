//! Query parameters of the market data service: bar intervals, financial
//! statement types and frequencies, and the statement line items to request.

use vstd::prelude::*;
use crate::text::{str_eq, owned, strs_view, seq_join, join_prefixed};
use vstd::string::StringExecFns;

verus! {

/// Bar interval of price history.
#[derive(Debug, Clone, Copy, PartialEq, Eq, Structural, Hash)]
pub enum Interval {
    TwoMinutes,
    FiveMinutes,
    FifteenMinutes,
    ThirtyMinutes,
    SixtyMinutes,
    NinetyMinutes,
    OneHour,
    OneDay,
    FiveDays,
    OneWeek,
    OneMonth,
    ThreeMonths,
}

impl Interval {
    /// The code of this interval in chart queries.
    pub open spec fn spec_key(self) -> Seq<char> {
        match self {
            Interval::TwoMinutes => "2m"@,
            Interval::FiveMinutes => "5m"@,
            Interval::FifteenMinutes => "15m"@,
            Interval::ThirtyMinutes => "30m"@,
            Interval::SixtyMinutes => "60m"@,
            Interval::NinetyMinutes => "90m"@,
            Interval::OneHour => "1h"@,
            Interval::OneDay => "1d"@,
            Interval::FiveDays => "5d"@,
            Interval::OneWeek => "1wk"@,
            Interval::OneMonth => "1mo"@,
            Interval::ThreeMonths => "3mo"@,
        }
    }

    /// Every value, in declaration order.
    pub open spec fn spec_all() -> Seq<Interval> {
        seq![
            Interval::TwoMinutes, Interval::FiveMinutes, Interval::FifteenMinutes,
            Interval::ThirtyMinutes, Interval::SixtyMinutes, Interval::NinetyMinutes,
            Interval::OneHour, Interval::OneDay, Interval::FiveDays, Interval::OneWeek,
            Interval::OneMonth, Interval::ThreeMonths,
        ]
    }

    /// The keys of every value, in declaration order.
    pub open spec fn spec_names() -> Seq<Seq<char>> {
        Self::spec_all().map_values(|v: Interval| v.spec_key())
    }

    /// Reads a value back from its key by the characters that tell the keys apart.
    pub open spec fn spec_decode(s: Seq<char>) -> Option<Interval> {
        if s.len() == 2 {
            if s[0] == '1' {
                if s[1] == 'd' {
                    Some(Interval::OneDay)
                } else if s[1] == 'h' {
                    Some(Interval::OneHour)
                } else {
                    None
                }
            } else if s[0] == '2' {
                Some(Interval::TwoMinutes)
            } else if s[0] == '5' {
                if s[1] == 'd' {
                    Some(Interval::FiveDays)
                } else if s[1] == 'm' {
                    Some(Interval::FiveMinutes)
                } else {
                    None
                }
            } else {
                None
            }
        } else if s.len() == 3 {
            if s[0] == '1' {
                if s[1] == '5' {
                    Some(Interval::FifteenMinutes)
                } else if s[1] == 'm' {
                    Some(Interval::OneMonth)
                } else if s[1] == 'w' {
                    Some(Interval::OneWeek)
                } else {
                    None
                }
            } else if s[0] == '3' {
                if s[1] == '0' {
                    Some(Interval::ThirtyMinutes)
                } else if s[1] == 'm' {
                    Some(Interval::ThreeMonths)
                } else {
                    None
                }
            } else if s[0] == '6' {
                Some(Interval::SixtyMinutes)
            } else if s[0] == '9' {
                Some(Interval::NinetyMinutes)
            } else {
                None
            }
        } else {
            None
        }
    }

    /// The key of this value.
    pub fn as_str(&self) -> (s: &'static str)
        ensures
            s@ == self.spec_key(),
    {
        match self {
            Interval::TwoMinutes => "2m",
            Interval::FiveMinutes => "5m",
            Interval::FifteenMinutes => "15m",
            Interval::ThirtyMinutes => "30m",
            Interval::SixtyMinutes => "60m",
            Interval::NinetyMinutes => "90m",
            Interval::OneHour => "1h",
            Interval::OneDay => "1d",
            Interval::FiveDays => "5d",
            Interval::OneWeek => "1wk",
            Interval::OneMonth => "1mo",
            Interval::ThreeMonths => "3mo",
        }
    }

    /// The key of this value as an owned string.
    pub fn to_string(&self) -> (s: String)
        ensures
            s@ == self.spec_key(),
    {
        owned(self.as_str())
    }

    /// Parses a key: the value whose key is `s`, and `None` when there is none.
    pub fn from_str(s: &str) -> (r: Option<Interval>)
        ensures
            forall|v: Interval| #[trigger] v.spec_key() == s@ <==> r == Some(v),
    {
        let r = Self::find(s);
        proof {
            assert forall|v: Interval| #[trigger] v.spec_key() == s@ implies r == Some(v) by {
                Self::lemma_key_round_trip(v, r->0);
            }
        }
        r
    }

    /// Tries the keys in declaration order.
    fn find(s: &str) -> (r: Option<Interval>)
        ensures
            r matches Some(v) ==> v.spec_key() == s@,
            r is None ==> forall|v: Interval| #[trigger] v.spec_key() != s@,
    {
        if str_eq(s, "2m") {
            return Some(Interval::TwoMinutes);
        }
        if str_eq(s, "5m") {
            return Some(Interval::FiveMinutes);
        }
        if str_eq(s, "15m") {
            return Some(Interval::FifteenMinutes);
        }
        if str_eq(s, "30m") {
            return Some(Interval::ThirtyMinutes);
        }
        if str_eq(s, "60m") {
            return Some(Interval::SixtyMinutes);
        }
        if str_eq(s, "90m") {
            return Some(Interval::NinetyMinutes);
        }
        if str_eq(s, "1h") {
            return Some(Interval::OneHour);
        }
        if str_eq(s, "1d") {
            return Some(Interval::OneDay);
        }
        if str_eq(s, "5d") {
            return Some(Interval::FiveDays);
        }
        if str_eq(s, "1wk") {
            return Some(Interval::OneWeek);
        }
        if str_eq(s, "1mo") {
            return Some(Interval::OneMonth);
        }
        if str_eq(s, "3mo") {
            return Some(Interval::ThreeMonths);
        }
        None
    }

    /// Every value, in declaration order.
    pub fn variants() -> (r: Vec<Interval>)
        ensures
            r@ == Self::spec_all(),
    {
        let r = vec![
            Interval::TwoMinutes, Interval::FiveMinutes, Interval::FifteenMinutes,
            Interval::ThirtyMinutes, Interval::SixtyMinutes, Interval::NinetyMinutes,
            Interval::OneHour, Interval::OneDay, Interval::FiveDays, Interval::OneWeek,
            Interval::OneMonth, Interval::ThreeMonths,
        ];
        assert(r@ =~= Self::spec_all());
        r
    }

    /// The keys of every value, in declaration order.
    pub fn variant_names() -> (r: Vec<&'static str>)
        ensures
            strs_view(r@) == Self::spec_names(),
    {
        let r = vec!["2m", "5m", "15m", "30m", "60m", "90m", "1h", "1d", "5d", "1wk", "1mo", "3mo"];
        assert(strs_view(r@) =~= Self::spec_names());
        r
    }

    /// Distinct values have distinct keys: the key of a value decodes to that value.
    pub proof fn lemma_decode_key(v: Interval)
        ensures
            Self::spec_decode(v.spec_key()) == Some(v),
    {
        match v {
            Interval::TwoMinutes => {
                reveal_strlit("2m");
            },
            Interval::FiveMinutes => {
                reveal_strlit("5m");
            },
            Interval::FifteenMinutes => {
                reveal_strlit("15m");
            },
            Interval::ThirtyMinutes => {
                reveal_strlit("30m");
            },
            Interval::SixtyMinutes => {
                reveal_strlit("60m");
            },
            Interval::NinetyMinutes => {
                reveal_strlit("90m");
            },
            Interval::OneHour => {
                reveal_strlit("1h");
            },
            Interval::OneDay => {
                reveal_strlit("1d");
            },
            Interval::FiveDays => {
                reveal_strlit("5d");
            },
            Interval::OneWeek => {
                reveal_strlit("1wk");
            },
            Interval::OneMonth => {
                reveal_strlit("1mo");
            },
            Interval::ThreeMonths => {
                reveal_strlit("3mo");
            },
        }
    }

    /// Parsing the key of a value gives back that value.
    pub proof fn lemma_key_round_trip(a: Interval, b: Interval)
        requires
            a.spec_key() == b.spec_key(),
        ensures
            a == b,
    {
        Self::lemma_decode_key(a);
        Self::lemma_decode_key(b);
    }
}

/// Kind of financial statement.
#[derive(Debug, Clone, Copy, PartialEq, Eq, Structural, Hash)]
pub enum StatementType {
    IncomeStatement,
    BalanceSheet,
    CashFlowStatement,
    FinancialRatios,
}

impl StatementType {
    /// The name of this statement type.
    pub open spec fn spec_key(self) -> Seq<char> {
        match self {
            StatementType::IncomeStatement => "income-statement"@,
            StatementType::BalanceSheet => "balance-sheet"@,
            StatementType::CashFlowStatement => "cash-flow"@,
            StatementType::FinancialRatios => "financial-ratios"@,
        }
    }

    /// Every value, in declaration order.
    pub open spec fn spec_all() -> Seq<StatementType> {
        seq![
            StatementType::IncomeStatement, StatementType::BalanceSheet,
            StatementType::CashFlowStatement, StatementType::FinancialRatios,
        ]
    }

    /// The keys of every value, in declaration order.
    pub open spec fn spec_names() -> Seq<Seq<char>> {
        Self::spec_all().map_values(|v: StatementType| v.spec_key())
    }

    /// Reads a value back from its key by the characters that tell the keys apart.
    pub open spec fn spec_decode(s: Seq<char>) -> Option<StatementType> {
        if s.len() == 9 {
            Some(StatementType::CashFlowStatement)
        } else if s.len() == 13 {
            Some(StatementType::BalanceSheet)
        } else if s.len() == 16 {
            if s[0] == 'f' {
                Some(StatementType::FinancialRatios)
            } else if s[0] == 'i' {
                Some(StatementType::IncomeStatement)
            } else {
                None
            }
        } else {
            None
        }
    }

    /// The key of this value.
    pub fn as_str(&self) -> (s: &'static str)
        ensures
            s@ == self.spec_key(),
    {
        match self {
            StatementType::IncomeStatement => "income-statement",
            StatementType::BalanceSheet => "balance-sheet",
            StatementType::CashFlowStatement => "cash-flow",
            StatementType::FinancialRatios => "financial-ratios",
        }
    }

    /// The key of this value as an owned string.
    pub fn to_string(&self) -> (s: String)
        ensures
            s@ == self.spec_key(),
    {
        owned(self.as_str())
    }

    /// Parses a key: the value whose key is `s`, and `None` when there is none.
    pub fn from_str(s: &str) -> (r: Option<StatementType>)
        ensures
            forall|v: StatementType| #[trigger] v.spec_key() == s@ <==> r == Some(v),
    {
        let r = Self::find(s);
        proof {
            assert forall|v: StatementType| #[trigger] v.spec_key() == s@ implies r == Some(v) by {
                Self::lemma_key_round_trip(v, r->0);
            }
        }
        r
    }

    /// Tries the keys in declaration order.
    fn find(s: &str) -> (r: Option<StatementType>)
        ensures
            r matches Some(v) ==> v.spec_key() == s@,
            r is None ==> forall|v: StatementType| #[trigger] v.spec_key() != s@,
    {
        if str_eq(s, "income-statement") {
            return Some(StatementType::IncomeStatement);
        }
        if str_eq(s, "balance-sheet") {
            return Some(StatementType::BalanceSheet);
        }
        if str_eq(s, "cash-flow") {
            return Some(StatementType::CashFlowStatement);
        }
        if str_eq(s, "financial-ratios") {
            return Some(StatementType::FinancialRatios);
        }
        None
    }

    /// Every value, in declaration order.
    pub fn variants() -> (r: Vec<StatementType>)
        ensures
            r@ == Self::spec_all(),
    {
        let r = vec![
            StatementType::IncomeStatement, StatementType::BalanceSheet,
            StatementType::CashFlowStatement, StatementType::FinancialRatios,
        ];
        assert(r@ =~= Self::spec_all());
        r
    }

    /// The keys of every value, in declaration order.
    pub fn variant_names() -> (r: Vec<&'static str>)
        ensures
            strs_view(r@) == Self::spec_names(),
    {
        let r = vec!["income-statement", "balance-sheet", "cash-flow", "financial-ratios"];
        assert(strs_view(r@) =~= Self::spec_names());
        r
    }

    /// Distinct values have distinct keys: the key of a value decodes to that value.
    pub proof fn lemma_decode_key(v: StatementType)
        ensures
            Self::spec_decode(v.spec_key()) == Some(v),
    {
        match v {
            StatementType::IncomeStatement => {
                reveal_strlit("income-statement");
            },
            StatementType::BalanceSheet => {
                reveal_strlit("balance-sheet");
            },
            StatementType::CashFlowStatement => {
                reveal_strlit("cash-flow");
            },
            StatementType::FinancialRatios => {
                reveal_strlit("financial-ratios");
            },
        }
    }

    /// Parsing the key of a value gives back that value.
    pub proof fn lemma_key_round_trip(a: StatementType, b: StatementType)
        requires
            a.spec_key() == b.spec_key(),
        ensures
            a == b,
    {
        Self::lemma_decode_key(a);
        Self::lemma_decode_key(b);
    }
}

impl StatementType {
    /// Parses a statement type; the error names the text that is not one.
    pub fn parse(s: &str) -> (r: Result<StatementType, String>)
        ensures
            r matches Ok(v) ==> v.spec_key() == s@,
            r matches Err(e) ==> (forall|v: StatementType| #[trigger] v.spec_key() != s@)
                && e@ == "StatementType '"@ + s@ + "' not implemented"@,
    {
        match StatementType::from_str(s) {
            Some(v) => Ok(v),
            None => {
                let mut e = owned("StatementType '");
                e.append(s);
                e.append("' not implemented");
                Err(e)
            },
        }
    }
}

/// Reporting frequency of financial statements.
#[derive(Debug, Clone, Copy, PartialEq, Eq, Structural, Hash)]
pub enum StatementFrequency {
    Annual,
    Quarterly,
}

impl StatementFrequency {
    /// The name of this frequency.
    pub open spec fn spec_key(self) -> Seq<char> {
        match self {
            StatementFrequency::Annual => "annual"@,
            StatementFrequency::Quarterly => "quarterly"@,
        }
    }

    /// Every value, in declaration order.
    pub open spec fn spec_all() -> Seq<StatementFrequency> {
        seq![StatementFrequency::Annual, StatementFrequency::Quarterly]
    }

    /// The keys of every value, in declaration order.
    pub open spec fn spec_names() -> Seq<Seq<char>> {
        Self::spec_all().map_values(|v: StatementFrequency| v.spec_key())
    }

    /// Reads a value back from its key by the characters that tell the keys apart.
    pub open spec fn spec_decode(s: Seq<char>) -> Option<StatementFrequency> {
        if s.len() == 6 {
            Some(StatementFrequency::Annual)
        } else if s.len() == 9 {
            Some(StatementFrequency::Quarterly)
        } else {
            None
        }
    }

    /// The key of this value.
    pub fn as_str(&self) -> (s: &'static str)
        ensures
            s@ == self.spec_key(),
    {
        match self {
            StatementFrequency::Annual => "annual",
            StatementFrequency::Quarterly => "quarterly",
        }
    }

    /// The key of this value as an owned string.
    pub fn to_string(&self) -> (s: String)
        ensures
            s@ == self.spec_key(),
    {
        owned(self.as_str())
    }

    /// Parses a key: the value whose key is `s`, and `None` when there is none.
    pub fn from_str(s: &str) -> (r: Option<StatementFrequency>)
        ensures
            forall|v: StatementFrequency| #[trigger] v.spec_key() == s@ <==> r == Some(v),
    {
        let r = Self::find(s);
        proof {
            assert forall|v: StatementFrequency| #[trigger] v.spec_key() == s@ implies r == Some(v) by {
                Self::lemma_key_round_trip(v, r->0);
            }
        }
        r
    }

    /// Tries the keys in declaration order.
    fn find(s: &str) -> (r: Option<StatementFrequency>)
        ensures
            r matches Some(v) ==> v.spec_key() == s@,
            r is None ==> forall|v: StatementFrequency| #[trigger] v.spec_key() != s@,
    {
        if str_eq(s, "annual") {
            return Some(StatementFrequency::Annual);
        }
        if str_eq(s, "quarterly") {
            return Some(StatementFrequency::Quarterly);
        }
        None
    }

    /// Every value, in declaration order.
    pub fn variants() -> (r: Vec<StatementFrequency>)
        ensures
            r@ == Self::spec_all(),
    {
        let r = vec![StatementFrequency::Annual, StatementFrequency::Quarterly];
        assert(r@ =~= Self::spec_all());
        r
    }

    /// The keys of every value, in declaration order.
    pub fn variant_names() -> (r: Vec<&'static str>)
        ensures
            strs_view(r@) == Self::spec_names(),
    {
        let r = vec!["annual", "quarterly"];
        assert(strs_view(r@) =~= Self::spec_names());
        r
    }

    /// Distinct values have distinct keys: the key of a value decodes to that value.
    pub proof fn lemma_decode_key(v: StatementFrequency)
        ensures
            Self::spec_decode(v.spec_key()) == Some(v),
    {
        match v {
            StatementFrequency::Annual => {
                reveal_strlit("annual");
            },
            StatementFrequency::Quarterly => {
                reveal_strlit("quarterly");
            },
        }
    }

    /// Parsing the key of a value gives back that value.
    pub proof fn lemma_key_round_trip(a: StatementFrequency, b: StatementFrequency)
        requires
            a.spec_key() == b.spec_key(),
        ensures
            a == b,
    {
        Self::lemma_decode_key(a);
        Self::lemma_decode_key(b);
    }
}

/// Names of the statement line items that fundamentals queries ask for.
pub struct Fundamentals;

/// The income statement line items, in request order.
pub open spec fn spec_income_statement_items() -> Seq<Seq<char>> {
    seq![
        "TotalRevenue"@, "ExciseTaxes"@, "OperatingRevenue"@, "GrossProfit"@, "CostOfRevenue"@,
        "SalariesAndWages"@, "RentAndLandingFees"@, "InsuranceAndClaims"@, "OtherGandA"@,
        "GeneralAndAdministrativeExpense"@, "SellingAndMarketingExpense"@,
        "SellingGeneralAndAdministration"@, "ResearchAndDevelopment"@,
        "DepreciationIncomeStatement"@, "AmortizationOfIntangiblesIncomeStatement"@,
        "DepreciationAndAmortizationInIncomeStatement"@, "Amortization"@,
        "DepreciationAmortizationDepletionIncomeStatement"@, "DepletionIncomeStatement"@,
        "ProvisionForDoubtfulAccounts"@, "OtherTaxes"@, "OtherOperatingExpenses"@,
        "OperatingExpense"@, "InterestIncomeNonOperating"@, "InterestExpenseNonOperating"@,
        "InterestExpense"@, "NetNonOperatingInterestIncomeExpense"@, "GainOnSaleOfSecurity"@,
        "EarningsFromEquityInterest"@, "SecuritiesAmortization"@,
        "RestructuringAndMergernAcquisition"@, "ImpairmentOfCapitalAssets"@, "WriteOff"@,
        "OtherSpecialCharges"@, "GainOnSaleOfBusiness"@, "GainOnSaleOfPPE"@,
        "SpecialIncomeCharges"@, "OtherNonOperatingIncomeExpenses"@, "OtherIncomeExpense"@,
        "PretaxIncome"@, "TaxProvision"@, "EarningsFromEquityInterestNetOfTax"@,
        "NetIncomeContinuousOperations"@, "NetIncomeDiscontinuousOperations"@,
        "NetIncomeExtraordinary"@, "NetIncomeFromTaxLossCarryforward"@,
        "NetIncomeIncludingNoncontrollingInterests"@, "MinorityInterests"@, "NetIncome"@,
        "PreferredStockDividends"@, "OtherunderPreferredStockDividend"@,
        "NetIncomeCommonStockholders"@, "AverageDilutionEarnings"@,
        "DilutedNIAvailtoComStockholders"@, "BasicContinuousOperations"@,
        "BasicDiscontinuousOperations"@, "BasicExtraordinary"@, "BasicAccountingChange"@,
        "TaxLossCarryforwardBasicEPS"@, "BasicEPSOtherGainsLosses"@, "BasicEPS"@,
        "DilutedContinuousOperations"@, "DilutedDiscontinuousOperations"@, "DilutedExtraordinary"@,
        "DilutedAccountingChange"@, "TaxLossCarryforwardDilutedEPS"@, "DilutedEPSOtherGainsLosses"@,
        "DilutedEPS"@, "BasicAverageShares"@, "DilutedAverageShares"@, "DividendPerShare"@,
        "TotalOperatingIncomeAsReported"@, "ReportedNormalizedBasicEPS"@,
        "ReportedNormalizedDilutedEPS"@, "RentExpenseSupplemental"@, "TotalExpenses"@,
        "NetIncomeFromContinuingAndDiscontinuedOperation"@, "NormalizedIncome"@,
        "ContinuingAndDiscontinuedBasicEPS"@, "ContinuingAndDiscontinuedDilutedEPS"@,
        "InterestIncome"@, "InterestExpense"@, "NetInterestIncome"@, "EBIT"@, "EBITDA"@,
        "ReconciledCostOfRevenue"@, "ReconciledDepreciation"@,
        "NetIncomeFromContinuingOperationNetMinorityInterest"@,
        "TotalUnusualItemsExcludingGoodwill"@, "TotalUnusualItems"@, "NormalizedBasicEPS"@,
        "NormalizedDilutedEPS"@, "NormalizedEBITDA"@, "TaxRateForCalcs"@,
        "TaxEffectOfUnusualItems"@,
    ]
}

/// The balance sheet line items, in request order.
pub open spec fn spec_balance_sheet_items() -> Seq<Seq<char>> {
    seq![
        "TreasurySharesNumber"@, "PreferredSharesNumber"@, "OrdinarySharesNumber"@, "ShareIssued"@,
        "NetDebt"@, "TotalDebt"@, "TangibleBookValue"@, "InvestedCapital"@, "WorkingCapital"@,
        "NetTangibleAssets"@, "CapitalLeaseObligations"@, "CommonStockEquity"@,
        "PreferredStockEquity"@, "TotalCapitalization"@, "TotalEquityGrossMinorityInterest"@,
        "MinorityInterest"@, "StockholdersEquity"@, "OtherEquityInterest"@,
        "GainsLossesNotAffectingRetainedEarnings"@, "OtherEquityAdjustments"@,
        "FixedAssetsRevaluationReserve"@, "ForeignCurrencyTranslationAdjustments"@,
        "MinimumPensionLiabilities"@, "UnrealizedGainLoss"@, "TreasuryStock"@, "RetainedEarnings"@,
        "AdditionalPaidInCapital"@, "CapitalStock"@, "OtherCapitalStock"@, "CommonStock"@,
        "PreferredStock"@, "TotalPartnershipCapital"@, "GeneralPartnershipCapital"@,
        "LimitedPartnershipCapital"@, "TotalLiabilitiesNetMinorityInterest"@,
        "TotalNonCurrentLiabilitiesNetMinorityInterest"@, "OtherNonCurrentLiabilities"@,
        "LiabilitiesHeldforSaleNonCurrent"@, "RestrictedCommonStock"@,
        "PreferredSecuritiesOutsideStockEquity"@, "DerivativeProductLiabilities"@,
        "EmployeeBenefits"@, "NonCurrentPensionAndOtherPostretirementBenefitPlans"@,
        "NonCurrentAccruedExpenses"@, "DuetoRelatedPartiesNonCurrent"@,
        "TradeandOtherPayablesNonCurrent"@, "NonCurrentDeferredLiabilities"@,
        "NonCurrentDeferredRevenue"@, "NonCurrentDeferredTaxesLiabilities"@,
        "LongTermDebtAndCapitalLeaseObligation"@, "LongTermCapitalLeaseObligation"@,
        "LongTermDebt"@, "LongTermProvisions"@, "CurrentLiabilities"@, "OtherCurrentLiabilities"@,
        "CurrentDeferredLiabilities"@, "CurrentDeferredRevenue"@,
        "CurrentDeferredTaxesLiabilities"@, "CurrentDebtAndCapitalLeaseObligation"@,
        "CurrentCapitalLeaseObligation"@, "CurrentDebt"@, "OtherCurrentBorrowings"@,
        "LineOfCredit"@, "CommercialPaper"@, "CurrentNotesPayable"@,
        "PensionandOtherPostRetirementBenefitPlansCurrent"@, "CurrentProvisions"@,
        "PayablesAndAccruedExpenses"@, "CurrentAccruedExpenses"@, "InterestPayable"@, "Payables"@,
        "OtherPayable"@, "DuetoRelatedPartiesCurrent"@, "DividendsPayable"@, "TotalTaxPayable"@,
        "IncomeTaxPayable"@, "AccountsPayable"@, "TotalAssets"@, "TotalNonCurrentAssets"@,
        "OtherNonCurrentAssets"@, "DefinedPensionBenefit"@, "NonCurrentPrepaidAssets"@,
        "NonCurrentDeferredAssets"@, "NonCurrentDeferredTaxesAssets"@,
        "DuefromRelatedPartiesNonCurrent"@, "NonCurrentNoteReceivables"@,
        "NonCurrentAccountsReceivable"@, "FinancialAssets"@, "InvestmentsAndAdvances"@,
        "OtherInvestments"@, "InvestmentinFinancialAssets"@, "HeldToMaturitySecurities"@,
        "AvailableForSaleSecurities"@,
        "FinancialAssetsDesignatedasFairValueThroughProfitorLossTotal"@, "TradingSecurities"@,
        "LongTermEquityInvestment"@, "InvestmentsinJointVenturesatCost"@,
        "InvestmentsInOtherVenturesUnderEquityMethod"@, "InvestmentsinAssociatesatCost"@,
        "InvestmentsinSubsidiariesatCost"@, "InvestmentProperties"@,
        "GoodwillAndOtherIntangibleAssets"@, "OtherIntangibleAssets"@, "Goodwill"@, "NetPPE"@,
        "AccumulatedDepreciation"@, "GrossPPE"@, "Leases"@, "ConstructionInProgress"@,
        "OtherProperties"@, "MachineryFurnitureEquipment"@, "BuildingsAndImprovements"@,
        "LandAndImprovements"@, "Properties"@, "CurrentAssets"@, "OtherCurrentAssets"@,
        "HedgingAssetsCurrent"@, "AssetsHeldForSaleCurrent"@, "CurrentDeferredAssets"@,
        "CurrentDeferredTaxesAssets"@, "RestrictedCash"@, "PrepaidAssets"@, "Inventory"@,
        "InventoriesAdjustmentsAllowances"@, "OtherInventories"@, "FinishedGoods"@,
        "WorkInProcess"@, "RawMaterials"@, "Receivables"@, "ReceivablesAdjustmentsAllowances"@,
        "OtherReceivables"@, "DuefromRelatedPartiesCurrent"@, "TaxesReceivable"@,
        "AccruedInterestReceivable"@, "NotesReceivable"@, "LoansReceivable"@, "AccountsReceivable"@,
        "AllowanceForDoubtfulAccountsReceivable"@, "GrossAccountsReceivable"@,
        "CashCashEquivalentsAndShortTermInvestments"@, "OtherShortTermInvestments"@,
        "CashAndCashEquivalents"@, "CashEquivalents"@, "CashFinancial"@,
    ]
}

/// The cash flow statement line items, in request order.
pub open spec fn spec_cash_flow_items() -> Seq<Seq<char>> {
    seq![
        "ForeignSales"@, "DomesticSales"@, "AdjustedGeographySegmentData"@, "FreeCashFlow"@,
        "RepurchaseOfCapitalStock"@, "RepaymentOfDebt"@, "IssuanceOfDebt"@,
        "IssuanceOfCapitalStock"@, "CapitalExpenditure"@, "InterestPaidSupplementalData"@,
        "IncomeTaxPaidSupplementalData"@, "EndCashPosition"@,
        "OtherCashAdjustmentOutsideChangeinCash"@, "BeginningCashPosition"@,
        "EffectOfExchangeRateChanges"@, "ChangesInCash"@, "OtherCashAdjustmentInsideChangeinCash"@,
        "CashFlowFromDiscontinuedOperation"@, "FinancingCashFlow"@,
        "CashFromDiscontinuedFinancingActivities"@, "CashFlowFromContinuingFinancingActivities"@,
        "NetOtherFinancingCharges"@, "InterestPaidCFF"@, "ProceedsFromStockOptionExercised"@,
        "CashDividendsPaid"@, "PreferredStockDividendPaid"@, "CommonStockDividendPaid"@,
        "NetPreferredStockIssuance"@, "PreferredStockPayments"@, "PreferredStockIssuance"@,
        "NetCommonStockIssuance"@, "CommonStockPayments"@, "CommonStockIssuance"@,
        "NetIssuancePaymentsOfDebt"@, "NetShortTermDebtIssuance"@, "ShortTermDebtPayments"@,
        "ShortTermDebtIssuance"@, "NetLongTermDebtIssuance"@, "LongTermDebtPayments"@,
        "LongTermDebtIssuance"@, "InvestingCashFlow"@, "CashFromDiscontinuedInvestingActivities"@,
        "CashFlowFromContinuingInvestingActivities"@, "NetOtherInvestingChanges"@,
        "InterestReceivedCFI"@, "DividendsReceivedCFI"@, "NetInvestmentPurchaseAndSale"@,
        "SaleOfInvestment"@, "PurchaseOfInvestment"@, "NetInvestmentPropertiesPurchaseAndSale"@,
        "SaleOfInvestmentProperties"@, "PurchaseOfInvestmentProperties"@,
        "NetBusinessPurchaseAndSale"@, "SaleOfBusiness"@, "PurchaseOfBusiness"@,
        "NetIntangiblesPurchaseAndSale"@, "SaleOfIntangibles"@, "PurchaseOfIntangibles"@,
        "NetPPEPurchaseAndSale"@, "SaleOfPPE"@, "PurchaseOfPPE"@, "CapitalExpenditureReported"@,
        "OperatingCashFlow"@, "CashFromDiscontinuedOperatingActivities"@,
        "CashFlowFromContinuingOperatingActivities"@, "TaxesRefundPaid"@, "InterestReceivedCFO"@,
        "InterestPaidCFO"@, "DividendReceivedCFO"@, "DividendPaidCFO"@, "ChangeInWorkingCapital"@,
        "ChangeInOtherWorkingCapital"@, "ChangeInOtherCurrentLiabilities"@,
        "ChangeInOtherCurrentAssets"@, "ChangeInPayablesAndAccruedExpense"@,
        "ChangeInAccruedExpense"@, "ChangeInInterestPayable"@, "ChangeInPayable"@,
        "ChangeInDividendPayable"@, "ChangeInAccountPayable"@, "ChangeInTaxPayable"@,
        "ChangeInIncomeTaxPayable"@, "ChangeInPrepaidAssets"@, "ChangeInInventory"@,
        "ChangeInReceivables"@, "ChangesInAccountReceivables"@, "OtherNonCashItems"@,
        "ExcessTaxBenefitFromStockBasedCompensation"@, "StockBasedCompensation"@,
        "UnrealizedGainLossOnInvestmentSecurities"@, "ProvisionandWriteOffofAssets"@,
        "AssetImpairmentCharge"@, "AmortizationOfSecurities"@, "DeferredTax"@, "DeferredIncomeTax"@,
        "DepreciationAmortizationDepletion"@, "Depletion"@, "DepreciationAndAmortization"@,
        "AmortizationCashFlow"@, "AmortizationOfIntangibles"@, "Depreciation"@,
        "OperatingGainsLosses"@, "PensionAndEmployeeBenefitExpense"@,
        "EarningsLossesFromEquityInvestments"@, "GainLossOnInvestmentSecurities"@,
        "NetForeignCurrencyExchangeGainLoss"@, "GainLossOnSaleOfPPE"@, "GainLossOnSaleOfBusiness"@,
        "NetIncomeFromContinuingOperations"@, "CashFlowsfromusedinOperatingActivitiesDirect"@,
        "TaxesRefundPaidDirect"@, "InterestReceivedDirect"@, "InterestPaidDirect"@,
        "DividendsReceivedDirect"@, "DividendsPaidDirect"@, "ClassesofCashPayments"@,
        "OtherCashPaymentsfromOperatingActivities"@, "PaymentsonBehalfofEmployees"@,
        "PaymentstoSuppliersforGoodsandServices"@, "ClassesofCashReceiptsfromOperatingActivities"@,
        "OtherCashReceiptsfromOperatingActivities"@, "ReceiptsfromGovernmentGrants"@,
        "ReceiptsfromCustomers"@,
    ]
}

impl Fundamentals {
    /// The income statement line items, each prefixed with the frequency, separated by commas.
    pub fn get_income_statement_items(&self, frequency: StatementFrequency) -> (r: String)
        ensures
            r@ == seq_join(spec_income_statement_items().map_values(|x: Seq<char>| frequency.spec_key() + x), ","@),
    {
        let items = vec![
            "TotalRevenue", "ExciseTaxes", "OperatingRevenue", "GrossProfit", "CostOfRevenue",
            "SalariesAndWages", "RentAndLandingFees", "InsuranceAndClaims", "OtherGandA",
            "GeneralAndAdministrativeExpense", "SellingAndMarketingExpense",
            "SellingGeneralAndAdministration", "ResearchAndDevelopment",
            "DepreciationIncomeStatement", "AmortizationOfIntangiblesIncomeStatement",
            "DepreciationAndAmortizationInIncomeStatement", "Amortization",
            "DepreciationAmortizationDepletionIncomeStatement", "DepletionIncomeStatement",
            "ProvisionForDoubtfulAccounts", "OtherTaxes", "OtherOperatingExpenses",
            "OperatingExpense", "InterestIncomeNonOperating", "InterestExpenseNonOperating",
            "InterestExpense", "NetNonOperatingInterestIncomeExpense", "GainOnSaleOfSecurity",
            "EarningsFromEquityInterest", "SecuritiesAmortization",
            "RestructuringAndMergernAcquisition", "ImpairmentOfCapitalAssets", "WriteOff",
            "OtherSpecialCharges", "GainOnSaleOfBusiness", "GainOnSaleOfPPE",
            "SpecialIncomeCharges", "OtherNonOperatingIncomeExpenses", "OtherIncomeExpense",
            "PretaxIncome", "TaxProvision", "EarningsFromEquityInterestNetOfTax",
            "NetIncomeContinuousOperations", "NetIncomeDiscontinuousOperations",
            "NetIncomeExtraordinary", "NetIncomeFromTaxLossCarryforward",
            "NetIncomeIncludingNoncontrollingInterests", "MinorityInterests", "NetIncome",
            "PreferredStockDividends", "OtherunderPreferredStockDividend",
            "NetIncomeCommonStockholders", "AverageDilutionEarnings",
            "DilutedNIAvailtoComStockholders", "BasicContinuousOperations",
            "BasicDiscontinuousOperations", "BasicExtraordinary", "BasicAccountingChange",
            "TaxLossCarryforwardBasicEPS", "BasicEPSOtherGainsLosses", "BasicEPS",
            "DilutedContinuousOperations", "DilutedDiscontinuousOperations", "DilutedExtraordinary",
            "DilutedAccountingChange", "TaxLossCarryforwardDilutedEPS",
            "DilutedEPSOtherGainsLosses", "DilutedEPS", "BasicAverageShares",
            "DilutedAverageShares", "DividendPerShare", "TotalOperatingIncomeAsReported",
            "ReportedNormalizedBasicEPS", "ReportedNormalizedDilutedEPS", "RentExpenseSupplemental",
            "TotalExpenses", "NetIncomeFromContinuingAndDiscontinuedOperation", "NormalizedIncome",
            "ContinuingAndDiscontinuedBasicEPS", "ContinuingAndDiscontinuedDilutedEPS",
            "InterestIncome", "InterestExpense", "NetInterestIncome", "EBIT", "EBITDA",
            "ReconciledCostOfRevenue", "ReconciledDepreciation",
            "NetIncomeFromContinuingOperationNetMinorityInterest",
            "TotalUnusualItemsExcludingGoodwill", "TotalUnusualItems", "NormalizedBasicEPS",
            "NormalizedDilutedEPS", "NormalizedEBITDA", "TaxRateForCalcs",
            "TaxEffectOfUnusualItems",
        ];
        assert(strs_view(items@) =~= spec_income_statement_items());
        join_prefixed(frequency.as_str(), &items, ",")
    }

    /// The balance sheet line items, each prefixed with the frequency, separated by commas.
    pub fn get_balance_sheet_items(&self, frequency: StatementFrequency) -> (r: String)
        ensures
            r@ == seq_join(spec_balance_sheet_items().map_values(|x: Seq<char>| frequency.spec_key() + x), ","@),
    {
        let items = vec![
            "TreasurySharesNumber", "PreferredSharesNumber", "OrdinarySharesNumber", "ShareIssued",
            "NetDebt", "TotalDebt", "TangibleBookValue", "InvestedCapital", "WorkingCapital",
            "NetTangibleAssets", "CapitalLeaseObligations", "CommonStockEquity",
            "PreferredStockEquity", "TotalCapitalization", "TotalEquityGrossMinorityInterest",
            "MinorityInterest", "StockholdersEquity", "OtherEquityInterest",
            "GainsLossesNotAffectingRetainedEarnings", "OtherEquityAdjustments",
            "FixedAssetsRevaluationReserve", "ForeignCurrencyTranslationAdjustments",
            "MinimumPensionLiabilities", "UnrealizedGainLoss", "TreasuryStock", "RetainedEarnings",
            "AdditionalPaidInCapital", "CapitalStock", "OtherCapitalStock", "CommonStock",
            "PreferredStock", "TotalPartnershipCapital", "GeneralPartnershipCapital",
            "LimitedPartnershipCapital", "TotalLiabilitiesNetMinorityInterest",
            "TotalNonCurrentLiabilitiesNetMinorityInterest", "OtherNonCurrentLiabilities",
            "LiabilitiesHeldforSaleNonCurrent", "RestrictedCommonStock",
            "PreferredSecuritiesOutsideStockEquity", "DerivativeProductLiabilities",
            "EmployeeBenefits", "NonCurrentPensionAndOtherPostretirementBenefitPlans",
            "NonCurrentAccruedExpenses", "DuetoRelatedPartiesNonCurrent",
            "TradeandOtherPayablesNonCurrent", "NonCurrentDeferredLiabilities",
            "NonCurrentDeferredRevenue", "NonCurrentDeferredTaxesLiabilities",
            "LongTermDebtAndCapitalLeaseObligation", "LongTermCapitalLeaseObligation",
            "LongTermDebt", "LongTermProvisions", "CurrentLiabilities", "OtherCurrentLiabilities",
            "CurrentDeferredLiabilities", "CurrentDeferredRevenue",
            "CurrentDeferredTaxesLiabilities", "CurrentDebtAndCapitalLeaseObligation",
            "CurrentCapitalLeaseObligation", "CurrentDebt", "OtherCurrentBorrowings",
            "LineOfCredit", "CommercialPaper", "CurrentNotesPayable",
            "PensionandOtherPostRetirementBenefitPlansCurrent", "CurrentProvisions",
            "PayablesAndAccruedExpenses", "CurrentAccruedExpenses", "InterestPayable", "Payables",
            "OtherPayable", "DuetoRelatedPartiesCurrent", "DividendsPayable", "TotalTaxPayable",
            "IncomeTaxPayable", "AccountsPayable", "TotalAssets", "TotalNonCurrentAssets",
            "OtherNonCurrentAssets", "DefinedPensionBenefit", "NonCurrentPrepaidAssets",
            "NonCurrentDeferredAssets", "NonCurrentDeferredTaxesAssets",
            "DuefromRelatedPartiesNonCurrent", "NonCurrentNoteReceivables",
            "NonCurrentAccountsReceivable", "FinancialAssets", "InvestmentsAndAdvances",
            "OtherInvestments", "InvestmentinFinancialAssets", "HeldToMaturitySecurities",
            "AvailableForSaleSecurities",
            "FinancialAssetsDesignatedasFairValueThroughProfitorLossTotal", "TradingSecurities",
            "LongTermEquityInvestment", "InvestmentsinJointVenturesatCost",
            "InvestmentsInOtherVenturesUnderEquityMethod", "InvestmentsinAssociatesatCost",
            "InvestmentsinSubsidiariesatCost", "InvestmentProperties",
            "GoodwillAndOtherIntangibleAssets", "OtherIntangibleAssets", "Goodwill", "NetPPE",
            "AccumulatedDepreciation", "GrossPPE", "Leases", "ConstructionInProgress",
            "OtherProperties", "MachineryFurnitureEquipment", "BuildingsAndImprovements",
            "LandAndImprovements", "Properties", "CurrentAssets", "OtherCurrentAssets",
            "HedgingAssetsCurrent", "AssetsHeldForSaleCurrent", "CurrentDeferredAssets",
            "CurrentDeferredTaxesAssets", "RestrictedCash", "PrepaidAssets", "Inventory",
            "InventoriesAdjustmentsAllowances", "OtherInventories", "FinishedGoods",
            "WorkInProcess", "RawMaterials", "Receivables", "ReceivablesAdjustmentsAllowances",
            "OtherReceivables", "DuefromRelatedPartiesCurrent", "TaxesReceivable",
            "AccruedInterestReceivable", "NotesReceivable", "LoansReceivable", "AccountsReceivable",
            "AllowanceForDoubtfulAccountsReceivable", "GrossAccountsReceivable",
            "CashCashEquivalentsAndShortTermInvestments", "OtherShortTermInvestments",
            "CashAndCashEquivalents", "CashEquivalents", "CashFinancial",
        ];
        assert(strs_view(items@) =~= spec_balance_sheet_items());
        join_prefixed(frequency.as_str(), &items, ",")
    }

    /// The cash flow statement line items, each prefixed with the frequency, separated by commas.
    pub fn get_cash_flow_items(&self, frequency: StatementFrequency) -> (r: String)
        ensures
            r@ == seq_join(spec_cash_flow_items().map_values(|x: Seq<char>| frequency.spec_key() + x), ","@),
    {
        let items = vec![
            "ForeignSales", "DomesticSales", "AdjustedGeographySegmentData", "FreeCashFlow",
            "RepurchaseOfCapitalStock", "RepaymentOfDebt", "IssuanceOfDebt",
            "IssuanceOfCapitalStock", "CapitalExpenditure", "InterestPaidSupplementalData",
            "IncomeTaxPaidSupplementalData", "EndCashPosition",
            "OtherCashAdjustmentOutsideChangeinCash", "BeginningCashPosition",
            "EffectOfExchangeRateChanges", "ChangesInCash", "OtherCashAdjustmentInsideChangeinCash",
            "CashFlowFromDiscontinuedOperation", "FinancingCashFlow",
            "CashFromDiscontinuedFinancingActivities", "CashFlowFromContinuingFinancingActivities",
            "NetOtherFinancingCharges", "InterestPaidCFF", "ProceedsFromStockOptionExercised",
            "CashDividendsPaid", "PreferredStockDividendPaid", "CommonStockDividendPaid",
            "NetPreferredStockIssuance", "PreferredStockPayments", "PreferredStockIssuance",
            "NetCommonStockIssuance", "CommonStockPayments", "CommonStockIssuance",
            "NetIssuancePaymentsOfDebt", "NetShortTermDebtIssuance", "ShortTermDebtPayments",
            "ShortTermDebtIssuance", "NetLongTermDebtIssuance", "LongTermDebtPayments",
            "LongTermDebtIssuance", "InvestingCashFlow", "CashFromDiscontinuedInvestingActivities",
            "CashFlowFromContinuingInvestingActivities", "NetOtherInvestingChanges",
            "InterestReceivedCFI", "DividendsReceivedCFI", "NetInvestmentPurchaseAndSale",
            "SaleOfInvestment", "PurchaseOfInvestment", "NetInvestmentPropertiesPurchaseAndSale",
            "SaleOfInvestmentProperties", "PurchaseOfInvestmentProperties",
            "NetBusinessPurchaseAndSale", "SaleOfBusiness", "PurchaseOfBusiness",
            "NetIntangiblesPurchaseAndSale", "SaleOfIntangibles", "PurchaseOfIntangibles",
            "NetPPEPurchaseAndSale", "SaleOfPPE", "PurchaseOfPPE", "CapitalExpenditureReported",
            "OperatingCashFlow", "CashFromDiscontinuedOperatingActivities",
            "CashFlowFromContinuingOperatingActivities", "TaxesRefundPaid", "InterestReceivedCFO",
            "InterestPaidCFO", "DividendReceivedCFO", "DividendPaidCFO", "ChangeInWorkingCapital",
            "ChangeInOtherWorkingCapital", "ChangeInOtherCurrentLiabilities",
            "ChangeInOtherCurrentAssets", "ChangeInPayablesAndAccruedExpense",
            "ChangeInAccruedExpense", "ChangeInInterestPayable", "ChangeInPayable",
            "ChangeInDividendPayable", "ChangeInAccountPayable", "ChangeInTaxPayable",
            "ChangeInIncomeTaxPayable", "ChangeInPrepaidAssets", "ChangeInInventory",
            "ChangeInReceivables", "ChangesInAccountReceivables", "OtherNonCashItems",
            "ExcessTaxBenefitFromStockBasedCompensation", "StockBasedCompensation",
            "UnrealizedGainLossOnInvestmentSecurities", "ProvisionandWriteOffofAssets",
            "AssetImpairmentCharge", "AmortizationOfSecurities", "DeferredTax", "DeferredIncomeTax",
            "DepreciationAmortizationDepletion", "Depletion", "DepreciationAndAmortization",
            "AmortizationCashFlow", "AmortizationOfIntangibles", "Depreciation",
            "OperatingGainsLosses", "PensionAndEmployeeBenefitExpense",
            "EarningsLossesFromEquityInvestments", "GainLossOnInvestmentSecurities",
            "NetForeignCurrencyExchangeGainLoss", "GainLossOnSaleOfPPE", "GainLossOnSaleOfBusiness",
            "NetIncomeFromContinuingOperations", "CashFlowsfromusedinOperatingActivitiesDirect",
            "TaxesRefundPaidDirect", "InterestReceivedDirect", "InterestPaidDirect",
            "DividendsReceivedDirect", "DividendsPaidDirect", "ClassesofCashPayments",
            "OtherCashPaymentsfromOperatingActivities", "PaymentsonBehalfofEmployees",
            "PaymentstoSuppliersforGoodsandServices",
            "ClassesofCashReceiptsfromOperatingActivities",
            "OtherCashReceiptsfromOperatingActivities", "ReceiptsfromGovernmentGrants",
            "ReceiptsfromCustomers",
        ];
        assert(strs_view(items@) =~= spec_cash_flow_items());
        join_prefixed(frequency.as_str(), &items, ",")
    }

}

/// The statement line items that fundamentals queries ask for, each prefixed
/// with the frequency: 95 income statement items (revenue, gross profit,
/// operating expense, net income, EPS, EBIT and EBITDA among them), 144
/// balance sheet items (total assets, current assets and liabilities, total
/// liabilities, equity, debt and cash among them) and 123 cash flow items
/// (operating, investing, financing and free cash flow and capital expenditure
/// among them).
pub proof fn lemma_statement_line_items(f: StatementFrequency)
    ensures
        spec_income_statement_items().len() == 95,
        spec_balance_sheet_items().len() == 144,
        spec_cash_flow_items().len() == 123,
        ({
            let income = spec_income_statement_items().map_values(|x: Seq<char>| f.spec_key() + x);
            &&& income.contains(f.spec_key() + "TotalRevenue"@)
            &&& income.contains(f.spec_key() + "GrossProfit"@)
            &&& income.contains(f.spec_key() + "OperatingExpense"@)
            &&& income.contains(f.spec_key() + "NetIncome"@)
            &&& income.contains(f.spec_key() + "BasicEPS"@)
            &&& income.contains(f.spec_key() + "DilutedEPS"@)
            &&& income.contains(f.spec_key() + "EBIT"@)
            &&& income.contains(f.spec_key() + "EBITDA"@)
        }),
        ({
            let balance = spec_balance_sheet_items().map_values(|x: Seq<char>| f.spec_key() + x);
            &&& balance.contains(f.spec_key() + "TotalAssets"@)
            &&& balance.contains(f.spec_key() + "CurrentAssets"@)
            &&& balance.contains(f.spec_key() + "CurrentLiabilities"@)
            &&& balance.contains(f.spec_key() + "TotalLiabilitiesNetMinorityInterest"@)
            &&& balance.contains(f.spec_key() + "StockholdersEquity"@)
            &&& balance.contains(f.spec_key() + "TotalDebt"@)
            &&& balance.contains(f.spec_key() + "CashAndCashEquivalents"@)
        }),
        ({
            let cash = spec_cash_flow_items().map_values(|x: Seq<char>| f.spec_key() + x);
            &&& cash.contains(f.spec_key() + "OperatingCashFlow"@)
            &&& cash.contains(f.spec_key() + "InvestingCashFlow"@)
            &&& cash.contains(f.spec_key() + "FinancingCashFlow"@)
            &&& cash.contains(f.spec_key() + "FreeCashFlow"@)
            &&& cash.contains(f.spec_key() + "CapitalExpenditure"@)
        }),
{
    let k = f.spec_key();
    let income = spec_income_statement_items().map_values(|x: Seq<char>| k + x);
    assert(income[0] == k + "TotalRevenue"@);
    assert(income[3] == k + "GrossProfit"@);
    assert(income[22] == k + "OperatingExpense"@);
    assert(income[48] == k + "NetIncome"@);
    assert(income[60] == k + "BasicEPS"@);
    assert(income[67] == k + "DilutedEPS"@);
    assert(income[83] == k + "EBIT"@);
    assert(income[84] == k + "EBITDA"@);
    let balance = spec_balance_sheet_items().map_values(|x: Seq<char>| k + x);
    assert(balance[77] == k + "TotalAssets"@);
    assert(balance[114] == k + "CurrentAssets"@);
    assert(balance[53] == k + "CurrentLiabilities"@);
    assert(balance[34] == k + "TotalLiabilitiesNetMinorityInterest"@);
    assert(balance[16] == k + "StockholdersEquity"@);
    assert(balance[5] == k + "TotalDebt"@);
    assert(balance[141] == k + "CashAndCashEquivalents"@);
    let cash = spec_cash_flow_items().map_values(|x: Seq<char>| k + x);
    assert(cash[62] == k + "OperatingCashFlow"@);
    assert(cash[40] == k + "InvestingCashFlow"@);
    assert(cash[18] == k + "FinancingCashFlow"@);
    assert(cash[3] == k + "FreeCashFlow"@);
    assert(cash[8] == k + "CapitalExpenditure"@);
}

} // verus!
