//! The summary table of a ticker: the statistics that the quote summary
//! service reports, as the text it formats them in, under display labels.

use vstd::prelude::*;
use crate::text::{owned, strs_view};
use crate::periods::strings_view;

verus! {

/// A statistic as the service formats it: short and long text.
#[derive(Debug, Clone, Default)]
pub struct FormattedValue {
    pub formatted: Option<String>,
    pub long_formatted: Option<String>,
}

/// Key statistics of a ticker, as formatted text.
#[derive(Debug, Clone, Default)]
pub struct KeyStatistics {
    pub fiscal_year_end: Option<FormattedValue>,
    pub most_recent_quarter: Option<FormattedValue>,
    pub next_fiscal_year_end: Option<FormattedValue>,
    pub week_change_52: Option<FormattedValue>,
    pub sandp_52_week_change: Option<FormattedValue>,
    pub beta: Option<FormattedValue>,
    pub book_value: Option<FormattedValue>,
    pub enterprise_to_ebitda: Option<FormattedValue>,
    pub enterprise_to_revenue: Option<FormattedValue>,
    pub enterprise_value: Option<FormattedValue>,
    pub forward_eps: Option<FormattedValue>,
    pub forward_pe: Option<FormattedValue>,
    pub price_to_book: Option<FormattedValue>,
    pub float_shares: Option<FormattedValue>,
    pub held_percent_insiders: Option<FormattedValue>,
    pub held_percent_institutions: Option<FormattedValue>,
    pub shares_outstanding: Option<FormattedValue>,
    pub shares_short: Option<FormattedValue>,
    pub shares_short_prev_month_date: Option<FormattedValue>,
    pub shares_short_prior_month: Option<FormattedValue>,
    pub short_percent_of_float: Option<FormattedValue>,
    pub short_ratio: Option<FormattedValue>,
    pub last_dividend_date: Option<FormattedValue>,
    pub last_dividend_value: Option<FormattedValue>,
    pub last_split_date: Option<FormattedValue>,
    pub last_split_factor: Option<String>,
    pub annual_holdings_turnover: Option<FormattedValue>,
    pub annual_expense_ratio: Option<FormattedValue>,
    pub beta_3year: Option<FormattedValue>,
    pub category: Option<String>,
    pub fund_family: Option<String>,
    pub fund_inception_date: Option<FormattedValue>,
    pub morning_star_overall_rating: Option<FormattedValue>,
    pub morning_star_risk_rating: Option<FormattedValue>,
    pub total_assets: Option<FormattedValue>,
    pub yields: Option<FormattedValue>,
    pub ytd_return: Option<FormattedValue>,
    pub three_year_avg_return: Option<FormattedValue>,
    pub five_year_avg_return: Option<FormattedValue>,
    pub date_short_interest: Option<FormattedValue>,
    pub earnings_quarterly_growth: Option<FormattedValue>,
    pub net_income_to_common: Option<FormattedValue>,
    pub trailing_eps: Option<FormattedValue>,
}

/// Financial data of a ticker, as formatted text.
#[derive(Debug, Clone, Default)]
pub struct FinancialData {
    pub total_revenue: Option<FormattedValue>,
    pub revenue_per_share: Option<FormattedValue>,
    pub revenue_growth: Option<FormattedValue>,
    pub gross_profits: Option<FormattedValue>,
    pub gross_margins: Option<FormattedValue>,
    pub ebitda: Option<FormattedValue>,
    pub ebitda_margins: Option<FormattedValue>,
    pub operating_margins: Option<FormattedValue>,
    pub net_income_to_common: Option<FormattedValue>,
    pub earnings_growth: Option<FormattedValue>,
    pub profit_margins: Option<FormattedValue>,
    pub return_on_assets: Option<FormattedValue>,
    pub return_on_equity: Option<FormattedValue>,
    pub total_cash: Option<FormattedValue>,
    pub total_debt: Option<FormattedValue>,
    pub total_cash_per_share: Option<FormattedValue>,
    pub debt_to_equity: Option<FormattedValue>,
    pub current_ratio: Option<FormattedValue>,
    pub quick_ratio: Option<FormattedValue>,
    pub operating_cash_flow: Option<FormattedValue>,
    pub free_cash_flow: Option<FormattedValue>,
    pub recommendation_mean: Option<FormattedValue>,
    pub recommendation_key: Option<String>,
    pub analyst_opinions_count: Option<FormattedValue>,
    pub current_price: Option<FormattedValue>,
    pub target_high_price: Option<FormattedValue>,
    pub target_low_price: Option<FormattedValue>,
    pub target_mean_price: Option<FormattedValue>,
    pub target_median_price: Option<FormattedValue>,
}

/// Trading summary of a ticker, as formatted text.
#[derive(Debug, Clone, Default)]
pub struct SummaryDetail {
    pub open: Option<FormattedValue>,
    pub day_high: Option<FormattedValue>,
    pub day_low: Option<FormattedValue>,
    pub previous_close: Option<FormattedValue>,
    pub bid: Option<FormattedValue>,
    pub ask: Option<FormattedValue>,
    pub volume: Option<FormattedValue>,
    pub avg_volume: Option<FormattedValue>,
    pub avg_volume_10_day: Option<FormattedValue>,
    pub dividend_rate: Option<FormattedValue>,
    pub dividend_yield: Option<FormattedValue>,
    pub ex_dividend_date: Option<FormattedValue>,
    pub payout_ratio: Option<FormattedValue>,
    pub fifty_day_avg: Option<FormattedValue>,
    pub two_hundred_day_avg: Option<FormattedValue>,
    pub market_cap: Option<FormattedValue>,
    pub price_to_sales_ttm: Option<FormattedValue>,
    pub yields: Option<FormattedValue>,
    pub ytd_return: Option<FormattedValue>,
    pub circulating_supply: Option<FormattedValue>,
    pub coin_market_cap_link: Option<String>,
    pub currency: Option<String>,
}

/// The quote summary of a ticker.
#[derive(Debug, Clone, Default)]
pub struct TickerSummaryStats {
    pub default_key_statistics: Option<KeyStatistics>,
    pub financial_data: Option<FinancialData>,
    pub summary_detail: Option<SummaryDetail>,
}

/// The short text of a statistic, empty when there is none.
pub open spec fn fmt_of(v: Option<FormattedValue>) -> Seq<char> {
    match v {
        Some(f) => match f.formatted {
            Some(s) => s@,
            None => Seq::empty(),
        },
        None => Seq::empty(),
    }
}

/// The long text of a statistic, empty when there is none.
pub open spec fn long_of(v: Option<FormattedValue>) -> Seq<char> {
    match v {
        Some(f) => match f.long_formatted {
            Some(s) => s@,
            None => Seq::empty(),
        },
        None => Seq::empty(),
    }
}

/// A text, empty when there is none.
pub open spec fn text_of(v: Option<String>) -> Seq<char> {
    match v {
        Some(s) => s@,
        None => Seq::empty(),
    }
}

impl TickerSummaryStats {
    /// A text read from the key statistics, empty without them.
    pub open spec fn key_stat(self, f: spec_fn(KeyStatistics) -> Seq<char>) -> Seq<char> {
        match self.default_key_statistics {
            Some(d) => f(d),
            None => Seq::empty(),
        }
    }

    /// A text read from the financial data, empty without them.
    pub open spec fn financial(self, f: spec_fn(FinancialData) -> Seq<char>) -> Seq<char> {
        match self.financial_data {
            Some(d) => f(d),
            None => Seq::empty(),
        }
    }

    /// A text read from the trading summary, empty without it.
    pub open spec fn detail(self, f: spec_fn(SummaryDetail) -> Seq<char>) -> Seq<char> {
        match self.summary_detail {
            Some(d) => f(d),
            None => Seq::empty(),
        }
    }
}

fn fmt_text(v: &Option<FormattedValue>) -> (r: String)
    ensures
        r@ == fmt_of(*v),
{
    match v {
        Some(f) => match &f.formatted {
            Some(s) => owned(s.as_str()),
            None => String::new(),
        },
        None => String::new(),
    }
}

fn long_text(v: &Option<FormattedValue>) -> (r: String)
    ensures
        r@ == long_of(*v),
{
    match v {
        Some(f) => match &f.long_formatted {
            Some(s) => owned(s.as_str()),
            None => String::new(),
        },
        None => String::new(),
    }
}

fn opt_text(v: &Option<String>) -> (r: String)
    ensures
        r@ == text_of(*v),
{
    match v {
        Some(s) => owned(s.as_str()),
        None => String::new(),
    }
}

/// The labels of the summary table, in row order.
pub open spec fn spec_summary_fields() -> Seq<Seq<char>> {
    seq![
        "Currency"@,
        "Current Price"@,
        "Day Range"@,
        "52 Week Change"@,
        "Previous Close"@,
        "Open"@,
        "Bid/Ask"@,
        "Volume"@,
        "50 Day Avg"@,
        "200 Day Avg"@,
        "Total Revenue"@,
        "Revenue Per Share"@,
        "Revenue Growth"@,
        "Gross Profit"@,
        "EBITDA"@,
        "EBITDA Margin"@,
        "Operating Margin"@,
        "Net Profit Margin"@,
        "Earnings Growth"@,
        "Return on Equity"@,
        "Return on Assets"@,
        "Total Cash"@,
        "Total Debt"@,
        "Debt to Equity"@,
        "Current Ratio"@,
        "Quick Ratio"@,
        "Operating Cash Flow"@,
        "Free Cash Flow"@,
        "Market Cap"@,
        "Enterprise Value"@,
        "Enterprise to EBITDA"@,
        "Enterprise to Revenue"@,
        "Forward EPS"@,
        "P/E (Forward)"@,
        "Price to Book"@,
        "Beta (5Y Monthly)"@,
        "Dividend Yield"@,
        "Dividend Rate"@,
        "Payout Ratio"@,
        "Ex-Dividend Date"@,
        "Last Split"@,
        "Shares Outstanding"@,
        "Float Shares"@,
        "Short Interest"@,
        "Short % of Float"@,
        "% Held by Institutions"@,
        "Analyst Consensus"@,
        "Average Target"@,
        "High/Low Target"@,
        "Analyst Count"@,
        "Total Assets"@,
        "Fund Family"@,
        "Fund Inception Date"@,
        "Category"@,
        "Yield"@,
        "YTD Return"@,
        "3Y Avg Return"@,
        "5Y Avg Return"@,
        "Beta (3Y)"@,
        "Morningstar Overall Rating"@,
        "Morningstar Risk Rating"@,
        "Annual Holdings Turnover"@,
        "Annual Expense Ratio"@,
        "Circulating Supply"@,
        "CoinMarketCap Link"@,
    ]
}

impl TickerSummaryStats {
    /// The values of the summary table, in row order: each statistic's text,
    /// with the currency defaulting to USD and a few rows combining two
    /// statistics.
    pub open spec fn spec_summary_values(self) -> Seq<Seq<char>> {
        seq![
            match self.summary_detail {
                Some(x) => match x.currency {
                    Some(c) => c@,
                    None => "USD"@,
                },
                None => "USD"@,
            },
            self.financial(|x: FinancialData| fmt_of(x.current_price)),
            self.detail(|x: SummaryDetail| fmt_of(x.day_high)) + " - "@
                + self.detail(|x: SummaryDetail| fmt_of(x.day_low)),
            self.key_stat(|x: KeyStatistics| fmt_of(x.week_change_52)),
            self.detail(|x: SummaryDetail| fmt_of(x.previous_close)),
            self.detail(|x: SummaryDetail| fmt_of(x.open)),
            self.detail(|x: SummaryDetail| fmt_of(x.bid)) + " / "@
                + self.detail(|x: SummaryDetail| fmt_of(x.ask)),
            self.detail(|x: SummaryDetail| long_of(x.volume)),
            self.detail(|x: SummaryDetail| fmt_of(x.fifty_day_avg)),
            self.detail(|x: SummaryDetail| fmt_of(x.two_hundred_day_avg)),
            self.financial(|x: FinancialData| long_of(x.total_revenue)),
            self.financial(|x: FinancialData| fmt_of(x.revenue_per_share)),
            self.financial(|x: FinancialData| fmt_of(x.revenue_growth)),
            self.financial(|x: FinancialData| long_of(x.gross_profits)),
            self.financial(|x: FinancialData| long_of(x.ebitda)),
            self.financial(|x: FinancialData| fmt_of(x.ebitda_margins)),
            self.financial(|x: FinancialData| fmt_of(x.operating_margins)),
            self.financial(|x: FinancialData| fmt_of(x.profit_margins)),
            self.financial(|x: FinancialData| fmt_of(x.earnings_growth)),
            self.financial(|x: FinancialData| fmt_of(x.return_on_equity)),
            self.financial(|x: FinancialData| fmt_of(x.return_on_assets)),
            self.financial(|x: FinancialData| long_of(x.total_cash)),
            self.financial(|x: FinancialData| long_of(x.total_debt)),
            self.financial(|x: FinancialData| fmt_of(x.debt_to_equity)),
            self.financial(|x: FinancialData| fmt_of(x.current_ratio)),
            self.financial(|x: FinancialData| fmt_of(x.quick_ratio)),
            self.financial(|x: FinancialData| long_of(x.operating_cash_flow)),
            self.financial(|x: FinancialData| long_of(x.free_cash_flow)),
            self.detail(|x: SummaryDetail| long_of(x.market_cap)),
            self.key_stat(|x: KeyStatistics| long_of(x.enterprise_value)),
            self.key_stat(|x: KeyStatistics| fmt_of(x.enterprise_to_ebitda)),
            self.key_stat(|x: KeyStatistics| fmt_of(x.enterprise_to_revenue)),
            self.key_stat(|x: KeyStatistics| fmt_of(x.forward_eps)),
            self.key_stat(|x: KeyStatistics| fmt_of(x.forward_pe)),
            self.key_stat(|x: KeyStatistics| fmt_of(x.price_to_book)),
            self.key_stat(|x: KeyStatistics| fmt_of(x.beta)),
            self.detail(|x: SummaryDetail| fmt_of(x.dividend_yield)),
            self.detail(|x: SummaryDetail| fmt_of(x.dividend_rate)),
            self.detail(|x: SummaryDetail| fmt_of(x.payout_ratio)),
            self.detail(|x: SummaryDetail| fmt_of(x.ex_dividend_date)),
            self.key_stat(|x: KeyStatistics| fmt_of(x.last_split_date)) + " ("@
                + self.key_stat(|x: KeyStatistics| text_of(x.last_split_factor)) + ")"@,
            self.key_stat(|x: KeyStatistics| long_of(x.shares_outstanding)),
            self.key_stat(|x: KeyStatistics| long_of(x.float_shares)),
            self.key_stat(|x: KeyStatistics| long_of(x.shares_short)),
            self.key_stat(|x: KeyStatistics| fmt_of(x.short_percent_of_float)),
            self.key_stat(|x: KeyStatistics| fmt_of(x.held_percent_institutions)),
            self.financial(|x: FinancialData| text_of(x.recommendation_key)),
            "Median: "@ + self.financial(|x: FinancialData| fmt_of(x.target_median_price))
                + ", Mean: "@ + self.financial(|x: FinancialData| fmt_of(x.target_mean_price)),
            self.financial(|x: FinancialData| fmt_of(x.target_high_price)) + " - "@
                + self.financial(|x: FinancialData| fmt_of(x.target_low_price)),
            self.financial(|x: FinancialData| fmt_of(x.analyst_opinions_count)),
            self.key_stat(|x: KeyStatistics| fmt_of(x.annual_holdings_turnover)),
            self.key_stat(|x: KeyStatistics| fmt_of(x.annual_expense_ratio)),
            self.key_stat(|x: KeyStatistics| fmt_of(x.beta_3year)),
            self.key_stat(|x: KeyStatistics| text_of(x.category)),
            self.key_stat(|x: KeyStatistics| text_of(x.fund_family)),
            self.key_stat(|x: KeyStatistics| fmt_of(x.fund_inception_date)),
            self.key_stat(|x: KeyStatistics| fmt_of(x.morning_star_overall_rating)),
            self.key_stat(|x: KeyStatistics| fmt_of(x.morning_star_risk_rating)),
            self.key_stat(|x: KeyStatistics| long_of(x.total_assets)),
            self.key_stat(|x: KeyStatistics| match x.yields {
                Some(v) => match v.formatted {
                    Some(t) => t@,
                    None => self.detail(|x: SummaryDetail| fmt_of(x.yields)),
                },
                None => Seq::empty(),
            }),
            self.key_stat(|x: KeyStatistics| match x.ytd_return {
                Some(v) => match v.formatted {
                    Some(t) => t@,
                    None => self.detail(|x: SummaryDetail| fmt_of(x.ytd_return)),
                },
                None => Seq::empty(),
            }),
            self.key_stat(|x: KeyStatistics| fmt_of(x.three_year_avg_return)),
            self.key_stat(|x: KeyStatistics| fmt_of(x.five_year_avg_return)),
            self.detail(|x: SummaryDetail| long_of(x.circulating_supply)),
            self.detail(|x: SummaryDetail| text_of(x.coin_market_cap_link))
        ]
    }

    /// The summary table as its labels and, row by row, its values.
    #[verifier::rlimit(50)]
    pub fn summary_table(&self) -> (r: (Vec<&'static str>, Vec<String>))
        ensures
            strs_view(r.0@) == spec_summary_fields(),
            strings_view(r.1@) == self.spec_summary_values(),
    {
        let fields: Vec<&'static str> = vec![
            "Currency",
            "Current Price",
            "Day Range",
            "52 Week Change",
            "Previous Close",
            "Open",
            "Bid/Ask",
            "Volume",
            "50 Day Avg",
            "200 Day Avg",
            "Total Revenue",
            "Revenue Per Share",
            "Revenue Growth",
            "Gross Profit",
            "EBITDA",
            "EBITDA Margin",
            "Operating Margin",
            "Net Profit Margin",
            "Earnings Growth",
            "Return on Equity",
            "Return on Assets",
            "Total Cash",
            "Total Debt",
            "Debt to Equity",
            "Current Ratio",
            "Quick Ratio",
            "Operating Cash Flow",
            "Free Cash Flow",
            "Market Cap",
            "Enterprise Value",
            "Enterprise to EBITDA",
            "Enterprise to Revenue",
            "Forward EPS",
            "P/E (Forward)",
            "Price to Book",
            "Beta (5Y Monthly)",
            "Dividend Yield",
            "Dividend Rate",
            "Payout Ratio",
            "Ex-Dividend Date",
            "Last Split",
            "Shares Outstanding",
            "Float Shares",
            "Short Interest",
            "Short % of Float",
            "% Held by Institutions",
            "Analyst Consensus",
            "Average Target",
            "High/Low Target",
            "Analyst Count",
            "Total Assets",
            "Fund Family",
            "Fund Inception Date",
            "Category",
            "Yield",
            "YTD Return",
            "3Y Avg Return",
            "5Y Avg Return",
            "Beta (3Y)",
            "Morningstar Overall Rating",
            "Morningstar Risk Rating",
            "Annual Holdings Turnover",
            "Annual Expense Ratio",
            "Circulating Supply",
            "CoinMarketCap Link",
        ];
        assert(strs_view(fields@) =~= spec_summary_fields());
        let v0 = match &self.summary_detail {
            Some(x) => match &x.currency {
                Some(c) => owned(c.as_str()),
                None => owned("USD"),
            },
            None => owned("USD"),
        };
        let v1 = match &self.financial_data {
            Some(x) => fmt_text(&x.current_price),
            None => String::new(),
        };
        let mut v2 = match &self.summary_detail {
            Some(x) => fmt_text(&x.day_high),
            None => String::new(),
        };
        let v2b = match &self.summary_detail {
            Some(x) => fmt_text(&x.day_low),
            None => String::new(),
        };
        v2.append(" - ");
        v2.append(v2b.as_str());
        let v3 = match &self.default_key_statistics {
            Some(x) => fmt_text(&x.week_change_52),
            None => String::new(),
        };
        let v4 = match &self.summary_detail {
            Some(x) => fmt_text(&x.previous_close),
            None => String::new(),
        };
        let v5 = match &self.summary_detail {
            Some(x) => fmt_text(&x.open),
            None => String::new(),
        };
        let mut v6 = match &self.summary_detail {
            Some(x) => fmt_text(&x.bid),
            None => String::new(),
        };
        let v6b = match &self.summary_detail {
            Some(x) => fmt_text(&x.ask),
            None => String::new(),
        };
        v6.append(" / ");
        v6.append(v6b.as_str());
        let v7 = match &self.summary_detail {
            Some(x) => long_text(&x.volume),
            None => String::new(),
        };
        let v8 = match &self.summary_detail {
            Some(x) => fmt_text(&x.fifty_day_avg),
            None => String::new(),
        };
        let v9 = match &self.summary_detail {
            Some(x) => fmt_text(&x.two_hundred_day_avg),
            None => String::new(),
        };
        let v10 = match &self.financial_data {
            Some(x) => long_text(&x.total_revenue),
            None => String::new(),
        };
        let v11 = match &self.financial_data {
            Some(x) => fmt_text(&x.revenue_per_share),
            None => String::new(),
        };
        let v12 = match &self.financial_data {
            Some(x) => fmt_text(&x.revenue_growth),
            None => String::new(),
        };
        let v13 = match &self.financial_data {
            Some(x) => long_text(&x.gross_profits),
            None => String::new(),
        };
        let v14 = match &self.financial_data {
            Some(x) => long_text(&x.ebitda),
            None => String::new(),
        };
        let v15 = match &self.financial_data {
            Some(x) => fmt_text(&x.ebitda_margins),
            None => String::new(),
        };
        let v16 = match &self.financial_data {
            Some(x) => fmt_text(&x.operating_margins),
            None => String::new(),
        };
        let v17 = match &self.financial_data {
            Some(x) => fmt_text(&x.profit_margins),
            None => String::new(),
        };
        let v18 = match &self.financial_data {
            Some(x) => fmt_text(&x.earnings_growth),
            None => String::new(),
        };
        let v19 = match &self.financial_data {
            Some(x) => fmt_text(&x.return_on_equity),
            None => String::new(),
        };
        let v20 = match &self.financial_data {
            Some(x) => fmt_text(&x.return_on_assets),
            None => String::new(),
        };
        let v21 = match &self.financial_data {
            Some(x) => long_text(&x.total_cash),
            None => String::new(),
        };
        let v22 = match &self.financial_data {
            Some(x) => long_text(&x.total_debt),
            None => String::new(),
        };
        let v23 = match &self.financial_data {
            Some(x) => fmt_text(&x.debt_to_equity),
            None => String::new(),
        };
        let v24 = match &self.financial_data {
            Some(x) => fmt_text(&x.current_ratio),
            None => String::new(),
        };
        let v25 = match &self.financial_data {
            Some(x) => fmt_text(&x.quick_ratio),
            None => String::new(),
        };
        let v26 = match &self.financial_data {
            Some(x) => long_text(&x.operating_cash_flow),
            None => String::new(),
        };
        let v27 = match &self.financial_data {
            Some(x) => long_text(&x.free_cash_flow),
            None => String::new(),
        };
        let v28 = match &self.summary_detail {
            Some(x) => long_text(&x.market_cap),
            None => String::new(),
        };
        let v29 = match &self.default_key_statistics {
            Some(x) => long_text(&x.enterprise_value),
            None => String::new(),
        };
        let v30 = match &self.default_key_statistics {
            Some(x) => fmt_text(&x.enterprise_to_ebitda),
            None => String::new(),
        };
        let v31 = match &self.default_key_statistics {
            Some(x) => fmt_text(&x.enterprise_to_revenue),
            None => String::new(),
        };
        let v32 = match &self.default_key_statistics {
            Some(x) => fmt_text(&x.forward_eps),
            None => String::new(),
        };
        let v33 = match &self.default_key_statistics {
            Some(x) => fmt_text(&x.forward_pe),
            None => String::new(),
        };
        let v34 = match &self.default_key_statistics {
            Some(x) => fmt_text(&x.price_to_book),
            None => String::new(),
        };
        let v35 = match &self.default_key_statistics {
            Some(x) => fmt_text(&x.beta),
            None => String::new(),
        };
        let v36 = match &self.summary_detail {
            Some(x) => fmt_text(&x.dividend_yield),
            None => String::new(),
        };
        let v37 = match &self.summary_detail {
            Some(x) => fmt_text(&x.dividend_rate),
            None => String::new(),
        };
        let v38 = match &self.summary_detail {
            Some(x) => fmt_text(&x.payout_ratio),
            None => String::new(),
        };
        let v39 = match &self.summary_detail {
            Some(x) => fmt_text(&x.ex_dividend_date),
            None => String::new(),
        };
        let mut v40 = match &self.default_key_statistics {
            Some(x) => fmt_text(&x.last_split_date),
            None => String::new(),
        };
        let v40b = match &self.default_key_statistics {
            Some(x) => opt_text(&x.last_split_factor),
            None => String::new(),
        };
        v40.append(" (");
        v40.append(v40b.as_str());
        v40.append(")");
        let v41 = match &self.default_key_statistics {
            Some(x) => long_text(&x.shares_outstanding),
            None => String::new(),
        };
        let v42 = match &self.default_key_statistics {
            Some(x) => long_text(&x.float_shares),
            None => String::new(),
        };
        let v43 = match &self.default_key_statistics {
            Some(x) => long_text(&x.shares_short),
            None => String::new(),
        };
        let v44 = match &self.default_key_statistics {
            Some(x) => fmt_text(&x.short_percent_of_float),
            None => String::new(),
        };
        let v45 = match &self.default_key_statistics {
            Some(x) => fmt_text(&x.held_percent_institutions),
            None => String::new(),
        };
        let v46 = match &self.financial_data {
            Some(x) => opt_text(&x.recommendation_key),
            None => String::new(),
        };
        let mut v47 = owned("Median: ");
        let v47a = match &self.financial_data {
            Some(x) => fmt_text(&x.target_median_price),
            None => String::new(),
        };
        let v47b = match &self.financial_data {
            Some(x) => fmt_text(&x.target_mean_price),
            None => String::new(),
        };
        v47.append(v47a.as_str());
        v47.append(", Mean: ");
        v47.append(v47b.as_str());
        let mut v48 = match &self.financial_data {
            Some(x) => fmt_text(&x.target_high_price),
            None => String::new(),
        };
        let v48b = match &self.financial_data {
            Some(x) => fmt_text(&x.target_low_price),
            None => String::new(),
        };
        v48.append(" - ");
        v48.append(v48b.as_str());
        let v49 = match &self.financial_data {
            Some(x) => fmt_text(&x.analyst_opinions_count),
            None => String::new(),
        };
        let v50 = match &self.default_key_statistics {
            Some(x) => fmt_text(&x.annual_holdings_turnover),
            None => String::new(),
        };
        let v51 = match &self.default_key_statistics {
            Some(x) => fmt_text(&x.annual_expense_ratio),
            None => String::new(),
        };
        let v52 = match &self.default_key_statistics {
            Some(x) => fmt_text(&x.beta_3year),
            None => String::new(),
        };
        let v53 = match &self.default_key_statistics {
            Some(x) => opt_text(&x.category),
            None => String::new(),
        };
        let v54 = match &self.default_key_statistics {
            Some(x) => opt_text(&x.fund_family),
            None => String::new(),
        };
        let v55 = match &self.default_key_statistics {
            Some(x) => fmt_text(&x.fund_inception_date),
            None => String::new(),
        };
        let v56 = match &self.default_key_statistics {
            Some(x) => fmt_text(&x.morning_star_overall_rating),
            None => String::new(),
        };
        let v57 = match &self.default_key_statistics {
            Some(x) => fmt_text(&x.morning_star_risk_rating),
            None => String::new(),
        };
        let v58 = match &self.default_key_statistics {
            Some(x) => long_text(&x.total_assets),
            None => String::new(),
        };
        let v59 = match &self.default_key_statistics {
            Some(x) => match &x.yields {
                Some(v) => match &v.formatted {
                    Some(t) => owned(t.as_str()),
                    None => match &self.summary_detail {
                        Some(y) => fmt_text(&y.yields),
                        None => String::new(),
                    },
                },
                None => String::new(),
            },
            None => String::new(),
        };
        let v60 = match &self.default_key_statistics {
            Some(x) => match &x.ytd_return {
                Some(v) => match &v.formatted {
                    Some(t) => owned(t.as_str()),
                    None => match &self.summary_detail {
                        Some(y) => fmt_text(&y.ytd_return),
                        None => String::new(),
                    },
                },
                None => String::new(),
            },
            None => String::new(),
        };
        let v61 = match &self.default_key_statistics {
            Some(x) => fmt_text(&x.three_year_avg_return),
            None => String::new(),
        };
        let v62 = match &self.default_key_statistics {
            Some(x) => fmt_text(&x.five_year_avg_return),
            None => String::new(),
        };
        let v63 = match &self.summary_detail {
            Some(x) => long_text(&x.circulating_supply),
            None => String::new(),
        };
        let v64 = match &self.summary_detail {
            Some(x) => opt_text(&x.coin_market_cap_link),
            None => String::new(),
        };
        let values: Vec<String> = vec![
            v0, v1, v2, v3, v4, v5, v6, v7, v8, v9,
            v10, v11, v12, v13, v14, v15, v16, v17, v18, v19,
            v20, v21, v22, v23, v24, v25, v26, v27, v28, v29,
            v30, v31, v32, v33, v34, v35, v36, v37, v38, v39,
            v40, v41, v42, v43, v44, v45, v46, v47, v48, v49,
            v50, v51, v52, v53, v54, v55, v56, v57, v58, v59,
            v60, v61, v62, v63, v64,
        ];
        assert(strings_view(values@) =~= self.spec_summary_values());
        (fields, values)
    }
}

/// Each row of the summary table holds the statistic its label names, read
/// from the part of the quote summary that reports it: the short text of most
/// statistics, the long text of amounts (volume, revenue, cash, debt, market
/// value, share counts, assets, supply), the currency defaulting to USD, and a
/// few rows joining two statistics (day range, bid and ask, last split,
/// analyst targets).  In the fund section the labels and the values are listed
/// in different orders: the rows labelled Total Assets to Annual Expense Ratio
/// hold, in turn, the annual holdings turnover, the annual expense ratio, the
/// 3-year beta, the category, the fund family, the inception date, the two
/// Morningstar ratings, the total assets, the yield (from the key statistics,
/// falling back on the trading summary when its short text is missing), the
/// year-to-date return (likewise) and the 3- and 5-year average returns.
pub proof fn lemma_rows_read_their_statistics(s: TickerSummaryStats)
    ensures
        spec_summary_fields().len() == 65,
        s.spec_summary_values().len() == 65,
        spec_summary_fields()[0] == "Currency"@,
        s.spec_summary_values()[0]
            == match s.summary_detail {
                Some(d) => match d.currency { Some(c) => c@, None => "USD"@ },
                None => "USD"@,
            },
        spec_summary_fields()[1] == "Current Price"@,
        s.spec_summary_values()[1]
            == match s.financial_data { Some(d) => fmt_of(d.current_price), None => Seq::empty() },
        spec_summary_fields()[2] == "Day Range"@,
        s.spec_summary_values()[2]
            == (match s.summary_detail { Some(d) => fmt_of(d.day_high), None => Seq::empty() })
                + " - "@ + (match s.summary_detail { Some(d) => fmt_of(d.day_low), None => Seq::empty() }),
        spec_summary_fields()[3] == "52 Week Change"@,
        s.spec_summary_values()[3]
            == match s.default_key_statistics { Some(d) => fmt_of(d.week_change_52), None => Seq::empty() },
        spec_summary_fields()[4] == "Previous Close"@,
        s.spec_summary_values()[4]
            == match s.summary_detail { Some(d) => fmt_of(d.previous_close), None => Seq::empty() },
        spec_summary_fields()[5] == "Open"@,
        s.spec_summary_values()[5]
            == match s.summary_detail { Some(d) => fmt_of(d.open), None => Seq::empty() },
        spec_summary_fields()[6] == "Bid/Ask"@,
        s.spec_summary_values()[6]
            == (match s.summary_detail { Some(d) => fmt_of(d.bid), None => Seq::empty() })
                + " / "@ + (match s.summary_detail { Some(d) => fmt_of(d.ask), None => Seq::empty() }),
        spec_summary_fields()[7] == "Volume"@,
        s.spec_summary_values()[7]
            == match s.summary_detail { Some(d) => long_of(d.volume), None => Seq::empty() },
        spec_summary_fields()[8] == "50 Day Avg"@,
        s.spec_summary_values()[8]
            == match s.summary_detail { Some(d) => fmt_of(d.fifty_day_avg), None => Seq::empty() },
        spec_summary_fields()[9] == "200 Day Avg"@,
        s.spec_summary_values()[9]
            == match s.summary_detail { Some(d) => fmt_of(d.two_hundred_day_avg), None => Seq::empty() },
        spec_summary_fields()[10] == "Total Revenue"@,
        s.spec_summary_values()[10]
            == match s.financial_data { Some(d) => long_of(d.total_revenue), None => Seq::empty() },
        spec_summary_fields()[11] == "Revenue Per Share"@,
        s.spec_summary_values()[11]
            == match s.financial_data { Some(d) => fmt_of(d.revenue_per_share), None => Seq::empty() },
        spec_summary_fields()[12] == "Revenue Growth"@,
        s.spec_summary_values()[12]
            == match s.financial_data { Some(d) => fmt_of(d.revenue_growth), None => Seq::empty() },
        spec_summary_fields()[13] == "Gross Profit"@,
        s.spec_summary_values()[13]
            == match s.financial_data { Some(d) => long_of(d.gross_profits), None => Seq::empty() },
        spec_summary_fields()[14] == "EBITDA"@,
        s.spec_summary_values()[14]
            == match s.financial_data { Some(d) => long_of(d.ebitda), None => Seq::empty() },
        spec_summary_fields()[15] == "EBITDA Margin"@,
        s.spec_summary_values()[15]
            == match s.financial_data { Some(d) => fmt_of(d.ebitda_margins), None => Seq::empty() },
        spec_summary_fields()[16] == "Operating Margin"@,
        s.spec_summary_values()[16]
            == match s.financial_data { Some(d) => fmt_of(d.operating_margins), None => Seq::empty() },
        spec_summary_fields()[17] == "Net Profit Margin"@,
        s.spec_summary_values()[17]
            == match s.financial_data { Some(d) => fmt_of(d.profit_margins), None => Seq::empty() },
        spec_summary_fields()[18] == "Earnings Growth"@,
        s.spec_summary_values()[18]
            == match s.financial_data { Some(d) => fmt_of(d.earnings_growth), None => Seq::empty() },
        spec_summary_fields()[19] == "Return on Equity"@,
        s.spec_summary_values()[19]
            == match s.financial_data { Some(d) => fmt_of(d.return_on_equity), None => Seq::empty() },
        spec_summary_fields()[20] == "Return on Assets"@,
        s.spec_summary_values()[20]
            == match s.financial_data { Some(d) => fmt_of(d.return_on_assets), None => Seq::empty() },
        spec_summary_fields()[21] == "Total Cash"@,
        s.spec_summary_values()[21]
            == match s.financial_data { Some(d) => long_of(d.total_cash), None => Seq::empty() },
        spec_summary_fields()[22] == "Total Debt"@,
        s.spec_summary_values()[22]
            == match s.financial_data { Some(d) => long_of(d.total_debt), None => Seq::empty() },
        spec_summary_fields()[23] == "Debt to Equity"@,
        s.spec_summary_values()[23]
            == match s.financial_data { Some(d) => fmt_of(d.debt_to_equity), None => Seq::empty() },
        spec_summary_fields()[24] == "Current Ratio"@,
        s.spec_summary_values()[24]
            == match s.financial_data { Some(d) => fmt_of(d.current_ratio), None => Seq::empty() },
        spec_summary_fields()[25] == "Quick Ratio"@,
        s.spec_summary_values()[25]
            == match s.financial_data { Some(d) => fmt_of(d.quick_ratio), None => Seq::empty() },
        spec_summary_fields()[26] == "Operating Cash Flow"@,
        s.spec_summary_values()[26]
            == match s.financial_data { Some(d) => long_of(d.operating_cash_flow), None => Seq::empty() },
        spec_summary_fields()[27] == "Free Cash Flow"@,
        s.spec_summary_values()[27]
            == match s.financial_data { Some(d) => long_of(d.free_cash_flow), None => Seq::empty() },
        spec_summary_fields()[28] == "Market Cap"@,
        s.spec_summary_values()[28]
            == match s.summary_detail { Some(d) => long_of(d.market_cap), None => Seq::empty() },
        spec_summary_fields()[29] == "Enterprise Value"@,
        s.spec_summary_values()[29]
            == match s.default_key_statistics { Some(d) => long_of(d.enterprise_value), None => Seq::empty() },
        spec_summary_fields()[30] == "Enterprise to EBITDA"@,
        s.spec_summary_values()[30]
            == match s.default_key_statistics { Some(d) => fmt_of(d.enterprise_to_ebitda), None => Seq::empty() },
        spec_summary_fields()[31] == "Enterprise to Revenue"@,
        s.spec_summary_values()[31]
            == match s.default_key_statistics { Some(d) => fmt_of(d.enterprise_to_revenue), None => Seq::empty() },
        spec_summary_fields()[32] == "Forward EPS"@,
        s.spec_summary_values()[32]
            == match s.default_key_statistics { Some(d) => fmt_of(d.forward_eps), None => Seq::empty() },
        spec_summary_fields()[33] == "P/E (Forward)"@,
        s.spec_summary_values()[33]
            == match s.default_key_statistics { Some(d) => fmt_of(d.forward_pe), None => Seq::empty() },
        spec_summary_fields()[34] == "Price to Book"@,
        s.spec_summary_values()[34]
            == match s.default_key_statistics { Some(d) => fmt_of(d.price_to_book), None => Seq::empty() },
        spec_summary_fields()[35] == "Beta (5Y Monthly)"@,
        s.spec_summary_values()[35]
            == match s.default_key_statistics { Some(d) => fmt_of(d.beta), None => Seq::empty() },
        spec_summary_fields()[36] == "Dividend Yield"@,
        s.spec_summary_values()[36]
            == match s.summary_detail { Some(d) => fmt_of(d.dividend_yield), None => Seq::empty() },
        spec_summary_fields()[37] == "Dividend Rate"@,
        s.spec_summary_values()[37]
            == match s.summary_detail { Some(d) => fmt_of(d.dividend_rate), None => Seq::empty() },
        spec_summary_fields()[38] == "Payout Ratio"@,
        s.spec_summary_values()[38]
            == match s.summary_detail { Some(d) => fmt_of(d.payout_ratio), None => Seq::empty() },
        spec_summary_fields()[39] == "Ex-Dividend Date"@,
        s.spec_summary_values()[39]
            == match s.summary_detail { Some(d) => fmt_of(d.ex_dividend_date), None => Seq::empty() },
        spec_summary_fields()[40] == "Last Split"@,
        s.spec_summary_values()[40]
            == (match s.default_key_statistics { Some(d) => fmt_of(d.last_split_date), None => Seq::empty() })
                + " ("@ + (match s.default_key_statistics { Some(d) => text_of(d.last_split_factor), None => Seq::empty() }) + ")"@,
        spec_summary_fields()[41] == "Shares Outstanding"@,
        s.spec_summary_values()[41]
            == match s.default_key_statistics { Some(d) => long_of(d.shares_outstanding), None => Seq::empty() },
        spec_summary_fields()[42] == "Float Shares"@,
        s.spec_summary_values()[42]
            == match s.default_key_statistics { Some(d) => long_of(d.float_shares), None => Seq::empty() },
        spec_summary_fields()[43] == "Short Interest"@,
        s.spec_summary_values()[43]
            == match s.default_key_statistics { Some(d) => long_of(d.shares_short), None => Seq::empty() },
        spec_summary_fields()[44] == "Short % of Float"@,
        s.spec_summary_values()[44]
            == match s.default_key_statistics { Some(d) => fmt_of(d.short_percent_of_float), None => Seq::empty() },
        spec_summary_fields()[45] == "% Held by Institutions"@,
        s.spec_summary_values()[45]
            == match s.default_key_statistics { Some(d) => fmt_of(d.held_percent_institutions), None => Seq::empty() },
        spec_summary_fields()[46] == "Analyst Consensus"@,
        s.spec_summary_values()[46]
            == match s.financial_data { Some(d) => text_of(d.recommendation_key), None => Seq::empty() },
        spec_summary_fields()[47] == "Average Target"@,
        s.spec_summary_values()[47]
            == "Median: "@ + (match s.financial_data { Some(d) => fmt_of(d.target_median_price), None => Seq::empty() })
                + ", Mean: "@ + (match s.financial_data { Some(d) => fmt_of(d.target_mean_price), None => Seq::empty() }),
        spec_summary_fields()[48] == "High/Low Target"@,
        s.spec_summary_values()[48]
            == (match s.financial_data { Some(d) => fmt_of(d.target_high_price), None => Seq::empty() })
                + " - "@ + (match s.financial_data { Some(d) => fmt_of(d.target_low_price), None => Seq::empty() }),
        spec_summary_fields()[49] == "Analyst Count"@,
        s.spec_summary_values()[49]
            == match s.financial_data { Some(d) => fmt_of(d.analyst_opinions_count), None => Seq::empty() },
        spec_summary_fields()[50] == "Total Assets"@,
        s.spec_summary_values()[50]
            == match s.default_key_statistics { Some(d) => fmt_of(d.annual_holdings_turnover), None => Seq::empty() },
        spec_summary_fields()[51] == "Fund Family"@,
        s.spec_summary_values()[51]
            == match s.default_key_statistics { Some(d) => fmt_of(d.annual_expense_ratio), None => Seq::empty() },
        spec_summary_fields()[52] == "Fund Inception Date"@,
        s.spec_summary_values()[52]
            == match s.default_key_statistics { Some(d) => fmt_of(d.beta_3year), None => Seq::empty() },
        spec_summary_fields()[53] == "Category"@,
        s.spec_summary_values()[53]
            == match s.default_key_statistics { Some(d) => text_of(d.category), None => Seq::empty() },
        spec_summary_fields()[54] == "Yield"@,
        s.spec_summary_values()[54]
            == match s.default_key_statistics { Some(d) => text_of(d.fund_family), None => Seq::empty() },
        spec_summary_fields()[55] == "YTD Return"@,
        s.spec_summary_values()[55]
            == match s.default_key_statistics { Some(d) => fmt_of(d.fund_inception_date), None => Seq::empty() },
        spec_summary_fields()[56] == "3Y Avg Return"@,
        s.spec_summary_values()[56]
            == match s.default_key_statistics { Some(d) => fmt_of(d.morning_star_overall_rating), None => Seq::empty() },
        spec_summary_fields()[57] == "5Y Avg Return"@,
        s.spec_summary_values()[57]
            == match s.default_key_statistics { Some(d) => fmt_of(d.morning_star_risk_rating), None => Seq::empty() },
        spec_summary_fields()[58] == "Beta (3Y)"@,
        s.spec_summary_values()[58]
            == match s.default_key_statistics { Some(d) => long_of(d.total_assets), None => Seq::empty() },
        spec_summary_fields()[59] == "Morningstar Overall Rating"@,
        s.spec_summary_values()[59]
            == match s.default_key_statistics {
                Some(d) => match d.yields {
                    Some(v) => match v.formatted { Some(t) => t@, None => match s.summary_detail { Some(d) => fmt_of(d.yields), None => Seq::empty() } },
                    None => Seq::empty(),
                },
                None => Seq::empty(),
            },
        spec_summary_fields()[60] == "Morningstar Risk Rating"@,
        s.spec_summary_values()[60]
            == match s.default_key_statistics {
                Some(d) => match d.ytd_return {
                    Some(v) => match v.formatted { Some(t) => t@, None => match s.summary_detail { Some(d) => fmt_of(d.ytd_return), None => Seq::empty() } },
                    None => Seq::empty(),
                },
                None => Seq::empty(),
            },
        spec_summary_fields()[61] == "Annual Holdings Turnover"@,
        s.spec_summary_values()[61]
            == match s.default_key_statistics { Some(d) => fmt_of(d.three_year_avg_return), None => Seq::empty() },
        spec_summary_fields()[62] == "Annual Expense Ratio"@,
        s.spec_summary_values()[62]
            == match s.default_key_statistics { Some(d) => fmt_of(d.five_year_avg_return), None => Seq::empty() },
        spec_summary_fields()[63] == "Circulating Supply"@,
        s.spec_summary_values()[63]
            == match s.summary_detail { Some(d) => long_of(d.circulating_supply), None => Seq::empty() },
        spec_summary_fields()[64] == "CoinMarketCap Link"@,
        s.spec_summary_values()[64]
            == match s.summary_detail { Some(d) => text_of(d.coin_market_cap_link), None => Seq::empty() },
{
}

} // verus!
