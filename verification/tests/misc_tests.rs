use finalytics::config::{Fundamentals, Interval, StatementFrequency, StatementType};
use finalytics::error::{new_indicator, require_min_length, FinalyticsError};
use finalytics::objective::ObjectiveFunction;
use finalytics::session::{
    crumb_action, CrumbAction, CrumbOutcome, RequestState, ResponseAction, ResponseStatus, MAX_RETRIES,
};
use finalytics::technicals::Column;

#[test]
fn interval_codes() {
    assert_eq!(Interval::from_str("1d"), Some(Interval::OneDay));
    assert_eq!(Interval::from_str("1wk"), Some(Interval::OneWeek));
    assert_eq!(Interval::from_str("7d"), None);
    assert_eq!(Interval::ThreeMonths.as_str(), "3mo");
    assert_eq!(Interval::NinetyMinutes.to_string(), "90m");
    for v in Interval::variants() {
        assert_eq!(Interval::from_str(v.as_str()), Some(v));
    }
    assert_eq!(Interval::variant_names().len(), 12);
}

#[test]
fn statement_types_parse() {
    assert_eq!(StatementType::parse("income-statement"), Ok(StatementType::IncomeStatement));
    assert_eq!(StatementType::parse("cash-flow"), Ok(StatementType::CashFlowStatement));
    assert_eq!(
        StatementType::parse("foo"),
        Err("StatementType 'foo' not implemented".to_string())
    );
    assert_eq!(StatementType::FinancialRatios.as_str(), "financial-ratios");
    assert_eq!(StatementFrequency::from_str("quarterly"), Some(StatementFrequency::Quarterly));
    assert_eq!(StatementFrequency::Annual.to_string(), "annual");
}

#[test]
fn fundamentals_line_items() {
    let f = Fundamentals;
    let income = f.get_income_statement_items(StatementFrequency::Annual);
    assert!(income.starts_with("annualTotalRevenue,annualExciseTaxes,annualOperatingRevenue,"));
    assert!(income.ends_with(",annualTaxEffectOfUnusualItems"));
    assert_eq!(income.split(',').count(), 95);
    let balance = f.get_balance_sheet_items(StatementFrequency::Quarterly);
    assert!(balance.starts_with("quarterlyTreasurySharesNumber,quarterlyPreferredSharesNumber,"));
    assert!(balance.ends_with(",quarterlyCashFinancial"));
    assert!(balance.split(',').all(|s| s.starts_with("quarterly")));
    let cash = f.get_cash_flow_items(StatementFrequency::Annual);
    assert!(cash.starts_with("annualForeignSales,annualDomesticSales,"));
    assert!(cash.ends_with(",annualReceiptsfromCustomers"));
}

#[test]
fn objectives_by_name() {
    assert_eq!(ObjectiveFunction::from_str("max_sharpe"), Ok(ObjectiveFunction::MaxSharpe));
    assert_eq!(ObjectiveFunction::from_str("min_cvar"), Ok(ObjectiveFunction::MinCVaR));
    assert_eq!(ObjectiveFunction::from_str("hrp"), Ok(ObjectiveFunction::HierarchicalRiskParity));
    assert_eq!(
        ObjectiveFunction::from_str("hierarchical_risk_parity"),
        Ok(ObjectiveFunction::HierarchicalRiskParity)
    );
    assert_eq!(
        ObjectiveFunction::from_str("max_alpha"),
        Err("Unsupported objective function: max_alpha".to_string())
    );
    assert!(ObjectiveFunction::MinVol.uses_frontier());
    assert!(!ObjectiveFunction::RiskParity.uses_frontier());
    assert!(ObjectiveFunction::RiskParity.uses_risk_contribution_chart());
    assert!(!ObjectiveFunction::MaxSharpe.uses_risk_contribution_chart());
}

#[test]
fn price_columns() {
    assert_eq!(Column::from_str("adjclose"), Column::AdjClose);
    assert_eq!(Column::from_str("volume"), Column::Volume);
    assert_eq!(Column::from_str("anything"), Column::Close);
    for c in [Column::Open, Column::High, Column::Low, Column::Close, Column::Volume, Column::AdjClose] {
        assert_eq!(Column::from_str(c.as_str()), c);
    }
}

#[test]
fn error_messages() {
    let e = FinalyticsError::InsufficientData { required: 30, actual: 10, context: "beta".to_string() };
    assert_eq!(e.message(), "[InsufficientData] beta: need at least 30 observations, got 10");
    let e = FinalyticsError::NullValues { column: "close".to_string(), null_count: 3 };
    assert_eq!(e.message(), "[NullValues] Column 'close' contains 3 null value(s)");
    let e = FinalyticsError::ColumnNotFound { name: "open".to_string() };
    assert_eq!(e.message(), "[ColumnNotFound] Column 'open' not found in DataFrame");
    let e = FinalyticsError::DtypeMismatch {
        column: "v".to_string(),
        expected: "f64".to_string(),
        actual: "str".to_string(),
    };
    assert_eq!(e.message(), "[DtypeMismatch] Column 'v': expected f64, got str");
    let e = FinalyticsError::External { message: "boom".to_string() };
    assert_eq!(e.message(), "boom");
    let e = FinalyticsError::OptimizationFailed { objective: "max_sharpe".to_string(), message: "no solution".to_string() };
    assert_eq!(e.message(), "[OptimizationFailed] Objective 'max_sharpe': no solution");
}

#[test]
fn indicator_creation_errors() {
    let ok: Result<u32, FinalyticsError> = new_indicator("RSI", Ok(14u32));
    assert!(matches!(ok, Ok(14)));
    let err = new_indicator::<u32>("RSI", Err("period must be positive".to_string())).unwrap_err();
    assert!(matches!(&err, FinalyticsError::InvalidParameter { name, message }
        if name == "RSI" && message == "period must be positive"));
    assert_eq!(err.message(), "[InvalidParameter] 'RSI': period must be positive");
}

#[test]
fn minimum_length_checks() {
    assert!(require_min_length(40, 5, 30, "beta").is_ok());
    assert!(require_min_length(35, 5, 30, "beta").is_ok());
    let err = require_min_length(34, 5, 30, "beta").unwrap_err();
    assert!(matches!(&err, FinalyticsError::InsufficientData { required: 30, actual: 29, context }
        if context == "beta"));
}

#[test]
fn crumb_retries() {
    assert_eq!(crumb_action(1, CrumbOutcome::Received), CrumbAction::Accept);
    assert_eq!(crumb_action(1, CrumbOutcome::Unauthorized), CrumbAction::RetryAfterDelay);
    assert_eq!(crumb_action(MAX_RETRIES, CrumbOutcome::Unauthorized), CrumbAction::FailUnauthorized);
    assert_eq!(crumb_action(2, CrumbOutcome::NetworkError), CrumbAction::RetryAfterDelay);
    assert_eq!(crumb_action(MAX_RETRIES, CrumbOutcome::NetworkError), CrumbAction::FailNetwork);
    assert_eq!(crumb_action(1, CrumbOutcome::OtherStatus), CrumbAction::FailStatus);
}

#[test]
fn request_retries() {
    let mut get = RequestState::new(false);
    assert_eq!(get.on_response(ResponseStatus::Success, true), ResponseAction::Return);
    assert_eq!(get.on_response(ResponseStatus::TooManyRequests, true), ResponseAction::RefreshAndRetry);
    assert!(get.tried_refresh);
    assert_eq!(get.on_response(ResponseStatus::Other, true), ResponseAction::Fail);

    let mut post = RequestState::new(true);
    assert_eq!(post.on_response(ResponseStatus::TooManyRequests, true), ResponseAction::WaitAndRetry);
    assert!(!post.tried_refresh);
    assert_eq!(post.on_response(ResponseStatus::Other, false), ResponseAction::Fail);
    assert_eq!(post.on_response(ResponseStatus::Other, true), ResponseAction::RefreshAndRetry);
}

#[test]
fn remaining_error_messages() {
    let e = FinalyticsError::DataFetch { source: "chart".to_string(), message: "timeout".to_string() };
    assert_eq!(e.message(), "[DataFetch] chart: timeout");
    let e = FinalyticsError::DataParse { source: "quotes".to_string(), message: "bad json".to_string() };
    assert_eq!(e.message(), "[DataParse] quotes: bad json");
    let e = FinalyticsError::DataFrameOperation { message: "join failed".to_string() };
    assert_eq!(e.message(), "[DataFrameOperation] join failed");
    let e = FinalyticsError::NonFiniteResult { context: "sharpe".to_string() };
    assert_eq!(e.message(), "[NonFiniteResult] sharpe: result is NaN or infinite");
    let e = FinalyticsError::Polars { message: "shape".to_string() };
    assert_eq!(e.message(), "[Polars] shape");
    let e = FinalyticsError::InvalidParameter { name: "window".to_string(), message: "must be positive".to_string() };
    assert_eq!(e.message(), "[InvalidParameter] 'window': must be positive");
}
