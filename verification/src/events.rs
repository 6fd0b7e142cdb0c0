//! The kind and the date label of the transaction events that a portfolio
//! simulation records on the rows where something happened.

use vstd::prelude::*;
use crate::text::{owned, nat_decimal, u64_to_string};

verus! {

/// What happened on a simulation row.
#[derive(Debug, Clone, Copy, PartialEq, Eq, Structural)]
pub enum TransactionEventType {
    /// A rebalance was triggered, with no external cash flow.
    Rebalance,
    /// An external cash flow was applied, with no rebalance.
    CashFlow,
    /// Both an external cash flow and a rebalance.
    RebalanceAndCashFlow,
}

impl TransactionEventType {
    /// The display name of this event type.
    pub open spec fn spec_name(self) -> Seq<char> {
        match self {
            TransactionEventType::Rebalance => "Rebalance"@,
            TransactionEventType::CashFlow => "Cash Flow"@,
            TransactionEventType::RebalanceAndCashFlow => "Rebalance + Cash Flow"@,
        }
    }

    /// The display name of this event type.
    pub fn to_string(&self) -> (r: String)
        ensures
            r@ == self.spec_name(),
    {
        match self {
            TransactionEventType::Rebalance => owned("Rebalance"),
            TransactionEventType::CashFlow => owned("Cash Flow"),
            TransactionEventType::RebalanceAndCashFlow => owned("Rebalance + Cash Flow"),
        }
    }
}

/// The event recorded on a row: none when nothing happened, else the kind
/// that says whether a rebalance, a cash flow or both took place.
pub fn transaction_event_type(had_rebalance: bool, had_cash_flow: bool) -> (r: Option<TransactionEventType>)
    ensures
        r == match (had_rebalance, had_cash_flow) {
            (true, true) => Some(TransactionEventType::RebalanceAndCashFlow),
            (true, false) => Some(TransactionEventType::Rebalance),
            (false, true) => Some(TransactionEventType::CashFlow),
            (false, false) => None,
        },
{
    match (had_rebalance, had_cash_flow) {
        (true, true) => Some(TransactionEventType::RebalanceAndCashFlow),
        (true, false) => Some(TransactionEventType::Rebalance),
        (false, true) => Some(TransactionEventType::CashFlow),
        (false, false) => None,
    }
}

/// The date label of an event on `row`: the row's date, or `row-N` for a row
/// past the end of the dates.
pub open spec fn spec_event_date(row: nat, dates: Seq<String>) -> Seq<char> {
    if row < dates.len() {
        dates[row as int]@
    } else {
        "row-"@ + nat_decimal(row)
    }
}

/// The date label of an event on `row`.
pub fn event_date(row: usize, dates: &Vec<String>) -> (r: String)
    ensures
        r@ == spec_event_date(row as nat, dates@),
{
    if row < dates.len() {
        owned(dates[row].as_str())
    } else {
        let mut r = owned("row-");
        let digits = u64_to_string(row as u64);
        r.append(digits.as_str());
        r
    }
}

} // verus!
