//! The error type of the library's fallible operations and its messages.

use vstd::prelude::*;
use vstd::string::StringExecFns;
use crate::text::{owned, u64_to_string, nat_decimal};

verus! {

/// What went wrong in a fallible operation.
#[derive(Debug, Clone)]
pub enum FinalyticsError {
    /// A network request or remote API call failed.
    DataFetch { source: String, message: String },
    /// An API response could not be parsed.
    DataParse { source: String, message: String },
    /// A column had an unexpected data type.
    DtypeMismatch { column: String, expected: String, actual: String },
    /// A column held null values where none were expected.
    NullValues { column: String, null_count: usize },
    /// A required column was missing.
    ColumnNotFound { name: String },
    /// A table operation (join, sort, filter, ...) failed.
    DataFrameOperation { message: String },
    /// Not enough observations to compute a statistic.
    InsufficientData { required: usize, actual: usize, context: String },
    /// A computation produced NaN or an infinity.
    NonFiniteResult { context: String },
    /// The portfolio optimizer found no feasible solution.
    OptimizationFailed { objective: String, message: String },
    /// A parameter given by the user was invalid.
    InvalidParameter { name: String, message: String },
    /// An error of the data-frame engine, by its message.
    Polars { message: String },
    /// Any other upstream error, by its message.
    External { message: String },
}

impl FinalyticsError {
    /// The message of this error.
    pub open spec fn spec_message(self) -> Seq<char> {
        match self {
            FinalyticsError::DataFetch { source, message } => "[DataFetch] "@ + source@ + ": "@ + message@,
            FinalyticsError::DataParse { source, message } => "[DataParse] "@ + source@ + ": "@ + message@,
            FinalyticsError::DtypeMismatch { column, expected, actual } =>
                "[DtypeMismatch] Column '"@ + column@ + "': expected "@ + expected@ + ", got "@ + actual@,
            FinalyticsError::NullValues { column, null_count } =>
                "[NullValues] Column '"@ + column@ + "' contains "@ + nat_decimal(null_count as nat) + " null value(s)"@,
            FinalyticsError::ColumnNotFound { name } =>
                "[ColumnNotFound] Column '"@ + name@ + "' not found in DataFrame"@,
            FinalyticsError::DataFrameOperation { message } => "[DataFrameOperation] "@ + message@,
            FinalyticsError::InsufficientData { required, actual, context } =>
                "[InsufficientData] "@ + context@ + ": need at least "@ + nat_decimal(required as nat)
                    + " observations, got "@ + nat_decimal(actual as nat),
            FinalyticsError::NonFiniteResult { context } =>
                "[NonFiniteResult] "@ + context@ + ": result is NaN or infinite"@,
            FinalyticsError::OptimizationFailed { objective, message } =>
                "[OptimizationFailed] Objective '"@ + objective@ + "': "@ + message@,
            FinalyticsError::InvalidParameter { name, message } =>
                "[InvalidParameter] '"@ + name@ + "': "@ + message@,
            FinalyticsError::Polars { message } => "[Polars] "@ + message@,
            FinalyticsError::External { message } => message@,
        }
    }

    /// The message of this error, as its display shows it.
    pub fn message(&self) -> (r: String)
        ensures
            r@ == self.spec_message(),
    {
        match self {
            FinalyticsError::DataFetch { source, message } => {
                let mut r = owned("[DataFetch] ");
                r.append(source.as_str());
                r.append(": ");
                r.append(message.as_str());
                r
            },
            FinalyticsError::DataParse { source, message } => {
                let mut r = owned("[DataParse] ");
                r.append(source.as_str());
                r.append(": ");
                r.append(message.as_str());
                r
            },
            FinalyticsError::DtypeMismatch { column, expected, actual } => {
                let mut r = owned("[DtypeMismatch] Column '");
                r.append(column.as_str());
                r.append("': expected ");
                r.append(expected.as_str());
                r.append(", got ");
                r.append(actual.as_str());
                r
            },
            FinalyticsError::NullValues { column, null_count } => {
                let mut r = owned("[NullValues] Column '");
                r.append(column.as_str());
                r.append("' contains ");
                let c = u64_to_string(*null_count as u64);
                r.append(c.as_str());
                r.append(" null value(s)");
                r
            },
            FinalyticsError::ColumnNotFound { name } => {
                let mut r = owned("[ColumnNotFound] Column '");
                r.append(name.as_str());
                r.append("' not found in DataFrame");
                r
            },
            FinalyticsError::DataFrameOperation { message } => {
                let mut r = owned("[DataFrameOperation] ");
                r.append(message.as_str());
                r
            },
            FinalyticsError::InsufficientData { required, actual, context } => {
                let mut r = owned("[InsufficientData] ");
                r.append(context.as_str());
                r.append(": need at least ");
                let q = u64_to_string(*required as u64);
                r.append(q.as_str());
                r.append(" observations, got ");
                let a = u64_to_string(*actual as u64);
                r.append(a.as_str());
                r
            },
            FinalyticsError::NonFiniteResult { context } => {
                let mut r = owned("[NonFiniteResult] ");
                r.append(context.as_str());
                r.append(": result is NaN or infinite");
                r
            },
            FinalyticsError::OptimizationFailed { objective, message } => {
                let mut r = owned("[OptimizationFailed] Objective '");
                r.append(objective.as_str());
                r.append("': ");
                r.append(message.as_str());
                r
            },
            FinalyticsError::InvalidParameter { name, message } => {
                let mut r = owned("[InvalidParameter] '");
                r.append(name.as_str());
                r.append("': ");
                r.append(message.as_str());
                r
            },
            FinalyticsError::Polars { message } => {
                let mut r = owned("[Polars] ");
                r.append(message.as_str());
                r
            },
            FinalyticsError::External { message } => owned(message.as_str()),
        }
    }
}

/// Wraps the outcome of creating a technical indicator: a failure becomes an
/// invalid-parameter error under the indicator's name, with the failure's
/// message.
pub fn new_indicator<T>(name: &str, created: Result<T, String>) -> (r: Result<T, FinalyticsError>)
    ensures
        created matches Ok(v) ==> r == Ok::<T, FinalyticsError>(v),
        created matches Err(e) ==> (r matches Err(FinalyticsError::InvalidParameter { name: n, message: m })
            && n@ == name@ && m@ == e@),
{
    match created {
        Ok(v) => Ok(v),
        Err(e) => Err(FinalyticsError::InvalidParameter { name: owned(name), message: e }),
    }
}

/// Checks that a series of `len` entries, `null_count` of them null, has at
/// least `min_len` observations.
pub fn require_min_length(len: usize, null_count: usize, min_len: usize, context: &str) -> (r: Result<(), FinalyticsError>)
    requires
        null_count <= len,
    ensures
        len - null_count >= min_len ==> r is Ok,
        len - null_count < min_len ==> (r matches Err(FinalyticsError::InsufficientData { required, actual, context: c })
            && required == min_len && actual == len - null_count && c@ == context@),
{
    let actual = len - null_count;
    if actual < min_len {
        return Err(FinalyticsError::InsufficientData { required: min_len, actual, context: owned(context) });
    }
    Ok(())
}

} // verus!
