//! Objective functions of portfolio optimization and how their results are shown.

use vstd::prelude::*;
use vstd::string::StringExecFns;
use crate::text::{str_eq, owned};

verus! {

/// Objective of a portfolio optimization.
#[derive(Debug, Clone, Copy, PartialEq, Eq, Structural, Hash)]
pub enum ObjectiveFunction {
    MaxSharpe,
    MaxSortino,
    MaxReturn,
    MinVol,
    MinVar,
    MinCVaR,
    MinDrawdown,
    /// Each asset contributes equally to portfolio risk.
    RiskParity,
    /// Maximizes the ratio of weighted asset volatilities to portfolio volatility.
    MaxDiversification,
    /// Allocates along a hierarchical clustering of the assets.
    HierarchicalRiskParity,
}

/// The objective a name stands for.
pub open spec fn spec_objective_of(s: Seq<char>) -> Option<ObjectiveFunction> {
    if s == "max_sharpe"@ {
        Some(ObjectiveFunction::MaxSharpe)
    } else if s == "max_sortino"@ {
        Some(ObjectiveFunction::MaxSortino)
    } else if s == "min_vol"@ {
        Some(ObjectiveFunction::MinVol)
    } else if s == "max_return"@ {
        Some(ObjectiveFunction::MaxReturn)
    } else if s == "min_drawdown"@ {
        Some(ObjectiveFunction::MinDrawdown)
    } else if s == "min_var"@ {
        Some(ObjectiveFunction::MinVar)
    } else if s == "min_cvar"@ {
        Some(ObjectiveFunction::MinCVaR)
    } else if s == "risk_parity"@ {
        Some(ObjectiveFunction::RiskParity)
    } else if s == "max_diversification"@ {
        Some(ObjectiveFunction::MaxDiversification)
    } else if s == "hrp"@ || s == "hierarchical_risk_parity"@ {
        Some(ObjectiveFunction::HierarchicalRiskParity)
    } else {
        None
    }
}

impl ObjectiveFunction {
    /// Parses an objective by name; the error names the text that is not one.
    pub fn from_str(s: &str) -> (r: Result<ObjectiveFunction, String>)
        ensures
            r matches Ok(o) ==> spec_objective_of(s@) == Some(o),
            r matches Err(e) ==> spec_objective_of(s@) is None && e@ == "Unsupported objective function: "@ + s@,
    {
        if str_eq(s, "max_sharpe") {
            Ok(ObjectiveFunction::MaxSharpe)
        } else if str_eq(s, "max_sortino") {
            Ok(ObjectiveFunction::MaxSortino)
        } else if str_eq(s, "min_vol") {
            Ok(ObjectiveFunction::MinVol)
        } else if str_eq(s, "max_return") {
            Ok(ObjectiveFunction::MaxReturn)
        } else if str_eq(s, "min_drawdown") {
            Ok(ObjectiveFunction::MinDrawdown)
        } else if str_eq(s, "min_var") {
            Ok(ObjectiveFunction::MinVar)
        } else if str_eq(s, "min_cvar") {
            Ok(ObjectiveFunction::MinCVaR)
        } else if str_eq(s, "risk_parity") {
            Ok(ObjectiveFunction::RiskParity)
        } else if str_eq(s, "max_diversification") {
            Ok(ObjectiveFunction::MaxDiversification)
        } else if str_eq(s, "hrp") || str_eq(s, "hierarchical_risk_parity") {
            Ok(ObjectiveFunction::HierarchicalRiskParity)
        } else {
            let mut e = owned("Unsupported objective function: ");
            e.append(s);
            Err(e)
        }
    }

    /// Whether the mean-variance efficient frontier is shown for this objective.
    pub open spec fn spec_uses_frontier(self) -> bool {
        match self {
            ObjectiveFunction::MaxSharpe | ObjectiveFunction::MaxSortino
            | ObjectiveFunction::MaxReturn | ObjectiveFunction::MinVol => true,
            _ => false,
        }
    }

    /// Whether the mean-variance efficient frontier is shown for this objective.
    pub fn uses_frontier(&self) -> (r: bool)
        ensures
            r == self.spec_uses_frontier(),
    {
        match self {
            ObjectiveFunction::MaxSharpe | ObjectiveFunction::MaxSortino
            | ObjectiveFunction::MaxReturn | ObjectiveFunction::MinVol => true,
            _ => false,
        }
    }

    /// Whether a risk-contribution chart is shown for this objective: exactly
    /// when the frontier is not.
    pub fn uses_risk_contribution_chart(&self) -> (r: bool)
        ensures
            r == !self.spec_uses_frontier(),
    {
        !self.uses_frontier()
    }
}

} // verus!
