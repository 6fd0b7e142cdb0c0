//! Price columns that technical indicators are computed on.

use vstd::prelude::*;
use crate::text::str_eq;

verus! {

/// A column of an OHLCV price table.
#[derive(Debug, Clone, Copy, PartialEq, Eq, Structural)]
pub enum Column {
    Open,
    High,
    Low,
    Close,
    Volume,
    AdjClose,
}

impl Column {
    /// The name of this column in a price table.
    pub open spec fn spec_name(self) -> Seq<char> {
        match self {
            Column::Open => "open"@,
            Column::High => "high"@,
            Column::Low => "low"@,
            Column::Close => "close"@,
            Column::Volume => "volume"@,
            Column::AdjClose => "adjclose"@,
        }
    }

    /// The name of this column in a price table.
    pub fn as_str(&self) -> (r: &'static str)
        ensures
            r@ == self.spec_name(),
    {
        match self {
            Column::Open => "open",
            Column::High => "high",
            Column::Low => "low",
            Column::Close => "close",
            Column::Volume => "volume",
            Column::AdjClose => "adjclose",
        }
    }

    /// The column a name stands for; any other name stands for the close.
    pub open spec fn spec_from_name(s: Seq<char>) -> Column {
        if s == "open"@ {
            Column::Open
        } else if s == "high"@ {
            Column::High
        } else if s == "low"@ {
            Column::Low
        } else if s == "close"@ {
            Column::Close
        } else if s == "volume"@ {
            Column::Volume
        } else if s == "adjclose"@ {
            Column::AdjClose
        } else {
            Column::Close
        }
    }

    /// The column a name stands for; any other name stands for the close.
    pub fn from_str(s: &str) -> (r: Column)
        ensures
            r == Self::spec_from_name(s@),
    {
        if str_eq(s, "open") {
            Column::Open
        } else if str_eq(s, "high") {
            Column::High
        } else if str_eq(s, "low") {
            Column::Low
        } else if str_eq(s, "close") {
            Column::Close
        } else if str_eq(s, "volume") {
            Column::Volume
        } else if str_eq(s, "adjclose") {
            Column::AdjClose
        } else {
            Column::Close
        }
    }

    /// Reading a column's name gives back that column.
    pub proof fn lemma_name_round_trip(c: Column)
        ensures
            Self::spec_from_name(c.spec_name()) == c,
    {
        reveal_strlit("open");
        reveal_strlit("high");
        reveal_strlit("low");
        reveal_strlit("close");
        reveal_strlit("volume");
        reveal_strlit("adjclose");
        assert("open"@.len() == 4 && "high"@.len() == 4 && "low"@.len() == 3);
        assert("close"@.len() == 5 && "volume"@.len() == 6 && "adjclose"@.len() == 8);
        assert("open"@[0] == 'o' && "high"@[0] == 'h');
        assert("open"@ != "high"@);
    }
}

} // verus!
