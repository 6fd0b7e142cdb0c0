//! The table that screener quotes are turned into: which quote fields become
//! columns, under which names and in which order, and the type of each column
//! from the kinds of values it holds.

use vstd::prelude::*;
use crate::constraints::contains_text;
use crate::periods::strings_view;

verus! {

/// The quote fields shown in a screener table with their column names, in
/// column order.
pub open spec fn spec_quote_columns() -> Seq<(Seq<char>, Seq<char>)> {
    seq![
        ("symbol"@, "Symbol"@),
        ("longName"@, "Name"@),
        ("fullExchangeName"@, "Exchange"@),
        ("region"@, "Region"@),
        ("currency"@, "Currency"@),
        ("marketCap"@, "Market Cap"@),
        ("netAssets"@, "Net Assets"@),
        ("netExpenseRatio"@, "Expense Ratio"@),
        ("ytdReturn"@, "YTD Return"@),
        ("trailingThreeMonthsReturn"@, "3-Month Return"@),
        ("regularMarketPrice"@, "Price"@),
        ("regularMarketDayRange"@, "Day Range"@),
        ("regularMarketChangePercent"@, "Change %"@),
        ("regularMarketVolume"@, "Volume"@),
        ("fiftyTwoWeekRange"@, "52-Week Range"@),
        ("fiftyTwoWeekChangePercent"@, "52-Week Change %"@),
        ("fiftyDayAverage"@, "50-Day Avg"@),
        ("twoHundredDayAverage"@, "200-Day Avg"@),
        ("epsCurrentYear"@, "EPS (Current Year)"@),
        ("priceEpsCurrentYear"@, "Price/EPS"@),
        ("priceToBook"@, "Price/Book"@),
        ("averageAnalystRating"@, "Analyst Rating"@),
    ]
}

/// The contents of a list of pairs of string slices.
pub open spec fn pairs_view(v: Seq<(&str, &str)>) -> Seq<(Seq<char>, Seq<char>)> {
    v.map_values(|p: (&str, &str)| (p.0@, p.1@))
}

/// The columns of a screener table whose quotes carry the fields
/// `present_keys`: each shown field that is present, as (field, column name),
/// in column order.
pub fn quote_columns(present_keys: &Vec<String>) -> (r: Vec<(&'static str, &'static str)>)
    ensures
        pairs_view(r@) == spec_quote_columns().filter(
            |c: (Seq<char>, Seq<char>)| strings_view(present_keys@).contains(c.0),
        ),
{
    let all: Vec<(&'static str, &'static str)> = vec![
        ("symbol", "Symbol"),
        ("longName", "Name"),
        ("fullExchangeName", "Exchange"),
        ("region", "Region"),
        ("currency", "Currency"),
        ("marketCap", "Market Cap"),
        ("netAssets", "Net Assets"),
        ("netExpenseRatio", "Expense Ratio"),
        ("ytdReturn", "YTD Return"),
        ("trailingThreeMonthsReturn", "3-Month Return"),
        ("regularMarketPrice", "Price"),
        ("regularMarketDayRange", "Day Range"),
        ("regularMarketChangePercent", "Change %"),
        ("regularMarketVolume", "Volume"),
        ("fiftyTwoWeekRange", "52-Week Range"),
        ("fiftyTwoWeekChangePercent", "52-Week Change %"),
        ("fiftyDayAverage", "50-Day Avg"),
        ("twoHundredDayAverage", "200-Day Avg"),
        ("epsCurrentYear", "EPS (Current Year)"),
        ("priceEpsCurrentYear", "Price/EPS"),
        ("priceToBook", "Price/Book"),
        ("averageAnalystRating", "Analyst Rating"),
    ];
    assert(pairs_view(all@) =~= spec_quote_columns());
    let ghost keep = |c: (Seq<char>, Seq<char>)| strings_view(present_keys@).contains(c.0);
    let mut r: Vec<(&'static str, &'static str)> = Vec::new();
    let n = all.len();
    let mut i: usize = 0;
    while i < n
        invariant
            n == all@.len(),
            i <= n,
            pairs_view(all@) == spec_quote_columns(),
            keep == (|c: (Seq<char>, Seq<char>)| strings_view(present_keys@).contains(c.0)),
            pairs_view(r@) == pairs_view(all@).take(i as int).filter(keep),
        decreases n - i,
    {
        let (key, name) = all[i];
        assert(pairs_view(all@).take(i + 1).drop_last() =~= pairs_view(all@).take(i as int));
        reveal_with_fuel(Seq::<(Seq<char>, Seq<char>)>::filter, 1);
        if contains_text(present_keys, key) {
            r.push((key, name));
        }
        assert(pairs_view(r@) =~= pairs_view(all@).take(i + 1).filter(keep));
        i = i + 1;
    }
    assert(pairs_view(all@).take(n as int) =~= pairs_view(all@));
    r
}

/// The kind of one value of a quote field.
#[derive(Debug, Clone, Copy, PartialEq, Eq, Structural)]
pub enum ValueKind {
    /// The quote lacks the field.
    Missing,
    Number,
    Boolean,
    /// A string, array, object or null.
    Other,
}

/// The type of a table column.
#[derive(Debug, Clone, Copy, PartialEq, Eq, Structural)]
pub enum ColumnKind {
    Float,
    Bool,
    Text,
}

/// A column is numeric when every value present is a number, else boolean
/// when every value present is a boolean, else text.
pub open spec fn spec_column_kind(values: Seq<ValueKind>) -> ColumnKind {
    if forall|i: int| 0 <= i < values.len() ==> (#[trigger] values[i] == ValueKind::Missing || values[i] == ValueKind::Number) {
        ColumnKind::Float
    } else if forall|i: int| 0 <= i < values.len() ==> (#[trigger] values[i] == ValueKind::Missing || values[i] == ValueKind::Boolean) {
        ColumnKind::Bool
    } else {
        ColumnKind::Text
    }
}

/// The type of a column from the kinds of its values.
pub fn column_kind(values: &Vec<ValueKind>) -> (r: ColumnKind)
    ensures
        r == spec_column_kind(values@),
{
    let n = values.len();
    let mut all_numbers = true;
    let mut all_booleans = true;
    let mut i: usize = 0;
    while i < n
        invariant
            n == values@.len(),
            i <= n,
            all_numbers == forall|k: int| 0 <= k < i ==> (#[trigger] values@[k] == ValueKind::Missing || values@[k] == ValueKind::Number),
            all_booleans == forall|k: int| 0 <= k < i ==> (#[trigger] values@[k] == ValueKind::Missing || values@[k] == ValueKind::Boolean),
        decreases n - i,
    {
        let v = values[i];
        if v != ValueKind::Missing && v != ValueKind::Number {
            all_numbers = false;
        }
        if v != ValueKind::Missing && v != ValueKind::Boolean {
            all_booleans = false;
        }
        i = i + 1;
    }
    if all_numbers {
        ColumnKind::Float
    } else if all_booleans {
        ColumnKind::Bool
    } else {
        ColumnKind::Text
    }
}

} // verus!
