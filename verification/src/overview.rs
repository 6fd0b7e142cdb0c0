//! The statistics table of several tickers: one row per ticker, one column
//! per summary statistic that at least one ticker reports.

use vstd::prelude::*;
use vstd::string::StrSliceExecFns;
use crate::constraints::selects;
use crate::periods::strings_view;
use crate::summary::{spec_summary_fields, TickerSummaryStats};
use crate::text::owned;

verus! {

/// What `str::trim` leaves of a text: the text without its leading and
/// trailing whitespace.
pub uninterp spec fn std_trim(s: Seq<char>) -> Seq<char>;

/// The text without leading and trailing whitespace, as `str::trim` gives it.
/// The result is named by `std_trim`; which characters count as whitespace is
/// Unicode's `White_Space` property and is not spelled out here.
#[verifier::external_body]
fn trim(s: &str) -> (r: &str)
    ensures
        r@ == std_trim(s@),
{
    s.trim()
}

/// Whether a text is empty or whitespace only.
pub open spec fn spec_blank(s: Seq<char>) -> bool {
    std_trim(s).len() == 0
}

/// Whether a text is empty or whitespace only.
pub fn is_blank(s: &str) -> (r: bool)
    ensures
        r == spec_blank(s@),
{
    trim(s).unicode_len() == 0
}

/// The number of statistics in a summary table.
pub open spec fn n_stats() -> nat {
    spec_summary_fields().len()
}

/// Whether statistic `m` is shown: some ticker reports it with a non-blank value.
pub open spec fn spec_stat_shown(stats: Seq<(String, TickerSummaryStats)>, m: int) -> bool {
    exists|t: int| 0 <= t < stats.len() && !spec_blank(#[trigger] stats[t].1.spec_summary_values()[m])
}

/// The header of the table: `Symbol`, then the labels of the shown statistics.
pub open spec fn spec_header(kept: Seq<usize>) -> Seq<Seq<char>> {
    seq!["Symbol"@] + kept.map_values(|m: usize| spec_summary_fields()[m as int])
}

/// The row of one ticker: its symbol, then its values of the shown statistics.
pub open spec fn spec_row(entry: (String, TickerSummaryStats), kept: Seq<usize>) -> Seq<Seq<char>> {
    seq![entry.0@] + kept.map_values(|m: usize| entry.1.spec_summary_values()[m as int])
}

/// The statistics table of several tickers, each given with its symbol: a
/// header and one row per ticker, leaving out the statistics that every
/// ticker leaves blank.  Fails with `No data` when no ticker is given.
pub fn ticker_stats_table(stats: &Vec<(String, TickerSummaryStats)>) -> (r: Result<(Vec<String>, Vec<Vec<String>>), String>)
    ensures
        r is Err <==> stats@.len() == 0,
        r matches Err(e) ==> e@ == "No data"@,
        r matches Ok((header, rows)) ==> exists|kept: Seq<usize>| {
            &&& selects(kept, n_stats(), |m: int| spec_stat_shown(stats@, m))
            &&& strings_view(header@) == spec_header(kept)
            &&& rows@.len() == stats@.len()
            &&& forall|t: int| 0 <= t < rows@.len() ==> strings_view(#[trigger] rows@[t]@) == spec_row(stats@[t], kept)
        },
{
    let n = stats.len();
    if n == 0 {
        return Err(owned("No data"));
    }
    let mut labels: Vec<&'static str> = Vec::new();
    let mut values: Vec<Vec<String>> = Vec::new();
    let mut t: usize = 0;
    while t < n
        invariant
            n == stats@.len(),
            t <= n,
            values@.len() == t,
            t > 0 ==> crate::text::strs_view(labels@) == spec_summary_fields(),
            forall|k: int| 0 <= k < t ==> strings_view(#[trigger] values@[k]@) == stats@[k].1.spec_summary_values(),
        decreases n - t,
    {
        let (f, v) = stats[t].1.summary_table();
        labels = f;
        values.push(v);
        t = t + 1;
    }
    assert(crate::text::strs_view(labels@).len() == labels@.len());
    assert(strings_view(values@[0]@).len() == values@[0]@.len());
    assert(labels@.len() == n_stats());
    let ghost shown = |m: int| spec_stat_shown(stats@, m);
    let mut kept: Vec<usize> = Vec::new();
    let mut m: usize = 0;
    while m < labels.len()
        invariant
            n == stats@.len(),
            n > 0,
            labels@.len() == n_stats(),
            values@.len() == n,
            forall|k: int| 0 <= k < n ==> strings_view(#[trigger] values@[k]@) == stats@[k].1.spec_summary_values(),
            m <= labels@.len(),
            shown == (|m: int| spec_stat_shown(stats@, m)),
            forall|a: int, b: int| 0 <= a < b < kept@.len() ==> kept@[a] < kept@[b],
            forall|a: int| 0 <= a < kept@.len() ==> (#[trigger] kept@[a]) < m && shown(kept@[a] as int),
            forall|k: int| 0 <= k < m && #[trigger] shown(k) ==> kept@.contains(k as usize),
        decreases labels@.len() - m,
    {
        let mut any = false;
        let mut u: usize = 0;
        while u < n
            invariant
                n == stats@.len(),
                values@.len() == n,
                forall|k: int| 0 <= k < n ==> strings_view(#[trigger] values@[k]@) == stats@[k].1.spec_summary_values(),
                m < labels@.len(),
                labels@.len() == n_stats(),
                u <= n,
                any == exists|k: int| 0 <= k < u && !spec_blank(#[trigger] stats@[k].1.spec_summary_values()[m as int]),
            decreases n - u,
        {
            assert(strings_view(values@[u as int]@) == stats@[u as int].1.spec_summary_values());
            assert(strings_view(values@[u as int]@).len() == values@[u as int]@.len());
            assert(values@[u as int]@[m as int]@ == stats@[u as int].1.spec_summary_values()[m as int]);
            if !is_blank(values[u][m].as_str()) {
                any = true;
            }
            u = u + 1;
        }
        if any {
            let ghost before = kept@;
            kept.push(m);
            assert forall|k: int| 0 <= k < m + 1 && #[trigger] shown(k) implies kept@.contains(k as usize) by {
                if k == m {
                    assert(kept@[kept@.len() - 1] == m);
                } else {
                    let idx = choose|idx: int| 0 <= idx < before.len() && before[idx] == k as usize;
                    assert(kept@[idx] == k as usize);
                }
            }
        }
        m = m + 1;
    }
    let mut header: Vec<String> = Vec::new();
    header.push(owned("Symbol"));
    let mut i: usize = 0;
    while i < kept.len()
        invariant
            labels@.len() == n_stats(),
            crate::text::strs_view(labels@) == spec_summary_fields(),
            forall|a: int| 0 <= a < kept@.len() ==> (#[trigger] kept@[a]) < labels@.len(),
            i <= kept@.len(),
            strings_view(header@) == spec_header(kept@.take(i as int)),
        decreases kept@.len() - i,
    {
        let k = kept[i];
        assert(labels@[k as int]@ == spec_summary_fields()[k as int]);
        header.push(owned(labels[k]));
        assert(kept@.take(i + 1) =~= kept@.take(i as int).push(k));
        assert(spec_header(kept@.take(i + 1)) =~= spec_header(kept@.take(i as int)).push(spec_summary_fields()[k as int]));
        assert(strings_view(header@) =~= spec_header(kept@.take(i + 1)));
        i = i + 1;
    }
    assert(kept@.take(kept@.len() as int) =~= kept@);
    let mut rows: Vec<Vec<String>> = Vec::new();
    let mut t: usize = 0;
    while t < n
        invariant
            n == stats@.len(),
            values@.len() == n,
            forall|k: int| 0 <= k < n ==> strings_view(#[trigger] values@[k]@) == stats@[k].1.spec_summary_values(),
            labels@.len() == n_stats(),
            forall|a: int| 0 <= a < kept@.len() ==> (#[trigger] kept@[a]) < labels@.len(),
            t <= n,
            rows@.len() == t,
            forall|k: int| 0 <= k < t ==> strings_view(#[trigger] rows@[k]@) == spec_row(stats@[k], kept@),
        decreases n - t,
    {
        assert(strings_view(values@[t as int]@) == stats@[t as int].1.spec_summary_values());
        assert(strings_view(values@[t as int]@).len() == values@[t as int]@.len());
        let mut row: Vec<String> = Vec::new();
        row.push(owned(stats[t].0.as_str()));
        let mut i: usize = 0;
        while i < kept.len()
            invariant
                t < n,
                n == stats@.len(),
                values@.len() == n,
                strings_view(values@[t as int]@) == stats@[t as int].1.spec_summary_values(),
                values@[t as int]@.len() == n_stats(),
                labels@.len() == n_stats(),
                forall|a: int| 0 <= a < kept@.len() ==> (#[trigger] kept@[a]) < labels@.len(),
                i <= kept@.len(),
                strings_view(row@) == spec_row(stats@[t as int], kept@.take(i as int)),
            decreases kept@.len() - i,
        {
            let k = kept[i];
            assert(values@[t as int]@[k as int]@ == stats@[t as int].1.spec_summary_values()[k as int]);
            row.push(owned(values[t][k].as_str()));
            assert(kept@.take(i + 1) =~= kept@.take(i as int).push(k));
            assert(spec_row(stats@[t as int], kept@.take(i + 1)) =~= spec_row(stats@[t as int], kept@.take(i as int)).push(
                stats@[t as int].1.spec_summary_values()[k as int],
            ));
            assert(strings_view(row@) =~= spec_row(stats@[t as int], kept@.take(i + 1)));
            i = i + 1;
        }
        rows.push(row);
        t = t + 1;
    }
    assert(selects(kept@, n_stats(), |m: int| spec_stat_shown(stats@, m)));
    Ok((header, rows))
}

} // verus!
