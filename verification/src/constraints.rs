//! Which entries of portfolio constraints survive when only some of the
//! requested symbols could be fetched, and which assets a category covers.
//! The constraint values themselves (weight bounds) are carried by the
//! caller; these functions say which positions to keep.

use vstd::prelude::*;
use crate::text::str_eq;
use crate::periods::strings_view;

verus! {

/// Whether `list` holds an entry equal to `s`.
pub fn contains_text(list: &Vec<String>, s: &str) -> (r: bool)
    ensures
        r == strings_view(list@).contains(s@),
{
    let n = list.len();
    let mut i: usize = 0;
    while i < n
        invariant
            n == list@.len(),
            i <= n,
            forall|k: int| 0 <= k < i ==> list@[k]@ != s@,
        decreases n - i,
    {
        if str_eq(list[i].as_str(), s) {
            assert(strings_view(list@)[i as int] == s@);
            return true;
        }
        i = i + 1;
    }
    assert forall|k: int| 0 <= k < strings_view(list@).len() implies strings_view(list@)[k] != s@ by {
        assert(strings_view(list@)[k] == list@[k]@);
    }
    false
}

/// Whether `r` lists, in increasing order, exactly the positions `i` below
/// `bound` for which `keep(i)` holds.
pub open spec fn selects(r: Seq<usize>, bound: nat, keep: spec_fn(int) -> bool) -> bool {
    &&& forall|a: int, b: int| 0 <= a < b < r.len() ==> r[a] < r[b]
    &&& forall|a: int| 0 <= a < r.len() ==> (#[trigger] r[a]) < bound && keep(r[a] as int)
    &&& forall|i: int| 0 <= i < bound && #[trigger] keep(i) ==> r.contains(i as usize)
}

/// The positions of the entries of a per-symbol list (of `count` entries,
/// paired with `ticker_symbols` position by position) whose symbol was
/// fetched: positions below both lengths, in increasing order.
pub fn kept_positions(ticker_symbols: &Vec<String>, count: usize, fetched_symbols: &Vec<String>) -> (r: Vec<usize>)
    ensures
        selects(
            r@,
            if ticker_symbols@.len() < count { ticker_symbols@.len() } else { count as nat },
            |i: int| strings_view(fetched_symbols@).contains(ticker_symbols@[i]@),
        ),
{
    let bound = if ticker_symbols.len() < count { ticker_symbols.len() } else { count };
    let ghost keep = |i: int| strings_view(fetched_symbols@).contains(ticker_symbols@[i]@);
    let mut r: Vec<usize> = Vec::new();
    let mut i: usize = 0;
    while i < bound
        invariant
            bound <= ticker_symbols@.len(),
            i <= bound,
            keep == (|i: int| strings_view(fetched_symbols@).contains(ticker_symbols@[i]@)),
            forall|a: int, b: int| 0 <= a < b < r@.len() ==> r@[a] < r@[b],
            forall|a: int| 0 <= a < r@.len() ==> (#[trigger] r@[a]) < i && keep(r@[a] as int),
            forall|k: int| 0 <= k < i && #[trigger] keep(k) ==> r@.contains(k as usize),
        decreases bound - i,
    {
        if contains_text(fetched_symbols, ticker_symbols[i].as_str()) {
            let ghost before = r@;
            r.push(i);
            assert forall|k: int| 0 <= k < i + 1 && #[trigger] keep(k) implies r@.contains(k as usize) by {
                if k == i {
                    assert(r@[r@.len() - 1] == i);
                } else {
                    let idx = choose|idx: int| 0 <= idx < before.len() && before[idx] == k as usize;
                    assert(r@[idx] == k as usize);
                }
            }
        }
        i = i + 1;
    }
    r
}

/// The positions of the entries of `list` that equal `item`, in increasing
/// order: the assets that belong to a category.
pub fn positions_of(list: &Vec<String>, item: &str) -> (r: Vec<usize>)
    ensures
        selects(r@, list@.len(), |i: int| list@[i]@ == item@),
{
    let n = list.len();
    let ghost keep = |i: int| list@[i]@ == item@;
    let mut r: Vec<usize> = Vec::new();
    let mut i: usize = 0;
    while i < n
        invariant
            n == list@.len(),
            i <= n,
            keep == (|i: int| list@[i]@ == item@),
            forall|a: int, b: int| 0 <= a < b < r@.len() ==> r@[a] < r@[b],
            forall|a: int| 0 <= a < r@.len() ==> (#[trigger] r@[a]) < i && keep(r@[a] as int),
            forall|k: int| 0 <= k < i && #[trigger] keep(k) ==> r@.contains(k as usize),
        decreases n - i,
    {
        if str_eq(list[i].as_str(), item) {
            let ghost before = r@;
            r.push(i);
            assert forall|k: int| 0 <= k < i + 1 && #[trigger] keep(k) implies r@.contains(k as usize) by {
                if k == i {
                    assert(r@[r@.len() - 1] == i);
                } else {
                    let idx = choose|idx: int| 0 <= idx < before.len() && before[idx] == k as usize;
                    assert(r@[idx] == k as usize);
                }
            }
        }
        i = i + 1;
    }
    r
}

/// The positions of the category bounds whose category name is among
/// `categories`, in increasing order: the bounds that still apply once the
/// assets of the other categories are gone.
pub fn kept_categories(category_names: &Vec<String>, categories: &Vec<String>) -> (r: Vec<usize>)
    ensures
        selects(r@, category_names@.len(), |i: int| strings_view(categories@).contains(category_names@[i]@)),
{
    let n = category_names.len();
    let ghost keep = |i: int| strings_view(categories@).contains(category_names@[i]@);
    let mut r: Vec<usize> = Vec::new();
    let mut i: usize = 0;
    while i < n
        invariant
            n == category_names@.len(),
            i <= n,
            keep == (|i: int| strings_view(categories@).contains(category_names@[i]@)),
            forall|a: int, b: int| 0 <= a < b < r@.len() ==> r@[a] < r@[b],
            forall|a: int| 0 <= a < r@.len() ==> (#[trigger] r@[a]) < i && keep(r@[a] as int),
            forall|k: int| 0 <= k < i && #[trigger] keep(k) ==> r@.contains(k as usize),
        decreases n - i,
    {
        if contains_text(categories, category_names[i].as_str()) {
            let ghost before = r@;
            r.push(i);
            assert forall|k: int| 0 <= k < i + 1 && #[trigger] keep(k) implies r@.contains(k as usize) by {
                if k == i {
                    assert(r@[r@.len() - 1] == i);
                } else {
                    let idx = choose|idx: int| 0 <= idx < before.len() && before[idx] == k as usize;
                    assert(r@[idx] == k as usize);
                }
            }
        }
        i = i + 1;
    }
    r
}

} // verus!
