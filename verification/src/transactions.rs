//! Placement of per-asset transactions on the rows and asset columns of a
//! portfolio simulation.

use vstd::prelude::*;
use vstd::utf8::*;
use vstd::string::StringSliceAdditionalSpecFns;
use crate::text::str_eq;

verus! {

broadcast use vstd::string::group_string_axioms;

/// The last position at which `x` occurs in `v`, as a lookup table built from
/// `v` (where later entries replace earlier ones) finds it.
pub open spec fn spec_last_index(v: Seq<String>, x: Seq<char>) -> Option<int> {
    if exists|i: int| 0 <= i < v.len() && v[i]@ == x {
        Some(choose|i: int| 0 <= i < v.len() && v[i]@ == x && forall|j: int| i < j < v.len() ==> v[j]@ != x)
    } else {
        None
    }
}

/// Whether the bytes of `p` begin the bytes of `s`.
pub open spec fn bytes_start_with(s: Seq<char>, p: Seq<char>) -> bool {
    encode_utf8(p).len() <= encode_utf8(s).len()
        && encode_utf8(s).subrange(0, encode_utf8(p).len() as int) == encode_utf8(p)
}

/// The row a transaction dated `date` falls on: the last row whose date is
/// exactly `date`, else the first row whose date begins with `date`.
pub open spec fn spec_row_of(dates: Seq<String>, date: Seq<char>) -> Option<int> {
    match spec_last_index(dates, date) {
        Some(i) => Some(i),
        None => if exists|i: int| 0 <= i < dates.len() && bytes_start_with(dates[i]@, date) {
            Some(choose|i: int| 0 <= i < dates.len() && bytes_start_with(dates[i]@, date)
                && forall|j: int| 0 <= j < i ==> !bytes_start_with(dates[j]@, date))
        } else {
            None
        },
    }
}

/// Whether `s` begins with `p`, byte by byte.
fn starts_with(s: &str, p: &str) -> (r: bool)
    ensures
        r == bytes_start_with(s@, p@),
{
    let sb = s.as_bytes();
    let pb = p.as_bytes();
    if pb.len() > sb.len() {
        return false;
    }
    let mut i: usize = 0;
    while i < pb.len()
        invariant
            sb@ == encode_utf8(s@),
            pb@ == encode_utf8(p@),
            pb@.len() <= sb@.len(),
            i <= pb@.len(),
            forall|k: int| 0 <= k < i ==> sb@[k] == pb@[k],
        decreases pb@.len() - i,
    {
        if sb[i] != pb[i] {
            assert(sb@.subrange(0, pb@.len() as int)[i as int] != pb@[i as int]);
            return false;
        }
        i = i + 1;
    }
    assert(sb@.subrange(0, pb@.len() as int) =~= pb@);
    true
}

/// The last position at which `x` occurs in `v`.
fn last_index(v: &Vec<String>, x: &str) -> (r: Option<usize>)
    ensures
        r matches Some(i) ==> spec_last_index(v@, x@) == Some(i as int),
        r is None ==> spec_last_index(v@, x@) is None,
{
    let mut i: usize = v.len();
    while i > 0
        invariant
            i <= v@.len(),
            forall|j: int| i <= j < v@.len() ==> v@[j]@ != x@,
        decreases i,
    {
        if str_eq(v[i - 1].as_str(), x) {
            let k = i - 1;
            assert(forall|j: int| k < j < v@.len() ==> v@[j]@ != x@);
            proof {
                let c = choose|c: int| 0 <= c < v@.len() && v@[c]@ == x@ && forall|j: int| c < j < v@.len() ==> v@[j]@ != x@;
                assert(c == k as int);
            }
            return Some(k);
        }
        i = i - 1;
    }
    None
}

/// The first row whose date begins with `date`.
fn first_prefixed(dates: &Vec<String>, date: &str) -> (r: Option<usize>)
    ensures
        r matches Some(k) ==> 0 <= k < dates@.len() && bytes_start_with(dates@[k as int]@, date@)
            && forall|j: int| 0 <= j < k ==> !bytes_start_with(#[trigger] dates@[j]@, date@),
        r is None ==> forall|j: int| 0 <= j < dates@.len() ==> !bytes_start_with(#[trigger] dates@[j]@, date@),
{
    let n = dates.len();
    let mut i: usize = 0;
    while i < n
        invariant
            n == dates@.len(),
            i <= n,
            forall|j: int| 0 <= j < i ==> !bytes_start_with(#[trigger] dates@[j]@, date@),
        decreases n - i,
    {
        if starts_with(dates[i].as_str(), date) {
            return Some(i);
        }
        i = i + 1;
    }
    None
}

/// Where a transaction lands: its row and its asset column.  A transaction
/// whose ticker is not an asset, or whose date matches no row, lands nowhere.
pub fn transaction_slot(date: &str, ticker: &str, dates: &Vec<String>, symbols: &Vec<String>) -> (r: Option<(usize, usize)>)
    ensures
        r matches Some((row, asset)) ==> spec_row_of(dates@, date@) == Some(row as int)
            && spec_last_index(symbols@, ticker@) == Some(asset as int),
        r is None ==> spec_row_of(dates@, date@) is None || spec_last_index(symbols@, ticker@) is None,
{
    let asset = match last_index(symbols, ticker) {
        Some(a) => a,
        None => return None,
    };
    let row = match last_index(dates, date) {
        Some(k) => k,
        None => {
            match first_prefixed(dates, date) {
                Some(k) => {
                    proof {
                        let c = choose|c: int| 0 <= c < dates@.len() && bytes_start_with(dates@[c]@, date@)
                            && forall|j: int| 0 <= j < c ==> !bytes_start_with(dates@[j]@, date@);
                        assert(c == k as int);
                    }
                    k
                },
                None => return None,
            }
        },
    };
    Some((row, asset))
}

} // verus!
