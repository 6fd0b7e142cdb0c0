//! Calendar schedules: detection of period boundaries between consecutive
//! dates, date windows, the rows on which scheduled cash flows fall, and the
//! decision to rebalance.

use vstd::prelude::*;
use vstd::utf8::*;
use crate::text::{owned, decimal_number};

verus! {

broadcast use vstd::string::group_string_axioms;

/// Calendar frequency of rebalancing triggers and scheduled cash flows.
#[derive(Debug, Clone, Copy, PartialEq, Eq, Structural)]
pub enum ScheduleFrequency {
    Monthly,
    Quarterly,
    SemiAnnually,
    Annually,
}

impl ScheduleFrequency {
    /// The display name of this frequency.
    pub open spec fn spec_name(self) -> Seq<char> {
        match self {
            ScheduleFrequency::Monthly => "Monthly"@,
            ScheduleFrequency::Quarterly => "Quarterly"@,
            ScheduleFrequency::SemiAnnually => "Semi-Annually"@,
            ScheduleFrequency::Annually => "Annually"@,
        }
    }

    /// The display name of this frequency.
    pub fn to_string(&self) -> (r: String)
        ensures
            r@ == self.spec_name(),
    {
        match self {
            ScheduleFrequency::Monthly => owned("Monthly"),
            ScheduleFrequency::Quarterly => owned("Quarterly"),
            ScheduleFrequency::SemiAnnually => owned("Semi-Annually"),
            ScheduleFrequency::Annually => owned("Annually"),
        }
    }
}

/// Whether a byte is an ASCII decimal digit.
pub open spec fn is_digit(b: u8) -> bool {
    48 <= b <= 57
}

/// Whether every byte is an ASCII decimal digit.
pub open spec fn all_digits(d: Seq<u8>) -> bool {
    forall|k: int| 0 <= k < d.len() ==> is_digit(#[trigger] d[k])
}

/// The number that a sequence of decimal digits writes.
pub open spec fn digits_value(d: Seq<u8>) -> nat
    decreases d.len(),
{
    if d.len() == 0 {
        0
    } else {
        digits_value(d.drop_last()) * 10 + (d.last() - 48) as nat
    }
}

/// What parsing `b` as a `u32` gives, with 0 when it is not a `u32`: an
/// optional `+` followed by at least one decimal digit, of value at most `u32::MAX`.
pub open spec fn parse_u32_or_zero(b: Seq<u8>) -> nat {
    let d = if b.len() > 0 && b[0] == 43 { b.drop_first() } else { b };
    if d.len() > 0 && all_digits(d) && digits_value(d) <= u32::MAX {
        digits_value(d)
    } else {
        0
    }
}

proof fn lemma_digits_bound(d: Seq<u8>)
    requires
        all_digits(d),
    ensures
        digits_value(d) < pow10(d.len()),
    decreases d.len(),
{
    if d.len() > 0 {
        assert(all_digits(d.drop_last()));
        lemma_digits_bound(d.drop_last());
        assert(is_digit(d[d.len() - 1]));
    }
}

/// Ten to the power `n`.
pub open spec fn pow10(n: nat) -> nat
    decreases n,
{
    if n == 0 { 1 } else { 10 * pow10((n - 1) as nat) }
}

proof fn lemma_pow10_small()
    ensures
        pow10(0) == 1,
        pow10(1) == 10,
        pow10(2) == 100,
        pow10(3) == 1000,
        pow10(4) == 10000,
{
    reveal_with_fuel(pow10, 5);
}

/// Parses the bytes `b[from..to]` as a `u32`, giving 0 when they are not one.
/// The range holds at most four bytes, so no value overflows.
fn parse_small_u32(b: &[u8], from: usize, to: usize) -> (r: u32)
    requires
        from <= to <= b@.len(),
        to - from <= 4,
    ensures
        r == parse_u32_or_zero(b@.subrange(from as int, to as int)),
{
    let ghost s = b@.subrange(from as int, to as int);
    let mut start = from;
    if from < to && b[from] == 43 {
        start = from + 1;
    }
    let ghost d = b@.subrange(start as int, to as int);
    assert(d =~= (if s.len() > 0 && s[0] == 43 { s.drop_first() } else { s }));
    if start == to {
        return 0;
    }
    proof {
        lemma_pow10_small();
    }
    let mut v: u32 = 0;
    let mut k: usize = start;
    assert(b@.subrange(start as int, k as int) =~= Seq::<u8>::empty());
    while k < to
        invariant
            from <= start <= k <= to <= b@.len(),
            to - start <= 4,
            d == b@.subrange(start as int, to as int),
            s == b@.subrange(from as int, to as int),
            d == (if s.len() > 0 && s[0] == 43 { s.drop_first() } else { s }),
            all_digits(b@.subrange(start as int, k as int)),
            v == digits_value(b@.subrange(start as int, k as int)),
            pow10(0) == 1,
            pow10(1) == 10,
            pow10(2) == 100,
            pow10(3) == 1000,
            pow10(4) == 10000,
        decreases to - k,
    {
        let c = b[k];
        if c < 48 || c > 57 {
            assert(d[k - start] == c);
            assert(!all_digits(d));
            return 0;
        }
        proof {
            lemma_digits_bound(b@.subrange(start as int, k as int));
        }
        assert(v < 1000);
        let ghost prev = b@.subrange(start as int, k as int);
        assert(b@.subrange(start as int, k + 1).drop_last() =~= prev);
        v = v * 10 + (c - 48) as u32;
        k = k + 1;
        assert(all_digits(b@.subrange(start as int, k as int))) by {
            assert forall|j: int| 0 <= j < k - start implies is_digit(#[trigger] b@.subrange(start as int, k as int)[j]) by {
                if j < k - 1 - start {
                    assert(b@.subrange(start as int, k as int)[j] == prev[j]);
                }
            }
        }
    }
    proof {
        lemma_digits_bound(d);
    }
    v
}

/// Whether the year and month fields of a date string can be cut out: it has
/// at least seven bytes and byte offsets 4, 5 and 7 fall between characters.
pub open spec fn has_year_month(d: Seq<char>) -> bool {
    let b = encode_utf8(d);
    &&& b.len() >= 7
    &&& is_char_boundary(b, 4)
    &&& is_char_boundary(b, 5)
    &&& is_char_boundary(b, 7)
}

/// The year written in the first four bytes of a date string, 0 when none is.
pub open spec fn spec_year(d: Seq<char>) -> nat {
    parse_u32_or_zero(encode_utf8(d).subrange(0, 4))
}

/// The month written in bytes 5 and 6 of a date string, 0 when none is.
pub open spec fn spec_month(d: Seq<char>) -> nat {
    parse_u32_or_zero(encode_utf8(d).subrange(5, 7))
}

/// The period of the year that a month falls in, at the given frequency.
pub open spec fn spec_period_of_year(month: nat, freq: ScheduleFrequency) -> nat {
    let m0: nat = if month >= 1 { (month - 1) as nat } else { 0 };
    match freq {
        ScheduleFrequency::Monthly => month,
        ScheduleFrequency::Quarterly => m0 / 3,
        ScheduleFrequency::SemiAnnually => m0 / 6,
        ScheduleFrequency::Annually => 0,
    }
}

/// A new period starts between two dates when their years differ or the
/// periods of the year their months fall in differ.
pub open spec fn spec_new_period(y1: nat, m1: nat, y2: nat, m2: nat, freq: ScheduleFrequency) -> bool {
    y1 != y2 || spec_period_of_year(m1, freq) != spec_period_of_year(m2, freq)
}

/// Whether `curr_date` starts a new period relative to `prev_date`.
pub open spec fn spec_is_period_boundary(prev_date: Seq<char>, curr_date: Seq<char>, freq: ScheduleFrequency) -> bool {
    spec_new_period(spec_year(prev_date), spec_month(prev_date), spec_year(curr_date), spec_month(curr_date), freq)
}

/// Returns `true` when `curr_date` is the first date of a new period relative
/// to `prev_date` at the given frequency.  Dates start with `YYYY-MM`; a field
/// that is not a number counts as 0.
pub fn is_period_boundary(prev_date: &str, curr_date: &str, freq: ScheduleFrequency) -> (r: bool)
    requires
        has_year_month(prev_date@),
        has_year_month(curr_date@),
    ensures
        r == spec_is_period_boundary(prev_date@, curr_date@, freq),
{
    let pb = prev_date.as_bytes();
    let cb = curr_date.as_bytes();
    let prev_year = parse_small_u32(pb, 0, 4);
    let curr_year = parse_small_u32(cb, 0, 4);
    let prev_month = parse_small_u32(pb, 5, 7);
    let curr_month = parse_small_u32(cb, 5, 7);
    match freq {
        ScheduleFrequency::Monthly => curr_month != prev_month || curr_year != prev_year,
        ScheduleFrequency::Quarterly => {
            let prev_q = (if prev_month >= 1 { prev_month - 1 } else { 0 }) / 3;
            let curr_q = (if curr_month >= 1 { curr_month - 1 } else { 0 }) / 3;
            curr_q != prev_q || curr_year != prev_year
        },
        ScheduleFrequency::SemiAnnually => {
            let prev_h = (if prev_month >= 1 { prev_month - 1 } else { 0 }) / 6;
            let curr_h = (if curr_month >= 1 { curr_month - 1 } else { 0 }) / 6;
            curr_h != prev_h || curr_year != prev_year
        },
        ScheduleFrequency::Annually => curr_year != prev_year,
    }
}

/// A date never starts a new period relative to itself, and a new year,
/// half-year or quarter is also a new half-year, quarter and month: the
/// boundaries of coarser frequencies are boundaries of finer ones.
pub proof fn lemma_boundaries_nest(y1: nat, m1: nat, y2: nat, m2: nat)
    ensures
        !spec_new_period(y1, m1, y1, m1, ScheduleFrequency::Monthly),
        !spec_new_period(y1, m1, y1, m1, ScheduleFrequency::Annually),
        spec_new_period(y1, m1, y2, m2, ScheduleFrequency::Annually)
            ==> spec_new_period(y1, m1, y2, m2, ScheduleFrequency::SemiAnnually),
        spec_new_period(y1, m1, y2, m2, ScheduleFrequency::SemiAnnually)
            ==> spec_new_period(y1, m1, y2, m2, ScheduleFrequency::Quarterly),
        spec_new_period(y1, m1, y2, m2, ScheduleFrequency::Quarterly)
            ==> spec_new_period(y1, m1, y2, m2, ScheduleFrequency::Monthly),
{
    let a: nat = if m1 >= 1 { (m1 - 1) as nat } else { 0 };
    let b: nat = if m2 >= 1 { (m2 - 1) as nat } else { 0 };
    assert(a / 6 == (a / 3) / 2);
    assert(b / 6 == (b / 3) / 2);
}

/// Byte-wise lexicographic order, the order of string comparison.
pub open spec fn bytes_lt(a: Seq<u8>, b: Seq<u8>) -> bool
    decreases a.len(),
{
    if a.len() == 0 {
        b.len() > 0
    } else if b.len() == 0 {
        false
    } else if a[0] != b[0] {
        a[0] < b[0]
    } else {
        bytes_lt(a.drop_first(), b.drop_first())
    }
}

/// Whether `a[..alen]` comes before `b[..blen]` in byte-wise lexicographic order.
fn prefix_lt(a: &[u8], alen: usize, b: &[u8], blen: usize) -> (r: bool)
    requires
        alen <= a@.len(),
        blen <= b@.len(),
    ensures
        r == bytes_lt(a@.subrange(0, alen as int), b@.subrange(0, blen as int)),
{
    let mut i: usize = 0;
    while i < alen && i < blen && a[i] == b[i]
        invariant
            alen <= a@.len(),
            blen <= b@.len(),
            i <= alen,
            i <= blen,
            bytes_lt(a@.subrange(0, alen as int), b@.subrange(0, blen as int))
                == bytes_lt(a@.subrange(i as int, alen as int), b@.subrange(i as int, blen as int)),
        decreases alen - i,
    {
        assert(a@.subrange(i as int, alen as int).drop_first() =~= a@.subrange(i + 1, alen as int));
        assert(b@.subrange(i as int, blen as int).drop_first() =~= b@.subrange(i + 1, blen as int));
        i = i + 1;
    }
    if i == alen {
        i < blen
    } else if i == blen {
        false
    } else {
        a[i] < b[i]
    }
}

/// The number of bytes of a date string that hold the date: at most ten.
pub open spec fn date_part_len(s: Seq<char>) -> nat {
    if encode_utf8(s).len() < 10 { encode_utf8(s).len() } else { 10 }
}

/// The bytes of the date part of a date string.
pub open spec fn date_part(s: Seq<char>) -> Seq<u8> {
    encode_utf8(s).subrange(0, date_part_len(s) as int)
}

/// Whether the date part of a date string can be cut out.
pub open spec fn has_date_part(s: Seq<char>) -> bool {
    is_char_boundary(encode_utf8(s), date_part_len(s) as int)
}

/// Whether a date falls within a window whose ends may be open.
pub open spec fn spec_date_in_range(date: Seq<char>, start: Option<String>, end: Option<String>) -> bool {
    &&& start matches Some(s) ==> !bytes_lt(date_part(date), date_part(s@))
    &&& end matches Some(e) ==> !bytes_lt(date_part(e@), date_part(date))
}

/// Whether `date` is on or after the start of the window, or the window has no start.
pub open spec fn spec_not_before_start(date: Seq<char>, start: Option<String>) -> bool {
    match start {
        Some(s) => !bytes_lt(date_part(date), date_part(s@)),
        None => true,
    }
}

/// Whether the date parts that a window check cuts out can be cut: the
/// date's, the start's when there is one, and the end's when there is one and
/// the date is not before the start (the end is not read otherwise).
pub open spec fn window_cuts_ok(date: Seq<char>, start: Option<String>, end: Option<String>) -> bool {
    &&& has_date_part(date)
    &&& match start {
        Some(s) => has_date_part(s@),
        None => true,
    }
    &&& match end {
        Some(e) => spec_not_before_start(date, start) ==> has_date_part(e@),
        None => true,
    }
}

/// Whether `date` lies within `[start, end]`, comparing the first ten bytes
/// (the `YYYY-MM-DD` part) of each as strings; a missing end is open.
pub fn date_in_range(date: &str, start: &Option<String>, end: &Option<String>) -> (r: bool)
    requires
        window_cuts_ok(date@, *start, *end),
    ensures
        r == spec_date_in_range(date@, *start, *end),
{
    let db = date.as_bytes();
    let dl = if db.len() < 10 { db.len() } else { 10 };
    if let Some(s) = start {
        let sb = s.as_str().as_bytes();
        let sl = if sb.len() < 10 { sb.len() } else { 10 };
        if prefix_lt(db, dl, sb, sl) {
            return false;
        }
    }
    if let Some(e) = end {
        let eb = e.as_str().as_bytes();
        let el = if eb.len() < 10 { eb.len() } else { 10 };
        if prefix_lt(eb, el, db, dl) {
            return false;
        }
    }
    true
}

/// Whether a scheduled cash flow falls on row `row`: the row starts a new
/// period relative to the row before it and lies within the window.
pub open spec fn spec_fires(dates: Seq<String>, row: int, freq: ScheduleFrequency, start: Option<String>, end: Option<String>) -> bool {
    &&& 1 <= row < dates.len()
    &&& spec_is_period_boundary(dates[row - 1]@, dates[row]@, freq)
    &&& spec_date_in_range(dates[row]@, start, end)
}

/// Whether every date string has the fields that schedules read.
pub open spec fn dates_well_formed(dates: Seq<String>) -> bool {
    forall|k: int| 0 <= k < dates.len() ==> has_year_month(#[trigger] dates[k]@)
}

/// Whether the texts that expanding a schedule cuts can be cut: with two dates
/// or more, the year and month of every date, and on each row where a new
/// period starts, the date parts of the window check.
pub open spec fn schedule_cuts_ok(dates: Seq<String>, freq: ScheduleFrequency, start: Option<String>, end: Option<String>) -> bool {
    &&& dates.len() >= 2 ==> dates_well_formed(dates)
    &&& forall|row: int| 1 <= row < dates.len() && spec_is_period_boundary(dates[row - 1]@, #[trigger] dates[row]@, freq)
        ==> window_cuts_ok(dates[row]@, start, end)
}

/// The rows on which a cash flow with this schedule falls, in increasing
/// order: the first date of each new period within the window, never the
/// first row.
pub fn cash_flow_rows(
    dates: &Vec<String>,
    frequency: ScheduleFrequency,
    start_date: &Option<String>,
    end_date: &Option<String>,
) -> (r: Vec<usize>)
    requires
        schedule_cuts_ok(dates@, frequency, *start_date, *end_date),
    ensures
        forall|i: int, j: int| 0 <= i < j < r@.len() ==> r@[i] < r@[j],
        forall|k: usize| r@.contains(k) ==> spec_fires(dates@, k as int, frequency, *start_date, *end_date),
        forall|k: usize| spec_fires(dates@, k as int, frequency, *start_date, *end_date) ==> r@.contains(k),
{
    let n = dates.len();
    let mut r: Vec<usize> = Vec::new();
    let mut row: usize = 1;
    while row < n
        invariant
            n == dates@.len(),
            1 <= row,
            row <= n || n == 0,
            schedule_cuts_ok(dates@, frequency, *start_date, *end_date),
            forall|i: int, j: int| 0 <= i < j < r@.len() ==> r@[i] < r@[j],
            forall|i: int| 0 <= i < r@.len() ==> r@[i] < row,
            forall|k: usize| r@.contains(k) ==> spec_fires(dates@, k as int, frequency, *start_date, *end_date),
            forall|k: usize| k < row && spec_fires(dates@, k as int, frequency, *start_date, *end_date) ==> r@.contains(k),
        decreases n - row,
    {
        assert(has_year_month(dates@[row - 1]@));
        assert(has_year_month(dates@[row as int]@));
        if is_period_boundary(dates[row - 1].as_str(), dates[row].as_str(), frequency)
            && date_in_range(dates[row].as_str(), start_date, end_date)
        {
            let ghost old_r = r@;
            r.push(row);
            assert forall|k: usize| r@.contains(k) implies spec_fires(dates@, k as int, frequency, *start_date, *end_date) by {
                if k != row {
                    let idx = choose|idx: int| 0 <= idx < r@.len() && r@[idx] == k;
                    assert(old_r[idx] == k);
                    assert(old_r.contains(k));
                }
            }
            assert forall|k: usize| k < row + 1 && spec_fires(dates@, k as int, frequency, *start_date, *end_date) implies r@.contains(k) by {
                if k == row {
                    assert(r@[r@.len() - 1] == row);
                } else {
                    assert(old_r.contains(k));
                    let idx = choose|idx: int| 0 <= idx < old_r.len() && old_r[idx] == k;
                    assert(r@[idx] == k);
                }
            }
        }
        row = row + 1;
    }
    r
}

/// When rebalancing is triggered: on calendar boundaries, on drift beyond a
/// threshold, or on whichever comes first.
#[derive(Debug, Clone, Copy, PartialEq, Eq, Structural)]
pub enum RebalanceTrigger {
    Calendar(ScheduleFrequency),
    Threshold,
    CalendarOrThreshold(ScheduleFrequency),
}

/// Whether a rebalance fires on `row`, given whether the weights have drifted
/// beyond the threshold on that row.
pub open spec fn spec_should_rebalance(
    row: int,
    dates: Seq<String>,
    trigger: RebalanceTrigger,
    threshold_breached: bool,
    last_rebalance_row: int,
) -> bool {
    if row == 0 || row == last_rebalance_row {
        false
    } else {
        match trigger {
            RebalanceTrigger::Calendar(f) => spec_is_period_boundary(dates[row - 1]@, dates[row]@, f),
            RebalanceTrigger::Threshold => threshold_breached,
            RebalanceTrigger::CalendarOrThreshold(f) =>
                spec_is_period_boundary(dates[row - 1]@, dates[row]@, f) || threshold_breached,
        }
    }
}

/// Decides whether a rebalance fires on `row`: never on the first row nor
/// twice on one row; otherwise as the trigger says.
pub fn should_rebalance(
    row: usize,
    dates: &Vec<String>,
    trigger: RebalanceTrigger,
    threshold_breached: bool,
    last_rebalance_row: usize,
) -> (r: bool)
    requires
        row > 0 && row != last_rebalance_row && !(trigger is Threshold) ==> row < dates@.len()
            && has_year_month(dates@[row - 1]@) && has_year_month(dates@[row as int]@),
    ensures
        r == spec_should_rebalance(row as int, dates@, trigger, threshold_breached, last_rebalance_row as int),
{
    if row == 0 || row == last_rebalance_row {
        return false;
    }
    match trigger {
        RebalanceTrigger::Calendar(f) => is_period_boundary(dates[row - 1].as_str(), dates[row].as_str(), f),
        RebalanceTrigger::Threshold => threshold_breached,
        RebalanceTrigger::CalendarOrThreshold(f) => {
            is_period_boundary(dates[row - 1].as_str(), dates[row].as_str(), f) || threshold_breached
        },
    }
}

/// Whether two months of the year fall in the same quarter: January to March,
/// April to June, July to September or October to December.
pub open spec fn same_quarter(m1: nat, m2: nat) -> bool {
    ||| 1 <= m1 <= 3 && 1 <= m2 <= 3
    ||| 4 <= m1 <= 6 && 4 <= m2 <= 6
    ||| 7 <= m1 <= 9 && 7 <= m2 <= 9
    ||| 10 <= m1 <= 12 && 10 <= m2 <= 12
}

/// Whether two months of the year fall in the same half: January to June or
/// July to December.
pub open spec fn same_half(m1: nat, m2: nat) -> bool {
    ||| 1 <= m1 <= 6 && 1 <= m2 <= 6
    ||| 7 <= m1 <= 12 && 7 <= m2 <= 12
}

/// For two dates with months 1 to 12, a new period starts between them when
/// their years differ, or else: monthly, when the months differ; quarterly,
/// when the months lie in different quarters (so September to October is a
/// boundary, July to September is not); half-yearly, when they lie in
/// different halves; yearly, never within one year.
pub proof fn lemma_period_boundaries(prev_date: Seq<char>, curr_date: Seq<char>)
    requires
        1 <= spec_month(prev_date) <= 12,
        1 <= spec_month(curr_date) <= 12,
    ensures
        spec_is_period_boundary(prev_date, curr_date, ScheduleFrequency::Monthly)
            <==> (spec_year(prev_date) != spec_year(curr_date) || spec_month(prev_date) != spec_month(curr_date)),
        spec_is_period_boundary(prev_date, curr_date, ScheduleFrequency::Quarterly)
            <==> (spec_year(prev_date) != spec_year(curr_date)
                || !same_quarter(spec_month(prev_date), spec_month(curr_date))),
        spec_is_period_boundary(prev_date, curr_date, ScheduleFrequency::SemiAnnually)
            <==> (spec_year(prev_date) != spec_year(curr_date)
                || !same_half(spec_month(prev_date), spec_month(curr_date))),
        spec_is_period_boundary(prev_date, curr_date, ScheduleFrequency::Annually)
            <==> spec_year(prev_date) != spec_year(curr_date),
{
    let m1 = spec_month(prev_date);
    let m2 = spec_month(curr_date);
    assert(((m1 - 1) as nat) / 3 == ((m2 - 1) as nat) / 3 <==> same_quarter(m1, m2));
    assert(((m1 - 1) as nat) / 6 == ((m2 - 1) as nat) / 6 <==> same_half(m1, m2));
}

/// Whether every character of a text is a decimal digit.
pub open spec fn decimal_digits(s: Seq<char>) -> bool {
    forall|k: int| 0 <= k < s.len() ==> '0' <= #[trigger] s[k] <= '9'
}

proof fn lemma_digit_bytes(b: Seq<u8>, c: Seq<char>)
    requires
        b.len() == c.len(),
        decimal_digits(c),
        forall|k: int| 0 <= k < b.len() ==> #[trigger] b[k] == c[k] as u8,
    ensures
        all_digits(b),
        digits_value(b) == decimal_number(c),
    decreases b.len(),
{
    assert forall|k: int| 0 <= k < b.len() implies is_digit(#[trigger] b[k]) && b[k] as int == c[k] as int by {
        assert('0' <= c[k] <= '9');
        assert(b[k] == c[k] as u8);
    }
    if b.len() > 0 {
        lemma_digit_bytes(b.drop_last(), c.drop_last());
        assert(b.last() as int == c.last() as int);
    }
}

/// The year and month that schedules read from a date text of ASCII
/// characters that starts with `YYYY-MM` digits are the numbers those digits
/// write.
pub proof fn lemma_reads_year_and_month(date: Seq<char>)
    requires
        is_ascii_chars(date),
        date.len() >= 7,
        decimal_digits(date.subrange(0, 4)),
        decimal_digits(date.subrange(5, 7)),
    ensures
        spec_year(date) == decimal_number(date.subrange(0, 4)),
        spec_month(date) == decimal_number(date.subrange(5, 7)),
{
    broadcast use is_ascii_chars_encode_utf8;
    let b = encode_utf8(date);
    assert(b.len() == date.len());
    let y = b.subrange(0, 4);
    let m = b.subrange(5, 7);
    assert forall|k: int| 0 <= k < 4 implies #[trigger] y[k] == date.subrange(0, 4)[k] as u8 by {
        assert(y[k] == b[k]);
        assert(date.subrange(0, 4)[k] == date[k]);
    }
    assert forall|k: int| 0 <= k < 2 implies #[trigger] m[k] == date.subrange(5, 7)[k] as u8 by {
        assert(m[k] == b[k + 5]);
        assert(date.subrange(5, 7)[k] == date[k + 5]);
    }
    lemma_digit_bytes(y, date.subrange(0, 4));
    lemma_digit_bytes(m, date.subrange(5, 7));
    lemma_digits_bound(y);
    lemma_digits_bound(m);
    lemma_pow10_small();
    assert(y[0] != 43);
    assert(m[0] != 43);
}

/// A date window includes its ends and nothing beyond them: a date whose
/// `YYYY-MM-DD` part equals the start's or the end's lies in the window, one
/// strictly before the start or strictly after the end does not, and a
/// window without ends holds every date.
pub proof fn lemma_window_bounds(date: Seq<char>, start: String, end: String)
    ensures
        spec_date_in_range(date, None, None),
        date_part(date) == date_part(start@) ==> spec_date_in_range(date, Some(start), None),
        date_part(date) == date_part(end@) ==> spec_date_in_range(date, None, Some(end)),
        date_part(date) == date_part(start@) && date_part(date) == date_part(end@)
            ==> spec_date_in_range(date, Some(start), Some(end)),
        bytes_lt(date_part(date), date_part(start@)) ==> !spec_date_in_range(date, Some(start), None),
        bytes_lt(date_part(end@), date_part(date)) ==> !spec_date_in_range(date, None, Some(end)),
{
    lemma_bytes_lt_irreflexive(date_part(date));
}

proof fn lemma_bytes_lt_irreflexive(a: Seq<u8>)
    ensures
        !bytes_lt(a, a),
    decreases a.len(),
{
    if a.len() > 0 {
        lemma_bytes_lt_irreflexive(a.drop_first());
    }
}

/// A scheduled cash flow falls on a row exactly when the row is not the first,
/// starts a new period relative to the row before it, and lies in the window.
pub proof fn lemma_cash_flow_days(dates: Seq<String>, row: int, freq: ScheduleFrequency, start: Option<String>, end: Option<String>)
    ensures
        spec_fires(dates, row, freq, start, end) <==> (1 <= row < dates.len()
            && spec_is_period_boundary(dates[row - 1]@, dates[row]@, freq)
            && spec_date_in_range(dates[row]@, start, end)),
{
}

/// A rebalance never fires on the first row nor again on the row of the last
/// one; otherwise a calendar trigger fires exactly on the first row of a new
/// period of its frequency, a threshold trigger exactly when the weights have
/// drifted past the threshold, and the combined trigger when either does.
pub proof fn lemma_rebalance_triggers(row: int, dates: Seq<String>, threshold_breached: bool, last_rebalance_row: int, freq: ScheduleFrequency)
    ensures
        !spec_should_rebalance(0, dates, RebalanceTrigger::Calendar(freq), threshold_breached, last_rebalance_row),
        !spec_should_rebalance(0, dates, RebalanceTrigger::Threshold, threshold_breached, last_rebalance_row),
        !spec_should_rebalance(row, dates, RebalanceTrigger::CalendarOrThreshold(freq), threshold_breached, row),
        row > 0 && row != last_rebalance_row ==> {
            &&& spec_should_rebalance(row, dates, RebalanceTrigger::Calendar(freq), threshold_breached, last_rebalance_row)
                == spec_is_period_boundary(dates[row - 1]@, dates[row]@, freq)
            &&& spec_should_rebalance(row, dates, RebalanceTrigger::Threshold, threshold_breached, last_rebalance_row)
                == threshold_breached
            &&& spec_should_rebalance(row, dates, RebalanceTrigger::CalendarOrThreshold(freq), threshold_breached, last_rebalance_row)
                == (spec_is_period_boundary(dates[row - 1]@, dates[row]@, freq) || threshold_breached)
        },
{
}

} // verus!
