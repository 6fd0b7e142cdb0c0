//! Returns aggregation: frequencies, trailing performance periods, grouping of
//! dated rows into calendar buckets, and the windows that trailing-period
//! statistics are computed over.

use vstd::prelude::*;
use vstd::utf8::*;
use vstd::string::StringSliceAdditionalSpecFns;
use vstd::string::StringExecFns;
use crate::text::{owned, i32_to_string, u32_to_string_pad2, int_decimal, pad2_decimal, decimal_number};
use crate::schedule::{date_part, date_part_len, has_date_part};
use crate::calendar::{CalendarDate, parse_naive_date, spec_parse_date, iso_week, chrono_iso_week,
    checked_sub_months, spec_sub_months, lemma_sub_months_monotone};
use crate::config::Interval;

verus! {

broadcast use vstd::string::group_string_axioms;

/// Aggregation frequency of returns tables, from finest to coarsest.
#[derive(Debug, Clone, Copy, PartialEq, Eq, Structural, Hash)]
pub enum ReturnsFrequency {
    Hourly,
    Daily,
    Weekly,
    Monthly,
    Yearly,
}

impl ReturnsFrequency {
    /// The position of this frequency from finest (0) to coarsest (4).
    pub open spec fn rank(self) -> nat {
        match self {
            ReturnsFrequency::Hourly => 0,
            ReturnsFrequency::Daily => 1,
            ReturnsFrequency::Weekly => 2,
            ReturnsFrequency::Monthly => 3,
            ReturnsFrequency::Yearly => 4,
        }
    }

    /// The position of this frequency from finest (0) to coarsest (4).
    pub fn position(&self) -> (r: u8)
        ensures
            r == self.rank(),
    {
        match self {
            ReturnsFrequency::Hourly => 0,
            ReturnsFrequency::Daily => 1,
            ReturnsFrequency::Weekly => 2,
            ReturnsFrequency::Monthly => 3,
            ReturnsFrequency::Yearly => 4,
        }
    }

    /// The display name of this frequency.
    pub open spec fn spec_name(self) -> Seq<char> {
        match self {
            ReturnsFrequency::Hourly => "Hourly"@,
            ReturnsFrequency::Daily => "Daily"@,
            ReturnsFrequency::Weekly => "Weekly"@,
            ReturnsFrequency::Monthly => "Monthly"@,
            ReturnsFrequency::Yearly => "Yearly"@,
        }
    }

    /// The display name of this frequency.
    pub fn to_string(&self) -> (r: String)
        ensures
            r@ == self.spec_name(),
    {
        match self {
            ReturnsFrequency::Hourly => owned("Hourly"),
            ReturnsFrequency::Daily => owned("Daily"),
            ReturnsFrequency::Weekly => owned("Weekly"),
            ReturnsFrequency::Monthly => owned("Monthly"),
            ReturnsFrequency::Yearly => owned("Yearly"),
        }
    }

    /// The native frequency of data fetched at a bar interval.
    pub open spec fn spec_from_interval(interval: Interval) -> ReturnsFrequency {
        match interval {
            Interval::TwoMinutes | Interval::FiveMinutes | Interval::FifteenMinutes
            | Interval::ThirtyMinutes | Interval::SixtyMinutes | Interval::NinetyMinutes
            | Interval::OneHour => ReturnsFrequency::Hourly,
            Interval::OneDay => ReturnsFrequency::Daily,
            Interval::FiveDays | Interval::OneWeek => ReturnsFrequency::Weekly,
            Interval::OneMonth | Interval::ThreeMonths => ReturnsFrequency::Monthly,
        }
    }

    /// The native frequency of data fetched at a bar interval.
    pub fn from_interval_enum(interval: Interval) -> (r: ReturnsFrequency)
        ensures
            r == Self::spec_from_interval(interval),
    {
        match interval {
            Interval::TwoMinutes | Interval::FiveMinutes | Interval::FifteenMinutes
            | Interval::ThirtyMinutes | Interval::SixtyMinutes | Interval::NinetyMinutes
            | Interval::OneHour => ReturnsFrequency::Hourly,
            Interval::OneDay => ReturnsFrequency::Daily,
            Interval::FiveDays | Interval::OneWeek => ReturnsFrequency::Weekly,
            Interval::OneMonth | Interval::ThreeMonths => ReturnsFrequency::Monthly,
        }
    }

    /// Every frequency, from finest to coarsest.
    pub open spec fn spec_all() -> Seq<ReturnsFrequency> {
        seq![
            ReturnsFrequency::Hourly,
            ReturnsFrequency::Daily,
            ReturnsFrequency::Weekly,
            ReturnsFrequency::Monthly,
            ReturnsFrequency::Yearly,
        ]
    }

    /// The frequencies this one can be resampled to: itself and every coarser
    /// one, from finest to coarsest.
    pub fn available_frequencies(&self) -> (r: Vec<ReturnsFrequency>)
        ensures
            r@ == Self::spec_all().filter(|f: ReturnsFrequency| f.rank() >= self.rank()),
            r@.len() == 5 - self.rank(),
            forall|i: int| 0 <= i < r@.len() ==> (#[trigger] r@[i]).rank() == self.rank() + i,
    {
        let all = vec![
            ReturnsFrequency::Hourly,
            ReturnsFrequency::Daily,
            ReturnsFrequency::Weekly,
            ReturnsFrequency::Monthly,
            ReturnsFrequency::Yearly,
        ];
        let me = self.position();
        let mut r: Vec<ReturnsFrequency> = Vec::new();
        let mut i: usize = 0;
        let ghost pred = |f: ReturnsFrequency| f.rank() >= self.rank();
        assert(all@ =~= Self::spec_all());
        while i < 5
            invariant
                all@ == Self::spec_all(),
                me == self.rank(),
                i <= 5,
                r@ == Self::spec_all().take(i as int).filter(pred),
                pred == (|f: ReturnsFrequency| f.rank() >= self.rank()),
            decreases 5 - i,
        {
            assert(Self::spec_all().take(i + 1).drop_last() =~= Self::spec_all().take(i as int));
            reveal_with_fuel(Seq::<ReturnsFrequency>::filter, 1);
            if all[i].position() >= me {
                r.push(all[i]);
            }
            i = i + 1;
        }
        assert(Self::spec_all().take(5) =~= Self::spec_all());
        proof {
            reveal_with_fuel(Seq::<ReturnsFrequency>::filter, 6);
            match *self {
                ReturnsFrequency::Hourly => {},
                ReturnsFrequency::Daily => {},
                ReturnsFrequency::Weekly => {},
                ReturnsFrequency::Monthly => {},
                ReturnsFrequency::Yearly => {},
            }
        }
        r
    }
}

/// Trailing window over which performance statistics are computed.
#[derive(Debug, Clone, Copy, PartialEq, Eq, Structural, Hash)]
pub enum PerformancePeriod {
    Full,
    SixMonths,
    OneYear,
    ThreeYears,
    FiveYears,
    TenYears,
}

impl PerformancePeriod {
    /// The display name of this period.
    pub open spec fn spec_name(self) -> Seq<char> {
        match self {
            PerformancePeriod::Full => "Full"@,
            PerformancePeriod::SixMonths => "6M"@,
            PerformancePeriod::OneYear => "1Y"@,
            PerformancePeriod::ThreeYears => "3Y"@,
            PerformancePeriod::FiveYears => "5Y"@,
            PerformancePeriod::TenYears => "10Y"@,
        }
    }

    /// The display name of this period.
    pub fn to_string(&self) -> (r: String)
        ensures
            r@ == self.spec_name(),
    {
        match self {
            PerformancePeriod::Full => owned("Full"),
            PerformancePeriod::SixMonths => owned("6M"),
            PerformancePeriod::OneYear => owned("1Y"),
            PerformancePeriod::ThreeYears => owned("3Y"),
            PerformancePeriod::FiveYears => owned("5Y"),
            PerformancePeriod::TenYears => owned("10Y"),
        }
    }

    /// The number of months this period spans; `None` for the full range.
    pub open spec fn spec_months(self) -> Option<u32> {
        match self {
            PerformancePeriod::Full => None,
            PerformancePeriod::SixMonths => Some(6),
            PerformancePeriod::OneYear => Some(12),
            PerformancePeriod::ThreeYears => Some(36),
            PerformancePeriod::FiveYears => Some(60),
            PerformancePeriod::TenYears => Some(120),
        }
    }

    /// The number of months this period spans; `None` for the full range.
    pub fn months(&self) -> (r: Option<u32>)
        ensures
            r == self.spec_months(),
    {
        match self {
            PerformancePeriod::Full => None,
            PerformancePeriod::SixMonths => Some(6),
            PerformancePeriod::OneYear => Some(12),
            PerformancePeriod::ThreeYears => Some(36),
            PerformancePeriod::FiveYears => Some(60),
            PerformancePeriod::TenYears => Some(120),
        }
    }

    /// The trailing periods other than the full range, from shortest to longest.
    pub open spec fn spec_sub_periods() -> Seq<PerformancePeriod> {
        seq![
            PerformancePeriod::SixMonths,
            PerformancePeriod::OneYear,
            PerformancePeriod::ThreeYears,
            PerformancePeriod::FiveYears,
            PerformancePeriod::TenYears,
        ]
    }

    /// The trailing periods other than the full range, from shortest to longest.
    pub fn sub_periods() -> (r: Vec<PerformancePeriod>)
        ensures
            r@ == Self::spec_sub_periods(),
    {
        let r = vec![
            PerformancePeriod::SixMonths,
            PerformancePeriod::OneYear,
            PerformancePeriod::ThreeYears,
            PerformancePeriod::FiveYears,
            PerformancePeriod::TenYears,
        ];
        assert(r@ =~= Self::spec_sub_periods());
        r
    }
}

/// The characters of the first `k` bytes of a text.
pub open spec fn byte_prefix(s: Seq<char>, k: int) -> Seq<char> {
    decode_utf8(encode_utf8(s).subrange(0, k))
}

/// Whether the cuts that the grouping key of `date` at `freq` makes fall
/// between characters.
pub open spec fn group_key_cuts_ok(date: Seq<char>, freq: ReturnsFrequency) -> bool {
    let b = encode_utf8(date);
    let pl = date_part_len(date);
    &&& has_date_part(date)
    &&& (freq == ReturnsFrequency::Hourly && b.len() >= 13 ==> is_char_boundary(b, 13))
    &&& (freq == ReturnsFrequency::Monthly && pl >= 7 ==> is_char_boundary(b, 7))
    &&& (freq == ReturnsFrequency::Yearly && pl >= 4 ==> is_char_boundary(b, 4))
}

/// The bucket a date falls in at a frequency: `YYYY-MM-DD HH` by hour,
/// `YYYY-MM-DD` by day, the ISO week `YYYY-Www` by week, `YYYY-MM` by month and
/// `YYYY` by year; a text too short for its bucket, or not a date when weekly,
/// is bucketed by its date part.
pub open spec fn spec_group_key(date: Seq<char>, freq: ReturnsFrequency) -> Seq<char> {
    let part = decode_utf8(date_part(date));
    let pl = date_part_len(date);
    match freq {
        ReturnsFrequency::Hourly => if encode_utf8(date).len() >= 13 { byte_prefix(date, 13) } else { part },
        ReturnsFrequency::Daily => part,
        ReturnsFrequency::Weekly => match spec_parse_date(date) {
            Some(d) => {
                let w = chrono_iso_week(d.year, d.month, d.day);
                int_decimal(w.0 as int) + "-W"@ + pad2_decimal(w.1 as nat)
            },
            None => part,
        },
        ReturnsFrequency::Monthly => if pl >= 7 { byte_prefix(date, 7) } else { part },
        ReturnsFrequency::Yearly => if pl >= 4 { byte_prefix(date, 4) } else { part },
    }
}

/// The first `k` bytes of `s` as an owned string.
fn prefix_string(s: &str, k: usize) -> (r: String)
    requires
        is_char_boundary(encode_utf8(s@), k as int),
    ensures
        r@ == byte_prefix(s@, k as int),
{
    assert(s.spec_bytes() == encode_utf8(s@));
    let (head, _) = s.split_at(k);
    proof {
        encode_utf8_decode_utf8(head@);
    }
    owned(head)
}

/// The bucket a date falls in at a frequency.
pub fn date_to_group_key(date: &str, freq: ReturnsFrequency) -> (r: String)
    requires
        group_key_cuts_ok(date@, freq),
    ensures
        r@ == spec_group_key(date@, freq),
{
    assert(date.spec_bytes() == encode_utf8(date@));
    let b = date.as_bytes();
    let n = b.len();
    let pl = if n < 10 { n } else { 10 };
    assert(pl == date_part_len(date@));
    match freq {
        ReturnsFrequency::Hourly => {
            if n >= 13 {
                prefix_string(date, 13)
            } else {
                prefix_string(date, pl)
            }
        },
        ReturnsFrequency::Daily => prefix_string(date, pl),
        ReturnsFrequency::Weekly => {
            match parse_naive_date(date) {
                Some(d) => {
                    let (wy, wn) = iso_week(d);
                    let mut key = i32_to_string(wy);
                    key.append("-W");
                    let wk = u32_to_string_pad2(wn);
                    key.append(wk.as_str());
                    key
                },
                None => prefix_string(date, pl),
            }
        },
        ReturnsFrequency::Monthly => {
            if pl >= 7 {
                prefix_string(date, 7)
            } else {
                prefix_string(date, pl)
            }
        },
        ReturnsFrequency::Yearly => {
            if pl >= 4 {
                prefix_string(date, 4)
            } else {
                prefix_string(date, pl)
            }
        },
    }
}

/// `groups` splits the rows `0..keys.len()` into maximal runs of equal keys:
/// the groups follow one another without gap or overlap from the first row to
/// the last, no group is empty, every row of a group has the group's key, and
/// neighbouring groups have different keys.
pub open spec fn is_run_partition(keys: Seq<Seq<char>>, groups: Seq<(String, usize, usize)>) -> bool {
    &&& (keys.len() == 0 <==> groups.len() == 0)
    &&& groups.len() > 0 ==> groups[0].1 == 0 && groups.last().2 == keys.len()
    &&& forall|i: int| 0 <= i < groups.len() ==> (#[trigger] groups[i]).1 < groups[i].2
    &&& forall|i: int, j: int| #![trigger groups[i], groups[j]]
        0 <= i && j == i + 1 && j < groups.len() ==> groups[i].2 == groups[j].1
    &&& forall|i: int, k: int| 0 <= i < groups.len() && groups[i].1 <= k < groups[i].2
        ==> #[trigger] keys[k] == (#[trigger] groups[i]).0@
    &&& forall|i: int, j: int| #![trigger groups[i], groups[j]]
        0 <= i && j == i + 1 && j < groups.len() ==> groups[i].0@ != groups[j].0@
}

/// The contents of a list of strings.
pub open spec fn strings_view(v: Seq<String>) -> Seq<Seq<char>> {
    v.map_values(|s: String| s@)
}

/// Splits rows into maximal runs of equal keys, as `(key, first row, end row)`
/// with the end exclusive.
pub fn group_runs(keys: &Vec<String>) -> (r: Vec<(String, usize, usize)>)
    ensures
        is_run_partition(strings_view(keys@), r@),
{
    let n = keys.len();
    let ghost kv = strings_view(keys@);
    let mut groups: Vec<(String, usize, usize)> = Vec::new();
    if n == 0 {
        return groups;
    }
    let mut current = keys[0].clone();
    let mut start: usize = 0;
    let mut i: usize = 1;
    while i < n
        invariant
            n == keys@.len(),
            kv == strings_view(keys@),
            0 <= start < i <= n,
            current@ == kv[start as int],
            forall|k: int| start <= k < i ==> kv[k] == current@,
            groups@.len() == 0 ==> start == 0,
            groups@.len() > 0 ==> groups@[0].1 == 0 && groups@.last().2 == start
                && groups@.last().0@ != current@,
            forall|j: int| 0 <= j < groups@.len() ==> (#[trigger] groups@[j]).1 < groups@[j].2,
            forall|j: int| 0 <= j < groups@.len() - 1 ==> (#[trigger] groups@[j]).2 == groups@[j + 1].1,
            forall|j: int, k: int| 0 <= j < groups@.len() && groups@[j].1 <= k < groups@[j].2
                ==> #[trigger] kv[k] == (#[trigger] groups@[j]).0@,
            forall|j: int| 0 <= j < groups@.len() - 1 ==> (#[trigger] groups@[j]).0@ != groups@[j + 1].0@,
        decreases n - i,
    {
        if keys[i] != current {
            let ghost old_groups = groups@;
            groups.push((current, start, i));
            current = keys[i].clone();
            start = i;
            assert forall|j: int, k: int| 0 <= j < groups@.len() && groups@[j].1 <= k < groups@[j].2
                implies #[trigger] kv[k] == (#[trigger] groups@[j]).0@ by {
                if j < old_groups.len() {
                    assert(groups@[j] == old_groups[j]);
                }
            }
            assert forall|j: int| 0 <= j < groups@.len() - 1 implies (#[trigger] groups@[j]).2 == groups@[j + 1].1 by {
                if j < old_groups.len() - 1 {
                    assert(groups@[j] == old_groups[j]);
                    assert(groups@[j + 1] == old_groups[j + 1]);
                }
            }
            assert forall|j: int| 0 <= j < groups@.len() - 1 implies (#[trigger] groups@[j]).0@ != groups@[j + 1].0@ by {
                if j < old_groups.len() - 1 {
                    assert(groups@[j] == old_groups[j]);
                    assert(groups@[j + 1] == old_groups[j + 1]);
                }
            }
        }
        i = i + 1;
    }
    let ghost old_groups = groups@;
    groups.push((current, start, n));
    assert forall|j: int, k: int| 0 <= j < groups@.len() && groups@[j].1 <= k < groups@[j].2
        implies #[trigger] kv[k] == (#[trigger] groups@[j]).0@ by {
        if j < old_groups.len() {
            assert(groups@[j] == old_groups[j]);
        }
    }
    assert forall|j: int| 0 <= j < groups@.len() - 1 implies (#[trigger] groups@[j]).2 == groups@[j + 1].1 by {
        if j < old_groups.len() - 1 {
            assert(groups@[j] == old_groups[j]);
            assert(groups@[j + 1] == old_groups[j + 1]);
        }
    }
    assert forall|j: int| 0 <= j < groups@.len() - 1 implies (#[trigger] groups@[j]).0@ != groups@[j + 1].0@ by {
        if j < old_groups.len() - 1 {
            assert(groups@[j] == old_groups[j]);
            assert(groups@[j + 1] == old_groups[j + 1]);
        }
    }
    groups
}

/// Whether every date can be bucketed at `freq`.
pub open spec fn dates_groupable(dates: Seq<String>, freq: ReturnsFrequency) -> bool {
    forall|k: int| 0 <= k < dates.len() ==> group_key_cuts_ok(#[trigger] dates[k]@, freq)
}

/// The buckets of a list of dates at `freq`.
pub open spec fn spec_group_keys(dates: Seq<String>, freq: ReturnsFrequency) -> Seq<Seq<char>> {
    dates.map_values(|d: String| spec_group_key(d@, freq))
}

/// Splits dated rows into the consecutive runs that share a bucket at `freq`,
/// as `(bucket, first row, end row)` with the end exclusive.
pub fn compute_groups(dates: &Vec<String>, freq: ReturnsFrequency) -> (r: Vec<(String, usize, usize)>)
    requires
        dates_groupable(dates@, freq),
    ensures
        is_run_partition(spec_group_keys(dates@, freq), r@),
{
    let n = dates.len();
    let mut keys: Vec<String> = Vec::new();
    let mut i: usize = 0;
    while i < n
        invariant
            n == dates@.len(),
            dates_groupable(dates@, freq),
            i <= n,
            keys@.len() == i,
            forall|k: int| 0 <= k < i ==> (#[trigger] keys@[k])@ == spec_group_key(dates@[k]@, freq),
        decreases n - i,
    {
        assert(group_key_cuts_ok(dates@[i as int]@, freq));
        let key = date_to_group_key(dates[i].as_str(), freq);
        keys.push(key);
        i = i + 1;
    }
    assert(strings_view(keys@) =~= spec_group_keys(dates@, freq));
    group_runs(&keys)
}

/// Whether row `k` is the last row of a run of equal keys.
pub open spec fn is_run_end(keys: Seq<Seq<char>>, k: int) -> bool {
    0 <= k < keys.len() && (k == keys.len() - 1 || keys[k] != keys[k + 1])
}

/// `rows` lists, in increasing order, exactly the last rows of the runs of
/// equal keys, each with its key.
pub open spec fn lists_run_ends(keys: Seq<Seq<char>>, rows: Seq<(String, usize)>) -> bool {
    &&& forall|a: int, b: int| 0 <= a < b < rows.len() ==> rows[a].1 < rows[b].1
    &&& forall|a: int| 0 <= a < rows.len() ==> is_run_end(keys, (#[trigger] rows[a]).1 as int)
        && rows[a].0@ == keys[rows[a].1 as int]
    &&& forall|k: int| #[trigger] is_run_end(keys, k) ==> exists|a: int| 0 <= a < rows.len() && (#[trigger] rows[a]).1 == k
}

/// The bucket and the last row of each run of dated rows that share a bucket
/// at `freq`, in row order: the rows whose values resampling by the last value
/// of each bucket keeps.
pub fn group_last_rows(dates: &Vec<String>, freq: ReturnsFrequency) -> (r: Vec<(String, usize)>)
    requires
        dates_groupable(dates@, freq),
    ensures
        lists_run_ends(spec_group_keys(dates@, freq), r@),
{
    let n = dates.len();
    let ghost gk = spec_group_keys(dates@, freq);
    let mut keys: Vec<String> = Vec::new();
    let mut i: usize = 0;
    while i < n
        invariant
            n == dates@.len(),
            dates_groupable(dates@, freq),
            i <= n,
            keys@.len() == i,
            forall|k: int| 0 <= k < i ==> (#[trigger] keys@[k])@ == spec_group_key(dates@[k]@, freq),
        decreases n - i,
    {
        assert(group_key_cuts_ok(dates@[i as int]@, freq));
        let key = date_to_group_key(dates[i].as_str(), freq);
        keys.push(key);
        i = i + 1;
    }
    assert(strings_view(keys@) =~= gk);
    let mut r: Vec<(String, usize)> = Vec::new();
    let mut k: usize = 0;
    while k < n
        invariant
            n == keys@.len(),
            strings_view(keys@) == gk,
            gk.len() == n,
            k <= n,
            forall|a: int, b: int| 0 <= a < b < r@.len() ==> r@[a].1 < r@[b].1,
            forall|a: int| 0 <= a < r@.len() ==> (#[trigger] r@[a]).1 < k && is_run_end(gk, r@[a].1 as int)
                && r@[a].0@ == gk[r@[a].1 as int],
            forall|j: int| 0 <= j < k && #[trigger] is_run_end(gk, j)
                ==> exists|a: int| 0 <= a < r@.len() && (#[trigger] r@[a]).1 == j,
        decreases n - k,
    {
        assert(gk[k as int] == keys@[k as int]@);
        let last = k + 1 == n || keys[k] != keys[k + 1];
        if last {
            assert(k + 1 < n ==> gk[k + 1] == keys@[k + 1]@);
            let ghost before = r@;
            r.push((owned(keys[k].as_str()), k));
            assert forall|j: int| 0 <= j < k + 1 && #[trigger] is_run_end(gk, j)
                implies exists|a: int| 0 <= a < r@.len() && (#[trigger] r@[a]).1 == j by {
                if j == k {
                    assert(r@[r@.len() - 1].1 == j);
                } else {
                    let a = choose|a: int| 0 <= a < before.len() && (#[trigger] before[a]).1 == j;
                    assert(r@[a] == before[a]);
                }
            }
        } else {
            assert(gk[k + 1] == keys@[k + 1]@);
            assert(!is_run_end(gk, k as int));
        }
        k = k + 1;
    }
    r
}

/// Groups of a run partition come in row order: an earlier group ends no
/// later than a later one starts.
proof fn lemma_groups_ordered(keys: Seq<Seq<char>>, groups: Seq<(String, usize, usize)>, a: int, b: int)
    requires
        is_run_partition(keys, groups),
        0 <= a < b < groups.len(),
    ensures
        groups[a].2 <= groups[b].1,
    decreases b - a,
{
    if b > a + 1 {
        lemma_groups_ordered(keys, groups, a, b - 1);
        assert(groups[b - 1].1 < groups[b - 1].2);
    }
}

/// The groups up to `i` cover every row before the end of group `i`.
proof fn lemma_groups_cover(keys: Seq<Seq<char>>, groups: Seq<(String, usize, usize)>, i: int, k: int)
    requires
        is_run_partition(keys, groups),
        0 <= i < groups.len(),
        0 <= k < groups[i].2,
    ensures
        exists|j: int| 0 <= j <= i && groups[j].1 <= k < (#[trigger] groups[j]).2,
    decreases i,
{
    if k < groups[i].1 {
        assert(i > 0);
        assert(groups[i - 1].2 == groups[i].1);
        lemma_groups_cover(keys, groups, i - 1, k);
        let j = choose|j: int| 0 <= j <= i - 1 && groups[j].1 <= k < (#[trigger] groups[j]).2;
        assert(groups[j].1 <= k < groups[j].2);
    } else {
        assert(groups[i].1 <= k < groups[i].2);
    }
}

/// Every group ends within the rows.
proof fn lemma_group_within(keys: Seq<Seq<char>>, groups: Seq<(String, usize, usize)>, j: int)
    requires
        is_run_partition(keys, groups),
        0 <= j < groups.len(),
    ensures
        groups[j].2 <= keys.len(),
{
    let last = groups.len() - 1;
    if j < last {
        lemma_groups_ordered(keys, groups, j, last);
        assert(groups[last].1 < groups[last].2);
    }
    assert(groups.last() == groups[last]);
}

/// A run end of the keys is the last row of some group.
proof fn lemma_run_end_ends_group(keys: Seq<Seq<char>>, groups: Seq<(String, usize, usize)>, k: int) -> (j: int)
    requires
        is_run_partition(keys, groups),
        is_run_end(keys, k),
    ensures
        0 <= j < groups.len(),
        k == groups[j].2 - 1,
{
    let last = groups.len() - 1;
    lemma_groups_cover(keys, groups, last, k);
    let j = choose|j: int| 0 <= j <= last && groups[j].1 <= k < (#[trigger] groups[j]).2;
    lemma_group_within(keys, groups, j);
    if k + 1 < groups[j].2 {
        assert(keys[k] == groups[j].0@);
        assert(keys[k + 1] == groups[j].0@);
    }
    j
}

/// The last row of a group is a run end of the keys.
proof fn lemma_group_end_is_run_end(keys: Seq<Seq<char>>, groups: Seq<(String, usize, usize)>, j: int)
    requires
        is_run_partition(keys, groups),
        0 <= j < groups.len(),
    ensures
        is_run_end(keys, groups[j].2 - 1),
{
    let k = groups[j].2 - 1;
    lemma_group_within(keys, groups, j);
    assert(groups[j].1 <= k < groups[j].2);
    assert(keys[k] == groups[j].0@);
    if j + 1 < groups.len() {
        lemma_group_within(keys, groups, j + 1);
        assert(groups[j].2 == groups[j + 1].1);
        assert(groups[j + 1].1 < groups[j + 1].2);
        assert(keys[k + 1] == groups[j + 1].0@);
        assert(groups[j].0@ != groups[j + 1].0@);
    } else {
        assert(groups.last() == groups[j]);
    }
}

/// The last rows of the groups come in increasing order.
proof fn lemma_group_ends_increase(keys: Seq<Seq<char>>, groups: Seq<(String, usize, usize)>, a: int, b: int)
    requires
        is_run_partition(keys, groups),
        0 <= a < b < groups.len(),
    ensures
        groups[a].2 - 1 < groups[b].2 - 1,
{
    lemma_groups_ordered(keys, groups, a, b);
    assert(groups[b].1 < groups[b].2);
}

/// Row `i` of the run ends is the last row of group `i`, once the rows before
/// it are.
proof fn lemma_row_is_group_end(
    keys: Seq<Seq<char>>,
    groups: Seq<(String, usize, usize)>,
    rows: Seq<(String, usize)>,
    i: int,
)
    requires
        is_run_partition(keys, groups),
        lists_run_ends(keys, rows),
        0 <= i < rows.len(),
        i < groups.len(),
        forall|a: int| 0 <= a < i ==> (#[trigger] rows[a]).1 == groups[a].2 - 1,
    ensures
        rows[i].1 == groups[i].2 - 1,
{
    let r = rows[i].1 as int;
    let j = lemma_run_end_ends_group(keys, groups, r);
    if j < i {
        assert(rows[j].1 == groups[j].2 - 1);
    } else if j > i {
        let e = groups[i].2 - 1;
        lemma_group_end_is_run_end(keys, groups, i);
        let a = choose|a: int| 0 <= a < rows.len() && (#[trigger] rows[a]).1 == e;
        lemma_group_ends_increase(keys, groups, i, j);
        if a < i {
            assert(rows[a].1 == groups[a].2 - 1);
            lemma_group_ends_increase(keys, groups, a, i);
        } else if a > i {
            assert(rows[i].1 < rows[a].1);
        }
    }
}

/// The first `i` run ends are the last rows of the first `i` groups.
proof fn lemma_rows_are_group_ends(
    keys: Seq<Seq<char>>,
    groups: Seq<(String, usize, usize)>,
    rows: Seq<(String, usize)>,
    i: int,
)
    requires
        is_run_partition(keys, groups),
        lists_run_ends(keys, rows),
        0 <= i <= rows.len(),
        i <= groups.len(),
    ensures
        forall|a: int| 0 <= a < i ==> (#[trigger] rows[a]).1 == groups[a].2 - 1,
    decreases i,
{
    if i > 0 {
        lemma_rows_are_group_ends(keys, groups, rows, i - 1);
        lemma_row_is_group_end(keys, groups, rows, i - 1);
    }
}

/// Resampling by the last value of each bucket keeps the last row of each
/// group: the rows that `group_last_rows` lists are, one by one, the last rows
/// of the groups that `compute_groups` forms, under the same buckets.
pub proof fn lemma_last_rows_end_groups(
    keys: Seq<Seq<char>>,
    groups: Seq<(String, usize, usize)>,
    rows: Seq<(String, usize)>,
)
    requires
        is_run_partition(keys, groups),
        lists_run_ends(keys, rows),
    ensures
        rows.len() == groups.len(),
        forall|i: int| 0 <= i < rows.len() ==> (#[trigger] rows[i]).1 == groups[i].2 - 1 && rows[i].0@ == groups[i].0@,
{
    let n = if rows.len() < groups.len() { rows.len() } else { groups.len() };
    lemma_rows_are_group_ends(keys, groups, rows, n as int);
    if rows.len() > groups.len() {
        let g = groups.len() as int;
        let r = rows[g].1 as int;
        let j = lemma_run_end_ends_group(keys, groups, r);
        assert(rows[j].1 == groups[j].2 - 1);
        assert(rows[j].1 < rows[g].1);
    }
    if rows.len() < groups.len() {
        let m = rows.len() as int;
        let e = groups[m].2 - 1;
        lemma_group_end_is_run_end(keys, groups, m);
        let a = choose|a: int| 0 <= a < rows.len() && (#[trigger] rows[a]).1 == e;
        assert(rows[a].1 == groups[a].2 - 1);
        lemma_group_ends_increase(keys, groups, a, m);
    }
    assert forall|i: int| 0 <= i < rows.len() implies (#[trigger] rows[i]).1 == groups[i].2 - 1 && rows[i].0@ == groups[i].0@ by {
        assert(rows[i].1 == groups[i].2 - 1);
        assert(groups[i].1 < groups[i].2);
        assert(keys[groups[i].2 - 1] == groups[i].0@);
    }
}

/// Whether a trailing period fits into the data range from `start` to `end`:
/// stepping back its length in months from `end` lands on or after `start`.
pub open spec fn spec_period_applies(p: PerformancePeriod, start: CalendarDate, end: CalendarDate) -> bool {
    match p.spec_months() {
        None => true,
        Some(m) => match spec_sub_months(end, m as nat) {
            Some(t) => !t.spec_before(start),
            None => false,
        },
    }
}

/// The periods that apply to the range between two date texts: always the
/// full range, then each trailing period that fits, from shortest to longest;
/// only the full range when either text is not a date.
pub open spec fn spec_applicable_periods(start_date: Seq<char>, end_date: Seq<char>) -> Seq<PerformancePeriod> {
    match (spec_parse_date(start_date), spec_parse_date(end_date)) {
        (Some(s), Some(e)) => seq![PerformancePeriod::Full] + PerformancePeriod::spec_sub_periods().filter(
            |p: PerformancePeriod| spec_period_applies(p, s, e),
        ),
        _ => seq![PerformancePeriod::Full],
    }
}

/// The trailing periods that apply to the range between two date texts.
pub fn applicable_periods(start_date: &str, end_date: &str) -> (r: Vec<PerformancePeriod>)
    requires
        has_date_part(start_date@),
        spec_parse_date(start_date@) is Some ==> has_date_part(end_date@),
    ensures
        r@ == spec_applicable_periods(start_date@, end_date@),
{
    let mut periods = vec![PerformancePeriod::Full];
    let start = match parse_naive_date(start_date) {
        Some(d) => d,
        None => {
            assert(periods@ =~= seq![PerformancePeriod::Full]);
            return periods;
        },
    };
    let end = match parse_naive_date(end_date) {
        Some(d) => d,
        None => {
            assert(periods@ =~= seq![PerformancePeriod::Full]);
            return periods;
        },
    };
    let subs = PerformancePeriod::sub_periods();
    let ghost pred = |p: PerformancePeriod| spec_period_applies(p, start, end);
    let mut i: usize = 0;
    while i < subs.len()
        invariant
            subs@ == PerformancePeriod::spec_sub_periods(),
            i <= subs@.len(),
            start.valid(),
            end.valid(),
            pred == (|p: PerformancePeriod| spec_period_applies(p, start, end)),
            periods@ == seq![PerformancePeriod::Full] + subs@.take(i as int).filter(pred),
        decreases subs@.len() - i,
    {
        let p = subs[i];
        assert(subs@.take(i + 1).drop_last() =~= subs@.take(i as int));
        reveal_with_fuel(Seq::<PerformancePeriod>::filter, 1);
        if let Some(months) = p.months() {
            if let Some(target_start) = checked_sub_months(end, months) {
                if !target_start.before(&start) {
                    periods.push(p);
                }
            }
        }
        assert(periods@ =~= seq![PerformancePeriod::Full] + subs@.take(i + 1).filter(pred));
        i = i + 1;
    }
    assert(subs@.take(subs@.len() as int) =~= subs@);
    periods
}

/// The first and last dates of a data range: those of the rows when there are
/// any, else the requested start and end.
pub open spec fn spec_range_ends(dates: Seq<String>, start_date: Seq<char>, end_date: Seq<char>) -> (Seq<char>, Seq<char>) {
    if dates.len() == 0 {
        (start_date, end_date)
    } else {
        (dates[0]@, dates.last()@)
    }
}

/// The trailing periods that apply to a data range, judged on the dates of its
/// first and last rows, or on the requested dates when there are no rows.
pub fn range_periods(dates: &Vec<String>, start_date: &str, end_date: &str) -> (r: Vec<PerformancePeriod>)
    requires
        has_date_part(spec_range_ends(dates@, start_date@, end_date@).0),
        spec_parse_date(spec_range_ends(dates@, start_date@, end_date@).0) is Some
            ==> has_date_part(spec_range_ends(dates@, start_date@, end_date@).1),
    ensures
        r@ == spec_applicable_periods(
            spec_range_ends(dates@, start_date@, end_date@).0,
            spec_range_ends(dates@, start_date@, end_date@).1,
        ),
{
    let n = dates.len();
    if n == 0 {
        applicable_periods(start_date, end_date)
    } else {
        assert(dates@.last() == dates@[n - 1]);
        applicable_periods(dates[0].as_str(), dates[n - 1].as_str())
    }
}

/// A longer trailing period fits only if every shorter one does: the
/// trailing periods that apply are always the shortest ones.
pub proof fn lemma_shorter_periods_apply(start: CalendarDate, end: CalendarDate, i: int, j: int)
    requires
        start.valid(),
        end.valid(),
        0 <= i < j < 5,
        spec_period_applies(PerformancePeriod::spec_sub_periods()[j], start, end),
    ensures
        spec_period_applies(PerformancePeriod::spec_sub_periods()[i], start, end),
{
    let pi = PerformancePeriod::spec_sub_periods()[i];
    let pj = PerformancePeriod::spec_sub_periods()[j];
    let mi = pi.spec_months()->0 as nat;
    let mj = pj.spec_months()->0 as nat;
    assert(1 <= mi < mj <= 120);
    lemma_sub_months_monotone(end, mi, mj);
}

/// The first row, counting from `i`, whose date part parses to a date on or
/// after `target`.
pub open spec fn spec_first_from(dates: Seq<String>, target: CalendarDate, i: int) -> Option<int>
    decreases dates.len() - i,
{
    if i < 0 || i >= dates.len() {
        None
    } else if spec_parse_date(dates[i]@) matches Some(d) && !d.spec_before(target) {
        Some(i)
    } else {
        spec_first_from(dates, target, i + 1)
    }
}

/// Whether the date parts that a search for `target` reads can be cut out:
/// those of the rows up to the one found, or of every row when none is.
pub open spec fn search_cuts_ok(dates: Seq<String>, target: CalendarDate) -> bool {
    forall|k: int| 0 <= k < dates.len() && (match spec_first_from(dates, target, 0) {
        Some(f) => k <= f,
        None => true,
    }) ==> has_date_part(#[trigger] dates[k]@)
}

/// The first row whose date is on or after `target`; rows whose text is not a
/// date are passed over.
pub fn find_start_index(dates: &Vec<String>, target: CalendarDate) -> (r: Option<usize>)
    requires
        search_cuts_ok(dates@, target),
    ensures
        r matches Some(i) ==> spec_first_from(dates@, target, 0) == Some(i as int),
        r is None ==> spec_first_from(dates@, target, 0) is None,
{
    let n = dates.len();
    let mut i: usize = 0;
    while i < n
        invariant
            n == dates@.len(),
            i <= n,
            search_cuts_ok(dates@, target),
            spec_first_from(dates@, target, 0) == spec_first_from(dates@, target, i as int),
        decreases n - i,
    {
        proof {
            lemma_first_from_bound(dates@, target, i as int);
        }
        assert(has_date_part(dates@[i as int]@));
        if let Some(nd) = parse_naive_date(dates[i].as_str()) {
            if !nd.before(&target) {
                return Some(i);
            }
        }
        i = i + 1;
    }
    None
}

/// The first row of the window a period covers in data ending on `end`: row 0
/// for the full range, else the first row on or after the period's start, or
/// row 0 when there is none.
pub open spec fn spec_window_start(dates: Seq<String>, p: PerformancePeriod, end: CalendarDate) -> int {
    match p.spec_months() {
        None => 0,
        Some(m) => match spec_sub_months(end, m as nat) {
            Some(t) => match spec_first_from(dates, t, 0) {
                Some(i) => i,
                None => 0,
            },
            None => 0,
        },
    }
}

/// The windows of a periodic statistics table: for each applicable period, its
/// first row, leaving out windows of fewer than two rows.
pub open spec fn spec_periodic_windows(dates: Seq<String>) -> Result<Seq<(PerformancePeriod, usize)>, Seq<char>> {
    if dates.len() == 0 {
        Ok(Seq::empty())
    } else {
        match spec_parse_date(dates.last()@) {
            None => Err("Cannot parse end date"@),
            Some(end) => Ok(
                spec_applicable_periods(dates[0]@, dates.last()@)
                    .filter(|p: PerformancePeriod| dates.len() - spec_window_start(dates, p, end) >= 2)
                    .map_values(|p: PerformancePeriod| (p, spec_window_start(dates, p, end) as usize)),
            ),
        }
    }
}

/// The view of a windows result.
pub open spec fn windows_view(r: Result<Vec<(PerformancePeriod, usize)>, String>) -> Result<Seq<(PerformancePeriod, usize)>, Seq<char>> {
    match r {
        Ok(v) => Ok(v@),
        Err(e) => Err(e@),
    }
}

/// Each window start lies within the data.
proof fn lemma_first_from_bound(dates: Seq<String>, target: CalendarDate, i: int)
    ensures
        spec_first_from(dates, target, i) matches Some(k) ==> i <= k < dates.len(),
    decreases dates.len() - i,
{
    if 0 <= i < dates.len() {
        lemma_first_from_bound(dates, target, i + 1);
    }
}

/// Whether the date parts that finding the windows reads can be cut out: the
/// last date's; the first date's when the last one is a date; and for each
/// trailing period that applies, those that the search for its start reads.
pub open spec fn windows_cuts_ok(dates: Seq<String>) -> bool {
    dates.len() > 0 ==> {
        &&& has_date_part(dates.last()@)
        &&& match spec_parse_date(dates.last()@) {
            Some(end) => {
                &&& has_date_part(dates[0]@)
                &&& forall|p: PerformancePeriod| #[trigger] spec_applicable_periods(dates[0]@, dates.last()@).contains(p)
                    ==> match p.spec_months() {
                        Some(m) => match spec_sub_months(end, m as nat) {
                            Some(t) => search_cuts_ok(dates, t),
                            None => true,
                        },
                        None => true,
                    }
            },
            None => true,
        }
    }
}

/// Finds, for each trailing period that applies to a series of dated rows,
/// the first row of its window; windows of fewer than two rows are left out.
pub fn periodic_windows(dates: &Vec<String>) -> (r: Result<Vec<(PerformancePeriod, usize)>, String>)
    requires
        windows_cuts_ok(dates@),
    ensures
        windows_view(r) == spec_periodic_windows(dates@),
{
    let n = dates.len();
    if n == 0 {
        let w: Vec<(PerformancePeriod, usize)> = Vec::new();
        assert(w@ =~= Seq::<(PerformancePeriod, usize)>::empty());
        return Ok(w);
    }
    assert(dates@.last() == dates@[n - 1]);
    let end_nd = match parse_naive_date(dates[n - 1].as_str()) {
        Some(d) => d,
        None => {
            return Err(owned("Cannot parse end date"));
        },
    };
    let periods = applicable_periods(dates[0].as_str(), dates[n - 1].as_str());
    assert(dates@.last() == dates@[n - 1]);
    let ghost keep = |p: PerformancePeriod| dates@.len() - spec_window_start(dates@, p, end_nd) >= 2;
    let ghost label = |p: PerformancePeriod| (p, spec_window_start(dates@, p, end_nd) as usize);
    let mut windows: Vec<(PerformancePeriod, usize)> = Vec::new();
    let mut i: usize = 0;
    while i < periods.len()
        invariant
            n == dates@.len(),
            n > 0,
            windows_cuts_ok(dates@),
            end_nd.valid(),
            spec_parse_date(dates@.last()@) == Some(end_nd),
            i <= periods@.len(),
            keep == (|p: PerformancePeriod| dates@.len() - spec_window_start(dates@, p, end_nd) >= 2),
            label == (|p: PerformancePeriod| (p, spec_window_start(dates@, p, end_nd) as usize)),
            windows@ == periods@.take(i as int).filter(keep).map_values(label),
            periods@ == spec_applicable_periods(dates@[0]@, dates@.last()@),
        decreases periods@.len() - i,
    {
        let p = periods[i];
        assert(periods@.take(i + 1).drop_last() =~= periods@.take(i as int));
        reveal_with_fuel(Seq::<PerformancePeriod>::filter, 1);
        let start_idx: usize = match p.months() {
            None => 0,
            Some(months) => {
                match checked_sub_months(end_nd, months) {
                    Some(target) => {
                        proof {
                            assert(periods@[i as int] == p);
                            assert(spec_applicable_periods(dates@[0]@, dates@.last()@).contains(p));
                        }
                        let found = find_start_index(dates, target);
                        proof {
                            lemma_first_from_bound(dates@, target, 0);
                        }
                        match found {
                            Some(k) => k,
                            None => 0,
                        }
                    },
                    None => {
                        proof {
                            let s0 = spec_parse_date(dates@[0]@);
                            let e0 = spec_parse_date(dates@.last()@);
                            if s0 is Some && e0 is Some {
                                let subs = PerformancePeriod::spec_sub_periods();
                                let pr = |q: PerformancePeriod| spec_period_applies(q, s0->0, e0->0);
                                assert(periods@ == seq![PerformancePeriod::Full] + subs.filter(pr));
                                assert(periods@[0] == PerformancePeriod::Full);
                                assert(i >= 1);
                                subs.lemma_filter_pred(pr, i - 1);
                                assert(periods@[i as int] == subs.filter(pr)[i - 1]);
                            } else {
                                assert(periods@ == seq![PerformancePeriod::Full]);
                            }
                        }
                        return Err(owned("Date arithmetic overflow"));
                    },
                }
            },
        };
        assert(start_idx == spec_window_start(dates@, p, end_nd));
        if n - start_idx >= 2 {
            windows.push((p, start_idx));
        }
        assert(windows@ =~= periods@.take(i + 1).filter(keep).map_values(label));
        i = i + 1;
    }
    assert(periods@.take(periods@.len() as int) =~= periods@);
    Ok(windows)
}

/// The length in months that a period's name gives: `NM` is N months and
/// `NY` is N years of twelve months.
pub open spec fn months_of_name(name: Seq<char>) -> int {
    if name.len() > 0 && name.last() == 'M' {
        decimal_number(name.drop_last())
    } else if name.len() > 0 && name.last() == 'Y' {
        12 * decimal_number(name.drop_last())
    } else {
        0
    }
}

/// Each trailing period spans the months its name says, twelve per year (6M
/// is 6 months, 1Y 12, 3Y 36, 5Y 60 and 10Y 120); only the full range has no
/// length.
pub proof fn lemma_period_lengths(p: PerformancePeriod)
    ensures
        p.spec_months() is None <==> p == PerformancePeriod::Full,
        p != PerformancePeriod::Full ==> p.spec_months()->0 == months_of_name(p.spec_name()),
{
    match p {
        PerformancePeriod::Full => {},
        PerformancePeriod::SixMonths => {
            reveal_strlit("6M");
            assert("6M"@.drop_last() =~= seq!['6']);
            assert(decimal_number(seq!['6']) == 6) by {
                assert('6' as int == 54);
                assert('0' as int == 48);
                assert(decimal_number(Seq::<char>::empty()) == 0);
                assert(seq!['6'].drop_last() =~= Seq::<char>::empty());
            }
        },
        PerformancePeriod::OneYear => {
            reveal_strlit("1Y");
            assert("1Y"@.drop_last() =~= seq!['1']);
            assert(decimal_number(seq!['1']) == 1) by {
                assert('1' as int == 49);
                assert('0' as int == 48);
                assert(decimal_number(Seq::<char>::empty()) == 0);
                assert(seq!['1'].drop_last() =~= Seq::<char>::empty());
            }
        },
        PerformancePeriod::ThreeYears => {
            reveal_strlit("3Y");
            assert("3Y"@.drop_last() =~= seq!['3']);
            assert(decimal_number(seq!['3']) == 3) by {
                assert('0' as int == 48);
                assert(decimal_number(Seq::<char>::empty()) == 0);
                assert('3' as int == 51);
                assert(seq!['3'].drop_last() =~= Seq::<char>::empty());
            }
        },
        PerformancePeriod::FiveYears => {
            reveal_strlit("5Y");
            assert("5Y"@.drop_last() =~= seq!['5']);
            assert(decimal_number(seq!['5']) == 5) by {
                assert('0' as int == 48);
                assert(decimal_number(Seq::<char>::empty()) == 0);
                assert('5' as int == 53);
                assert(seq!['5'].drop_last() =~= Seq::<char>::empty());
            }
        },
        PerformancePeriod::TenYears => {
            reveal_strlit("10Y");
            assert("10Y"@.drop_last() =~= seq!['1', '0']);
            assert(decimal_number(seq!['1']) == 1) by {
                assert('1' as int == 49);
                assert('0' as int == 48);
                assert(decimal_number(Seq::<char>::empty()) == 0);
                assert(seq!['1'].drop_last() =~= Seq::<char>::empty());
            }
            assert(decimal_number(seq!['1', '0']) == 10) by {
                assert('1' as int == 49);
                assert('0' as int == 48);
                assert(decimal_number(Seq::<char>::empty()) == 0);
                assert(seq!['1', '0'].drop_last() =~= seq!['1']);
                assert(seq!['1'].drop_last() =~= Seq::<char>::empty());
            }
        },
    }
}

/// A trailing period applies to a data range exactly when stepping back from
/// the range's end by the months its name says lands on or after the range's
/// start; the full range always applies.
pub proof fn lemma_period_applies_by_name(p: PerformancePeriod, start: CalendarDate, end: CalendarDate)
    ensures
        spec_period_applies(p, start, end) <==> (p == PerformancePeriod::Full || match spec_sub_months(
            end,
            months_of_name(p.spec_name()) as nat,
        ) {
            Some(t) => !t.spec_before(start),
            None => false,
        }),
{
    lemma_period_lengths(p);
}

/// The row a window starts on is the first row, counting from `i`, whose date
/// is on or after the target: its date parses and is not before the target,
/// and no row between `i` and it has such a date.  When no row is found, no
/// row from `i` on has one.
pub proof fn lemma_window_start_row(dates: Seq<String>, target: CalendarDate, i: int)
    requires
        0 <= i,
    ensures
        spec_first_from(dates, target, i) matches Some(k) ==> {
            &&& i <= k < dates.len()
            &&& spec_parse_date(dates[k]@) matches Some(d) && !d.spec_before(target)
            &&& forall|j: int| i <= j < k ==> !(spec_parse_date(#[trigger] dates[j]@) matches Some(d) && !d.spec_before(target))
        },
        spec_first_from(dates, target, i) is None ==> forall|j: int| i <= j < dates.len()
            ==> !(spec_parse_date(#[trigger] dates[j]@) matches Some(d) && !d.spec_before(target)),
    decreases dates.len() - i,
{
    if i < dates.len() {
        lemma_window_start_row(dates, target, i + 1);
    }
}

} // verus!
