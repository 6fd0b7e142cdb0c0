//! Calendar dates: parsing `YYYY-MM-DD` text, ISO weeks and stepping back by
//! whole months, with the date arithmetic done by the `chrono` crate.

use vstd::prelude::*;
use vstd::utf8::*;
use vstd::string::StringSliceAdditionalSpecFns;
use chrono::Datelike;
use crate::schedule::{date_part, date_part_len, has_date_part};

verus! {

broadcast use vstd::string::group_string_axioms;

/// A day of the proleptic Gregorian calendar.
#[derive(Debug, Clone, Copy, PartialEq, Eq, Structural)]
pub struct CalendarDate {
    pub year: i32,
    pub month: u32,
    pub day: u32,
}

/// The earliest year a date can have.
pub open spec fn min_year() -> int {
    -262143
}

/// The latest year a date can have.
pub open spec fn max_year() -> int {
    262142
}

/// Whether a year is a leap year of the Gregorian calendar.
pub open spec fn is_leap_year(y: int) -> bool {
    (y % 4 == 0 && y % 100 != 0) || y % 400 == 0
}

/// The number of days of a month.
pub open spec fn days_in_month(y: int, m: int) -> int {
    if m == 2 {
        if is_leap_year(y) { 29 } else { 28 }
    } else if m == 4 || m == 6 || m == 9 || m == 11 {
        30
    } else {
        31
    }
}

impl CalendarDate {
    /// The date exists in the calendar and lies within the supported years.
    pub open spec fn valid(self) -> bool {
        &&& min_year() <= self.year <= max_year()
        &&& 1 <= self.month <= 12
        &&& 1 <= self.day <= days_in_month(self.year as int, self.month as int)
    }

    /// The months elapsed since the start of year 0.
    pub open spec fn month_index(self) -> int {
        self.year * 12 + self.month - 1
    }

    /// Chronological order.
    pub open spec fn spec_before(self, other: CalendarDate) -> bool {
        ||| self.year < other.year
        ||| self.year == other.year && self.month < other.month
        ||| self.year == other.year && self.month == other.month && self.day < other.day
    }

    /// Whether this date comes strictly before `other`.
    pub fn before(&self, other: &CalendarDate) -> (r: bool)
        ensures
            r == self.spec_before(*other),
    {
        self.year < other.year || (self.year == other.year && self.month < other.month)
            || (self.year == other.year && self.month == other.month && self.day < other.day)
    }
}

/// What parsing a text as a `%Y-%m-%d` date gives: year, month and day.
pub uninterp spec fn chrono_parse_ymd(s: Seq<char>) -> Option<(i32, u32, u32)>;

/// The ISO 8601 week of a date: week-numbering year and week number.
pub uninterp spec fn chrono_iso_week(year: i32, month: u32, day: u32) -> (i32, u32);

/// Parses `s` as a `%Y-%m-%d` date with `chrono::NaiveDate::parse_from_str`.
/// The result is named by `chrono_parse_ymd`; chrono's documentation states
/// that dates which do not exist are errors, so what it returns is a valid date.
#[verifier::external_body]
fn chrono_parse_date(s: &str) -> (r: Option<CalendarDate>)
    ensures
        chrono_parse_ymd(s@) == match r {
            Some(d) => Some((d.year, d.month, d.day)),
            None => None,
        },
        r matches Some(d) ==> d.valid(),
{
    match chrono::NaiveDate::parse_from_str(s, "%Y-%m-%d") {
        Ok(d) => Some(CalendarDate { year: d.year(), month: d.month(), day: d.day() }),
        Err(_) => None,
    }
}

/// The date that parsing the date part of a text gives.
pub open spec fn spec_parse_date(s: Seq<char>) -> Option<CalendarDate> {
    match chrono_parse_ymd(decode_utf8(date_part(s))) {
        Some((y, m, d)) => Some(CalendarDate { year: y, month: m, day: d }),
        None => None,
    }
}

/// Parses the first ten bytes (the `YYYY-MM-DD` part) of a date text.
pub fn parse_naive_date(s: &str) -> (r: Option<CalendarDate>)
    requires
        has_date_part(s@),
    ensures
        r == spec_parse_date(s@),
        r matches Some(d) ==> d.valid(),
{
    assert(s.spec_bytes() == encode_utf8(s@));
    let b = s.as_bytes();
    let k = if b.len() < 10 { b.len() } else { 10 };
    assert(k == date_part_len(s@));
    let (head, _) = s.split_at(k);
    proof {
        encode_utf8_decode_utf8(head@);
        assert(encode_utf8(head@) =~= date_part(s@));
    }
    chrono_parse_date(head)
}

/// The ISO week of a valid date with `chrono::Datelike::iso_week`, as
/// week-numbering year and week number.  The result is named by
/// `chrono_iso_week`; as chrono's documentation states, the week number lies
/// in 1..=53 and the week-numbering year is the calendar year or a neighbour.
#[verifier::external_body]
pub fn iso_week(d: CalendarDate) -> (r: (i32, u32))
    requires
        d.valid(),
    ensures
        r == chrono_iso_week(d.year, d.month, d.day),
        1 <= r.1 <= 53,
        d.year - 1 <= r.0 <= d.year + 1,
{
    let w = chrono::NaiveDate::from_ymd_opt(d.year, d.month, d.day).unwrap().iso_week();
    (w.year(), w.week())
}

/// The date `months` whole months before `d`, the day clamped to the last day
/// of the month reached; `None` when that date is out of range.
pub open spec fn spec_sub_months(d: CalendarDate, months: nat) -> Option<CalendarDate> {
    if months == 0 {
        Some(d)
    } else if months > i32::MAX {
        None
    } else {
        let t = d.month_index() - months;
        let y = t / 12;
        let m = t % 12 + 1;
        if t < i32::MIN || y < min_year() || y > max_year() {
            None
        } else {
            let dm = days_in_month(y, m);
            Some(CalendarDate { year: y as i32, month: m as u32, day: if d.day > dm { dm as u32 } else { d.day } })
        }
    }
}

/// Steps a valid date back by whole months with
/// `chrono::NaiveDate::checked_sub_months`, which keeps the day unless the
/// month reached is shorter and gives `None` when the result is out of range.
#[verifier::external_body]
pub fn checked_sub_months(d: CalendarDate, months: u32) -> (r: Option<CalendarDate>)
    requires
        d.valid(),
    ensures
        r == spec_sub_months(d, months as nat),
{
    let nd = chrono::NaiveDate::from_ymd_opt(d.year, d.month, d.day).unwrap();
    match nd.checked_sub_months(chrono::Months::new(months)) {
        Some(x) => Some(CalendarDate { year: x.year(), month: x.month(), day: x.day() }),
        None => None,
    }
}

/// Stepping back by more months never gives a later date: the month reached
/// comes strictly earlier, and whenever the longer step stays in range, so does
/// the shorter one.
pub proof fn lemma_sub_months_monotone(d: CalendarDate, a: nat, b: nat)
    requires
        d.valid(),
        1 <= a < b <= i32::MAX,
        spec_sub_months(d, b) is Some,
    ensures
        spec_sub_months(d, a) is Some,
        spec_sub_months(d, b)->0.spec_before(spec_sub_months(d, a)->0),
{
    let ta = d.month_index() - a;
    let tb = d.month_index() - b;
    assert(tb < ta);
    assert(ta / 12 >= tb / 12);
    assert(ta / 12 <= d.month_index() / 12);
    assert(d.month_index() / 12 == d.year);
    if ta / 12 == tb / 12 {
        assert(ta % 12 > tb % 12);
    }
}

} // verus!
