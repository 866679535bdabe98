//! Calendar dates without a time of day, and the calendar arithmetic that
//! billing periods need.
use vstd::prelude::*;

use chrono::Datelike;

verus! {

/// The latest year that a billing date may carry.
pub const MAX_YEAR: i32 = 9999;

/// A calendar date (proleptic Gregorian), with no time of day.
#[derive(Debug, Clone, Copy, PartialEq, Eq, Structural)]
pub struct Date {
    pub year: i32,
    pub month: u32,
    pub day: u32,
}

pub open spec fn is_leap_year(y: int) -> bool {
    (y % 4 == 0 && y % 100 != 0) || y % 400 == 0
}

pub open spec fn days_in_month(y: int, m: int) -> int {
    if m == 2 {
        if is_leap_year(y) { 29 } else { 28 }
    } else if m == 4 || m == 6 || m == 9 || m == 11 {
        30
    } else {
        31
    }
}

/// Days in the years before year `y` (from year 1 on).
pub open spec fn days_before_year(y: int) -> int {
    365 * (y - 1) + (y - 1) / 4 - (y - 1) / 100 + (y - 1) / 400
}

/// Days in the months of year `y` before month `m`.
pub open spec fn days_before_month(y: int, m: int) -> int
    decreases m,
{
    if m <= 1 { 0 } else { days_before_month(y, m - 1) + days_in_month(y, m - 1) }
}

/// The number of a day, counting 0001-01-01 as day 1.
pub open spec fn day_number(y: int, m: int, d: int) -> int {
    days_before_year(y) + days_before_month(y, m) + d
}

/// The text that chrono's `%Y-%m-%d` format gives for a date.
pub uninterp spec fn ymd_text(y: int, m: int, d: int) -> Seq<char>;

/// What chrono's `%Y-%m-%d` parser makes of a text: year, month and day.
pub uninterp spec fn parsed_ymd(s: Seq<char>) -> Option<(int, int, int)>;

/// Relies on chrono's `NaiveDate::parse_from_str` with the `%Y-%m-%d` format:
/// a date that it returns is a real calendar date.
#[verifier::external_body]
fn parse_ymd(s: &str) -> (r: Option<(i32, u32, u32)>)
    ensures
        r matches Some(t) ==> parsed_ymd(s@) == Some((t.0 as int, t.1 as int, t.2 as int)),
        r is None ==> parsed_ymd(s@) is None,
        r matches Some(t) ==> 1 <= t.1 <= 12 && 1 <= t.2 <= days_in_month(t.0 as int, t.1 as int),
{
    chrono::NaiveDate::parse_from_str(s, "%Y-%m-%d").ok().map(|d| (d.year(), d.month(), d.day()))
}

/// Relies on chrono's `NaiveDate::from_ymd_opt` and `format("%Y-%m-%d")`,
/// which accept every real calendar date.
#[verifier::external_body]
fn format_ymd(y: i32, m: u32, d: u32) -> (r: String)
    requires
        1 <= y <= MAX_YEAR,
        1 <= m <= 12,
        1 <= d <= days_in_month(y as int, m as int),
    ensures
        r@ == ymd_text(y as int, m as int, d as int),
{
    chrono::NaiveDate::from_ymd_opt(y, m, d).unwrap().format("%Y-%m-%d").to_string()
}

/// Relies on chrono's `TimeDelta::try_days` and
/// `NaiveDate::checked_add_signed`: moving a real date by `n` days gives the
/// real date `n` days away, which chrono holds for every year in `1..=MAX_YEAR`.
#[verifier::external_body]
fn shift_days(y: i32, m: u32, d: u32, n: i64) -> (r: Option<(i32, u32, u32)>)
    requires
        1 <= y <= MAX_YEAR,
        1 <= m <= 12,
        1 <= d <= days_in_month(y as int, m as int),
        day_number(1, 1, 1) <= day_number(y as int, m as int, d as int) + n <= day_number(
            MAX_YEAR as int,
            12,
            31,
        ),
    ensures
        r matches Some(t) ==> 1 <= t.0 <= MAX_YEAR && 1 <= t.1 <= 12 && 1 <= t.2 <= days_in_month(
            t.0 as int,
            t.1 as int,
        ) && day_number(t.0 as int, t.1 as int, t.2 as int) == day_number(y as int, m as int, d as int) + n,
        r is Some,
{
    let shifted = chrono::NaiveDate::from_ymd_opt(y, m, d)?.checked_add_signed(chrono::TimeDelta::try_days(n)?)?;
    Some((shifted.year(), shifted.month(), shifted.day()))
}

pub fn is_leap(y: i32) -> (r: bool)
    ensures
        r == is_leap_year(y as int),
{
    (y % 4 == 0 && y % 100 != 0) || y % 400 == 0
}

/// The number of days of month `m` of year `y`.
pub fn month_length(y: i32, m: u32) -> (r: u32)
    ensures
        r == days_in_month(y as int, m as int),
        28 <= r <= 31,
{
    if m == 2 {
        if is_leap(y) { 29 } else { 28 }
    } else if m == 4 || m == 6 || m == 9 || m == 11 {
        30
    } else {
        31
    }
}

impl Date {
    /// A real calendar date within the years that billing handles.
    pub open spec fn wf(self) -> bool {
        &&& 1 <= self.year <= MAX_YEAR
        &&& 1 <= self.month <= 12
        &&& 1 <= self.day <= days_in_month(self.year as int, self.month as int)
    }

    /// A number that orders dates chronologically.
    pub open spec fn key(self) -> int {
        self.year as int * 512 + self.month as int * 32 + self.day as int
    }

    /// The first day of the month after this date's month.
    pub open spec fn next_month_start(self) -> Date {
        if self.month >= 12 {
            Date { year: (self.year + 1) as i32, month: 1, day: 1 }
        } else {
            Date { year: self.year, month: (self.month + 1) as u32, day: 1 }
        }
    }

    /// The date of `year`, `month` and `day`, or `None` where no such day exists.
    pub fn new(year: i32, month: u32, day: u32) -> (r: Option<Date>)
        ensures
            r matches Some(d) ==> d.wf() && d.year == year && d.month == month && d.day == day,
            r is None <==> !(Date { year, month, day }).wf(),
    {
        if year < 1 || year > MAX_YEAR || month < 1 || month > 12 {
            return None;
        }
        if day < 1 || day > month_length(year, month) {
            return None;
        }
        Some(Date { year, month, day })
    }

    /// Whether this is a real calendar date within the supported years.
    pub fn is_valid(&self) -> (r: bool)
        ensures
            r == self.wf(),
    {
        Date::new(self.year, self.month, self.day).is_some()
    }

    /// Whether this date comes strictly before `other`.
    pub fn is_before(&self, other: &Date) -> (r: bool)
        requires
            self.month <= 12 && self.day <= 31,
            other.month <= 12 && other.day <= 31,
        ensures
            r == (self.key() < other.key()),
    {
        if self.year != other.year {
            self.year < other.year
        } else if self.month != other.month {
            self.month < other.month
        } else {
            self.day < other.day
        }
    }

    /// The first day of the following month.
    pub fn month_after(&self) -> (r: Date)
        requires
            self.wf(),
        ensures
            r == self.next_month_start(),
            r.key() > self.key(),
    {
        if self.month >= 12 {
            Date { year: self.year + 1, month: 1, day: 1 }
        } else {
            Date { year: self.year, month: self.month + 1, day: 1 }
        }
    }

    /// The day number of this date (0001-01-01 is day 1).
    pub open spec fn number(self) -> int {
        day_number(self.year as int, self.month as int, self.day as int)
    }

    /// Moves this date by `days` days (backwards where negative).
    pub fn add_days(&mut self, days: i64)
        requires
            old(self).wf(),
            day_number(1, 1, 1) <= old(self).number() + days <= day_number(MAX_YEAR as int, 12, 31),
        ensures
            final(self).wf(),
            final(self).number() == old(self).number() + days,
    {
        match shift_days(self.year, self.month, self.day, days) {
            Some((y, m, d)) => {
                *self = Date { year: y, month: m, day: d };
            },
            None => {},
        }
    }

    /// The date written `YYYY-MM-DD`.
    pub fn to_string(&self) -> (r: String)
        requires
            self.wf(),
        ensures
            r@ == ymd_text(self.year as int, self.month as int, self.day as int),
    {
        format_ymd(self.year, self.month, self.day)
    }

    /// Reads a date written `YYYY-MM-DD`; `None` where the text is no such
    /// date or its year lies outside `1..=MAX_YEAR`.
    pub fn from_str(s: &str) -> (r: Option<Date>)
        ensures
            r matches Some(d) ==> d.wf() && parsed_ymd(s@) == Some(
                (d.year as int, d.month as int, d.day as int),
            ),
            r is None <==> !parsed_in_range(parsed_ymd(s@)),
    {
        match parse_ymd(s) {
            None => None,
            Some((y, m, d)) => {
                if y < 1 || y > MAX_YEAR {
                    None
                } else {
                    Some(Date { year: y, month: m, day: d })
                }
            },
        }
    }
}

/// A parse result that names a year `1..=MAX_YEAR`.
pub open spec fn parsed_in_range(p: Option<(int, int, int)>) -> bool {
    match p {
        Some((y, _m, _d)) => 1 <= y <= MAX_YEAR,
        None => false,
    }
}

/// Two well-formed dates with the same ordering key are the same date.
pub proof fn lemma_key_injective(a: Date, b: Date)
    requires
        a.wf(),
        b.wf(),
        a.key() == b.key(),
    ensures
        a == b,
{
    let ay = a.year as int;
    let by = b.year as int;
    let am = a.month as int;
    let bm = b.month as int;
    assert(ay == by) by (nonlinear_arith)
        requires
            ay * 512 + am * 32 + a.day as int == by * 512 + bm * 32 + b.day as int,
            1 <= am <= 12,
            1 <= bm <= 12,
            1 <= a.day <= 31,
            1 <= b.day <= 31,
    ;
    assert(am == bm) by (nonlinear_arith)
        requires
            am * 32 + a.day as int == bm * 32 + b.day as int,
            1 <= a.day <= 31,
            1 <= b.day <= 31,
    ;
}

} // verus!
