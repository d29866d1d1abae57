//! Calendar dates as the runtime stores them: eight digits, `YYYYMMDD`.
use vstd::prelude::*;

use crate::error::RfcErrorInfo;

verus! {

/// Number of units in a stored date.
pub const DATE_LEN: usize = 8;

pub open spec fn is_leap_year(y: int) -> bool {
    (y % 4 == 0 && y % 100 != 0) || y % 400 == 0
}

pub open spec fn days_in_month(y: int, m: int) -> int {
    if m == 2 {
        if is_leap_year(y) {
            29
        } else {
            28
        }
    } else if m == 4 || m == 6 || m == 9 || m == 11 {
        30
    } else {
        31
    }
}

/// A day of the proleptic Gregorian calendar.
pub open spec fn is_calendar_date(y: int, m: int, d: int) -> bool {
    1 <= m <= 12 && 1 <= d <= days_in_month(y, m)
}

/// Relies on `chrono::NaiveDate::from_ymd_opt`: it gives a date exactly when
/// the day exists in the proleptic Gregorian calendar and the year lies in
/// its range, which holds every four-digit year.
#[verifier::external_body]
fn calendar_date_exists(year: u32, month: u32, day: u32) -> (r: bool)
    requires
        year <= 9999,
    ensures
        r == is_calendar_date(year as int, month as int, day as int),
{
    chrono::NaiveDate::from_ymd_opt(year as i32, month, day).is_some()
}

/// A date with a four-digit year.
#[derive(Clone, Copy, Debug, PartialEq, Eq, Structural)]
pub struct RfcDate {
    year: u32,
    month: u32,
    day: u32,
}

pub open spec fn is_digit_unit(u: u16) -> bool {
    0x30 <= u <= 0x39
}

pub open spec fn digit_value(u: u16) -> int {
    u - 0x30
}

/// The unit of the decimal digit `v`.
pub open spec fn digit_unit(v: int) -> u16 {
    (0x30 + v) as u16
}

/// The eight units of `YYYYMMDD`.
pub open spec fn date_units(y: int, m: int, d: int) -> Seq<u16> {
    seq![
        digit_unit(y / 1000),
        digit_unit(y / 100 % 10),
        digit_unit(y / 10 % 10),
        digit_unit(y % 10),
        digit_unit(m / 10),
        digit_unit(m % 10),
        digit_unit(d / 10),
        digit_unit(d % 10),
    ]
}

/// The number that the two digit units from `from` spell.
pub open spec fn two_digits(u: Seq<u16>, from: int) -> int {
    digit_value(u[from]) * 10 + digit_value(u[from + 1])
}

/// The number that the four digit units from `from` spell.
pub open spec fn four_digits(u: Seq<u16>, from: int) -> int {
    two_digits(u, from) * 100 + two_digits(u, from + 2)
}

/// The date that the units spell, if they are eight digits that name an
/// existing day.
pub open spec fn date_of_units(u: Seq<u16>) -> Option<(int, int, int)> {
    if u.len() == DATE_LEN && (forall|i: int| 0 <= i < DATE_LEN ==> is_digit_unit(#[trigger] u[i]))
        && is_calendar_date(four_digits(u, 0), two_digits(u, 4), two_digits(u, 6)) {
        Some((four_digits(u, 0), two_digits(u, 4), two_digits(u, 6)))
    } else {
        None
    }
}

impl RfcDate {
    pub closed spec fn year(&self) -> int {
        self.year as int
    }

    pub closed spec fn month(&self) -> int {
        self.month as int
    }

    pub closed spec fn day(&self) -> int {
        self.day as int
    }

    #[verifier::type_invariant]
    closed spec fn inv(&self) -> bool {
        self.year <= 9999 && is_calendar_date(self.year as int, self.month as int, self.day as int)
    }

    /// The date `year-month-day`, where that day exists and the year has at
    /// most four digits.
    pub fn new(year: u32, month: u32, day: u32) -> (r: Option<RfcDate>)
        ensures
            r is Some <==> year <= 9999 && is_calendar_date(year as int, month as int, day as int),
            r matches Some(d) ==> d.year() == year && d.month() == month && d.day() == day,
    {
        if year <= 9999 && calendar_date_exists(year, month, day) {
            Some(RfcDate { year, month, day })
        } else {
            None
        }
    }

    pub fn year_value(&self) -> (r: u32)
        ensures
            r == self.year(),
    {
        self.year
    }

    pub fn month_value(&self) -> (r: u32)
        ensures
            r == self.month(),
    {
        self.month
    }

    pub fn day_value(&self) -> (r: u32)
        ensures
            r == self.day(),
    {
        self.day
    }

    /// The date as the runtime stores it: the units of `YYYYMMDD`.
    pub fn to_units(&self) -> (r: Vec<u16>)
        ensures
            r@ == date_units(self.year(), self.month(), self.day()),
    {
        proof {
            use_type_invariant(self);
        }
        let y = self.year;
        let m = self.month;
        let d = self.day;
        let mut r: Vec<u16> = Vec::new();
        r.push((0x30 + y / 1000) as u16);
        r.push((0x30 + y / 100 % 10) as u16);
        r.push((0x30 + y / 10 % 10) as u16);
        r.push((0x30 + y % 10) as u16);
        r.push((0x30 + m / 10) as u16);
        r.push((0x30 + m % 10) as u16);
        r.push((0x30 + d / 10) as u16);
        r.push((0x30 + d % 10) as u16);
        proof {
            assert(r@ =~= date_units(y as int, m as int, d as int));
        }
        r
    }

    /// The date stored in `units`: eight digit units `YYYYMMDD` naming an
    /// existing day. Anything else is refused with a locally built error.
    pub fn from_units(units: &[u16]) -> (r: Result<RfcDate, RfcErrorInfo>)
        ensures
            r is Ok <==> date_of_units(units@) is Some,
            r matches Ok(d) ==> date_of_units(units@) == Some((d.year(), d.month(), d.day())),
            r matches Err(e) ==> e@ == RfcErrorInfo::invalid_date_record(),
    {
        if units.len() != DATE_LEN {
            return Err(RfcErrorInfo::invalid_date());
        }
        let mut i: usize = 0;
        while i < DATE_LEN
            invariant
                0 <= i <= DATE_LEN,
                units@.len() == DATE_LEN,
                forall|j: int| 0 <= j < i ==> is_digit_unit(#[trigger] units@[j]),
            decreases DATE_LEN - i,
        {
            if units[i] < 0x30 || units[i] > 0x39 {
                return Err(RfcErrorInfo::invalid_date());
            }
            i = i + 1;
        }
        let y = digit(units[0]) * 1000 + digit(units[1]) * 100 + digit(units[2]) * 10 + digit(
            units[3],
        );
        let m = digit(units[4]) * 10 + digit(units[5]);
        let d = digit(units[6]) * 10 + digit(units[7]);
        proof {
            assert(is_digit_unit(units@[0]) && is_digit_unit(units@[1]) && is_digit_unit(units@[2]));
            assert(is_digit_unit(units@[3]) && is_digit_unit(units@[4]) && is_digit_unit(units@[5]));
            assert(is_digit_unit(units@[6]) && is_digit_unit(units@[7]));
        }
        match RfcDate::new(y, m, d) {
            Some(date) => Ok(date),
            None => Err(RfcErrorInfo::invalid_date()),
        }
    }
}

/// The value of a digit unit.
fn digit(u: u16) -> (r: u32)
    requires
        is_digit_unit(u),
    ensures
        r == digit_value(u),
        r <= 9,
{
    (u - 0x30) as u32
}

/// A stored date reads back as the date that was stored.
pub proof fn lemma_date_round_trip(y: int, m: int, d: int)
    requires
        0 <= y <= 9999,
        is_calendar_date(y, m, d),
    ensures
        date_of_units(date_units(y, m, d)) == Some((y, m, d)),
{
    let u = date_units(y, m, d);
    assert(forall|i: int| 0 <= i < DATE_LEN ==> is_digit_unit(#[trigger] u[i]));
    assert(two_digits(u, 0) == y / 100);
    assert(two_digits(u, 2) == y % 100);
    assert(four_digits(u, 0) == y);
    assert(two_digits(u, 4) == m);
    assert(two_digits(u, 6) == d);
}

} // verus!
