//! The calendrical module: a validated civil date/time and its Julian Day
//! Number.
//!
//! The Julian Day computation truncates toward zero at every marked step,
//! which differs from flooring for negative intermediate values.  All its
//! constants have exact rational forms with small denominators, so the day
//! count is returned as an exact [`Ratio`]: a whole number of seconds over
//! 86400.  The calendar cutover to Gregorian counting is the configured
//! date 1583-10-15.

use vstd::prelude::*;

verus! {

use crate::ratio::{ratio_bounded, ratio_eq, Ratio};

/// Seconds in a day.
pub const DAY_SECONDS: i64 = 86400;

/// The whole-day part of the epoch offset 1,720,994.5; the half day on
/// top of it encodes that a Julian day begins at midnight.
pub const JULIAN_DAY_EPOCH: i64 = 1720994;

/// A year divisible by four is a leap year, unless it is divisible by one
/// hundred and not by four hundred.
pub open spec fn leap_year_spec(year: int) -> bool {
    year % 4 == 0 && !(year % 100 == 0 && year % 400 != 0)
}

/// Whether `year` is a leap year of the Gregorian calendar.
pub fn is_leap_year(year: u16) -> (r: bool)
    ensures
        r == leap_year_spec(year as int),
{
    match year % 4 {
        0 if year % 100 == 0 && year % 400 != 0 => false,
        0 => true,
        _ => false,
    }
}

/// Whether the date `(y, m, d)` falls on or after the configured calendar
/// cutover, 1583-10-15.
pub open spec fn gregorian_spec(y: int, m: int, d: int) -> bool {
    y > 1583 || (y == 1583 && m >= 10 && d >= 15)
}

/// Truncation toward zero of the quotient `a / b`, for positive `b`.
pub open spec fn div_trunc(a: int, b: int) -> int {
    if a >= 0 {
        a / b
    } else {
        -((-a) / b)
    }
}

/// The Julian Day Number of the date/time, multiplied by 86400: the
/// century correction `b`, the truncated year and month terms, the day
/// with its time-of-day fraction, the half-day midnight offset, and the
/// epoch offset, all brought to the common denominator of one day in
/// seconds.
pub open spec fn julian_seconds_spec(y: int, m: int, d: int, h: int, mi: int, s: int) -> int {
    let yy: int = if m > 2 {
        y
    } else {
        y - 1
    };
    let mm: int = if m > 2 {
        m
    } else {
        m + 12
    };
    let tq: int = if y < 0 {
        3
    } else {
        0
    };
    let a: int = if gregorian_spec(y, m, d) {
        div_trunc(y, 100)
    } else {
        0
    };
    let b: int = if gregorian_spec(y, m, d) {
        2 - a + div_trunc(a, 4)
    } else {
        0
    };
    86400 * (b + div_trunc(1461 * yy - tq, 4) + div_trunc(306001 * (mm + 1), 10000) + d
        + JULIAN_DAY_EPOCH) + 3600 * h + 60 * mi + s + 43200
}

/// Truncation toward zero of `a / b`, computed on magnitudes so that the
/// negative case matches [`div_trunc`] exactly.
fn div_trunc_i64(a: i64, b: i64) -> (q: i64)
    requires
        0 < b,
        -1000000000000 <= a <= 1000000000000,
    ensures
        q == div_trunc(a as int, b as int),
        -1000000000000 <= q <= 1000000000000,
{
    proof {
        vstd::arithmetic::div_mod::lemma_div_is_ordered_by_denominator(
            if a >= 0 {
                a as int
            } else {
                -(a as int)
            },
            1,
            b as int,
        );
        vstd::arithmetic::div_mod::lemma_div_basics(
            if a >= 0 {
                a as int
            } else {
                -(a as int)
            },
        );
        vstd::arithmetic::div_mod::lemma_div_pos_is_pos(
            if a >= 0 {
                a as int
            } else {
                -(a as int)
            },
            b as int,
        );
    }
    if a >= 0 {
        ((a as u64) / (b as u64)) as i64
    } else {
        -((((-a) as u64) / (b as u64)) as i64)
    }
}

/// A validated civil date/time: astronomical year numbering, month and
/// day-of-month ranges checked at construction (day only against 1..=31,
/// not against the month's true length), time of day in hours, minutes
/// and seconds, and a whole-hour zone offset from Greenwich in units of
/// one twenty-fourth of a day.
#[derive(Clone, Copy, Debug)]
pub struct DateTime {
    year: i16,
    month: u8,
    day: u8,
    hour: u8,
    minute: u8,
    second: u8,
    z: i8,
}

impl DateTime {
    /// The year field.
    pub closed spec fn year_spec(&self) -> int {
        self.year as int
    }

    /// The month field.
    pub closed spec fn month_spec(&self) -> int {
        self.month as int
    }

    /// The day field.
    pub closed spec fn day_spec(&self) -> int {
        self.day as int
    }

    /// The hour field.
    pub closed spec fn hour_spec(&self) -> int {
        self.hour as int
    }

    /// The minute field.
    pub closed spec fn minute_spec(&self) -> int {
        self.minute as int
    }

    /// The second field.
    pub closed spec fn second_spec(&self) -> int {
        self.second as int
    }

    /// The zone offset field.
    pub closed spec fn zone_spec(&self) -> int {
        self.z as int
    }

    /// Every field within its valid range.
    pub open spec fn wf(&self) -> bool {
        &&& 1 <= self.month_spec() <= 12
        &&& 1 <= self.day_spec() <= 31
        &&& 0 <= self.hour_spec() <= 23
        &&& 0 <= self.minute_spec() <= 59
        &&& 0 <= self.second_spec() <= 59
        &&& -12 <= self.zone_spec() <= 12
    }

    /// A date/time from its fields.  An out-of-range field is a
    /// construction-time contract violation, not a recoverable condition.
    pub fn new(year: i16, month: u8, day: u8, hour: u8, minute: u8, second: u8, z: i8) -> (r:
        DateTime)
        requires
            1 <= month <= 12,
            1 <= day <= 31,
            hour < 24,
            minute < 60,
            second < 60,
            -12 <= z <= 12,
        ensures
            r.year_spec() == year as int,
            r.month_spec() == month as int,
            r.day_spec() == day as int,
            r.hour_spec() == hour as int,
            r.minute_spec() == minute as int,
            r.second_spec() == second as int,
            r.zone_spec() == z as int,
            r.wf(),
    {
        DateTime { year, month, day, hour, minute, second, z }
    }

    /// A date at midnight: the time fields and the zone offset are zero.
    pub fn from_date(year: i16, month: u8, day: u8) -> (r: DateTime)
        requires
            1 <= month <= 12,
            1 <= day <= 31,
        ensures
            r.year_spec() == year as int,
            r.month_spec() == month as int,
            r.day_spec() == day as int,
            r.hour_spec() == 0,
            r.minute_spec() == 0,
            r.second_spec() == 0,
            r.zone_spec() == 0,
            r.wf(),
    {
        DateTime::new(year, month, day, 0, 0, 0, 0)
    }

    /// Whether the date falls on or after the configured calendar cutover.
    pub fn is_gregorian(&self) -> (r: bool)
        ensures
            r == gregorian_spec(self.year_spec(), self.month_spec(), self.day_spec()),
    {
        self.year > 1583 || (self.year == 1583 && self.month >= 10 && self.day >= 15)
    }

    /// The day of the month together with the time of day as a fraction
    /// of a day: `day + hour/24 + minute/1440 + second/86400`, exactly.
    pub fn fractional_day(&self) -> (r: Ratio)
        requires
            self.wf(),
        ensures
            ratio_eq(
                r@,
                (
                    86400 * self.day_spec() + 3600 * self.hour_spec() + 60 * self.minute_spec()
                        + self.second_spec(),
                    86400,
                ),
            ),
            ratio_bounded(r@),
    {
        let n: i64 = 86400 * (self.day as i64) + 3600 * (self.hour as i64) + 60 * (
        self.minute as i64) + (self.second as i64);
        Ratio::new(n, DAY_SECONDS)
    }

    /// The Julian Day Number of the date/time as an exact rational: the
    /// whole number [`julian_seconds_spec`] of seconds over 86400.  The
    /// zone offset does not enter the computation.
    pub fn to_julian_day(&self) -> (r: Ratio)
        requires
            self.wf(),
        ensures
            ratio_eq(
                r@,
                (
                    julian_seconds_spec(
                        self.year_spec(),
                        self.month_spec(),
                        self.day_spec(),
                        self.hour_spec(),
                        self.minute_spec(),
                        self.second_spec(),
                    ),
                    86400,
                ),
            ),
            ratio_bounded(r@),
    {
        let year: i64 = self.year as i64;
        let month: i64 = self.month as i64;
        let (yy, mm): (i64, i64) = if month > 2 {
            (year, month)
        } else {
            (year - 1, month + 12)
        };
        let tq: i64 = if year < 0 {
            3
        } else {
            0
        };
        let greg: bool = self.is_gregorian();
        let a: i64 = if greg {
            div_trunc_i64(year, 100)
        } else {
            0
        };
        let b: i64 = if greg {
            2 - a + div_trunc_i64(a, 4)
        } else {
            0
        };
        let days: i64 = b + div_trunc_i64(1461 * yy - tq, 4) + div_trunc_i64(
            306001 * (mm + 1),
            10000,
        ) + (self.day as i64) + JULIAN_DAY_EPOCH;
        let secs: i64 = 86400 * days + 3600 * (self.hour as i64) + 60 * (self.minute as i64) + (
        self.second as i64) + 43200;
        Ratio::new(secs, DAY_SECONDS)
    }
}

} // verus!

