//! The end of life of this version of the program.

use vstd::prelude::*;
use crate::text::{utf16, wide};

verus! {

/// Leap years of the Gregorian calendar.
pub open spec fn is_leap(year: int) -> bool {
    year % 4 == 0 && (year % 100 != 0 || year % 400 == 0)
}

/// How many days a month has.
pub open spec fn days_in(year: int, month: int) -> int {
    if month == 2 {
        if is_leap(year) {
            29
        } else {
            28
        }
    } else if month == 4 || month == 6 || month == 9 || month == 11 {
        30
    } else {
        31
    }
}

/// The calendar has this day, and `chrono` can represent its year.
pub open spec fn is_day(year: int, month: int, day: int) -> bool {
    &&& -262143 <= year <= 262142
    &&& 1 <= month <= 12
    &&& 1 <= day <= days_in(year, month)
}

/// Calls `chrono::NaiveDate::from_ymd_opt`, which makes a date exactly of the
/// days that the Gregorian calendar has in the years that it can represent.
#[verifier::external_body]
fn has_day(year: i32, month: u32, day: u32) -> (b: bool)
    ensures
        b == is_day(year as int, month as int, day as int),
{
    chrono::NaiveDate::from_ymd_opt(year, month, day).is_some()
}

/// A day of the calendar.
#[derive(Clone, Copy, Debug)]
pub struct Day {
    year: i32,
    month: u32,
    day: u32,
}

impl View for Day {
    type V = (int, int, int);

    closed spec fn view(&self) -> (int, int, int) {
        (self.year as int, self.month as int, self.day as int)
    }
}

impl Day {
    #[verifier::type_invariant]
    closed spec fn in_calendar(self) -> bool {
        is_day(self.year as int, self.month as int, self.day as int)
    }

    /// The day of the given year, month and day of the month, if there is one.
    pub fn from_ymd_opt(year: i32, month: u32, day: u32) -> (made: Option<Day>)
        ensures
            made is Some <==> is_day(year as int, month as int, day as int),
            made matches Some(d) ==> d@ == (year as int, month as int, day as int),
    {
        if has_day(year, month, day) {
            Some(Day { year, month, day })
        } else {
            None
        }
    }

    /// Whether this day comes after another.
    pub fn is_after(&self, other: &Day) -> (b: bool)
        ensures
            b == later(self@, other@),
    {
        if self.year != other.year {
            self.year > other.year
        } else if self.month != other.month {
            self.month > other.month
        } else {
            self.day > other.day
        }
    }
}

/// One day comes after another: the year decides, then the month, then the day
/// of the month.
pub open spec fn later(a: (int, int, int), b: (int, int, int)) -> bool {
    ||| a.0 > b.0
    ||| a.0 == b.0 && a.1 > b.1
    ||| a.0 == b.0 && a.1 == b.1 && a.2 > b.2
}

/// Whether this version of the program has expired: today comes after its last
/// day, 30 June 2027.
pub fn check_expiry(today: Day) -> (expired: bool)
    ensures
        expired == later(today@, (2027, 6, 30)),
{
    match Day::from_ymd_opt(2027, 6, 30) {
        Some(last) => today.is_after(&last),
        None => false,
    }
}

/// A version that has expired stays so.
pub proof fn law_expiry_is_final(today: (int, int, int), next: (int, int, int))
    requires
        later(today, (2027, 6, 30)),
        later(next, today),
    ensures
        later(next, (2027, 6, 30)),
{
}

/// A message box, its texts in UTF-16 and closed by a zero.
pub struct Dialog {
    pub message: Vec<u16>,
    pub caption: Vec<u16>,
}

/// What the user of an expired version is told.
pub fn show_expiry_dialog() -> (dialog: Dialog)
    ensures
        dialog.message@ == utf16(
            "Phien ban nay da het han.\n\nVui long tai phien ban moi tai hetcuu.com/antisupport"@,
        ).push(0),
        dialog.caption@ == utf16("AntiSupport - Het han"@).push(0),
{
    Dialog {
        message: wide(
            "Phien ban nay da het han.\n\nVui long tai phien ban moi tai hetcuu.com/antisupport",
        ),
        caption: wide("AntiSupport - Het han"),
    }
}

/// Days come in the order in which they are counted, month after month and day
/// after day.
pub proof fn law_order_of_days(a: (int, int, int), b: (int, int, int))
    requires
        is_day(a.0, a.1, a.2),
        is_day(b.0, b.1, b.2),
    ensures
        later(a, b) <==> (a.0 * 12 + a.1) * 31 + a.2 > (b.0 * 12 + b.1) * 31 + b.2,
        later(a, b) || later(b, a) || a == b,
        !(later(a, b) && later(b, a)),
{
}

/// The calendar has twelve months a year, of 30 or 31 days, except for February,
/// which has 29 in years that can be divided by 4, unless only by 100 and not by
/// 400, and 28 in the others.
pub proof fn law_calendar(year: int, month: int, day: int)
    requires
        -262143 <= year <= 262142,
    ensures
        is_day(year, month, day) ==> 1 <= month <= 12 && 1 <= day <= 31,
        1 <= month <= 12 && 1 <= day <= 28 ==> is_day(year, month, day),
        is_day(year, month, 30) <==> 1 <= month <= 12 && month != 2,
        is_day(year, month, 31) <==> month == 1 || month == 3 || month == 5 || month == 7 || month
            == 8 || month == 10 || month == 12,
        is_day(year, 2, 29) <==> (year % 4 == 0 && year % 100 != 0) || year % 400 == 0,
        1 <= month <= 12 && month != 2 ==> is_day(year, month, 29),
{
}

} // verus!
