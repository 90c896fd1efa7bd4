//! Calendar days as day numbers of the proleptic Gregorian calendar.

use chrono::NaiveDate;
use vstd::prelude::*;

verus! {

/// Day number of 1 January of the year -262143, the earliest day that `chrono::NaiveDate` holds.
pub const MIN_DAY_NUMBER: i32 = -95_746_129;

/// Day number of 31 December of the year 262142, the latest day that `chrono::NaiveDate` holds.
pub const MAX_DAY_NUMBER: i32 = 95_745_399;

/// Whether `n` numbers a day that a [`Date`] can hold.
pub open spec fn is_day_number(n: int) -> bool {
    MIN_DAY_NUMBER <= n <= MAX_DAY_NUMBER
}

/// A calendar day without a time zone.
///
/// The day is held as its number in the proleptic Gregorian calendar, where
/// 1 January of the year 1 is day 1, as `chrono::Datelike::num_days_from_ce`
/// counts. The view of a date is that number, and every date lies between
/// [`MIN_DAY_NUMBER`] and [`MAX_DAY_NUMBER`].
#[derive(Clone, Copy, Debug, PartialEq, Eq)]
pub struct Date {
    day_number: i32,
}

impl View for Date {
    type V = int;

    closed spec fn view(&self) -> int {
        self.day_number as int
    }
}

impl Date {
    /// What holds of every date: its day number is one that the calendar has.
    #[verifier::type_invariant]
    pub open spec fn in_range(self) -> bool {
        is_day_number(self@)
    }

    /// The date with the day number `n`, if there is one.
    pub fn from_day_number(n: i32) -> (date: Option<Date>)
        ensures
            is_day_number(n as int) <==> date is Some,
            date matches Some(d) ==> d@ == n,
    {
        if MIN_DAY_NUMBER <= n && n <= MAX_DAY_NUMBER {
            Some(Date { day_number: n })
        } else {
            None
        }
    }

    /// The number of this day.
    pub fn day_number(&self) -> (n: i32)
        ensures
            n == self@,
            is_day_number(n as int),
    {
        proof {
            use_type_invariant(self);
        }
        self.day_number
    }

    /// Two dates with one day number are one date.
    pub proof fn same_number_same_date(a: Date, b: Date)
        requires
            a@ == b@,
        ensures
            a == b,
    {
    }

    /// Whether `self` and `other` are the same day.
    pub fn same_day(&self, other: &Date) -> (same: bool)
        ensures
            same <==> self@ == other@,
    {
        self.day_number == other.day_number
    }

    /// The number of days from `earlier` to `self`: negative where `self` is the earlier day.
    pub fn days_since(&self, earlier: &Date) -> (days: i64)
        ensures
            days == self@ - earlier@,
    {
        proof {
            use_type_invariant(self);
            use_type_invariant(earlier);
        }
        calendar_days_between(self.day_number, earlier.day_number).unwrap()
    }
}

/// Calls `chrono::NaiveDate::signed_duration_since` on the days numbered `later`
/// and `earlier`, and `chrono::TimeDelta::num_days` on what it returns.
///
/// The contract claims of chrono that `NaiveDate::from_num_days_from_ce_opt`
/// gives a date exactly for the numbers from [`MIN_DAY_NUMBER`] to
/// [`MAX_DAY_NUMBER`], and that the whole days between two dates are the
/// difference of their day numbers.
#[verifier::external_body]
fn calendar_days_between(later: i32, earlier: i32) -> (days: Option<i64>)
    ensures
        (days is Some) == (is_day_number(later as int) && is_day_number(earlier as int)),
        days matches Some(d) ==> d == later - earlier,
{
    let later = NaiveDate::from_num_days_from_ce_opt(later)?;
    let earlier = NaiveDate::from_num_days_from_ce_opt(earlier)?;
    Some(later.signed_duration_since(earlier).num_days())
}

} // verus!
