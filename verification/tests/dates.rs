use chrono::{Datelike, NaiveDate};
use rust_streak::date::{Date, MAX_DAY_NUMBER, MIN_DAY_NUMBER};

fn day(year: i32, month: u32, day: u32) -> Date {
    let date = NaiveDate::from_ymd_opt(year, month, day).unwrap();
    Date::from_day_number(date.num_days_from_ce()).unwrap()
}

#[test]
fn day_number_bounds_are_those_of_the_calendar() {
    assert_eq!(NaiveDate::MIN.num_days_from_ce(), MIN_DAY_NUMBER);
    assert_eq!(NaiveDate::MAX.num_days_from_ce(), MAX_DAY_NUMBER);
    assert_eq!(MIN_DAY_NUMBER, -95_746_129);
    assert_eq!(MAX_DAY_NUMBER, 95_745_399);
    assert!(NaiveDate::from_num_days_from_ce_opt(MIN_DAY_NUMBER).is_some());
    assert!(NaiveDate::from_num_days_from_ce_opt(MAX_DAY_NUMBER).is_some());
    assert!(NaiveDate::from_num_days_from_ce_opt(MIN_DAY_NUMBER - 1).is_none());
    assert!(NaiveDate::from_num_days_from_ce_opt(MAX_DAY_NUMBER + 1).is_none());
}

#[test]
fn from_day_number_accepts_the_whole_range() {
    assert_eq!(Date::from_day_number(MIN_DAY_NUMBER).unwrap().day_number(), MIN_DAY_NUMBER);
    assert_eq!(Date::from_day_number(MAX_DAY_NUMBER).unwrap().day_number(), MAX_DAY_NUMBER);
    assert_eq!(Date::from_day_number(0).unwrap().day_number(), 0);
    assert_eq!(Date::from_day_number(1).unwrap().day_number(), 1);
    assert_eq!(Date::from_day_number(-1).unwrap().day_number(), -1);
    assert_eq!(Date::from_day_number(738_886).unwrap().day_number(), 738_886);
}

#[test]
fn from_day_number_refuses_what_lies_outside() {
    assert!(Date::from_day_number(MIN_DAY_NUMBER - 1).is_none());
    assert!(Date::from_day_number(MAX_DAY_NUMBER + 1).is_none());
    assert!(Date::from_day_number(100_000_000).is_none());
    assert!(Date::from_day_number(-100_000_000).is_none());
    assert!(Date::from_day_number(i32::MAX).is_none());
    assert!(Date::from_day_number(i32::MIN).is_none());
}

#[test]
fn day_number_counts_from_the_first_of_january_of_year_one() {
    assert_eq!(day(1, 1, 1).day_number(), 1);
    assert_eq!(day(0, 12, 31).day_number(), 0);
    assert_eq!(day(2, 1, 1).day_number(), 366);
    assert_eq!(day(1970, 1, 1).day_number(), 719_163);
    assert_eq!(day(2024, 1, 1).day_number(), 738_886);
}

#[test]
fn days_since_is_the_difference_in_days() {
    assert_eq!(day(2014, 1, 1).days_since(&day(2014, 1, 1)), 0);
    assert_eq!(day(2014, 1, 1).days_since(&day(2013, 12, 31)), 1);
    assert_eq!(day(2014, 1, 1).days_since(&day(2014, 1, 2)), -1);
    assert_eq!(day(2014, 1, 1).days_since(&day(2013, 9, 23)), 100);
    assert_eq!(day(2014, 1, 1).days_since(&day(2013, 1, 1)), 365);
    assert_eq!(day(2014, 1, 1).days_since(&day(2010, 1, 1)), 365 * 4 + 1);
    assert_eq!(day(2014, 1, 1).days_since(&day(1614, 1, 1)), 365 * 400 + 97);
}

#[test]
fn days_since_crosses_leap_days_and_years() {
    assert_eq!(day(2024, 3, 1).days_since(&day(2024, 2, 28)), 2);
    assert_eq!(day(2023, 3, 1).days_since(&day(2023, 2, 28)), 1);
    assert_eq!(day(2025, 1, 1).days_since(&day(2024, 12, 31)), 1);
    assert_eq!(day(2025, 1, 1).days_since(&day(2024, 1, 1)), 366);
    assert_eq!(day(1900, 3, 1).days_since(&day(1900, 2, 28)), 1);
    assert_eq!(day(2000, 3, 1).days_since(&day(2000, 2, 28)), 2);
}

#[test]
fn days_since_spans_the_whole_range() {
    let first = Date::from_day_number(MIN_DAY_NUMBER).unwrap();
    let last = Date::from_day_number(MAX_DAY_NUMBER).unwrap();
    assert_eq!(last.days_since(&first), 191_491_528);
    assert_eq!(first.days_since(&last), -191_491_528);
    assert_eq!(last.days_since(&last), 0);
    assert_eq!(first.days_since(&first), 0);
}

#[test]
fn days_since_agrees_with_the_day_numbers() {
    let numbers = [MIN_DAY_NUMBER, -366, -1, 0, 1, 365, 719_163, 738_886, 738_887, MAX_DAY_NUMBER];
    for a in numbers {
        for b in numbers {
            let later = Date::from_day_number(a).unwrap();
            let earlier = Date::from_day_number(b).unwrap();
            assert_eq!(later.days_since(&earlier), i64::from(a) - i64::from(b));
        }
    }
}

#[test]
fn same_day_compares_the_days() {
    assert!(day(2024, 2, 29).same_day(&day(2024, 2, 29)));
    assert!(!day(2024, 2, 29).same_day(&day(2024, 3, 1)));
    assert!(!day(2024, 2, 29).same_day(&day(2023, 2, 28)));
    assert_eq!(day(2024, 2, 29), day(2024, 2, 29));
    assert_ne!(day(2024, 2, 29), day(2024, 3, 1));
}

#[test]
fn a_date_goes_to_the_calendar_and_back() {
    let numbers = [MIN_DAY_NUMBER, -1, 0, 1, 738_886, MAX_DAY_NUMBER];
    for n in numbers {
        let date = Date::from_day_number(n).unwrap();
        let calendar = NaiveDate::from_num_days_from_ce_opt(date.day_number()).unwrap();
        assert_eq!(calendar.num_days_from_ce(), n);
    }
}
