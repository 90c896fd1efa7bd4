//! The streak record and its mathematical model.

use crate::date::Date;
use vstd::prelude::*;

verus! {

/// The model of a streak record: its days as day numbers, its counts as
/// unbounded integers.
pub struct StreakModel {
    /// The day on which the current streak began.
    pub start_date: int,
    /// The day of the most recent tick.
    pub last_date: int,
    /// How many consecutive days have been ticked, the last one included.
    pub current_streak_days: int,
    /// The greatest length that any streak has reached.
    pub longest_streak_days: int,
}

impl StreakModel {
    /// The record of a streak that begins on `today`: one day long, and the
    /// longest so far.
    pub open spec fn fresh(today: int) -> StreakModel {
        StreakModel {
            start_date: today,
            last_date: today,
            current_streak_days: 1,
            longest_streak_days: 1,
        }
    }

    /// What holds of every record that ticking has built: the streak is at
    /// least one day long and no longer than the longest, it does not end
    /// before it begins, and it counts each day from its first to its last.
    pub open spec fn consistent(self) -> bool {
        &&& 1 <= self.current_streak_days <= self.longest_streak_days
        &&& self.start_date <= self.last_date
        &&& self.current_streak_days == self.last_date - self.start_date + 1
    }
}

/// A streak record as it is kept between two runs.
#[derive(Clone, Copy, Debug, PartialEq, Eq)]
pub struct StreakState {
    /// The day on which the current streak began.
    pub start_date: Date,
    /// The day of the most recent tick.
    pub last_date: Date,
    /// How many consecutive days have been ticked, the last one included.
    pub current_streak_days: i32,
    /// The greatest length that any streak has reached.
    pub longest_streak_days: i32,
}

impl View for StreakState {
    type V = StreakModel;

    open spec fn view(&self) -> StreakModel {
        StreakModel {
            start_date: self.start_date@,
            last_date: self.last_date@,
            current_streak_days: self.current_streak_days as int,
            longest_streak_days: self.longest_streak_days as int,
        }
    }
}

impl StreakState {
    /// The record of a streak that begins on `today`.
    pub fn new(today: Date) -> (state: StreakState)
        ensures
            state@ == StreakModel::fresh(today@),
            state.current_streak_days == 1,
            state.longest_streak_days == 1,
            state.start_date == today,
            state.last_date == today,
            state@.consistent(),
    {
        StreakState {
            start_date: today,
            last_date: today,
            current_streak_days: 1,
            longest_streak_days: 1,
        }
    }
}

/// The model of a record that may be absent.
pub open spec fn record_model(record: Option<StreakState>) -> Option<StreakModel> {
    match record {
        Some(state) => Some(state@),
        None => None,
    }
}

} // verus!
