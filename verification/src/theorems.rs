//! What holds of ticking, proved of every record and every day.

use crate::commands::{after_tick, tick_fits, tick_kind, TickKind};
use crate::date::is_day_number;
use crate::record::StreakModel;
use vstd::prelude::*;

verus! {

/// The record after a tick on each day of `days`, in their order.
pub open spec fn after_ticks(record: Option<StreakModel>, days: Seq<int>) -> Option<StreakModel>
    decreases days.len(),
{
    if days.len() == 0 {
        record
    } else {
        Some(after_tick(after_ticks(record, days.drop_last()), days.last()))
    }
}

/// A tick on the day after a tick adds one day to the streak that the first
/// tick left. So where the first tick began a streak, because there was no
/// record or because the chain had broken, the two ticks leave a streak of
/// two days.
pub proof fn tick_on_next_day_extends(record: Option<StreakModel>, d1: int, d2: int)
    requires
        d2 == d1 + 1,
    ensures
        tick_kind(Some(after_tick(record, d1)), d2) == TickKind::Extended,
        after_tick(Some(after_tick(record, d1)), d2).current_streak_days == after_tick(
            record,
            d1,
        ).current_streak_days + 1,
        after_tick(Some(after_tick(record, d1)), d2).start_date == after_tick(
            record,
            d1,
        ).start_date,
        after_tick(record, d1).current_streak_days == 1 ==> after_tick(
            Some(after_tick(record, d1)),
            d2,
        ).current_streak_days == 2,
        record is None ==> after_tick(Some(after_tick(record, d1)), d2).current_streak_days == 2,
{
}

/// A second tick on one day changes nothing: the record after two ticks on
/// a day is the record after one.
pub proof fn tick_twice_is_tick_once(record: Option<StreakModel>, today: int)
    ensures
        after_tick(Some(after_tick(record, today)), today) == after_tick(record, today),
        tick_kind(Some(after_tick(record, today)), today) == TickKind::AlreadyTicked,
{
}

/// A tick more than one day after the last, or on a day before it, begins a
/// streak of one day on the day of the tick and leaves the longest streak as
/// it was.
pub proof fn tick_after_gap_restarts(kept: StreakModel, today: int)
    requires
        today - kept.last_date > 1 || today - kept.last_date < 0,
        kept.longest_streak_days >= 1,
    ensures
        tick_kind(Some(kept), today) == TickKind::Restarted,
        after_tick(Some(kept), today).current_streak_days == 1,
        after_tick(Some(kept), today).longest_streak_days == kept.longest_streak_days,
        after_tick(Some(kept), today).start_date == today,
        after_tick(Some(kept), today).last_date == today,
{
}

/// No tick lowers the longest streak, and every tick leaves it at least as
/// long as the current one.
pub proof fn tick_never_lowers_longest(kept: StreakModel, today: int)
    ensures
        after_tick(Some(kept), today).longest_streak_days >= kept.longest_streak_days,
        today != kept.last_date ==> after_tick(Some(kept), today).longest_streak_days
            >= after_tick(Some(kept), today).current_streak_days,
{
}

/// Over any run of ticks the longest streak never falls: the record after
/// the first `j` ticks of `days` holds a longest streak no shorter than the
/// record after the first `i` of them, for `i` up to `j`.
pub proof fn longest_never_decreases(record: Option<StreakModel>, days: Seq<int>, i: int, j: int)
    requires
        0 <= i <= j <= days.len(),
        record is Some || i > 0,
    ensures
        after_ticks(record, days.take(i)) is Some,
        after_ticks(record, days.take(j)) is Some,
        after_ticks(record, days.take(i))->0.longest_streak_days <= after_ticks(
            record,
            days.take(j),
        )->0.longest_streak_days,
    decreases j,
{
    if i < j {
        longest_never_decreases(record, days, i, j - 1);
        assert(days.take(j).drop_last() == days.take(j - 1));
        tick_never_lowers_longest(after_ticks(record, days.take(j - 1))->0, days[j - 1]);
    }
}

/// A record that begins a streak is consistent, and a tick keeps a
/// consistent record consistent.
pub proof fn tick_keeps_consistent(record: Option<StreakModel>, today: int)
    requires
        record matches Some(kept) ==> kept.consistent(),
    ensures
        StreakModel::fresh(today).consistent(),
        after_tick(record, today).consistent(),
{
}

/// Every run of ticks leaves a consistent record, if it began with one or
/// with none.
pub proof fn ticks_keep_consistent(record: Option<StreakModel>, days: Seq<int>)
    requires
        record matches Some(kept) ==> kept.consistent(),
    ensures
        after_ticks(record, days) matches Some(kept) ==> kept.consistent(),
    decreases days.len(),
{
    if days.len() > 0 {
        ticks_keep_consistent(record, days.drop_last());
        tick_keeps_consistent(after_ticks(record, days.drop_last()), days.last());
    }
}

/// The streak of a consistent record between two days that a date can hold
/// is far from the limit of its counter: a tick on any day fits.
pub proof fn consistent_record_fits(kept: StreakModel, today: int)
    requires
        kept.consistent(),
        is_day_number(kept.start_date),
        is_day_number(kept.last_date),
    ensures
        tick_fits(Some(kept), today),
{
}

} // verus!
