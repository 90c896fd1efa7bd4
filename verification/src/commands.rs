//! The three commands of the tracker, as functions from the record that was
//! kept and the day of the call to the record to keep and the banner to show.
//!
//! None of them reads or writes anything: the caller loads the record, hands
//! it in with the day, and stores and prints what comes back.

use crate::banner::{banner, Banner};
use crate::date::Date;
use crate::record::{record_model, StreakModel, StreakState};
use vstd::prelude::*;

verus! {

/// What a tick did to the record.
#[derive(Clone, Copy, Debug, PartialEq, Eq, Structural)]
pub enum TickKind {
    /// There was no record: a streak of one day began.
    Started,
    /// The day had been ticked before: the record stays as it was.
    AlreadyTicked,
    /// The day follows the last ticked day: the streak grew by one day.
    Extended,
    /// The chain broke: a streak of one day began.
    Restarted,
}

/// What a tick on the day `today` does to `record`.
pub open spec fn tick_kind(record: Option<StreakModel>, today: int) -> TickKind {
    match record {
        None => TickKind::Started,
        Some(kept) => if today == kept.last_date {
            TickKind::AlreadyTicked
        } else if today - kept.last_date == 1 {
            TickKind::Extended
        } else {
            TickKind::Restarted
        },
    }
}

/// The record after a tick on the day `today`.
///
/// Without a record a streak begins. A second tick on the last ticked day
/// changes nothing. A tick on the day after it adds a day to the streak. Any
/// other day, later or earlier, begins a streak anew. The longest streak is
/// raised wherever the current one has outgrown it.
pub open spec fn after_tick(record: Option<StreakModel>, today: int) -> StreakModel {
    match record {
        None => StreakModel::fresh(today),
        Some(kept) => if today == kept.last_date {
            kept
        } else {
            let extends = today - kept.last_date == 1;
            let current = if extends {
                kept.current_streak_days + 1
            } else {
                1
            };
            StreakModel {
                start_date: if extends {
                    kept.start_date
                } else {
                    today
                },
                last_date: today,
                current_streak_days: current,
                longest_streak_days: if current > kept.longest_streak_days {
                    current
                } else {
                    kept.longest_streak_days
                },
            }
        },
    }
}

/// Whether the streak that a tick on `today` leaves in `record` can be
/// counted in an `i32`.
pub open spec fn tick_fits(record: Option<StreakModel>, today: int) -> bool {
    record matches Some(kept) ==> (today - kept.last_date == 1 ==> kept.current_streak_days
        < i32::MAX)
}

/// The record that is shown on the day `today`: the one kept, or without one
/// the record of a streak that begins on that day.
pub open spec fn shown_record(record: Option<StreakModel>, today: int) -> StreakModel {
    match record {
        Some(kept) => kept,
        None => StreakModel::fresh(today),
    }
}

/// What a tick returns.
#[derive(Clone, Copy, Debug, PartialEq, Eq)]
pub struct TickOutcome {
    /// What the tick did.
    pub kind: TickKind,
    /// The record after the tick.
    pub state: StreakState,
    /// Whether that record is to be stored in place of the one kept.
    pub store: bool,
    /// The banner of that record.
    pub banner: Banner,
}

/// What showing or resetting returns.
#[derive(Clone, Copy, Debug, PartialEq, Eq)]
pub struct Outcome {
    /// The record that is shown.
    pub state: StreakState,
    /// Whether that record is to be stored in place of the one kept.
    pub store: bool,
    /// The banner of that record.
    pub banner: Banner,
}

/// Whether a tick on the day `today` can be made on `record`: whether the
/// streak that it leaves can be counted.
pub fn can_tick(record: &Option<StreakState>, today: Date) -> (fits: bool)
    ensures
        fits == tick_fits(record_model(*record), today@),
{
    match record {
        None => true,
        Some(kept) => today.days_since(&kept.last_date) != 1 || kept.current_streak_days
            < i32::MAX,
    }
}

/// Records that the day `today` was ticked.
///
/// The record returned is to be stored unless the day had been ticked
/// before. A first tick stores the record that it begins.
pub fn cmd_tick(record: Option<StreakState>, today: Date) -> (out: TickOutcome)
    requires
        tick_fits(record_model(record), today@),
    ensures
        out.kind == tick_kind(record_model(record), today@),
        out.state@ == after_tick(record_model(record), today@),
        out.store == (out.kind != TickKind::AlreadyTicked),
        out.kind == TickKind::AlreadyTicked ==> record == Some(out.state),
        out.kind == TickKind::Extended ==> (record matches Some(kept) && out.state.start_date
            == kept.start_date),
        out.kind == TickKind::Started || out.kind == TickKind::Restarted ==> out.state.start_date
            == today,
        out.state.last_date == today,
        out.kind == TickKind::Started || out.kind == TickKind::Restarted
            ==> out.state.current_streak_days == 1,
        record matches Some(kept) ==> out.state.longest_streak_days >= kept.longest_streak_days,
        record matches Some(kept) ==> (out.kind == TickKind::Restarted && kept.longest_streak_days
            >= 1 ==> out.state.longest_streak_days == kept.longest_streak_days),
        (record matches Some(kept) ==> kept@.consistent()) ==> out.state@.consistent(),
        out.banner.describes(out.state@, today@),
        out.banner.ticked_today,
{
    match record {
        None => {
            let state = StreakState::new(today);
            TickOutcome { kind: TickKind::Started, state, store: true, banner: banner(&state, today) }
        },
        Some(kept) => {
            if today.same_day(&kept.last_date) {
                proof {
                    Date::same_number_same_date(today, kept.last_date);
                }
                TickOutcome {
                    kind: TickKind::AlreadyTicked,
                    state: kept,
                    store: false,
                    banner: banner(&kept, today),
                }
            } else {
                let mut state = kept;
                let kind = if today.days_since(&kept.last_date) == 1 {
                    state.current_streak_days = kept.current_streak_days + 1;
                    TickKind::Extended
                } else {
                    state.current_streak_days = 1;
                    state.start_date = today;
                    TickKind::Restarted
                };
                state.last_date = today;
                if state.current_streak_days > state.longest_streak_days {
                    state.longest_streak_days = state.current_streak_days;
                }
                TickOutcome { kind, state, store: true, banner: banner(&state, today) }
            }
        },
    }
}

/// Shows the record on the day `today` and changes nothing. Without a
/// record it shows the record of a streak that begins on that day, which is
/// not to be stored.
pub fn cmd_show(record: Option<StreakState>, today: Date) -> (out: Outcome)
    ensures
        out.state@ == shown_record(record_model(record), today@),
        !out.store,
        record matches Some(kept) ==> out.state == kept,
        record is None ==> out.state.start_date == today && out.state.last_date == today,
        out.banner.describes(out.state@, today@),
{
    let state = match record {
        Some(kept) => kept,
        None => StreakState::new(today),
    };
    Outcome { state, store: false, banner: banner(&state, today) }
}

/// Discards the record, whatever it held, for a streak that begins on the
/// day `today`. The record returned is to be stored.
pub fn cmd_reset(today: Date) -> (out: Outcome)
    ensures
        out.state@ == StreakModel::fresh(today@),
        out.store,
        out.state.current_streak_days == 1,
        out.state.longest_streak_days == 1,
        out.state.start_date == today,
        out.state.last_date == today,
        out.state@.consistent(),
        out.banner.describes(out.state@, today@),
        out.banner.ticked_today,
{
    let state = StreakState::new(today);
    Outcome { state, store: true, banner: banner(&state, today) }
}

} // verus!
