//! What is shown of a streak record.

use crate::date::Date;
use crate::record::{StreakModel, StreakState};
use vstd::prelude::*;

verus! {

/// The length of streak that the tracker aims at, in days.
pub const GOAL_DAYS: i32 = 11_111;

/// The greatest number of blocks that the chain is drawn with.
pub const MAX_CHAIN_BLOCKS: i32 = 30;

/// The number of blocks in the chain of a streak of `streak_days` days: one
/// for each day, up to [`MAX_CHAIN_BLOCKS`]. A count below one, which no tick
/// leaves behind, draws no block.
pub open spec fn chain_blocks(streak_days: int) -> int {
    if streak_days <= 0 {
        0
    } else if streak_days >= MAX_CHAIN_BLOCKS {
        MAX_CHAIN_BLOCKS as int
    } else {
        streak_days
    }
}

/// The figures of a streak record, ready to be laid out.
#[derive(Clone, Copy, Debug, PartialEq, Eq)]
pub struct Banner {
    /// The length of the current streak, in days.
    pub streak_days: i32,
    /// The number of blocks in the chain.
    pub chain_blocks: usize,
    /// The length of the longest streak, in days.
    pub longest_days: i32,
    /// The goal, in days.
    pub goal_days: i32,
    /// Whether the day on which the banner is shown has been ticked.
    pub ticked_today: bool,
}

impl Banner {
    /// Whether this banner is the one of the record `state` on the day `today`.
    pub open spec fn describes(self, state: StreakModel, today: int) -> bool {
        &&& self.streak_days == state.current_streak_days
        &&& self.chain_blocks == chain_blocks(state.current_streak_days)
        &&& self.longest_days == state.longest_streak_days
        &&& self.goal_days == GOAL_DAYS
        &&& self.ticked_today == (today == state.last_date)
    }
}

/// The banner of the record `s` on the day `today`.
pub fn banner(s: &StreakState, today: Date) -> (shown: Banner)
    ensures
        shown.describes(s@, today@),
{
    let days: i32 = s.current_streak_days;
    let blocks: i32 = if days <= 0 {
        0
    } else if days >= MAX_CHAIN_BLOCKS {
        MAX_CHAIN_BLOCKS
    } else {
        days
    };
    Banner {
        streak_days: days,
        chain_blocks: blocks as usize,
        longest_days: s.longest_streak_days,
        goal_days: GOAL_DAYS,
        ticked_today: today.same_day(&s.last_date),
    }
}

/// What `str::trim` returns for the text `text`: the text without the white
/// space that it begins and ends with.
pub uninterp spec fn trimmed(text: Seq<char>) -> Seq<char>;

/// Calls `str::trim`. The contract gives what it returns the name
/// [`trimmed`], and claims no more of it.
#[verifier::external_body]
fn trim(text: &str) -> (inner: &str)
    ensures
        inner@ == trimmed(text@),
{
    text.trim()
}

/// The line to show of a plan that is already trimmed: the plan itself,
/// unless it is empty.
pub fn plan_if_any(plan: &str) -> (line: Option<&str>)
    ensures
        (line is None) == (plan@.len() == 0),
        line matches Some(shown) ==> shown@ == plan@,
{
    if plan.is_empty() {
        None
    } else {
        Some(plan)
    }
}

/// The line to show of the plan for the day, given the text `text` that was
/// written down for it: the text without the white space around it, unless
/// nothing else is in it.
pub fn plan_line(text: &str) -> (line: Option<&str>)
    ensures
        (line is None) == (trimmed(text@).len() == 0),
        line matches Some(shown) ==> shown@ == trimmed(text@),
{
    plan_if_any(trim(text))
}

} // verus!
