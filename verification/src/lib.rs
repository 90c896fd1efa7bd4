//! A daily streak tracker: the record of a run of consecutive days, and the
//! rules by which a day's tick extends it, restarts it or leaves it alone.
//!
//! - [`date`]: calendar days as day numbers, and the days between two of them.
//! - [`record`]: the streak record and its model.
//! - [`commands`]: tick, show and reset, from the record kept and the day to
//!   the record to keep and the banner to show.
//! - [`banner`]: the figures that are shown of a record, and the plan line.
//! - [`theorems`]: what holds of every tick and of every run of ticks.

pub mod banner;
pub mod commands;
pub mod date;
pub mod record;
pub mod theorems;
