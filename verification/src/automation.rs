//! The policy of the periodic automation.
//!
//! At every tick the program reads the light sensor, the clock and the
//! settings in force, and asks here what to do with the door. Closing wins
//! over opening where both are due. There is no band between the
//! thresholds: light that wavers about one of them can send the door to and
//! fro.

use vstd::prelude::*;
use crate::door::LightLevelError;
use crate::sensor::LightLevel;
use crate::settings::Settings;
use crate::time::TimeOfDay;

verus! {

/// Seconds from one tick to the next.
pub const POLL_STATE_SECS: u64 = 5;

/// What a tick asks of the door.
#[derive(Clone, Copy, Debug, PartialEq, Eq, Structural)]
pub enum Action {
    /// Ask for the door to close.
    Close,
    /// Ask for the door to open.
    Open,
    /// Ask for nothing.
    Hold,
}

/// True when the door is due to close: the closing time has come, or the
/// light is at or below the closing threshold.
pub open spec fn closing_due(now: TimeOfDay, level: LightLevel, settings: Settings) -> bool {
    now.at_or_after(settings.times.close) || level.units <= settings.light_levels.close.units
}

/// True when the door is due to open: the opening time has come, or the
/// light is at or above the opening threshold.
pub open spec fn opening_due(now: TimeOfDay, level: LightLevel, settings: Settings) -> bool {
    now.at_or_after(settings.times.open) || level.units >= settings.light_levels.open.units
}

/// What a tick at time `now` with light at `level` asks under `settings`.
pub open spec fn decision(now: TimeOfDay, level: LightLevel, settings: Settings) -> Action {
    if closing_due(now, level, settings) {
        Action::Close
    } else if opening_due(now, level, settings) {
        Action::Open
    } else {
        Action::Hold
    }
}

/// Decides what to ask of the door at time `now` with light at `level`.
///
/// The door is asked to close whenever closing is due, also where opening
/// is due as well. It is asked to open where only opening is due.
pub fn decide(now: TimeOfDay, level: LightLevel, settings: &Settings) -> (action: Action)
    ensures
        action == decision(now, level, *settings),
        action == Action::Close <==> closing_due(now, level, *settings),
        action == Action::Open <==> opening_due(now, level, *settings) && !closing_due(
            now,
            level,
            *settings,
        ),
{
    if now.is_at_or_after(&settings.times.close) || level.is_at_or_below(
        &settings.light_levels.close,
    ) {
        Action::Close
    } else if now.is_at_or_after(&settings.times.open) || level.is_at_or_above(
        &settings.light_levels.open,
    ) {
        Action::Open
    } else {
        Action::Hold
    }
}

/// One tick of the automation, given what reading the light sensor gave.
///
/// A reading that failed skips the tick: nothing is asked of the door, and
/// no earlier reading stands in for the one that is missing.
pub fn tick(
    reading: &Result<LightLevel, LightLevelError>,
    now: TimeOfDay,
    settings: &Settings,
) -> (action: Action)
    ensures
        match reading {
            Ok(level) => action == decision(now, *level, *settings),
            Err(_) => action == Action::Hold,
        },
{
    match reading {
        Ok(level) => decide(now, *level, settings),
        Err(_) => Action::Hold,
    }
}

} // verus!
