//! The settings of the automation.

use vstd::prelude::*;
use crate::sensor::{LightLevel, UNITS_PER_PERCENT};
use crate::time::TimeOfDay;

verus! {

/// What the automation goes by: two thresholds of light and two times of
/// day. A set of settings is replaced whole, never field by field.
#[derive(Clone, Copy, Debug, PartialEq, Eq, Structural)]
pub struct Settings {
    pub light_levels: LightLevels,
    pub times: Times,
}

/// The levels of light at which the door closes and opens.
#[derive(Clone, Copy, Debug, PartialEq, Eq, Structural)]
pub struct LightLevels {
    /// The door closes when the light is at or below this level.
    pub close: LightLevel,
    /// The door opens when the light is at or above this level.
    pub open: LightLevel,
}

/// The times of day from which the door opens and closes.
#[derive(Clone, Copy, Debug, PartialEq, Eq, Structural)]
pub struct Times {
    pub open: TimeOfDay,
    pub close: TimeOfDay,
}

impl LightLevels {
    /// Thresholds that light alone rarely meets: open at a hundred percent,
    /// close at nought.
    pub open spec fn initial() -> LightLevels {
        LightLevels {
            close: LightLevel { units: 0 },
            open: LightLevel { units: (100 * UNITS_PER_PERCENT) as i64 },
        }
    }
}

impl Times {
    /// Open from six in the morning, close from six in the evening.
    pub open spec fn initial() -> Times {
        Times { open: TimeOfDay::hms(6, 0, 0), close: TimeOfDay::hms(18, 0, 0) }
    }
}

impl Settings {
    /// The settings in force until others are given.
    pub open spec fn initial() -> Settings {
        Settings { light_levels: LightLevels::initial(), times: Times::initial() }
    }
}

impl Default for LightLevels {
    fn default() -> (levels: LightLevels)
        ensures
            levels == LightLevels::initial(),
    {
        LightLevels { close: LightLevel::from_percent(0), open: LightLevel::from_percent(100) }
    }
}

impl Default for Times {
    fn default() -> (times: Times)
        ensures
            times == Times::initial(),
            times.open.is_valid(),
            times.close.is_valid(),
    {
        let open = TimeOfDay::from_hms_opt(6, 0, 0);
        let close = TimeOfDay::from_hms_opt(18, 0, 0);
        Times { open: open.unwrap(), close: close.unwrap() }
    }
}

impl Default for Settings {
    fn default() -> (settings: Settings)
        ensures
            settings == Settings::initial(),
    {
        Settings { light_levels: LightLevels::default(), times: Times::default() }
    }
}

} // verus!
