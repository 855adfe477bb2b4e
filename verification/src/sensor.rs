//! The light sensor: an analog-to-digital converter on a serial bus.
//!
//! One reading is one transfer on the bus: a command of three bytes goes
//! out, an answer of five bytes comes back, and the first three of these
//! hold the sample. The level is the share of the converter's scale that
//! the sample leaves: the higher the sample, the lower the level.
//!
//! Levels are counted in whole units of 1/1024 of a percent. One step of the
//! converter is 25 such units, so every reading is exact.

use vstd::prelude::*;

verus! {

/// The command that asks the converter for a sample of the sensor's channel.
pub const ADC_COMMAND: [u8; 3] = [6, 0, 0];

/// Length in bytes of the converter's answer.
pub const ADC_RESPONSE_LEN: usize = 5;

/// Clock of the serial bus, in hertz.
pub const SPI_CLOCK_HZ: u32 = 1_000_000;

/// The sample at which the level is nought: one more than the largest that
/// the converter's twelve bits can hold.
pub const ADC_FULL_SCALE: u32 = 4096;

/// Units of level in one percent.
pub const UNITS_PER_PERCENT: i64 = 1024;

/// A level of light, or a threshold for one, in units of 1/1024 of a
/// percent.
///
/// Readings of the sensor lie between nought and a hundred percent.
/// Thresholds are meant to, but nothing enforces it.
#[derive(Clone, Copy, Debug, PartialEq, Eq, Hash, Structural)]
pub struct LightLevel {
    pub units: i64,
}

/// The sample that an answer of the converter holds: its first three bytes,
/// the most significant first.
pub open spec fn sample_of(response: Seq<u8>) -> int
    recommends
        response.len() >= 3,
{
    response[0] * 0x1_0000 + response[1] * 0x100 + response[2]
}

/// The level, in units, that a sample stands for: the share of the full
/// scale that the sample leaves, as a percentage.
pub open spec fn level_units(sample: int) -> int {
    (ADC_FULL_SCALE - sample) * 100 * UNITS_PER_PERCENT / (ADC_FULL_SCALE as int)
}

impl LightLevel {
    /// The level of a whole number of percent.
    pub fn from_percent(percent: i32) -> (level: LightLevel)
        ensures
            level.units == percent * UNITS_PER_PERCENT,
    {
        LightLevel { units: percent as i64 * UNITS_PER_PERCENT }
    }

    /// The level that a sample stands for. It falls by 25 units with every
    /// step of the sample, from a hundred percent at sample nought.
    pub fn from_sample(sample: u32) -> (level: LightLevel)
        ensures
            level.units == level_units(sample as int),
            level.units == (ADC_FULL_SCALE - sample) * 25,
            sample <= ADC_FULL_SCALE ==> 0 <= level.units <= 100 * UNITS_PER_PERCENT,
    {
        LightLevel { units: (ADC_FULL_SCALE as i64 - sample as i64) * 25 }
    }

    /// True when this level is at or below `threshold`.
    pub fn is_at_or_below(&self, threshold: &LightLevel) -> (below: bool)
        ensures
            below == (self.units <= threshold.units),
    {
        self.units <= threshold.units
    }

    /// True when this level is at or above `threshold`.
    pub fn is_at_or_above(&self, threshold: &LightLevel) -> (above: bool)
        ensures
            above == (self.units >= threshold.units),
    {
        self.units >= threshold.units
    }
}

/// Puts the sample together from the converter's answer.
pub fn sample_from_response(response: &[u8; 5]) -> (sample: u32)
    ensures
        sample == sample_of(response@),
        sample < 0x100_0000,
{
    let high: u32 = response[0] as u32;
    let middle: u32 = response[1] as u32;
    let low: u32 = response[2] as u32;
    assert((high << 16) | (middle << 8) | low == high * 0x1_0000 + middle * 0x100 + low)
        by (bit_vector)
        requires
            high < 0x100,
            middle < 0x100,
            low < 0x100,
    ;
    (high << 16) | (middle << 8) | low
}

/// The level never rises with the sample. Over the samples up to the full
/// scale it stays between nought and a hundred percent: it is a hundred
/// percent at sample nought, and nought at the full scale.
pub proof fn lemma_level_falls_as_sample_rises(lower: int, higher: int)
    requires
        lower <= higher,
    ensures
        level_units(lower) >= level_units(higher),
        0 <= lower <= ADC_FULL_SCALE ==> 0 <= level_units(lower) <= 100 * UNITS_PER_PERCENT,
        level_units(0) == 100 * UNITS_PER_PERCENT,
        level_units(ADC_FULL_SCALE as int) == 0,
{
}

} // verus!
