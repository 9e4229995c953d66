//! Fan modes and the arithmetic between CoolerControl duties and driver values.

use vstd::prelude::*;

verus! {

/// Largest raw value that the driver's `fan_custom_speed` accepts in practice;
/// PWM feedback is normalised to the same range.
pub const MAX_DRIVER_VALUE: i32 = 227;

/// Smallest duty, in percent, that CoolerControl may request for the shared channel.
pub const MIN_DUTY_PERCENT: i32 = 10;

/// Largest duty, in percent.
pub const MAX_DUTY_PERCENT: i32 = 100;

/// The fan modes of the driver that the plugin uses.
#[derive(Debug, Clone, Copy, PartialEq, Eq, Structural)]
pub enum FanMode {
    /// Firmware-controlled fans.
    Normal,
    /// Fixed speed, taken from `fan_custom_speed`.
    Fixed,
}

/// The driver's number for a fan mode.
pub open spec fn fan_mode_code(mode: FanMode) -> int {
    match mode {
        FanMode::Normal => 0,
        FanMode::Fixed => 5,
    }
}

impl FanMode {
    /// The value sent to gigabyted's `SetFanMode` and read back from `fan_mode`.
    pub fn code(self) -> (c: i32)
        ensures
            c == fan_mode_code(self),
    {
        match self {
            FanMode::Normal => 0,
            FanMode::Fixed => 5,
        }
    }
}

/// A duty that the shared channel accepts.
pub open spec fn valid_duty(duty: int) -> bool {
    MIN_DUTY_PERCENT <= duty <= MAX_DUTY_PERCENT
}

/// `value` is `duty` percent of the driver range, rounded to the nearest
/// integer with halves rounded up.
pub open spec fn is_driver_value_of(duty: int, value: int) -> bool {
    100 * value - 50 <= MAX_DRIVER_VALUE * duty < 100 * value + 50
}

/// The value written to `fan_custom_speed` for a duty in percent.
pub open spec fn driver_value(duty: int) -> int {
    (MAX_DRIVER_VALUE * duty + 50) / 100
}

/// Maps a duty in percent to the value written to `fan_custom_speed`.
pub fn duty_to_driver_value(duty: i32) -> (value: i32)
    requires
        valid_duty(duty as int),
    ensures
        value == driver_value(duty as int),
        is_driver_value_of(duty as int, value as int),
{
    (duty * MAX_DRIVER_VALUE + 50) / 100
}

} // verus!
