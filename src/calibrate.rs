//! Calibration of signed counts into temperatures.
//!
//! A temperature is an `i32` in ten-thousandths of its unit, which holds
//! every value of the calibration table exactly (0.0625 = 625 / 10000).
use vstd::prelude::*;
use crate::frame::SensorType;

verus! {

/// Ten-thousandths per unit: a temperature of `t` stands for `t / SCALE` units.
pub const SCALE: i32 = 10000;

/// Units in which a temperature is given.
#[derive(Clone, Copy, Debug, PartialEq, Eq, Structural)]
pub enum Units {
    /// Raw ADC counts
    Count,
    /// Degrees Celsius
    Celsius,
    /// Degrees Fahrenheit
    Fahrenheit,
    /// Kelvin
    Kelvin,
}

/// Ten-thousandths of a degree Celsius per count of a sensor field:
/// 0.25 for the thermocouple, 0.0625 for the reference junction.
pub open spec fn celsius_per_count(t: SensorType) -> int {
    match t {
        SensorType::HotRefJunction => 2500,
        SensorType::ColdRefJunction => 625,
    }
}

/// 32 degrees Fahrenheit, in ten-thousandths.
pub open spec fn fahrenheit_offset() -> int {
    320000
}

/// 273.15 Kelvin, in ten-thousandths.
pub open spec fn kelvin_offset() -> int {
    2731500
}

/// The calibrated temperature of `count` counts of a sensor field, in
/// ten-thousandths of `unit`.
pub open spec fn calibrated(count: int, t: SensorType, unit: Units) -> int {
    match unit {
        Units::Count => count * 10000,
        Units::Celsius => count * celsius_per_count(t),
        Units::Fahrenheit => count * celsius_per_count(t) * 9 / 5 + fahrenheit_offset(),
        Units::Kelvin => count * celsius_per_count(t) + kelvin_offset(),
    }
}

/// Calibrates thermocouple counts: 0.25 degrees Celsius per count.
pub fn calibrate_thermocouple(count: i16, unit: Units) -> (r: i32)
    ensures
        r as int == calibrated(count as int, SensorType::HotRefJunction, unit),
{
    let c = count as i32;
    match unit {
        Units::Count => c * 10000,
        Units::Celsius => c * 2500,
        Units::Fahrenheit => c * 4500 + 320000,
        Units::Kelvin => c * 2500 + 2731500,
    }
}

/// Calibrates reference junction counts: 0.0625 degrees Celsius per count.
pub fn calibrate_reference(count: i16, unit: Units) -> (r: i32)
    ensures
        r as int == calibrated(count as int, SensorType::ColdRefJunction, unit),
{
    let c = count as i32;
    match unit {
        Units::Count => c * 10000,
        Units::Celsius => c * 625,
        Units::Fahrenheit => c * 1125 + 320000,
        Units::Kelvin => c * 625 + 2731500,
    }
}

/// Calibration depends on its inputs alone: equal counts, sensor and unit
/// give equal temperatures.
pub proof fn lemma_calibration_is_pure(a: i16, b: i16, t: SensorType, unit: Units)
    requires
        a == b,
    ensures
        calibrated(a as int, t, unit) == calibrated(b as int, t, unit),
{
}

/// For the same counts, Fahrenheit is Celsius times 9/5 plus 32, and Kelvin
/// is Celsius plus 273.15, exactly.
pub proof fn lemma_units_consistent(count: i16, t: SensorType)
    ensures
        5 * (calibrated(count as int, t, Units::Fahrenheit) - fahrenheit_offset())
            == 9 * calibrated(count as int, t, Units::Celsius),
        calibrated(count as int, t, Units::Kelvin)
            == calibrated(count as int, t, Units::Celsius) + kelvin_offset(),
{
    let c = count as int;
    match t {
        SensorType::HotRefJunction => {
            assert(c * 2500 * 9 == (c * 4500) * 5) by (nonlinear_arith);
            assert(c * 2500 * 9 / 5 == c * 4500) by (nonlinear_arith);
        },
        SensorType::ColdRefJunction => {
            assert(c * 625 * 9 == (c * 1125) * 5) by (nonlinear_arith);
            assert(c * 625 * 9 / 5 == c * 1125) by (nonlinear_arith);
        },
    }
}

} // verus!
