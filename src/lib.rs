//! Driver logic for the MAX31855 thermocouple-to-digital converter.
//!
//! The library decodes the 32-bit frame that the converter shifts out,
//! sign-extends its two temperature fields, classifies faults and calibrates
//! counts into a chosen unit. Temperatures are exact fixed-point integers in
//! ten-thousandths of the chosen unit. The order of chip-select and bus
//! operations for one read is decided by a small state machine; the caller
//! performs those operations on its own bus and pin.

mod bits;
pub mod frame;
pub mod calibrate;
pub mod driver;
pub mod session;
