//! The driver: its errors, its readings of one frame, and the order of bus
//! and chip-select operations for one read.
use vstd::prelude::*;
use crate::calibrate::{calibrate_reference, calibrate_thermocouple, calibrated, Units};
use crate::frame::{decode, decoded, flag, frame_word, Raw, SensorType};

verus! {

/// MAX31855 driver: owns its SPI bus and its chip-select pin.
pub struct Max31855<SPI, CS> {
    spi: SPI,
    cs: CS,
}

impl<SPI, CS> Max31855<SPI, CS> {
    /// The bus that the driver owns.
    pub closed spec fn bus_spec(&self) -> SPI {
        self.spi
    }

    /// The chip-select pin that the driver owns.
    pub closed spec fn chip_select_spec(&self) -> CS {
        self.cs
    }

    /// Creates a new driver from an SPI peripheral and a chip-select pin.
    pub fn new(spi: SPI, cs: CS) -> (r: Self)
        ensures
            r.bus_spec() == spi,
            r.chip_select_spec() == cs,
    {
        Max31855 { spi: spi, cs: cs }
    }

    /// The bus, for one operation of a read.
    pub fn bus(&mut self) -> (r: &mut SPI)
        ensures
            *r == old(self).bus_spec(),
            final(self).bus_spec() == *final(r),
            final(self).chip_select_spec() == old(self).chip_select_spec(),
    {
        &mut self.spi
    }

    /// The chip-select pin, for one operation of a read.
    pub fn chip_select(&mut self) -> (r: &mut CS)
        ensures
            *r == old(self).chip_select_spec(),
            final(self).chip_select_spec() == *final(r),
            final(self).bus_spec() == old(self).bus_spec(),
    {
        &mut self.cs
    }
}

/// Faults reported by the MAX31855.
#[derive(Clone, Copy, Debug, PartialEq, Eq, Structural)]
pub struct Max31855Error {
    /// Thermocouple is short circuited to Vcc
    pub scvfault: bool,
    /// Thermocouple is short circuited to ground
    pub scgfault: bool,
    /// Thermocouple is open circuited
    pub ocfault: bool,
}

/// Errors this driver can return.
#[derive(Debug)]
pub enum Error<E, P> {
    /// Fault reported by the MAX31855
    SensorError(Max31855Error),
    /// Failure of the SPI transfer
    SPIError(E),
    /// Failure to drive the chip-select pin
    PinError(P),
}

/// Calibrated measurements of one frame, in ten-thousandths of the unit.
#[derive(Clone, Copy, Debug, PartialEq, Eq, Structural)]
pub struct Measurement {
    /// Thermocouple temperature
    pub temperature: i32,
    /// Reference junction temperature
    pub cold_reference: i32,
    /// Fault roll-up
    pub fault: bool,
    /// Short circuit to Vcc
    pub scv: bool,
    /// Short circuit to ground
    pub scg: bool,
    /// Open circuit
    pub oc: bool,
}

/// The fault that a decoded frame reports.
pub open spec fn fault_of(raw: Raw) -> Max31855Error {
    Max31855Error { scvfault: raw.scv, scgfault: raw.scg, ocfault: raw.oc }
}

/// The fault flags of a decoded frame, or `None` where it reports no fault.
pub fn classify(raw: &Raw) -> (r: Option<Max31855Error>)
    ensures
        r == (if raw.fault { Some(fault_of(*raw)) } else { None::<Max31855Error> }),
{
    if raw.fault {
        Some(Max31855Error { scvfault: raw.scv, scgfault: raw.scg, ocfault: raw.oc })
    } else {
        None
    }
}

/// The thermocouple temperature of a frame in `unit`, or the fault it reports.
pub fn thermocouple_from_frame(buffer: [u8; 4], unit: Units) -> (r: Result<i32, Max31855Error>)
    ensures
        r is Ok <==> !decoded(buffer).fault,
        r is Ok ==> r->Ok_0 as int == calibrated(
            decoded(buffer).temperature as int,
            SensorType::HotRefJunction,
            unit,
        ),
        r is Err ==> r->Err_0 == fault_of(decoded(buffer)),
{
    let raw = decode(buffer);
    match classify(&raw) {
        Some(e) => Err(e),
        None => Ok(calibrate_thermocouple(raw.temperature, unit)),
    }
}

/// Both temperatures of a frame in `unit` with its flags, or the fault it reports.
pub fn measurement_from_frame(buffer: [u8; 4], unit: Units) -> (r: Result<Measurement, Max31855Error>)
    ensures
        r is Ok <==> !decoded(buffer).fault,
        r is Ok ==> ({
            let m = r->Ok_0;
            let raw = decoded(buffer);
            &&& m.temperature as int == calibrated(raw.temperature as int, SensorType::HotRefJunction, unit)
            &&& m.cold_reference as int == calibrated(raw.cold_reference as int, SensorType::ColdRefJunction, unit)
            &&& m.fault == raw.fault && m.scv == raw.scv && m.scg == raw.scg && m.oc == raw.oc
        }),
        r is Err ==> r->Err_0 == fault_of(decoded(buffer)),
{
    let raw = decode(buffer);
    match classify(&raw) {
        Some(e) => Err(e),
        None => Ok(Measurement {
            temperature: calibrate_thermocouple(raw.temperature, unit),
            cold_reference: calibrate_reference(raw.cold_reference, unit),
            fault: raw.fault,
            scv: raw.scv,
            scg: raw.scg,
            oc: raw.oc,
        }),
    }
}

/// A frame whose fault bit (bit 16) is clear decodes without a fault, so a
/// read of it reports no sensor fault, whatever its other bits hold.
pub proof fn lemma_clear_fault_bits_no_fault(b: [u8; 4])
    requires
        !flag(frame_word(b), 16),
    ensures
        !decoded(b).fault,
{
}

/// A frame with any of bits 0 to 2 set, on which the converter has set the
/// fault bit (bit 16), decodes with the roll-up fault set, and the fault it
/// reports carries each of those bits as its flag.
pub proof fn lemma_fault_bits_reported(b: [u8; 4])
    requires
        flag(frame_word(b), 16),
        flag(frame_word(b), 2) || flag(frame_word(b), 1) || flag(frame_word(b), 0),
    ensures
        decoded(b).fault,
        fault_of(decoded(b)) == (Max31855Error {
            scvfault: flag(frame_word(b), 2),
            scgfault: flag(frame_word(b), 1),
            ocfault: flag(frame_word(b), 0),
        }),
{
}

} // verus!
