//! The composite device handle.
//!
//! `TWatch` owns the two sub-resources that bring-up produced — the display
//! driver and the bus the power-management unit answers on — for the
//! remainder of the program's life, and answers battery queries while hiding
//! the unit's sentinel-value reporting defect. The unit's driver is
//! stateless for these register reads, so each query reconstructs it over
//! the owned bus for the duration of one transaction.

use vstd::prelude::*;
use crate::battery::PMU_PERCENTAGE_SENTINEL;
use crate::battery::PmuError;
use crate::battery::needs_voltage_fallback;
use crate::battery::resolve_with_voltage;

verus! {

/// The two error kinds named at the device boundary.
#[derive(Debug)]
pub enum TWatchError {
    DisplayError,
    PMUError,
}

/// Relies on `axp20x::Axpxx::get_battery_percentage`: one read of the
/// unit's percentage register over the handed bus, the error carried over
/// kind for kind. What comes back depends on the bus, so nothing is
/// promised of the value.
#[verifier::external_body]
fn pmu_read_percentage<I2C: embedded_hal::i2c::I2c>(bus: &mut I2C) -> Result<u8, PmuError> {
    match axp20x::Axpxx::new(bus).get_battery_percentage() {
        Ok(v) => Ok(v),
        Err(axp20x::Error::Uninitialized) => Err(PmuError::Uninitialized),
        Err(axp20x::Error::I2cError(_)) => Err(PmuError::BusError),
    }
}

/// Relies on `axp20x::Axpxx::get_battery_voltage`: the battery voltage the
/// unit reports over the handed bus, truncated to whole millivolts, the
/// error carried over kind for kind. The sample depends on the bus, so
/// nothing is promised of the value.
#[verifier::external_body]
fn pmu_read_voltage_millivolts<I2C: embedded_hal::i2c::I2c>(
    bus: &mut I2C,
) -> Result<u16, PmuError> {
    match axp20x::Axpxx::new(bus).get_battery_voltage() {
        Ok(volt) => Ok(volt as u16),
        Err(axp20x::Error::Uninitialized) => Err(PmuError::Uninitialized),
        Err(axp20x::Error::I2cError(_)) => Err(PmuError::BusError),
    }
}

/// The device handle: sole owner of the configured display driver and of
/// the bus that reaches the power-management unit.
pub struct TWatch<DISPLAY, PMUBUS> {
    pub display: DISPLAY,
    pub pmu: PMUBUS,
}

impl<DISPLAY, PMUBUS> TWatch<DISPLAY, PMUBUS> {
    /// Aggregate the two fully initialized sub-resources into the handle;
    /// ownership of both transfers to it.
    pub fn new(display: DISPLAY, pmu: PMUBUS) -> (watch: Self)
        ensures
            watch.display == display,
            watch.pmu == pmu,
    {
        TWatch { display, pmu }
    }

    /// Query the battery level: a percentage the unit reports directly is
    /// returned unchanged, the sentinel is replaced by an estimate from a
    /// voltage sample, and a query failure is propagated unchanged. Which
    /// branch runs depends on what the bus returned; whatever came back,
    /// the sentinel itself never escapes, and the display is untouched.
    pub fn get_battery_percentage(&mut self) -> (level: Result<u8, PmuError>) where
        PMUBUS: embedded_hal::i2c::I2c,

        ensures
            level matches Ok(p) ==> p != PMU_PERCENTAGE_SENTINEL,
            final(self).display == old(self).display,
    {
        let pct = pmu_read_percentage(&mut self.pmu);
        if needs_voltage_fallback(&pct) {
            let volt = pmu_read_voltage_millivolts(&mut self.pmu);
            resolve_with_voltage(volt)
        } else {
            pct
        }
    }
}

} // verus!
