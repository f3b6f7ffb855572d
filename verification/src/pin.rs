//! An inert output pin.
//!
//! The display protocol expects a controllable chip-select/reset pin, but on
//! this board the line is tied permanently active, so driving it has no
//! meaning. `NoPin` satisfies the two-operation drive-low/drive-high shape
//! without touching hardware; its error type has no inhabitants, so neither
//! operation can fail.

use vstd::prelude::*;

/// The error of the inert pin's operations: a type with no values, so the
/// operations can be seen to never fail.
pub use core::convert::Infallible;

verus! {

/// A no-op stand-in for a digital output pin whose electrical state is fixed
/// by the board wiring.
pub struct NoPin {}

impl Default for NoPin {
    fn default() -> (pin: Self)
        ensures
            pin == (NoPin {}),
    {
        NoPin {}
    }
}

impl NoPin {
    /// Drives nothing low; always succeeds.
    pub fn set_low(&mut self) -> (r: Result<(), Infallible>)
        ensures
            r is Ok,
            *final(self) == *old(self),
    {
        Ok(())
    }

    /// Drives nothing high; always succeeds.
    pub fn set_high(&mut self) -> (r: Result<(), Infallible>)
        ensures
            r is Ok,
            *final(self) == *old(self),
    {
        Ok(())
    }
}

} // verus!
