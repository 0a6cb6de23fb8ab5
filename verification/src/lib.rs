//! Register-level driver core for a family of I2C temperature sensors
//! that share a register map but differ in ADC resolution, and, on the
//! extended-precision family, carry a programmable sample-rate register.
//!
//! The crate holds the convention-agnostic logic: the fixed-point codec
//! between temperatures (in counts of 1/256 °C) or sample periods (in
//! milliseconds) and register bytes, the bit-flag algebra over the
//! configuration byte, and the per-variant resolution capability. The
//! bus transport that carries the computed bytes is an external
//! collaborator.

pub mod config;
pub mod conversion;
pub mod driver;
pub mod ic;
pub mod markers;
pub mod register;

use vstd::prelude::*;

verus! {

/// I2C device address.
#[derive(Clone, Copy, PartialEq, Eq, Structural, Debug)]
pub struct Address(pub u8);

impl Default for Address {
    /// The device address with all address-selection pins low.
    fn default() -> (a: Address)
        ensures
            a.0 == 0x48,
    {
        Address(0x48)
    }
}

/// All possible errors of this driver.
#[derive(Debug)]
pub enum Error<E> {
    /// The underlying bus transaction failed; the transport error is
    /// carried through unchanged.
    I2C(E),
    /// A caller-supplied value was rejected before any bus transaction
    /// was issued.
    InvalidInputData,
}

} // verus!
