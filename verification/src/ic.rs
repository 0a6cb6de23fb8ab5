//! Marker types for the supported device variants.

use vstd::prelude::*;

verus! {

/// Marker for the base family: a 9-bit ADC, so temperature steps of
/// 0.5 °C and no sample-rate register.
#[derive(Clone, Copy, Debug)]
pub struct Lm75;

/// Marker for the extended-precision family: an 11-bit ADC, so
/// temperature steps of 0.125 °C, plus a programmable sample-rate
/// register.
#[derive(Clone, Copy, Debug)]
pub struct Pct2075;

} // verus!
