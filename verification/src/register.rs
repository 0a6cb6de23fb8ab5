//! Byte addresses of the device registers, shared across variants.

use vstd::prelude::*;

verus! {

/// Temperature register, two bytes, read-only.
pub const TEMPERATURE: u8 = 0x00;

/// Configuration register, one byte, read/write.
pub const CONFIGURATION: u8 = 0x01;

/// Hysteresis-threshold register, two bytes.
pub const T_HYST: u8 = 0x02;

/// Over-temperature-shutdown threshold register, two bytes.
pub const T_OS: u8 = 0x03;

/// Sample-rate period register, one byte; extended variant only.
pub const T_IDLE: u8 = 0x04;

} // verus!
