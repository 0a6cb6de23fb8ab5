//! Bit-flag algebra over the one-byte configuration register.
//!
//! Every operation forces one named flag (or the two-bit fault-queue
//! field) to a chosen state and leaves every other bit of the byte
//! unchanged, so independent configuration features compose freely.

use vstd::prelude::*;

verus! {

/// Shutdown flag, bit 0 (1 = device disabled).
pub const SHUTDOWN: u8 = 0b0000_0001;

/// Comparator/interrupt mode flag, bit 1 (0 = comparator, 1 = interrupt).
pub const COMP_INT: u8 = 0b0000_0010;

/// OS polarity flag, bit 2 (0 = active low, 1 = active high).
pub const OS_POLARITY: u8 = 0b0000_0100;

/// Low bit of the two-bit fault-queue field, bit 3.
pub const FAULT_QUEUE0: u8 = 0b0000_1000;

/// High bit of the two-bit fault-queue field, bit 4.
pub const FAULT_QUEUE1: u8 = 0b0001_0000;

/// Both bits of the fault-queue field.
pub const FAULT_QUEUE_MASK: u8 = 0b0001_1000;

/// The byte with `flag`'s bits forced high and all others kept.
pub open spec fn spec_with_high(bits: u8, flag: u8) -> u8 {
    bits | flag
}

/// The byte with `flag`'s bits forced low and all others kept.
pub open spec fn spec_with_low(bits: u8, flag: u8) -> u8 {
    bits & !flag
}

/// In-memory mirror of the configuration register: the last value
/// confirmed written to the device. It is never read back from the
/// device to determine current state.
#[derive(Clone, Copy, PartialEq, Eq, Structural, Debug)]
pub struct Config {
    pub bits: u8,
}

impl Config {
    /// This byte with `flag` forced high, every other bit unchanged.
    pub fn with_high(self, flag: u8) -> (r: Config)
        ensures
            r.bits == spec_with_high(self.bits, flag),
    {
        Config { bits: self.bits | flag }
    }

    /// This byte with `flag` forced low, every other bit unchanged.
    pub fn with_low(self, flag: u8) -> (r: Config)
        ensures
            r.bits == spec_with_low(self.bits, flag),
    {
        Config { bits: self.bits & !flag }
    }
}

impl Default for Config {
    /// The device's power-on configuration: all flags low.
    fn default() -> (r: Config)
        ensures
            r.bits == 0,
    {
        Config { bits: 0 }
    }
}

/// Number of consecutive faults that trigger an OS condition. The four
/// depths form one ordinal two-bit field, not two independent flags.
#[derive(Clone, Copy, PartialEq, Eq, Structural, Debug)]
pub enum FaultQueue {
    /// 1 fault.
    _1,
    /// 2 consecutive faults.
    _2,
    /// 4 consecutive faults.
    _4,
    /// 6 consecutive faults.
    _6,
}

/// OS output polarity.
#[derive(Clone, Copy, PartialEq, Eq, Structural, Debug)]
pub enum OsPolarity {
    /// OS output active low.
    ActiveLow,
    /// OS output active high.
    ActiveHigh,
}

/// OS operation mode.
#[derive(Clone, Copy, PartialEq, Eq, Structural, Debug)]
pub enum OsMode {
    /// Comparator mode.
    Comparator,
    /// Interrupt mode.
    Interrupt,
}

/// The two-bit ordinal encoding of a fault-queue depth.
pub open spec fn fault_queue_ordinal(fq: FaultQueue) -> u8 {
    match fq {
        FaultQueue::_1 => 0,
        FaultQueue::_2 => 1,
        FaultQueue::_4 => 2,
        FaultQueue::_6 => 3,
    }
}

/// The byte with the fault-queue field set to `fq`'s ordinal, updating
/// both bits as one logical operation, every other bit unchanged.
pub open spec fn spec_with_fault_queue(bits: u8, fq: FaultQueue) -> u8 {
    match fq {
        FaultQueue::_1 => spec_with_low(spec_with_low(bits, FAULT_QUEUE1), FAULT_QUEUE0),
        FaultQueue::_2 => spec_with_high(spec_with_low(bits, FAULT_QUEUE1), FAULT_QUEUE0),
        FaultQueue::_4 => spec_with_low(spec_with_high(bits, FAULT_QUEUE1), FAULT_QUEUE0),
        FaultQueue::_6 => spec_with_high(spec_with_high(bits, FAULT_QUEUE1), FAULT_QUEUE0),
    }
}

/// Law: setting any of the four fault-queue depths, from any starting
/// byte, forces bits 3–4 to the depth's two-bit ordinal pattern and
/// leaves all non-fault-queue bits unchanged.
pub proof fn lemma_fault_queue_field(bits: u8, fq: FaultQueue)
    ensures
        spec_with_fault_queue(bits, fq) & !FAULT_QUEUE_MASK == bits & !FAULT_QUEUE_MASK,
        spec_with_fault_queue(bits, fq) & FAULT_QUEUE_MASK == fault_queue_ordinal(fq) << 3,
{
    match fq {
        FaultQueue::_1 => {
            assert(((bits & !0x10u8) & !0x08) & !0x18 == bits & !0x18) by (bit_vector);
            assert(((bits & !0x10u8) & !0x08) & 0x18 == 0u8 << 3) by (bit_vector);
        },
        FaultQueue::_2 => {
            assert(((bits & !0x10u8) | 0x08) & !0x18 == bits & !0x18) by (bit_vector);
            assert(((bits & !0x10u8) | 0x08) & 0x18 == 1u8 << 3) by (bit_vector);
        },
        FaultQueue::_4 => {
            assert(((bits | 0x10u8) & !0x08) & !0x18 == bits & !0x18) by (bit_vector);
            assert(((bits | 0x10u8) & !0x08) & 0x18 == 2u8 << 3) by (bit_vector);
        },
        FaultQueue::_6 => {
            assert(((bits | 0x10u8) | 0x08) & !0x18 == bits & !0x18) by (bit_vector);
            assert(((bits | 0x10u8) | 0x08) & 0x18 == 3u8 << 3) by (bit_vector);
        },
    }
}

/// Law: toggling the shutdown flag is idempotent and independent.
/// Forcing it in either direction never moves another bit; forcing it
/// twice equals forcing it once; the second write of an
/// enable/disable pair decides the flag; and a pair whose second write
/// matches the starting state restores the byte exactly.
pub proof fn lemma_shutdown_toggle(bits: u8)
    by (bit_vector)
    ensures
        spec_with_low(bits, SHUTDOWN) & !SHUTDOWN == bits & !SHUTDOWN,
        spec_with_high(bits, SHUTDOWN) & !SHUTDOWN == bits & !SHUTDOWN,
        spec_with_low(spec_with_low(bits, SHUTDOWN), SHUTDOWN) == spec_with_low(bits, SHUTDOWN),
        spec_with_high(spec_with_high(bits, SHUTDOWN), SHUTDOWN) == spec_with_high(bits, SHUTDOWN),
        spec_with_low(spec_with_high(bits, SHUTDOWN), SHUTDOWN) == spec_with_low(bits, SHUTDOWN),
        spec_with_high(spec_with_low(bits, SHUTDOWN), SHUTDOWN) == spec_with_high(bits, SHUTDOWN),
        bits & SHUTDOWN == 0 ==> spec_with_low(spec_with_high(bits, SHUTDOWN), SHUTDOWN) == bits,
        bits & SHUTDOWN != 0 ==> spec_with_high(spec_with_low(bits, SHUTDOWN), SHUTDOWN) == bits,
{
}

} // verus!
