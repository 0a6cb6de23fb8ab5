//! The driver surface: one instance per device, holding the bus address
//! and the in-memory configuration mirror.
//!
//! The driver never performs bus transactions itself. Each operation
//! computes the exact bytes the transport should write (or decodes bytes
//! the transport just read); an operation that changes the configuration
//! register hands back the planned write, and the caller records it with
//! [`Lm75::commit_config`] only after the transport confirms success, so
//! the mirror always holds the last value successfully written.

use vstd::prelude::*;
use crate::Address;
use crate::Error;
use crate::config::Config;
use crate::config::FaultQueue;
use crate::config::OsMode;
use crate::config::OsPolarity;
use crate::config::FAULT_QUEUE0;
use crate::config::FAULT_QUEUE1;
use crate::config::FAULT_QUEUE_MASK;
use crate::config::COMP_INT;
use crate::config::OS_POLARITY;
use crate::config::SHUTDOWN;
use crate::config::fault_queue_ordinal;
use crate::config::lemma_fault_queue_field;
use crate::config::spec_with_fault_queue;
use crate::config::spec_with_high;
use crate::config::spec_with_low;
use crate::conversion;
use crate::conversion::is_valid_sample_rate;
use crate::conversion::spec_sample_rate_from_register;
use crate::conversion::spec_sample_rate_to_register;
use crate::conversion::spec_temp_from_register;
use crate::conversion::spec_temp_lsb;
use crate::conversion::spec_temp_msb;
use crate::conversion::MAX_TEMP_COUNTS;
use crate::conversion::MIN_TEMP_COUNTS;
use crate::ic;
use crate::markers::ResolutionSupport;
use crate::register;

verus! {

/// A one-byte register write for the transport to perform.
#[derive(Clone, Copy, PartialEq, Eq, Structural, Debug)]
pub struct RegisterWrite {
    /// Register address.
    pub register: u8,
    /// Byte to write.
    pub value: u8,
}

/// A two-byte register write for the transport to perform.
#[derive(Clone, Copy, PartialEq, Eq, Structural, Debug)]
pub struct RegisterWrite2 {
    /// Register address.
    pub register: u8,
    /// Most-significant byte to write.
    pub msb: u8,
    /// Least-significant byte to write.
    pub lsb: u8,
}

/// Temperature sensor driver state for a device of variant `IC`.
pub struct Lm75<IC> {
    /// 7-bit bus address of the device.
    pub address: u8,
    /// Mirror of the configuration register: the last value confirmed
    /// written. Replaced only by [`Lm75::commit_config`].
    pub config: Config,
    /// Variant marker carrying the resolution capability.
    pub ic: IC,
}

impl Lm75<ic::Lm75> {
    /// Create a driver instance for a base-family device.
    pub fn new(address: Address) -> (d: Lm75<ic::Lm75>)
        ensures
            d.address == address.0,
            d.config.bits == 0,
    {
        Lm75 { address: address.0, config: Config::default(), ic: ic::Lm75 }
    }
}

impl Lm75<ic::Pct2075> {
    /// Create a driver instance for an extended-precision device.
    pub fn new_pct2075(address: Address) -> (d: Lm75<ic::Pct2075>)
        ensures
            d.address == address.0,
            d.config.bits == 0,
    {
        Lm75 { address: address.0, config: Config::default(), ic: ic::Pct2075 }
    }

    /// Plan setting the sample-rate period, in milliseconds. Periods
    /// outside 100–3100 ms or not a multiple of 100 ms are rejected
    /// before any transaction.
    pub fn set_sample_rate<E>(&self, period: u16) -> (r: Result<RegisterWrite, Error<E>>)
        ensures
            r is Ok <==> is_valid_sample_rate(period),
            r matches Ok(w) ==> w.register == register::T_IDLE && w.value
                == spec_sample_rate_to_register(period),
            r is Err ==> (r matches Err(e) && e is InvalidInputData),
    {
        if period < 100 || period > 3100 || period % 100 != 0 {
            return Err(Error::InvalidInputData);
        }
        let value = conversion::convert_sample_rate_to_register(period);
        Ok(RegisterWrite { register: register::T_IDLE, value })
    }

    /// Decode a just-read sample-rate register byte into a period in
    /// milliseconds.
    pub fn read_sample_rate(&self, byte: u8) -> (period: u16)
        ensures
            period == spec_sample_rate_from_register(byte),
    {
        conversion::convert_sample_rate_from_register(byte)
    }
}

impl<IC: ResolutionSupport> Lm75<IC> {
    /// Plan enabling the sensor (the default state): the configuration
    /// write that forces the shutdown flag low and moves no other bit.
    pub fn enable(&self) -> (w: RegisterWrite)
        ensures
            w.register == register::CONFIGURATION,
            w.value == spec_with_low(self.config.bits, SHUTDOWN),
    {
        let config = self.config;
        RegisterWrite {
            register: register::CONFIGURATION,
            value: config.with_low(SHUTDOWN).bits,
        }
    }

    /// Plan disabling the sensor (shutdown): the configuration write that
    /// forces the shutdown flag high and moves no other bit.
    pub fn disable(&self) -> (w: RegisterWrite)
        ensures
            w.register == register::CONFIGURATION,
            w.value == spec_with_high(self.config.bits, SHUTDOWN),
    {
        let config = self.config;
        RegisterWrite {
            register: register::CONFIGURATION,
            value: config.with_high(SHUTDOWN).bits,
        }
    }

    /// Plan setting the fault queue: the number of consecutive faults
    /// that trigger an OS condition. Both field bits are updated as one
    /// operation; every non-fault-queue bit is left unchanged.
    pub fn set_fault_queue(&self, fq: FaultQueue) -> (w: RegisterWrite)
        ensures
            w.register == register::CONFIGURATION,
            w.value == spec_with_fault_queue(self.config.bits, fq),
            w.value & !FAULT_QUEUE_MASK == self.config.bits & !FAULT_QUEUE_MASK,
            w.value & FAULT_QUEUE_MASK == fault_queue_ordinal(fq) << 3,
    {
        proof {
            lemma_fault_queue_field(self.config.bits, fq);
        }
        let config = self.config;
        let value = match fq {
            FaultQueue::_1 => config.with_low(FAULT_QUEUE1).with_low(FAULT_QUEUE0).bits,
            FaultQueue::_2 => config.with_low(FAULT_QUEUE1).with_high(FAULT_QUEUE0).bits,
            FaultQueue::_4 => config.with_high(FAULT_QUEUE1).with_low(FAULT_QUEUE0).bits,
            FaultQueue::_6 => config.with_high(FAULT_QUEUE1).with_high(FAULT_QUEUE0).bits,
        };
        RegisterWrite { register: register::CONFIGURATION, value }
    }

    /// Plan setting the OS polarity.
    pub fn set_os_polarity(&self, polarity: OsPolarity) -> (w: RegisterWrite)
        ensures
            w.register == register::CONFIGURATION,
            w.value == match polarity {
                OsPolarity::ActiveLow => spec_with_low(self.config.bits, OS_POLARITY),
                OsPolarity::ActiveHigh => spec_with_high(self.config.bits, OS_POLARITY),
            },
    {
        let config = self.config;
        let value = match polarity {
            OsPolarity::ActiveLow => config.with_low(OS_POLARITY).bits,
            OsPolarity::ActiveHigh => config.with_high(OS_POLARITY).bits,
        };
        RegisterWrite { register: register::CONFIGURATION, value }
    }

    /// Plan setting the OS operation mode.
    pub fn set_os_mode(&self, mode: OsMode) -> (w: RegisterWrite)
        ensures
            w.register == register::CONFIGURATION,
            w.value == match mode {
                OsMode::Comparator => spec_with_low(self.config.bits, COMP_INT),
                OsMode::Interrupt => spec_with_high(self.config.bits, COMP_INT),
            },
    {
        let config = self.config;
        let value = match mode {
            OsMode::Comparator => config.with_low(COMP_INT).bits,
            OsMode::Interrupt => config.with_high(COMP_INT).bits,
        };
        RegisterWrite { register: register::CONFIGURATION, value }
    }

    /// Record a configuration byte as the device's confirmed state. Call
    /// this only after the transport reported the corresponding write
    /// successful; after a failed or cancelled write, do not call it, and
    /// the mirror keeps its previous value.
    pub fn commit_config(&mut self, value: u8)
        ensures
            final(self).config.bits == value,
            final(self).address == old(self).address,
            final(self).ic == old(self).ic,
    {
        self.config = Config { bits: value };
    }

    /// Plan setting the over-temperature-shutdown threshold, in counts of
    /// 1/256 °C. Temperatures outside −55 °C to +125 °C are rejected
    /// before any transaction.
    pub fn set_os_temperature<E>(&self, temperature: i16) -> (r: Result<
        RegisterWrite2,
        Error<E>,
    >)
        ensures
            r is Ok <==> MIN_TEMP_COUNTS <= temperature <= MAX_TEMP_COUNTS,
            r matches Ok(w) ==> w.register == register::T_OS && w.msb == spec_temp_msb(
                temperature as int,
                IC::spec_resolution_mask(),
            ) && w.lsb == spec_temp_lsb(temperature as int, IC::spec_resolution_mask()),
            r is Err ==> (r matches Err(e) && e is InvalidInputData),
    {
        match self.plan_temp_write::<E>(register::T_OS, temperature) {
            Ok(w) => Ok(w),
            Err(e) => Err(e),
        }
    }

    /// Plan setting the hysteresis threshold, in counts of 1/256 °C.
    /// Temperatures outside −55 °C to +125 °C are rejected before any
    /// transaction.
    pub fn set_hysteresis_temperature<E>(&self, temperature: i16) -> (r: Result<
        RegisterWrite2,
        Error<E>,
    >)
        ensures
            r is Ok <==> MIN_TEMP_COUNTS <= temperature <= MAX_TEMP_COUNTS,
            r matches Ok(w) ==> w.register == register::T_HYST && w.msb == spec_temp_msb(
                temperature as int,
                IC::spec_resolution_mask(),
            ) && w.lsb == spec_temp_lsb(temperature as int, IC::spec_resolution_mask()),
            r is Err ==> (r matches Err(e) && e is InvalidInputData),
    {
        match self.plan_temp_write::<E>(register::T_HYST, temperature) {
            Ok(w) => Ok(w),
            Err(e) => Err(e),
        }
    }

    /// Decode a just-read temperature register pair at this variant's
    /// resolution, in counts of 1/256 °C.
    pub fn read_temperature(&self, msb: u8, lsb: u8) -> (t: i16)
        ensures
            t as int == spec_temp_from_register(msb, lsb, IC::spec_resolution_mask()),
    {
        let mask = IC::get_resolution_mask();
        conversion::convert_temp_from_register(msb, lsb, mask)
    }

    /// Validate a threshold temperature and encode it for `reg` at this
    /// variant's resolution.
    fn plan_temp_write<E>(&self, reg: u8, temperature: i16) -> (r: Result<
        RegisterWrite2,
        Error<E>,
    >)
        ensures
            r is Ok <==> MIN_TEMP_COUNTS <= temperature <= MAX_TEMP_COUNTS,
            r matches Ok(w) ==> w.register == reg && w.msb == spec_temp_msb(
                temperature as int,
                IC::spec_resolution_mask(),
            ) && w.lsb == spec_temp_lsb(temperature as int, IC::spec_resolution_mask()),
            r is Err ==> (r matches Err(e) && e is InvalidInputData),
    {
        if temperature < MIN_TEMP_COUNTS || temperature > MAX_TEMP_COUNTS {
            return Err(Error::InvalidInputData);
        }
        proof {
            IC::resolution_mask_valid();
        }
        let mask = IC::get_resolution_mask();
        let (msb, lsb) = conversion::convert_temp_to_register(temperature, mask);
        Ok(RegisterWrite2 { register: reg, msb, lsb })
    }
}

} // verus!
