//! Driver logic for the TMP117 digital temperature sensor.
//!
//! The sensor is reached over an addressable two-wire register bus; every
//! register is a 16-bit word.  This crate holds the whole protocol: the
//! register codec, the bus register accessor, the mode state machine with
//! its typestate handles, the readiness strategy and the busy-gated
//! EEPROM write protocol.  The transport itself is abstracted as the
//! [`bus::RegisterBus`] trait; [`sim`] provides an in-memory device that
//! implements it, and any two-wire adapter can implement it outside this
//! crate.

use vstd::prelude::*;

pub mod bus;
pub mod driver;
pub mod register;
pub mod sim;
pub mod tmp117_ll;

use crate::bus::BusFault;

verus! {

/// Errors surfaced by the driver.  All of them are ordinary results; no
/// operation panics.
#[derive(Clone, Copy, PartialEq, Eq, Structural, Debug)]
pub enum Error {
    /// Transport-level failure, surfaced immediately and never retried.
    Bus(BusFault),
    /// A register word read from the device does not match any defined
    /// encoding (a reserved bit pattern); recoverable by re-reading.
    InvalidRegisterData,
    /// A non-waiting temperature or alert read was issued before the
    /// device finished a conversion; recoverable by retrying.
    DataNotReady,
    /// The wait on the dedicated alert line failed at the line level.
    AlertPin,
}

/// Alert classification read from the configuration register flags.
#[derive(Clone, Copy, PartialEq, Eq, Structural, Debug)]
pub enum Alert {
    /// Neither limit was crossed.
    NoAlert,
    /// The conversion result went below the low limit.
    Low,
    /// The conversion result went above the high limit.
    High,
    /// Both limits were crossed since the flags were last cleared.
    HighLow,
}

/// Nanodegrees Celsius per device LSB: one LSB is 0.0078125 degrees,
/// that is 7 812 500 nanodegrees.
pub const NANO_CELSIUS_PER_LSB: i64 = 7812500;

/// A temperature as the device represents it: a signed two's-complement
/// count of LSBs, where one LSB is 0.0078125 degrees Celsius.
#[derive(Clone, Copy, PartialEq, Eq, Structural, Debug)]
pub struct Celsius {
    /// Signed count of device LSBs (1/128 degree Celsius each).
    pub lsb: i16,
}

/// The mathematical reading of a raw 16-bit register word as a signed
/// two's-complement integer.
pub open spec fn signed16(raw: u16) -> int {
    if raw >= 0x8000 {
        raw - 0x10000
    } else {
        raw as int
    }
}

impl Celsius {
    /// The temperature in nanodegrees Celsius, as a mathematical integer.
    pub open spec fn spec_nano_celsius(self) -> int {
        self.lsb * NANO_CELSIUS_PER_LSB
    }

    /// Decode a raw register word (two's complement) into a temperature.
    pub fn from_raw(raw: u16) -> (c: Celsius)
        ensures
            c.lsb == raw as i16,
            c.spec_nano_celsius() == signed16(raw) * NANO_CELSIUS_PER_LSB,
    {
        proof {
            lemma_signed16_cast(raw);
        }
        Celsius { lsb: raw as i16 }
    }

    /// Encode the temperature back into a raw register word.
    pub fn to_raw(self) -> (raw: u16)
        ensures
            raw == self.lsb as u16,
            signed16(raw) == self.lsb as int,
    {
        proof {
            lemma_cast_round_trip(self.lsb);
        }
        self.lsb as u16
    }

    /// The temperature in nanodegrees Celsius.
    pub fn nano_celsius(self) -> (n: i64)
        ensures
            n == self.spec_nano_celsius(),
    {
        (self.lsb as i64) * NANO_CELSIUS_PER_LSB
    }
}

/// Reading a raw word as `i16` agrees with its two's-complement value.
pub proof fn lemma_signed16_cast(raw: u16)
    ensures
        (raw as i16) as int == signed16(raw),
{
    assert(raw < 0x8000 ==> (raw as i16) as int == raw as int) by (bit_vector);
    assert(raw >= 0x8000 ==> (raw as i16) as int == raw as int - 0x10000) by (bit_vector);
}

/// Encoding a signed LSB count as a raw word and reading it back is the
/// identity: the two's-complement round trip loses nothing.
pub proof fn lemma_cast_round_trip(lsb: i16)
    ensures
        (lsb as u16) as i16 == lsb,
        signed16(lsb as u16) == lsb as int,
{
    assert((lsb as u16) as i16 == lsb) by (bit_vector);
    lemma_signed16_cast(lsb as u16);
}

/// Marker for a handle whose sensor mode is not yet established.
pub struct UnknownMode;

/// Marker for a handle whose sensor is in one-shot acquisition mode.
pub struct OneShotMode;

/// Marker for a handle whose sensor converts continuously.
pub struct ContinuousMode;

/// Marker for a handle whose sensor is shut down.
pub struct ShutdownMode;

} // verus!
