//! The low-level driver: read and write one register at a time over a
//! [`RegisterBus`], decoding and encoding the register words and
//! mapping transport faults into this crate's error type.

use vstd::prelude::*;

use crate::Error;
use crate::bus::BusFault;
use crate::bus::BusOp;
use crate::bus::DeviceStore;
use crate::bus::RegisterBus;
use crate::bus::clear_status;
use crate::bus::read_consistent;
use crate::bus::rw_fields_eq;
use crate::bus::store_write;
use crate::bus::writable;
use crate::register::Configuration;
use crate::register::DeviceID;
use crate::register::EEPROM;
use crate::register::HighLimit;
use crate::register::LowLimit;
use crate::register::Temperature;
use crate::register::TemperatureOffset;
use crate::register::UEEPROM1;
use crate::register::UEEPROM2;
use crate::register::UEEPROM3;
use crate::register::CONFIGURATION_ADDR;
use crate::register::DEVICE_ID_ADDR;
use crate::register::EEPROM_ADDR;
use crate::register::HIGH_LIMIT_ADDR;
use crate::register::LOW_LIMIT_ADDR;
use crate::register::TEMPERATURE_ADDR;
use crate::register::TEMPERATURE_OFFSET_ADDR;
use crate::register::UEEPROM1_ADDR;
use crate::register::UEEPROM2_ADDR;
use crate::register::UEEPROM3_ADDR;
use crate::register::spec_decode_config;
use crate::register::spec_decode_device_id;
use crate::register::spec_decode_eeprom;
use crate::register::spec_encode_config;

verus! {

/// The low-level driver: owns the bus and speaks one register per
/// transaction.
pub struct Tmp117LL<B: RegisterBus> {
    bus: B,
}

impl<B: RegisterBus> Tmp117LL<B> {
    /// The device state retained behind this accessor.
    pub closed spec fn store(&self) -> DeviceStore {
        self.bus.store()
    }

    /// The history of transactions issued through this accessor.
    pub closed spec fn ops(&self) -> Seq<BusOp> {
        self.bus.ops()
    }

    /// Build the accessor over a register bus.
    pub fn new(bus: B) -> (t: Tmp117LL<B>)
        ensures
            t.store() == bus.store(),
            t.ops() == bus.ops(),
    {
        Tmp117LL { bus }
    }

    /// Borrow the underlying bus.
    pub fn bus(&self) -> (b: &B)
        ensures
            b.store() == self.store(),
            b.ops() == self.ops(),
    {
        &self.bus
    }

    /// Borrow the underlying bus mutably.  Whatever the caller does
    /// with it counts as outside modification: nothing of the handle's
    /// consistency is promised across such changes beyond what the
    /// final bus states.
    pub fn bus_mut(&mut self) -> (r: &mut B)
        ensures
            r.store() == old(self).store(),
            r.ops() == old(self).ops(),
            final(self).store() == final(r).store(),
            final(self).ops() == final(r).ops(),
    {
        &mut self.bus
    }

    /// Give the underlying bus back.
    pub fn free(self) -> (b: B)
        ensures
            b.store() == self.store(),
            b.ops() == self.ops(),
    {
        self.bus
    }

    /// Read one register as its raw word.
    pub fn read_raw_reg(&mut self, addr: u8) -> (r: Result<u16, Error>)
        ensures
            final(self).store() == old(self).store(),
            match r {
                Ok(v) => final(self).ops() == old(self).ops().push(
                    BusOp::Read { addr, result: Ok(v) },
                ) && read_consistent(old(self).store(), addr, v),
                Err(e) => e == Error::Bus(BusFault) && final(self).ops() == old(self).ops().push(
                    BusOp::Read { addr, result: Err(BusFault) },
                ),
            },
    {
        match self.bus.read_raw(addr) {
            Ok(v) => Ok(v),
            Err(f) => Err(Error::Bus(f)),
        }
    }

    /// Write one register as its raw word.
    pub fn write_raw_reg(&mut self, addr: u8, value: u16) -> (r: Result<(), Error>)
        requires
            writable(addr),
            addr == CONFIGURATION_ADDR ==> spec_decode_config(value) is Some,
        ensures
            final(self).ops() == old(self).ops().push(
                BusOp::Write { addr, value, ok: r is Ok },
            ),
            r is Ok && !crate::bus::is_reset_write(addr, value) ==> final(self).store()
                == store_write(old(self).store(), addr, value),
            r is Err && !crate::bus::is_reset_write(addr, value) ==> final(self).store() == old(
                self,
            ).store() || final(self).store() == store_write(old(self).store(), addr, value),
            r is Err ==> r == Err::<(), Error>(Error::Bus(BusFault)),
    {
        match self.bus.write_raw(addr, value) {
            Ok(()) => Ok(()),
            Err(f) => Err(Error::Bus(f)),
        }
    }

    /// Read the temperature register; its word is the device's own and
    /// is pinned only by the history.
    pub fn read_temperature(&mut self) -> (r: Result<Temperature, Error>)
        ensures
            final(self).store() == old(self).store(),
            match r {
                Ok(t) => final(self).ops() == old(self).ops().push(
                    BusOp::Read { addr: TEMPERATURE_ADDR, result: Ok(t.0) },
                ),
                Err(e) => e == Error::Bus(BusFault) && final(self).ops() == old(self).ops().push(
                    BusOp::Read { addr: TEMPERATURE_ADDR, result: Err(BusFault) },
                ),
            },
    {
        match self.read_raw_reg(TEMPERATURE_ADDR) {
            Ok(v) => Ok(Temperature(v)),
            Err(e) => Err(e),
        }
    }

    /// Read and decode the configuration register.
    pub fn read_config(&mut self) -> (r: Result<Configuration, Error>)
        ensures
            final(self).store() == old(self).store(),
            final(self).ops() == old(self).ops().push(final(self).ops().last()),
            crate::bus::is_config_read(final(self).ops().last()),
            match r {
                Ok(c) => {
                    &&& rw_fields_eq(c, old(self).store().config)
                    &&& !c.reset
                    &&& (final(self).ops().last() matches BusOp::Read {
                        addr: CONFIGURATION_ADDR,
                        result: Ok(v),
                    } && spec_decode_config(v) == Some(c))
                },
                Err(e) => {
                    &&& (e == Error::Bus(BusFault) || e == Error::InvalidRegisterData)
                    &&& (e == Error::Bus(BusFault) ==> final(self).ops().last() == (BusOp::Read {
                        addr: CONFIGURATION_ADDR,
                        result: Err::<u16, BusFault>(BusFault),
                    }))
                    &&& (e == Error::InvalidRegisterData ==> (final(self).ops().last()
                        matches BusOp::Read {
                        addr: CONFIGURATION_ADDR,
                        result: Ok(v),
                    } && spec_decode_config(v) is None))
                },
            },
    {
        match self.read_raw_reg(CONFIGURATION_ADDR) {
            Ok(v) => match Configuration::decode(v) {
                Some(c) => Ok(c),
                None => Err(Error::InvalidRegisterData),
            },
            Err(e) => Err(e),
        }
    }

    /// Encode and write the configuration register.
    pub fn write_config(&mut self, c: Configuration) -> (r: Result<(), Error>)
        ensures
            final(self).ops() == old(self).ops().push(
                BusOp::Write { addr: CONFIGURATION_ADDR, value: spec_encode_config(c), ok: r is Ok },
            ),
            r is Ok && !c.reset ==> final(self).store() == (DeviceStore {
                config: clear_status(c),
                ..old(self).store()
            }),
            r is Err && !c.reset ==> final(self).store() == old(self).store() || final(self).store()
                == (DeviceStore { config: clear_status(c), ..old(self).store() }),
            r is Err ==> r == Err::<(), Error>(Error::Bus(BusFault)),
    {
        proof {
            crate::register::lemma_config_round_trip(c);
        }
        let w = c.encode();
        self.write_raw_reg(CONFIGURATION_ADDR, w)
    }

    /// Read the high-limit register.
    pub fn read_high_limit(&mut self) -> (r: Result<HighLimit, Error>)
        ensures
            final(self).store() == old(self).store(),
            r matches Ok(h) ==> h.0 == old(self).store().high_limit && final(self).ops() == old(
                self,
            ).ops().push(BusOp::Read { addr: HIGH_LIMIT_ADDR, result: Ok(h.0) }),
            r is Err ==> r == Err::<HighLimit, Error>(Error::Bus(BusFault)) && final(self).ops()
                == old(self).ops().push(BusOp::Read { addr: HIGH_LIMIT_ADDR, result: Err(BusFault) }),
    {
        match self.read_raw_reg(HIGH_LIMIT_ADDR) {
            Ok(v) => Ok(HighLimit(v)),
            Err(e) => Err(e),
        }
    }

    /// Write the high-limit register.
    pub fn write_high_limit(&mut self, v: HighLimit) -> (r: Result<(), Error>)
        ensures
            final(self).ops() == old(self).ops().push(
                BusOp::Write { addr: HIGH_LIMIT_ADDR, value: v.0, ok: r is Ok },
            ),
            r is Ok ==> final(self).store() == (DeviceStore {
                high_limit: v.0,
                ..old(self).store()
            }),
            r is Err ==> final(self).store() == old(self).store() || final(self).store()
                == (DeviceStore { high_limit: v.0, ..old(self).store() }),
            r is Err ==> r == Err::<(), Error>(Error::Bus(BusFault)),
    {
        self.write_raw_reg(HIGH_LIMIT_ADDR, v.0)
    }

    /// Read the low-limit register.
    pub fn read_low_limit(&mut self) -> (r: Result<LowLimit, Error>)
        ensures
            final(self).store() == old(self).store(),
            r matches Ok(h) ==> h.0 == old(self).store().low_limit && final(self).ops() == old(
                self,
            ).ops().push(BusOp::Read { addr: LOW_LIMIT_ADDR, result: Ok(h.0) }),
            r is Err ==> r == Err::<LowLimit, Error>(Error::Bus(BusFault)) && final(self).ops()
                == old(self).ops().push(BusOp::Read { addr: LOW_LIMIT_ADDR, result: Err(BusFault) }),
    {
        match self.read_raw_reg(LOW_LIMIT_ADDR) {
            Ok(v) => Ok(LowLimit(v)),
            Err(e) => Err(e),
        }
    }

    /// Write the low-limit register.
    pub fn write_low_limit(&mut self, v: LowLimit) -> (r: Result<(), Error>)
        ensures
            final(self).ops() == old(self).ops().push(
                BusOp::Write { addr: LOW_LIMIT_ADDR, value: v.0, ok: r is Ok },
            ),
            r is Ok ==> final(self).store() == (DeviceStore { low_limit: v.0, ..old(self).store() }),
            r is Err ==> final(self).store() == old(self).store() || final(self).store()
                == (DeviceStore { low_limit: v.0, ..old(self).store() }),
            r is Err ==> r == Err::<(), Error>(Error::Bus(BusFault)),
    {
        self.write_raw_reg(LOW_LIMIT_ADDR, v.0)
    }

    /// Read the temperature-offset register.
    pub fn read_temperature_offset(&mut self) -> (r: Result<TemperatureOffset, Error>)
        ensures
            final(self).store() == old(self).store(),
            r matches Ok(h) ==> h.0 == old(self).store().temp_offset && final(self).ops() == old(
                self,
            ).ops().push(BusOp::Read { addr: TEMPERATURE_OFFSET_ADDR, result: Ok(h.0) }),
            r is Err ==> r == Err::<TemperatureOffset, Error>(Error::Bus(BusFault)) && final(self).ops()
                == old(self).ops().push(BusOp::Read { addr: TEMPERATURE_OFFSET_ADDR, result: Err(BusFault) }),
    {
        match self.read_raw_reg(TEMPERATURE_OFFSET_ADDR) {
            Ok(v) => Ok(TemperatureOffset(v)),
            Err(e) => Err(e),
        }
    }

    /// Write the temperature-offset register.
    pub fn write_temperature_offset(&mut self, v: TemperatureOffset) -> (r: Result<(), Error>)
        ensures
            final(self).ops() == old(self).ops().push(
                BusOp::Write { addr: TEMPERATURE_OFFSET_ADDR, value: v.0, ok: r is Ok },
            ),
            r is Ok ==> final(self).store() == (DeviceStore {
                temp_offset: v.0,
                ..old(self).store()
            }),
            r is Err ==> final(self).store() == old(self).store() || final(self).store()
                == (DeviceStore { temp_offset: v.0, ..old(self).store() }),
            r is Err ==> r == Err::<(), Error>(Error::Bus(BusFault)),
    {
        self.write_raw_reg(TEMPERATURE_OFFSET_ADDR, v.0)
    }

    /// Read the first user EEPROM scratch cell.
    pub fn read_ueeprom1(&mut self) -> (r: Result<UEEPROM1, Error>)
        ensures
            final(self).store() == old(self).store(),
            r matches Ok(h) ==> h.0 == old(self).store().ueeprom1 && final(self).ops() == old(
                self,
            ).ops().push(BusOp::Read { addr: UEEPROM1_ADDR, result: Ok(h.0) }),
            r is Err ==> r == Err::<UEEPROM1, Error>(Error::Bus(BusFault)) && final(self).ops()
                == old(self).ops().push(BusOp::Read { addr: UEEPROM1_ADDR, result: Err(BusFault) }),
    {
        match self.read_raw_reg(UEEPROM1_ADDR) {
            Ok(v) => Ok(UEEPROM1(v)),
            Err(e) => Err(e),
        }
    }

    /// Read the second user EEPROM scratch cell.
    pub fn read_ueeprom2(&mut self) -> (r: Result<UEEPROM2, Error>)
        ensures
            final(self).store() == old(self).store(),
            r matches Ok(h) ==> h.0 == old(self).store().ueeprom2 && final(self).ops() == old(
                self,
            ).ops().push(BusOp::Read { addr: UEEPROM2_ADDR, result: Ok(h.0) }),
            r is Err ==> r == Err::<UEEPROM2, Error>(Error::Bus(BusFault)) && final(self).ops()
                == old(self).ops().push(BusOp::Read { addr: UEEPROM2_ADDR, result: Err(BusFault) }),
    {
        match self.read_raw_reg(UEEPROM2_ADDR) {
            Ok(v) => Ok(UEEPROM2(v)),
            Err(e) => Err(e),
        }
    }

    /// Read the third user EEPROM scratch cell.
    pub fn read_ueeprom3(&mut self) -> (r: Result<UEEPROM3, Error>)
        ensures
            final(self).store() == old(self).store(),
            r matches Ok(h) ==> h.0 == old(self).store().ueeprom3 && final(self).ops() == old(
                self,
            ).ops().push(BusOp::Read { addr: UEEPROM3_ADDR, result: Ok(h.0) }),
            r is Err ==> r == Err::<UEEPROM3, Error>(Error::Bus(BusFault)) && final(self).ops()
                == old(self).ops().push(BusOp::Read { addr: UEEPROM3_ADDR, result: Err(BusFault) }),
    {
        match self.read_raw_reg(UEEPROM3_ADDR) {
            Ok(v) => Ok(UEEPROM3(v)),
            Err(e) => Err(e),
        }
    }

    /// Read and decode the EEPROM status register.
    pub fn read_eeprom_status(&mut self) -> (r: Result<EEPROM, Error>)
        ensures
            final(self).store() == old(self).store(),
            r matches Ok(e) ==> exists|v: u16|
                final(self).ops() == old(self).ops().push(
                    BusOp::Read { addr: EEPROM_ADDR, result: Ok(v) },
                ) && e == spec_decode_eeprom(v),
            r is Err ==> r == Err::<EEPROM, Error>(Error::Bus(BusFault)) && final(self).ops()
                == old(self).ops().push(BusOp::Read { addr: EEPROM_ADDR, result: Err(BusFault) }),
    {
        match self.read_raw_reg(EEPROM_ADDR) {
            Ok(v) => Ok(EEPROM::decode(v)),
            Err(e) => Err(e),
        }
    }

    /// Read and decode the device-id register.
    pub fn read_device_id(&mut self) -> (r: Result<DeviceID, Error>)
        ensures
            final(self).store() == old(self).store(),
            r matches Ok(d) ==> exists|v: u16|
                final(self).ops() == old(self).ops().push(
                    BusOp::Read { addr: DEVICE_ID_ADDR, result: Ok(v) },
                ) && d == spec_decode_device_id(v),
            r is Err ==> r == Err::<DeviceID, Error>(Error::Bus(BusFault)) && final(self).ops()
                == old(self).ops().push(BusOp::Read { addr: DEVICE_ID_ADDR, result: Err(BusFault) }),
    {
        match self.read_raw_reg(DEVICE_ID_ADDR) {
            Ok(v) => Ok(DeviceID::decode(v)),
            Err(e) => Err(e),
        }
    }
}

} // verus!
