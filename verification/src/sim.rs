//! An in-memory device: a register bus and an alert line backed by
//! plain fields.
//!
//! The simulated device retains every writable register, reports the
//! status flags from small scripts (a countdown until data-ready, a
//! countdown of busy polls reloaded after each scratch-cell write), and
//! can be told to fail one transaction or return one undecodable
//! configuration word.  It implements [`RegisterBus`] and [`AlertLine`]
//! with their full contracts, so everything proved against those
//! contracts holds when the driver runs against it.

use vstd::prelude::*;

use crate::bus::AlertLine;
use crate::bus::BusFault;
use crate::bus::BusOp;
use crate::bus::DeviceStore;
use crate::bus::LineFault;
use crate::bus::RegisterBus;
use crate::bus::clear_status;
use crate::register::Average;
use crate::register::Configuration;
use crate::register::Conversion;
use crate::register::CONFIGURATION_ADDR;
use crate::register::DEVICE_ID_ADDR;
use crate::register::EEPROM_ADDR;
use crate::register::HIGH_LIMIT_ADDR;
use crate::register::LOW_LIMIT_ADDR;
use crate::register::TEMPERATURE_ADDR;
use crate::register::TEMPERATURE_OFFSET_ADDR;
use crate::register::UEEPROM1_ADDR;
use crate::register::UEEPROM2_ADDR;
use crate::register::UEEPROM3_ADDR;

verus! {

/// The in-memory device.  All fields are public so that a test can
/// script the device freely between driver calls.
pub struct SimBus {
    /// The retained configuration; only its writable fields matter.
    pub config: Configuration,
    /// The high-limit register.
    pub high_limit: u16,
    /// The low-limit register.
    pub low_limit: u16,
    /// The temperature-offset register.
    pub temp_offset: u16,
    /// The first user EEPROM scratch cell.
    pub ueeprom1: u16,
    /// The second user EEPROM scratch cell.
    pub ueeprom2: u16,
    /// The third user EEPROM scratch cell.
    pub ueeprom3: u16,
    /// The raw temperature word a read returns.
    pub temp_raw: u16,
    /// The raw device-id word a read returns.
    pub device_id_raw: u16,
    /// Configuration reads left before the data-ready flag reads set.
    pub ready_countdown: u32,
    /// Configuration reads left before the busy flag reads clear.
    pub busy_countdown: u32,
    /// Reloaded into `busy_countdown` by every scratch-cell write.
    pub busy_per_write: u32,
    /// The high-alert flag a configuration read reports.
    pub high_alert: bool,
    /// The low-alert flag a configuration read reports.
    pub low_alert: bool,
    /// If set and undecodable, the next configuration read returns it.
    pub glitch: Option<u16>,
    /// If set, the next transaction fails with a bus fault.
    pub fail_next: bool,
    /// Every transaction issued so far, in order.
    pub log: Vec<BusOp>,
}

impl SimBus {
    /// A fresh device with the power-on register values: continuous
    /// mode with eight-fold averaging and a one-second cycle, the
    /// factory limit words, and a temperature word that reads as the
    /// pre-first-conversion value.
    pub fn new() -> (s: SimBus)
        ensures
            s.ops() =~= Seq::<BusOp>::empty(),
            s.store().config == clear_status(s.store().config),
            s.store().high_limit == 0x6000u16,
            s.store().low_limit == 0x8000u16,
            s.store().temp_offset == 0u16,
            s.store().ueeprom1 == 0u16,
            s.store().ueeprom2 == 0u16,
            s.store().ueeprom3 == 0u16,
    {
        SimBus {
            config: Configuration {
                reset: false,
                dr_alert: crate::register::AlertPinSelect::Alert,
                polarity: crate::register::Polarity::ActiveLow,
                trigger_mode: crate::register::TriggerMode::Alert,
                average: Average::Avg8,
                conversion: Conversion::Ms1000,
                mode: crate::register::ConversionMode::Continuous,
                eeprom_busy: false,
                data_ready: false,
                low_alert: false,
                high_alert: false,
            },
            high_limit: 0x6000,
            low_limit: 0x8000,
            temp_offset: 0,
            ueeprom1: 0,
            ueeprom2: 0,
            ueeprom3: 0,
            temp_raw: 0x8000,
            device_id_raw: 0x0117,
            ready_countdown: 0,
            busy_countdown: 0,
            busy_per_write: 0,
            high_alert: false,
            low_alert: false,
            glitch: None,
            fail_next: false,
            log: Vec::new(),
        }
    }
}

impl RegisterBus for SimBus {
    open spec fn store(&self) -> DeviceStore {
        DeviceStore {
            config: clear_status(self.config),
            high_limit: self.high_limit,
            low_limit: self.low_limit,
            temp_offset: self.temp_offset,
            ueeprom1: self.ueeprom1,
            ueeprom2: self.ueeprom2,
            ueeprom3: self.ueeprom3,
        }
    }

    open spec fn ops(&self) -> Seq<BusOp> {
        self.log@
    }

    fn read_raw(&mut self, addr: u8) -> (r: Result<u16, BusFault>) {
        if self.fail_next {
            self.fail_next = false;
            self.log.push(BusOp::Read { addr, result: Err(BusFault) });
            return Err(BusFault);
        }
        let value: u16;
        if addr == CONFIGURATION_ADDR {
            if let Some(g) = self.glitch {
                if Configuration::decode(g).is_none() {
                    self.glitch = None;
                    self.log.push(BusOp::Read { addr, result: Ok(g) });
                    return Ok(g);
                }
            }
            let live = Configuration {
                reset: false,
                dr_alert: self.config.dr_alert,
                polarity: self.config.polarity,
                trigger_mode: self.config.trigger_mode,
                average: self.config.average,
                conversion: self.config.conversion,
                mode: self.config.mode,
                eeprom_busy: self.busy_countdown > 0,
                data_ready: self.ready_countdown == 0,
                low_alert: self.low_alert,
                high_alert: self.high_alert,
            };
            if self.ready_countdown > 0 {
                self.ready_countdown = self.ready_countdown - 1;
            }
            if self.busy_countdown > 0 {
                self.busy_countdown = self.busy_countdown - 1;
            }
            value = live.encode();
        } else if addr == TEMPERATURE_ADDR {
            value = self.temp_raw;
        } else if addr == HIGH_LIMIT_ADDR {
            value = self.high_limit;
        } else if addr == LOW_LIMIT_ADDR {
            value = self.low_limit;
        } else if addr == TEMPERATURE_OFFSET_ADDR {
            value = self.temp_offset;
        } else if addr == UEEPROM1_ADDR {
            value = self.ueeprom1;
        } else if addr == UEEPROM2_ADDR {
            value = self.ueeprom2;
        } else if addr == UEEPROM3_ADDR {
            value = self.ueeprom3;
        } else if addr == EEPROM_ADDR {
            value = if self.busy_countdown > 0 {
                1u16 << 14
            } else {
                0
            };
        } else if addr == DEVICE_ID_ADDR {
            value = self.device_id_raw;
        } else {
            value = 0;
        }
        self.log.push(BusOp::Read { addr, result: Ok(value) });
        Ok(value)
    }

    fn write_raw(&mut self, addr: u8, value: u16) -> (r: Result<(), BusFault>) {
        if self.fail_next {
            self.fail_next = false;
            self.log.push(BusOp::Write { addr, value, ok: false });
            return Err(BusFault);
        }
        if addr == CONFIGURATION_ADDR {
            match Configuration::decode(value) {
                Some(c) => {
                    if c.reset {
                        // The software reset restores the power-on
                        // configuration within the device.
                        self.config = Configuration {
                            reset: false,
                            dr_alert: crate::register::AlertPinSelect::Alert,
                            polarity: crate::register::Polarity::ActiveLow,
                            trigger_mode: crate::register::TriggerMode::Alert,
                            average: Average::Avg8,
                            conversion: Conversion::Ms1000,
                            mode: crate::register::ConversionMode::Continuous,
                            eeprom_busy: false,
                            data_ready: false,
                            low_alert: false,
                            high_alert: false,
                        };
                    } else {
                        self.config = c;
                    }
                },
                None => {},
            }
        } else if addr == HIGH_LIMIT_ADDR {
            self.high_limit = value;
        } else if addr == LOW_LIMIT_ADDR {
            self.low_limit = value;
        } else if addr == TEMPERATURE_OFFSET_ADDR {
            self.temp_offset = value;
        } else if addr == UEEPROM1_ADDR {
            self.ueeprom1 = value;
            self.busy_countdown = self.busy_per_write;
        } else if addr == UEEPROM2_ADDR {
            self.ueeprom2 = value;
            self.busy_countdown = self.busy_per_write;
        } else if addr == UEEPROM3_ADDR {
            self.ueeprom3 = value;
            self.busy_countdown = self.busy_per_write;
        }
        self.log.push(BusOp::Write { addr, value, ok: true });
        Ok(())
    }
}

/// An in-memory alert line: records the waits issued on it and can be
/// scripted to fail.
pub struct SimPin {
    /// How many waits were issued (saturating, for inspection).
    pub count: u64,
    /// If set, every wait fails with a line fault.
    pub fail: bool,
    /// Ghost history of wait outcomes, exact.
    pub hits: Ghost<Seq<bool>>,
}

impl SimPin {
    /// A fresh line that has never been waited on.
    pub fn new() -> (p: SimPin)
        ensures
            p.waits() =~= Seq::<bool>::empty(),
            p.count == 0u64,
    {
        SimPin { count: 0, fail: false, hits: Ghost(Seq::empty()) }
    }
}

impl AlertLine for SimPin {
    open spec fn waits(&self) -> Seq<bool> {
        self.hits@
    }

    fn wait_for_high(&mut self) -> (r: Result<(), LineFault>) {
        if self.count < u64::MAX {
            self.count = self.count + 1;
        }
        proof {
            self.hits@ = self.hits@.push(!self.fail);
        }
        if self.fail {
            Err(LineFault)
        } else {
            Ok(())
        }
    }
}

} // verus!
