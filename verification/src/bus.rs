//! The transport abstraction: a register bus that reads and writes one
//! addressed 16-bit register per transaction, and an optional dedicated
//! alert line.
//!
//! The model a bus implementation must honour has two parts.  `store`
//! is the device's retained state: the writable registers, and the
//! writable fields of the configuration word.  The status flags and the
//! temperature are the device's own business and no read of them is
//! constrained.  `ops` is the transaction history: every read and write
//! attempt, in order, with its outcome.  Contracts of the driver are
//! stated over these two views.

use vstd::prelude::*;

use crate::register::Configuration;
use crate::register::CONFIGURATION_ADDR;
use crate::register::HIGH_LIMIT_ADDR;
use crate::register::LOW_LIMIT_ADDR;
use crate::register::TEMPERATURE_OFFSET_ADDR;
use crate::register::UEEPROM1_ADDR;
use crate::register::UEEPROM2_ADDR;
use crate::register::UEEPROM3_ADDR;
use crate::register::spec_busy_bit;
use crate::register::spec_decode_config;
use crate::register::spec_reset_bit;

verus! {

/// A transport-level failure: the transaction did not complete.
#[derive(Clone, Copy, PartialEq, Eq, Structural, Debug)]
pub struct BusFault;

/// A failure of the dedicated alert line.
#[derive(Clone, Copy, PartialEq, Eq, Structural, Debug)]
pub struct LineFault;

/// One bus transaction, as the history records it.
#[derive(Clone, Copy, PartialEq, Eq, Debug)]
pub enum BusOp {
    /// An addressed register read and what it returned.
    Read { addr: u8, result: Result<u16, BusFault> },
    /// An addressed register write and whether it completed.
    Write { addr: u8, value: u16, ok: bool },
}

/// The device state that the bus model retains: everything a write can
/// set and a later read is owed to return.  The status flags of the
/// configuration and the temperature register are not here: the device
/// changes them on its own.
#[derive(Clone, Copy, PartialEq, Eq, Structural, Debug)]
pub struct DeviceStore {
    /// The writable fields of the configuration register; its status
    /// flags and reset bit are false by convention.
    pub config: Configuration,
    /// The high-limit register.
    pub high_limit: u16,
    /// The low-limit register.
    pub low_limit: u16,
    /// The temperature-offset register.
    pub temp_offset: u16,
    /// The first user EEPROM scratch cell.
    pub ueeprom1: u16,
    /// The second user EEPROM scratch cell.
    pub ueeprom2: u16,
    /// The third user EEPROM scratch cell.
    pub ueeprom3: u16,
}

/// The configuration with its read-only parts forced down: what the
/// device retains of a configuration write.
pub open spec fn clear_status(c: Configuration) -> Configuration {
    Configuration {
        reset: false,
        eeprom_busy: false,
        data_ready: false,
        low_alert: false,
        high_alert: false,
        ..c
    }
}

/// Equality of the writable configuration fields.
pub open spec fn rw_fields_eq(a: Configuration, b: Configuration) -> bool {
    a.dr_alert == b.dr_alert && a.polarity == b.polarity && a.trigger_mode == b.trigger_mode
        && a.average == b.average && a.conversion == b.conversion && a.mode == b.mode
}

/// The registers a write transaction may target.
pub open spec fn writable(addr: u8) -> bool {
    addr == CONFIGURATION_ADDR || addr == HIGH_LIMIT_ADDR || addr == LOW_LIMIT_ADDR || addr
        == TEMPERATURE_OFFSET_ADDR || addr == UEEPROM1_ADDR || addr == UEEPROM2_ADDR || addr
        == UEEPROM3_ADDR
}

/// A configuration write that triggers the device's software reset;
/// what the device retains after it is not modelled.
pub open spec fn is_reset_write(addr: u8, value: u16) -> bool {
    addr == CONFIGURATION_ADDR && spec_reset_bit(value)
}

/// What the device retains after a completed write of `value` to
/// `addr` (other than a reset write).
pub open spec fn store_write(s: DeviceStore, addr: u8, value: u16) -> DeviceStore {
    if addr == CONFIGURATION_ADDR {
        match spec_decode_config(value) {
            Some(c) => DeviceStore { config: clear_status(c), ..s },
            None => s,
        }
    } else if addr == HIGH_LIMIT_ADDR {
        DeviceStore { high_limit: value, ..s }
    } else if addr == LOW_LIMIT_ADDR {
        DeviceStore { low_limit: value, ..s }
    } else if addr == TEMPERATURE_OFFSET_ADDR {
        DeviceStore { temp_offset: value, ..s }
    } else if addr == UEEPROM1_ADDR {
        DeviceStore { ueeprom1: value, ..s }
    } else if addr == UEEPROM2_ADDR {
        DeviceStore { ueeprom2: value, ..s }
    } else if addr == UEEPROM3_ADDR {
        DeviceStore { ueeprom3: value, ..s }
    } else {
        s
    }
}

/// What a completed read of `addr` is owed to return, given the
/// retained state: the stored word for the plain writable registers;
/// for the configuration, agreement on the writable fields whenever the
/// word decodes, with the status flags free.  Reads of the temperature,
/// the EEPROM status and the device id are unconstrained.
pub open spec fn read_consistent(s: DeviceStore, addr: u8, v: u16) -> bool {
    if addr == HIGH_LIMIT_ADDR {
        v == s.high_limit
    } else if addr == LOW_LIMIT_ADDR {
        v == s.low_limit
    } else if addr == TEMPERATURE_OFFSET_ADDR {
        v == s.temp_offset
    } else if addr == UEEPROM1_ADDR {
        v == s.ueeprom1
    } else if addr == UEEPROM2_ADDR {
        v == s.ueeprom2
    } else if addr == UEEPROM3_ADDR {
        v == s.ueeprom3
    } else if addr == CONFIGURATION_ADDR {
        match spec_decode_config(v) {
            Some(c) => rw_fields_eq(c, s.config) && !c.reset,
            None => true,
        }
    } else {
        true
    }
}

/// Round trip of the plain writable registers (the limits, the
/// offset and the three scratch cells): after a completed write of a
/// value, a completed read of the same register is owed exactly that
/// value, absent outside modification.
pub proof fn lemma_rw_round_trip(s: DeviceStore, addr: u8, v: u16)
    requires
        writable(addr),
        addr != CONFIGURATION_ADDR,
    ensures
        read_consistent(store_write(s, addr, v), addr, v),
        forall|w: u16| read_consistent(store_write(s, addr, v), addr, w) ==> w == v,
{
}

/// Round trip of the configuration register's writable fields: after
/// a completed write of an encoded configuration without the reset
/// bit, the retained configuration is exactly that configuration with
/// its read-only parts cleared, and any completed read returns a word
/// that decodes to those fields.
pub proof fn lemma_config_write_round_trip(s: DeviceStore, c: Configuration)
    ensures
        store_write(s, CONFIGURATION_ADDR, crate::register::spec_encode_config(c)).config
            == clear_status(c),
        forall|w: u16|
            read_consistent(
                store_write(s, CONFIGURATION_ADDR, crate::register::spec_encode_config(c)),
                CONFIGURATION_ADDR,
                w,
            ) && spec_decode_config(w) is Some ==> rw_fields_eq(
                spec_decode_config(w)->Some_0,
                c,
            ),
{
    crate::register::lemma_config_round_trip(c);
    assert forall|w: u16|
        read_consistent(
            store_write(s, CONFIGURATION_ADDR, crate::register::spec_encode_config(c)),
            CONFIGURATION_ADDR,
            w,
        ) && spec_decode_config(w) is Some implies rw_fields_eq(
        spec_decode_config(w)->Some_0,
        c,
    ) by {
        let d = spec_decode_config(w)->Some_0;
        assert(rw_fields_eq(d, clear_status(c)));
    }
}

/// The transaction history's type: what [`RegisterBus::ops`] returns.
/// Named so that bus implementations outside this crate can write the
/// signature down.
pub type OpsLog = Seq<BusOp>;

/// A register bus: one addressed 16-bit read or write per transaction.
/// An implementation relates its transactions to a retained device
/// state `store` and appends every attempt to the history `ops`; any
/// transaction may fail with a [`BusFault`] at any time.
pub trait RegisterBus: Sized {
    /// The device state this bus retains.
    spec fn store(&self) -> DeviceStore;

    /// The history of transactions issued through this bus.
    spec fn ops(&self) -> Seq<BusOp>;

    /// Issue one addressed register read.
    fn read_raw(&mut self, addr: u8) -> (r: Result<u16, BusFault>)
        ensures
            final(self).ops() == old(self).ops().push(BusOp::Read { addr, result: r }),
            final(self).store() == old(self).store(),
            r matches Ok(v) ==> read_consistent(old(self).store(), addr, v),
    ;

    /// Issue one addressed register write.
    fn write_raw(&mut self, addr: u8, value: u16) -> (r: Result<(), BusFault>)
        requires
            writable(addr),
            addr == CONFIGURATION_ADDR ==> spec_decode_config(value) is Some,
        ensures
            final(self).ops() == old(self).ops().push(
                BusOp::Write { addr, value, ok: r is Ok },
            ),
            r is Ok && !is_reset_write(addr, value) ==> final(self).store() == store_write(
                old(self).store(),
                addr,
                value,
            ),
            r is Err && !is_reset_write(addr, value) ==> final(self).store() == old(self).store()
                || final(self).store() == store_write(old(self).store(), addr, value),
    ;
}

/// The wait history's type: what [`AlertLine::waits`] returns.  Named
/// so that line implementations outside this crate can write the
/// signature down.
pub type WaitCount = Seq<bool>;

/// A dedicated digital alert line that can be waited on.
pub trait AlertLine: Sized {
    /// The outcomes of the waits issued on this line, in order: true
    /// for a wait that completed, false for one that failed.
    spec fn waits(&self) -> Seq<bool>;

    /// Suspend until the line reads high.
    fn wait_for_high(&mut self) -> (r: Result<(), LineFault>)
        ensures
            final(self).waits() == old(self).waits().push(r is Ok),
    ;
}

/// The address a history entry targeted.
pub open spec fn op_addr(op: BusOp) -> u8 {
    match op {
        BusOp::Read { addr, .. } => addr,
        BusOp::Write { addr, .. } => addr,
    }
}

/// Whether a history entry is a write attempt.
pub open spec fn is_write(op: BusOp) -> bool {
    op is Write
}

/// A transaction that did not complete: a failed read or a failed
/// write.
pub open spec fn op_failed(op: BusOp) -> bool {
    match op {
        BusOp::Read { result, .. } => result is Err,
        BusOp::Write { ok, .. } => !ok,
    }
}

/// Every transaction in the slice completed.
pub open spec fn all_completed(s: Seq<BusOp>) -> bool {
    forall|i: int| 0 <= i < s.len() ==> !op_failed(#[trigger] s[i])
}

/// A history slice that holds no write attempt at all.
pub open spec fn no_writes(s: Seq<BusOp>) -> bool {
    forall|i: int| 0 <= i < s.len() ==> !is_write(#[trigger] s[i])
}

/// A read of the configuration register, whatever it returned.
pub open spec fn is_config_read(op: BusOp) -> bool {
    op matches BusOp::Read { addr: CONFIGURATION_ADDR, .. }
}

/// A completed configuration read whose word showed the EEPROM busy.
pub open spec fn read_shows_busy(op: BusOp) -> bool {
    match op {
        BusOp::Read { addr, result: Ok(v) } => addr == CONFIGURATION_ADDR && spec_busy_bit(v),
        _ => false,
    }
}

/// A completed configuration read whose word showed the EEPROM free.
pub open spec fn read_shows_clear(op: BusOp) -> bool {
    match op {
        BusOp::Read { addr, result: Ok(v) } => addr == CONFIGURATION_ADDR && !spec_busy_bit(v),
        _ => false,
    }
}

/// A busy-poll run: one or more configuration reads, every one but the
/// last showing the EEPROM busy, the last showing it free.
pub open spec fn busy_poll_seq(s: Seq<BusOp>) -> bool {
    &&& s.len() >= 1
    &&& forall|i: int| 0 <= i < s.len() ==> is_config_read(#[trigger] s[i])
    &&& forall|i: int| 0 <= i < s.len() - 1 ==> read_shows_busy(#[trigger] s[i])
    &&& read_shows_clear(s.last())
}

} // verus!
