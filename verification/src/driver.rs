//! The mode state machine: a typestate handle over the low-level
//! driver.
//!
//! A [`Tmp117`] owns the bus (through [`Tmp117LL`]) and the optional
//! alert line, and carries its acquisition mode as a type parameter.
//! Every transition consumes the handle and returns a handle typed to
//! the destination mode; a failed transition hands the original handle
//! back beside the error, so the mode tag always matches the last
//! completed transition.  Operations that a mode does not allow are
//! simply absent from that mode's handle.

use vstd::prelude::*;

use core::marker::PhantomData;

use crate::Alert;
use crate::Celsius;
use crate::ContinuousMode;
use crate::Error;
use crate::OneShotMode;
use crate::ShutdownMode;
use crate::UnknownMode;
use crate::bus::AlertLine;
use crate::bus::BusOp;
use crate::bus::DeviceStore;
use crate::bus::RegisterBus;
use crate::bus::busy_poll_seq;
use crate::bus::clear_status;
use crate::bus::is_config_read;
use crate::bus::is_write;
use crate::bus::no_writes;
use crate::bus::op_addr;
use crate::register::AlertPinSelect;
use crate::register::Average;
use crate::register::Configuration;
use crate::register::Conversion;
use crate::register::ConversionMode;
use crate::register::HighLimit;
use crate::register::LowLimit;
use crate::register::Polarity;
use crate::register::TEMPERATURE_ADDR;
use crate::register::spec_decode_config;
use crate::register::TemperatureOffset;
use crate::register::CONFIGURATION_ADDR;
use crate::tmp117_ll::Tmp117LL;

verus! {

/// The role of the optional alert line, as the contracts speak of it.
#[derive(Clone, Copy, PartialEq, Eq, Structural, Debug)]
pub enum Role {
    /// No alert line was given; readiness falls back to polling.
    NoLine,
    /// A line is present but the pin-select fields were not yet set.
    Unconfigured,
    /// The line watches the data-ready flag, active high.
    WatchingDataReady,
    /// The line watches the alert flags, active high.
    WatchingAlert,
}

/// The alert line together with what it currently watches.
pub enum AlertPin<P> {
    /// Not yet configured.
    Unknown(P),
    /// Configured for the data-ready flag, active high.
    DataReady(P),
    /// Configured for the alert flags, active high.
    Alert(P),
}

impl<P> AlertPin<P> {
    /// The line carried, whatever its role.
    pub open spec fn spec_pin(&self) -> P {
        match *self {
            AlertPin::Unknown(p) => p,
            AlertPin::DataReady(p) => p,
            AlertPin::Alert(p) => p,
        }
    }

    /// Borrow the line itself without caring for its role.
    pub fn borrow_mut(&mut self) -> (r: &mut P)
        ensures
            *r == old(self).spec_pin(),
            final(self).spec_pin() == *final(r),
            (*old(self) is Unknown <==> *final(self) is Unknown),
            (*old(self) is DataReady <==> *final(self) is DataReady),
            (*old(self) is Alert <==> *final(self) is Alert),
    {
        match self {
            AlertPin::Unknown(p) => p,
            AlertPin::DataReady(p) => p,
            AlertPin::Alert(p) => p,
        }
    }
}

/// Optional settings applied when entering continuous mode; a field
/// left unset leaves the device's stored value untouched.
pub struct ContinuousConfig {
    /// Averaging to select, if any.
    pub average: Option<Average>,
    /// Conversion cycle to select, if any.
    pub conversion: Option<Conversion>,
    /// High alert limit to store, if any.
    pub high: Option<Celsius>,
    /// Low alert limit to store, if any.
    pub low: Option<Celsius>,
    /// Temperature offset to store, if any.
    pub offset: Option<Celsius>,
}

/// The configuration with the acquisition mode and averaging replaced.
pub open spec fn with_mode_average(c: Configuration, m: ConversionMode, a: Average) -> Configuration {
    Configuration { mode: m, average: a, ..c }
}

/// The configuration with only the acquisition mode replaced.
pub open spec fn with_mode(c: Configuration, m: ConversionMode) -> Configuration {
    Configuration { mode: m, ..c }
}

/// The configuration with the pin-select field replaced and the
/// polarity forced active high, as the readiness strategy sets it.
pub open spec fn with_pin_select(c: Configuration, sel: AlertPinSelect) -> Configuration {
    Configuration { dr_alert: sel, polarity: Polarity::ActiveHigh, ..c }
}

/// A history slice holding exactly one write, and that write to the
/// configuration register.
pub open spec fn one_config_write(s: Seq<BusOp>) -> bool {
    exists|j: int|
        0 <= j < s.len() && is_write(#[trigger] s[j]) && op_addr(s[j]) == CONFIGURATION_ADDR
            && (forall|i: int| 0 <= i < s.len() && i != j ==> !is_write(#[trigger] s[i]))
}

/// The driver handle.  It exclusively owns the transport and the
/// optional alert line, and its type parameter `M` names the sensor
/// mode that the last completed transition established.
pub struct Tmp117<B: RegisterBus, P: AlertLine, M> {
    tmp_ll: Tmp117LL<B>,
    alert: Option<AlertPin<P>>,
    mode: PhantomData<M>,
}

impl<B: RegisterBus, P: AlertLine, M> Tmp117<B, P, M> {
    /// The device state retained behind this handle.
    pub closed spec fn store(&self) -> DeviceStore {
        self.tmp_ll.store()
    }

    /// The history of bus transactions issued through this handle.
    pub closed spec fn ops(&self) -> Seq<BusOp> {
        self.tmp_ll.ops()
    }

    /// The role of the alert line.
    pub closed spec fn role(&self) -> Role {
        match self.alert {
            Option::None => Role::NoLine,
            Option::Some(AlertPin::Unknown(_)) => Role::Unconfigured,
            Option::Some(AlertPin::DataReady(_)) => Role::WatchingDataReady,
            Option::Some(AlertPin::Alert(_)) => Role::WatchingAlert,
        }
    }

    /// The outcomes of the waits issued on the alert line, if one is
    /// there: true for a wait that completed, false for one that
    /// failed.
    pub closed spec fn pin_waits(&self) -> Seq<bool> {
        match self.alert {
            Option::None => Seq::empty(),
            Option::Some(ap) => ap.spec_pin().waits(),
        }
    }

    /// The handle is consistent: when the line watches a condition,
    /// the device's stored pin-select and polarity fields agree.
    pub open spec fn wf(&self) -> bool {
        &&& (self.role() == Role::WatchingDataReady ==> self.store().config.dr_alert
            == AlertPinSelect::DataReady && self.store().config.polarity == Polarity::ActiveHigh)
        &&& (self.role() == Role::WatchingAlert ==> self.store().config.dr_alert
            == AlertPinSelect::Alert && self.store().config.polarity == Polarity::ActiveHigh)
    }

    /// Retype the handle to another mode tag, moving its parts.
    fn retag<M2>(self) -> (t: Tmp117<B, P, M2>)
        ensures
            t.store() == self.store(),
            t.ops() == self.ops(),
            t.role() == self.role(),
            t.pin_waits() == self.pin_waits(),
    {
        Tmp117 { tmp_ll: self.tmp_ll, alert: self.alert, mode: PhantomData }
    }

    /// Build a handle in unknown mode from a bus and an optional alert
    /// line.
    pub fn new(bus: B, alert: Option<P>) -> (t: Tmp117<B, P, UnknownMode>)
        ensures
            t.store() == bus.store(),
            t.ops() == bus.ops(),
            t.role() == (if alert is Some {
                Role::Unconfigured
            } else {
                Role::NoLine
            }),
            t.wf(),
    {
        Tmp117 {
            tmp_ll: Tmp117LL::new(bus),
            alert: match alert {
                Option::Some(p) => Some(AlertPin::Unknown(p)),
                Option::None => None,
            },
            mode: PhantomData,
        }
    }

    /// Build a handle in unknown mode from a low-level driver and an
    /// optional alert line.
    pub fn new_from_ll(tmp_ll: Tmp117LL<B>, alert: Option<P>) -> (t: Tmp117<B, P, UnknownMode>)
        ensures
            t.store() == tmp_ll.store(),
            t.ops() == tmp_ll.ops(),
            t.role() == (if alert is Some {
                Role::Unconfigured
            } else {
                Role::NoLine
            }),
            t.wf(),
    {
        Tmp117 {
            tmp_ll,
            alert: match alert {
                Option::Some(p) => Some(AlertPin::Unknown(p)),
                Option::None => None,
            },
            mode: PhantomData,
        }
    }

    /// Borrow the underlying bus, for inspection.
    pub fn bus(&self) -> (b: &B)
        ensures
            b.store() == self.store(),
            b.ops() == self.ops(),
    {
        self.tmp_ll.bus()
    }

    /// Borrow the underlying bus mutably, for scripting a simulated
    /// device between calls.  Changes made through it are outside
    /// modification: the caller must re-establish the handle's
    /// consistency before waiting on the line again.
    pub fn bus_mut(&mut self) -> (r: &mut B)
        ensures
            r.store() == old(self).store(),
            r.ops() == old(self).ops(),
            final(self).store() == final(r).store(),
            final(self).ops() == final(r).ops(),
            final(self).role() == old(self).role(),
            final(self).pin_waits() == old(self).pin_waits(),
    {
        self.tmp_ll.bus_mut()
    }

    /// Take the handle apart, handing back the low-level driver and
    /// the alert line with its role.
    pub fn free(self) -> (r: (Tmp117LL<B>, Option<AlertPin<P>>))
        ensures
            r.0.store() == self.store(),
            r.0.ops() == self.ops(),
    {
        (self.tmp_ll, self.alert)
    }

    /// Go to one-shot mode: one edit of the configuration register
    /// that sets the mode and the averaging and keeps every other
    /// stored field.
    pub fn to_oneshot(self, average: Average) -> (r: Result<
        Tmp117<B, P, OneShotMode>,
        (Tmp117<B, P, M>, Error),
    >)
        requires
            self.wf(),
        ensures
            r matches Ok(t) ==> ({
                &&& t.wf()
                &&& t.role() == self.role()
                &&& t.store() == (DeviceStore {
                    config: clear_status(
                        with_mode_average(self.store().config, ConversionMode::OneShot, average),
                    ),
                    ..self.store()
                })
                &&& self.ops().is_prefix_of(t.ops())
                &&& t.ops().len() == self.ops().len() + 2
                &&& is_config_read(t.ops()[t.ops().len() - 2])
                &&& (t.ops().last() matches BusOp::Write { addr: CONFIGURATION_ADDR, ok: true, .. })
                &&& crate::bus::all_completed(t.ops().skip(self.ops().len() as int))
            }),
            r matches Err((t, e)) ==> ({
                &&& t.wf()
                &&& t.role() == self.role()
                &&& (t.store() == self.store() || t.store() == (DeviceStore {
                    config: clear_status(
                        with_mode_average(self.store().config, ConversionMode::OneShot, average),
                    ),
                    ..self.store()
                }))
                &&& t.ops().len() > self.ops().len()
                &&& (e matches Error::Bus(_) ==> crate::bus::op_failed(t.ops().last()))
                &&& (e == Error::InvalidRegisterData ==> (t.ops().last() matches BusOp::Read {
                    addr: CONFIGURATION_ADDR,
                    result: Ok(v),
                } && spec_decode_config(v) is None))
                &&& crate::bus::all_completed(t.ops().skip(self.ops().len() as int).drop_last())
                &&& (e matches Error::Bus(_) || e == Error::InvalidRegisterData)
            }),
    {
        let mut s = self;
        let ghost base = s.ops();
        let c = match s.tmp_ll.read_config() {
            Ok(c) => c,
            Err(e) => {
                proof {
                    assert(s.ops().skip(base.len() as int) =~= seq![s.ops().last()]);
                    assert(s.ops().skip(base.len() as int).drop_last() =~= Seq::<BusOp>::empty());
                }
                return Err((s, e));
            },
        };
        let ghost mid = s.ops();
        let target = oneshot_target(c, average);
        match s.tmp_ll.write_config(target) {
            Ok(()) => {
                proof {
                    lemma_two_step(self.ops(), mid, s.ops(), mid.last(), s.ops().last());
                    assert(s.ops().skip(base.len() as int) =~= seq![mid.last(), s.ops().last()]);
                }
                Ok(s.retag())
            },
            Err(e) => {
                proof {
                    lemma_two_step(self.ops(), mid, s.ops(), mid.last(), s.ops().last());
                    assert(s.ops().skip(base.len() as int) =~= seq![mid.last(), s.ops().last()]);
                    assert(s.ops().skip(base.len() as int).drop_last() =~= seq![mid.last()]);
                }
                Err((s, e))
            },
        }
    }

    /// Go to shutdown mode: one edit of the configuration register
    /// that sets the mode and keeps every other stored field.
    pub fn to_shutdown(self) -> (r: Result<Tmp117<B, P, ShutdownMode>, (Tmp117<B, P, M>, Error)>)
        requires
            self.wf(),
        ensures
            r matches Ok(t) ==> ({
                &&& t.wf()
                &&& t.role() == self.role()
                &&& t.store() == (DeviceStore {
                    config: clear_status(with_mode(self.store().config, ConversionMode::Shutdown)),
                    ..self.store()
                })
                &&& self.ops().is_prefix_of(t.ops())
                &&& t.ops().len() == self.ops().len() + 2
                &&& is_config_read(t.ops()[t.ops().len() - 2])
                &&& (t.ops().last() matches BusOp::Write { addr: CONFIGURATION_ADDR, ok: true, .. })
                &&& crate::bus::all_completed(t.ops().skip(self.ops().len() as int))
            }),
            r matches Err((t, e)) ==> ({
                &&& t.wf()
                &&& t.role() == self.role()
                &&& (t.store() == self.store() || t.store() == (DeviceStore {
                    config: clear_status(with_mode(self.store().config, ConversionMode::Shutdown)),
                    ..self.store()
                }))
                &&& t.ops().len() > self.ops().len()
                &&& (e matches Error::Bus(_) ==> crate::bus::op_failed(t.ops().last()))
                &&& (e == Error::InvalidRegisterData ==> (t.ops().last() matches BusOp::Read {
                    addr: CONFIGURATION_ADDR,
                    result: Ok(v),
                } && spec_decode_config(v) is None))
                &&& crate::bus::all_completed(t.ops().skip(self.ops().len() as int).drop_last())
                &&& (e matches Error::Bus(_) || e == Error::InvalidRegisterData)
            }),
    {
        let mut s = self;
        let ghost base = s.ops();
        let c = match s.tmp_ll.read_config() {
            Ok(c) => c,
            Err(e) => {
                proof {
                    assert(s.ops().skip(base.len() as int) =~= seq![s.ops().last()]);
                    assert(s.ops().skip(base.len() as int).drop_last() =~= Seq::<BusOp>::empty());
                }
                return Err((s, e));
            },
        };
        let ghost mid = s.ops();
        let target = shutdown_target(c);
        match s.tmp_ll.write_config(target) {
            Ok(()) => {
                proof {
                    lemma_two_step(self.ops(), mid, s.ops(), mid.last(), s.ops().last());
                    assert(s.ops().skip(base.len() as int) =~= seq![mid.last(), s.ops().last()]);
                }
                Ok(s.retag())
            },
            Err(e) => {
                proof {
                    lemma_two_step(self.ops(), mid, s.ops(), mid.last(), s.ops().last());
                    assert(s.ops().skip(base.len() as int) =~= seq![mid.last(), s.ops().last()]);
                    assert(s.ops().skip(base.len() as int).drop_last() =~= seq![mid.last()]);
                }
                Err((s, e))
            },
        }
    }

    /// Reset the device: one edit that sets the reset bit.  The device
    /// restores its power-on configuration on its own, so nothing is
    /// promised of the retained state; the new handle is typed unknown
    /// and a present alert line drops back to unconfigured, whether or
    /// not the attempt succeeded.
    pub fn reset(self) -> (r: Result<Tmp117<B, P, UnknownMode>, (Tmp117<B, P, M>, Error)>)
        requires
            self.wf(),
        ensures
            r matches Ok(t) ==> ({
                &&& t.wf()
                &&& t.role() == (if self.role() == Role::NoLine {
                    Role::NoLine
                } else {
                    Role::Unconfigured
                })
                &&& self.ops().is_prefix_of(t.ops())
                &&& t.ops().len() == self.ops().len() + 2
                &&& is_config_read(t.ops()[t.ops().len() - 2])
                &&& (t.ops().last() matches BusOp::Write {
                    addr: CONFIGURATION_ADDR,
                    value: v,
                    ok: true,
                } && crate::register::spec_reset_bit(v))
                &&& crate::bus::all_completed(t.ops().skip(self.ops().len() as int))
            }),
            r matches Err((t, e)) ==> ({
                &&& t.wf()
                &&& t.role() == (if self.role() == Role::NoLine {
                    Role::NoLine
                } else {
                    Role::Unconfigured
                })
                &&& t.ops().len() > self.ops().len()
                &&& (e matches Error::Bus(_) ==> crate::bus::op_failed(t.ops().last()))
                &&& (e == Error::InvalidRegisterData ==> (t.ops().last() matches BusOp::Read {
                    addr: CONFIGURATION_ADDR,
                    result: Ok(v),
                } && spec_decode_config(v) is None))
                &&& crate::bus::all_completed(t.ops().skip(self.ops().len() as int).drop_last())
                &&& (e matches Error::Bus(_) || e == Error::InvalidRegisterData)
            }),
    {
        let Tmp117 { tmp_ll, alert, mode: _ } = self;
        // The device side may stop matching the line's role as soon as
        // a reset is attempted, so the line drops back first.
        let alert2 = match alert {
            Option::None => None,
            Option::Some(AlertPin::Unknown(p)) => Some(AlertPin::Unknown(p)),
            Option::Some(AlertPin::DataReady(p)) => Some(AlertPin::Unknown(p)),
            Option::Some(AlertPin::Alert(p)) => Some(AlertPin::Unknown(p)),
        };
        let mut s = Tmp117::<B, P, M> { tmp_ll, alert: alert2, mode: PhantomData };
        let ghost base = s.ops();
        let c = match s.tmp_ll.read_config() {
            Ok(c) => c,
            Err(e) => {
                proof {
                    assert(s.ops().skip(base.len() as int) =~= seq![s.ops().last()]);
                    assert(s.ops().skip(base.len() as int).drop_last() =~= Seq::<BusOp>::empty());
                }
                return Err((s, e));
            },
        };
        let ghost mid = s.ops();
        let target = reset_target(c);
        match s.tmp_ll.write_config(target) {
            Ok(()) => {
                proof {
                    lemma_two_step(self.ops(), mid, s.ops(), mid.last(), s.ops().last());
                    assert(s.ops().skip(base.len() as int) =~= seq![mid.last(), s.ops().last()]);
                    crate::register::lemma_config_round_trip(target);
                    crate::register::lemma_decode_reset_bit(
                        crate::register::spec_encode_config(target),
                    );
                }
                Ok(s.retag())
            },
            Err(e) => {
                proof {
                    lemma_two_step(self.ops(), mid, s.ops(), mid.last(), s.ops().last());
                    assert(s.ops().skip(base.len() as int) =~= seq![mid.last(), s.ops().last()]);
                    assert(s.ops().skip(base.len() as int).drop_last() =~= seq![mid.last()]);
                }
                Err((s, e))
            },
        }
    }

    /// Go to continuous mode: one edit of the configuration register
    /// that sets the mode and, where supplied, the averaging and the
    /// conversion cycle; then one direct write for each limit or
    /// offset supplied.  Fields left unset keep the device's stored
    /// values.
    #[verifier::rlimit(100)]
    pub fn to_continuous(self, config: ContinuousConfig) -> (r: Result<
        Tmp117<B, P, ContinuousMode>,
        (Tmp117<B, P, M>, Error),
    >)
        requires
            self.wf(),
        ensures
            r matches Ok(t) ==> ({
                &&& t.wf()
                &&& t.role() == self.role()
                &&& t.store().config == clear_status(cont_target(self.store().config, config))
                &&& t.store().high_limit == (match config.high {
                    Some(h) => h.lsb as u16,
                    None => self.store().high_limit,
                })
                &&& t.store().low_limit == (match config.low {
                    Some(l) => l.lsb as u16,
                    None => self.store().low_limit,
                })
                &&& t.store().temp_offset == (match config.offset {
                    Some(o) => o.lsb as u16,
                    None => self.store().temp_offset,
                })
                &&& t.store().ueeprom1 == self.store().ueeprom1
                &&& t.store().ueeprom2 == self.store().ueeprom2
                &&& t.store().ueeprom3 == self.store().ueeprom3
                &&& self.ops().is_prefix_of(t.ops())
                &&& t.ops().len() == self.ops().len() + 2 + limit_writes(config).len()
                &&& is_config_read(t.ops()[self.ops().len() as int])
                &&& (t.ops()[self.ops().len() as int + 1] matches BusOp::Write {
                    addr: CONFIGURATION_ADDR,
                    value: v,
                    ok: true,
                } && spec_decode_config(v) matches Some(dc) && crate::bus::rw_fields_eq(
                    dc,
                    cont_target(self.store().config, config),
                ) && !dc.reset)
                &&& t.ops().skip(self.ops().len() as int + 2) == limit_writes(config)
                &&& crate::bus::all_completed(t.ops().skip(self.ops().len() as int))
            }),
            r matches Err((t, e)) ==> ({
                &&& t.wf()
                &&& t.role() == self.role()
                &&& t.store().config.dr_alert == self.store().config.dr_alert
                &&& t.store().config.polarity == self.store().config.polarity
                &&& (t.store().config == self.store().config || t.store().config == clear_status(
                    cont_target(self.store().config, config),
                ))
                &&& (t.store().high_limit == self.store().high_limit || (config.high matches Some(
                    h,
                ) && t.store().high_limit == h.lsb as u16))
                &&& (t.store().low_limit == self.store().low_limit || (config.low matches Some(l)
                    && t.store().low_limit == l.lsb as u16))
                &&& (t.store().temp_offset == self.store().temp_offset || (config.offset
                    matches Some(o) && t.store().temp_offset == o.lsb as u16))
                &&& t.store().ueeprom1 == self.store().ueeprom1
                &&& t.store().ueeprom2 == self.store().ueeprom2
                &&& t.store().ueeprom3 == self.store().ueeprom3
                &&& self.ops().is_prefix_of(t.ops())
                &&& t.ops().len() > self.ops().len()
                &&& (e matches Error::Bus(_) ==> crate::bus::op_failed(t.ops().last()))
                &&& (e == Error::InvalidRegisterData ==> (t.ops().last() matches BusOp::Read {
                    addr: CONFIGURATION_ADDR,
                    result: Ok(v),
                } && spec_decode_config(v) is None))
                &&& crate::bus::all_completed(t.ops().skip(self.ops().len() as int).drop_last())
                &&& (e matches Error::Bus(_) || e == Error::InvalidRegisterData)
            }),
    {
        let mut s = self;
        let ghost base = s.ops();
        let c = match s.tmp_ll.read_config() {
            Ok(c) => c,
            Err(e) => {
                proof {
                    assert(s.ops().skip(base.len() as int) =~= seq![s.ops().last()]);
                    assert(s.ops().skip(base.len() as int).drop_last() =~= Seq::<BusOp>::empty());
                }
                return Err((s, e));
            },
        };
        let ghost mid = s.ops();
        let target = continuous_target(c, &config);
        match s.tmp_ll.write_config(target) {
            Ok(()) => (),
            Err(e) => {
                proof {
                    lemma_two_step(base, mid, s.ops(), mid.last(), s.ops().last());
                    assert(s.ops().skip(base.len() as int) =~= seq![mid.last(), s.ops().last()]);
                    assert(s.ops().skip(base.len() as int).drop_last() =~= seq![mid.last()]);
                }
                return Err((s, e));
            },
        };
        let ghost head = s.ops();
        proof {
            lemma_two_step(base, mid, s.ops(), mid.last(), s.ops().last());
            assert(head.skip(base.len() as int) =~= seq![mid.last(), head.last()]);
            assert(crate::bus::all_completed(head.skip(base.len() as int)));
            crate::register::lemma_config_round_trip(target);
            assert(crate::bus::rw_fields_eq(target, cont_target(self.store().config, config)));
        }
        match s.write_limits(&config) {
            Ok(()) => (),
            Err(e) => {
                proof {
                    lemma_all_completed_join_drop(base, head, s.ops());
                }
                return Err((s, e));
            },
        };
        proof {
            lemma_all_completed_join(base, head, s.ops());
            assert(s.ops() =~= head + limit_writes(config));
            assert(s.ops().skip(base.len() as int + 2) =~= limit_writes(config));
            assert(s.ops()[base.len() as int] == mid.last());
            assert(s.ops()[base.len() as int + 1] == head.last());
        }
        Ok(s.retag())
    }

    /// Issue the direct limit and offset writes that entering
    /// continuous mode asks for, in their fixed order, skipping the
    /// fields the settings leave unset.
    fn write_limits(&mut self, config: &ContinuousConfig) -> (r: Result<(), Error>)
        ensures
            final(self).role() == old(self).role(),
            final(self).pin_waits() == old(self).pin_waits(),
            old(self).ops().is_prefix_of(final(self).ops()),
            final(self).store().config == old(self).store().config,
            final(self).store().ueeprom1 == old(self).store().ueeprom1,
            final(self).store().ueeprom2 == old(self).store().ueeprom2,
            final(self).store().ueeprom3 == old(self).store().ueeprom3,
            final(self).store().high_limit == old(self).store().high_limit || (
            config.high matches Some(h) && final(self).store().high_limit == h.lsb as u16),
            final(self).store().low_limit == old(self).store().low_limit || (
            config.low matches Some(l) && final(self).store().low_limit == l.lsb as u16),
            final(self).store().temp_offset == old(self).store().temp_offset || (
            config.offset matches Some(o) && final(self).store().temp_offset == o.lsb as u16),
            r is Ok ==> ({
                &&& final(self).ops() == old(self).ops() + limit_writes(*config)
                &&& crate::bus::all_completed(final(self).ops().skip(old(self).ops().len() as int))
                &&& final(self).store().high_limit == (match config.high {
                    Some(h) => h.lsb as u16,
                    None => old(self).store().high_limit,
                })
                &&& final(self).store().low_limit == (match config.low {
                    Some(l) => l.lsb as u16,
                    None => old(self).store().low_limit,
                })
                &&& final(self).store().temp_offset == (match config.offset {
                    Some(o) => o.lsb as u16,
                    None => old(self).store().temp_offset,
                })
            }),
            r matches Err(e) ==> ({
                &&& e matches Error::Bus(_)
                &&& final(self).ops().len() > old(self).ops().len()
                &&& crate::bus::op_failed(final(self).ops().last())
                &&& crate::bus::all_completed(
                    final(self).ops().skip(old(self).ops().len() as int).drop_last(),
                )
            }),
    {
        let ghost base = self.ops();
        let ghost mut tail: Seq<BusOp> = Seq::empty();
        proof {
            assert(self.ops() =~= base + tail);
        }
        match config.high {
            Option::Some(h) => {
                let ghost before = self.ops();
                match self.tmp_ll.write_high_limit(HighLimit(h.to_raw())) {
                    Ok(()) => (),
                    Err(e) => {
                        proof {
                            lemma_prefix_push(base, before, self.ops().last());
                            lemma_skip_drop_push(base, before, self.ops().last());
                        }
                        return Err(e);
                    },
                };
                proof {
                    let op = BusOp::Write {
                        addr: crate::register::HIGH_LIMIT_ADDR,
                        value: h.lsb as u16,
                        ok: true,
                    };
                    lemma_prefix_push(base, before, op);
                    lemma_all_completed_push(base, before, op);
                    tail = tail.push(op);
                    assert(self.ops() =~= base + tail);
                    assert(tail =~= high_write(*config));
                }
            },
            Option::None => {
                proof {
                    assert(tail =~= high_write(*config));
                }
            },
        }
        match config.low {
            Option::Some(l) => {
                let ghost before = self.ops();
                match self.tmp_ll.write_low_limit(LowLimit(l.to_raw())) {
                    Ok(()) => (),
                    Err(e) => {
                        proof {
                            lemma_prefix_push(base, before, self.ops().last());
                            lemma_skip_drop_push(base, before, self.ops().last());
                        }
                        return Err(e);
                    },
                };
                proof {
                    let op = BusOp::Write {
                        addr: crate::register::LOW_LIMIT_ADDR,
                        value: l.lsb as u16,
                        ok: true,
                    };
                    lemma_prefix_push(base, before, op);
                    lemma_all_completed_push(base, before, op);
                    tail = tail.push(op);
                    assert(self.ops() =~= base + tail);
                    assert(tail =~= high_write(*config) + low_write(*config));
                }
            },
            Option::None => {
                proof {
                    assert(tail =~= high_write(*config) + low_write(*config));
                }
            },
        }
        match config.offset {
            Option::Some(o) => {
                let ghost before = self.ops();
                match self.tmp_ll.write_temperature_offset(TemperatureOffset(o.to_raw())) {
                    Ok(()) => (),
                    Err(e) => {
                        proof {
                            lemma_prefix_push(base, before, self.ops().last());
                            lemma_skip_drop_push(base, before, self.ops().last());
                        }
                        return Err(e);
                    },
                };
                proof {
                    let op = BusOp::Write {
                        addr: crate::register::TEMPERATURE_OFFSET_ADDR,
                        value: o.lsb as u16,
                        ok: true,
                    };
                    lemma_prefix_push(base, before, op);
                    lemma_all_completed_push(base, before, op);
                    tail = tail.push(op);
                    assert(self.ops() =~= base + tail);
                    assert(tail =~= limit_writes(*config));
                }
            },
            Option::None => {
                proof {
                    assert(tail =~= limit_writes(*config));
                }
            },
        }
        proof {
            assert(crate::bus::all_completed(tail));
            assert(self.ops().skip(base.len() as int) =~= tail);
        }
        Ok(())
    }

    /// Poll the configuration register until the EEPROM busy flag
    /// reads clear, as the scratch-cell write protocol demands before
    /// every write.  The poll has no protocol-level timeout; it gives
    /// up only after an astronomically large number of polls,
    /// reporting that the device never became ready.
    fn wait_eeprom(&mut self) -> (r: Result<(), Error>)
        ensures
            final(self).store() == old(self).store(),
            final(self).role() == old(self).role(),
            final(self).pin_waits() == old(self).pin_waits(),
            old(self).ops().is_prefix_of(final(self).ops()),
            no_writes(final(self).ops().skip(old(self).ops().len() as int)),
            r is Ok ==> busy_poll_seq(final(self).ops().skip(old(self).ops().len() as int)),
            r == Err::<(), Error>(Error::Bus(crate::bus::BusFault)) ==> crate::bus::op_failed(
                final(self).ops().last(),
            ),
            r == Err::<(), Error>(Error::InvalidRegisterData) ==> (final(self).ops().last()
                matches BusOp::Read {
                addr: CONFIGURATION_ADDR,
                result: Ok(v),
            } && spec_decode_config(v) is None),
            r == Err::<(), Error>(Error::DataNotReady) ==> final(self).ops().len() > old(self).ops().len() && crate::bus::read_shows_busy(final(self).ops().last()),
            r is Err ==> (r == Err::<(), Error>(Error::Bus(crate::bus::BusFault)) || r == Err::<
                (),
                Error,
            >(Error::InvalidRegisterData) || r == Err::<(), Error>(Error::DataNotReady)),
    {
        let ghost base = self.ops();
        let mut fuel: u64 = u64::MAX;
        while fuel > 0
            invariant
                self.store() == old(self).store(),
                self.alert == old(self).alert,
                base == old(self).ops(),
                base.is_prefix_of(self.ops()),
                self.ops().len() + fuel >= base.len() + u64::MAX,
                forall|i: int|
                    base.len() <= i < self.ops().len() ==> is_config_read(
                        #[trigger] self.ops()[i],
                    ) && crate::bus::read_shows_busy(self.ops()[i]),
            decreases fuel,
        {
            fuel = fuel - 1;
            let ghost before = self.ops();
            let c = match self.tmp_ll.read_config() {
                Ok(c) => c,
                Err(e) => {
                    proof {
                        lemma_prefix_push(base, before, self.ops().last());
                        assert(no_writes(self.ops().skip(base.len() as int)));
                    }
                    return Err(e);
                },
            };
            proof {
                lemma_prefix_push(base, before, self.ops().last());
            }
            if !c.eeprom_busy {
                proof {
                    let delta = self.ops().skip(base.len() as int);
                    assert(delta.len() >= 1);
                    assert forall|i: int| 0 <= i < delta.len() implies is_config_read(
                        #[trigger] delta[i],
                    ) by {
                        assert(delta[i] == self.ops()[base.len() + i]);
                    }
                    assert forall|i: int|
                        0 <= i < delta.len() - 1 implies crate::bus::read_shows_busy(
                        #[trigger] delta[i],
                    ) by {
                        assert(delta[i] == self.ops()[base.len() + i]);
                    }
                    assert(delta.last() == self.ops().last());
                    assert(crate::bus::read_shows_clear(delta.last()));
                    assert(no_writes(delta));
                }
                return Ok(());
            }
        }
        Err(Error::DataNotReady)
    }

    /// Write the three user EEPROM scratch cells, in their fixed
    /// order, each write gated behind a busy poll.  The history grows
    /// by a busy-poll run, the first write, a busy-poll run, the
    /// second write, a busy-poll run and the third write; no write is
    /// issued while a poll still shows the EEPROM busy.
    pub fn write_eeprom(&mut self, values: [u16; 3]) -> (r: Result<(), Error>)
        requires
            old(self).wf(),
        ensures
            final(self).wf(),
            final(self).role() == old(self).role(),
            final(self).pin_waits() == old(self).pin_waits(),
            old(self).ops().is_prefix_of(final(self).ops()),
            final(self).store().config == old(self).store().config,
            final(self).store().high_limit == old(self).store().high_limit,
            final(self).store().low_limit == old(self).store().low_limit,
            final(self).store().temp_offset == old(self).store().temp_offset,
            r is Ok ==> ({
                &&& final(self).store().ueeprom1 == values[0]
                &&& final(self).store().ueeprom2 == values[1]
                &&& final(self).store().ueeprom3 == values[2]
                &&& eeprom_write_trace(
                    final(self).ops().skip(old(self).ops().len() as int),
                    values[0],
                    values[1],
                    values[2],
                )
            }),
            r is Err ==> ({
                &&& (final(self).store().ueeprom1 == old(self).store().ueeprom1 || final(self).store().ueeprom1 == values[0])
                &&& (final(self).store().ueeprom2 == old(self).store().ueeprom2 || final(self).store().ueeprom2 == values[1])
                &&& (final(self).store().ueeprom3 == old(self).store().ueeprom3 || final(self).store().ueeprom3 == values[2])
                &&& (r == Err::<(), Error>(Error::Bus(crate::bus::BusFault))
                    ==> crate::bus::op_failed(final(self).ops().last()))
                &&& (r == Err::<(), Error>(Error::InvalidRegisterData) ==> (final(self).ops().last() matches BusOp::Read {
                    addr: CONFIGURATION_ADDR,
                    result: Ok(v),
                } && spec_decode_config(v) is None))
                &&& (r == Err::<(), Error>(Error::DataNotReady) ==> crate::bus::read_shows_busy(
                    final(self).ops().last(),
                ))
                &&& (r == Err::<(), Error>(Error::Bus(crate::bus::BusFault)) || r == Err::<
                    (),
                    Error,
                >(Error::InvalidRegisterData) || r == Err::<(), Error>(Error::DataNotReady))
            }),
    {
        let ghost base = self.ops();
        match self.wait_eeprom() {
            Ok(()) => (),
            Err(e) => {
                return Err(e);
            },
        };
        let ghost p1 = self.ops().skip(base.len() as int);
        let ghost o1 = self.ops();
        match self.tmp_ll.write_raw_reg(crate::register::UEEPROM1_ADDR, values[0]) {
            Ok(()) => (),
            Err(e) => {
                proof {
                    lemma_prefix_push(base, o1, self.ops().last());
                }
                return Err(e);
            },
        };
        proof {
            lemma_prefix_push(base, o1, self.ops().last());
        }
        let ghost o1w = self.ops();
        match self.wait_eeprom() {
            Ok(()) => (),
            Err(e) => {
                proof {
                    lemma_prefix_trans(base, o1w, self.ops());
                }
                return Err(e);
            },
        };
        proof {
            lemma_prefix_trans(base, o1w, self.ops());
        }
        let ghost p2 = self.ops().skip(o1w.len() as int);
        let ghost o2 = self.ops();
        match self.tmp_ll.write_raw_reg(crate::register::UEEPROM2_ADDR, values[1]) {
            Ok(()) => (),
            Err(e) => {
                proof {
                    lemma_prefix_push(base, o2, self.ops().last());
                }
                return Err(e);
            },
        };
        proof {
            lemma_prefix_push(base, o2, self.ops().last());
        }
        let ghost o2w = self.ops();
        match self.wait_eeprom() {
            Ok(()) => (),
            Err(e) => {
                proof {
                    lemma_prefix_trans(base, o2w, self.ops());
                }
                return Err(e);
            },
        };
        proof {
            lemma_prefix_trans(base, o2w, self.ops());
        }
        let ghost p3 = self.ops().skip(o2w.len() as int);
        let ghost o3 = self.ops();
        match self.tmp_ll.write_raw_reg(crate::register::UEEPROM3_ADDR, values[2]) {
            Ok(()) => (),
            Err(e) => {
                proof {
                    lemma_prefix_push(base, o3, self.ops().last());
                }
                return Err(e);
            },
        };
        proof {
            lemma_prefix_push(base, o3, self.ops().last());
            let w1 = BusOp::Write { addr: crate::register::UEEPROM1_ADDR, value: values[0], ok: true };
            let w2 = BusOp::Write { addr: crate::register::UEEPROM2_ADDR, value: values[1], ok: true };
            let w3 = BusOp::Write { addr: crate::register::UEEPROM3_ADDR, value: values[2], ok: true };
            let delta = self.ops().skip(base.len() as int);
            assert(o1 =~= base + p1);
            assert(o1w =~= o1.push(w1));
            assert(o2 =~= o1w + p2);
            assert(o2w =~= o2.push(w2));
            assert(o3 =~= o2w + p3);
            assert(self.ops() =~= o3.push(w3));
            assert(delta =~= p1 + seq![w1] + p2 + seq![w2] + p3 + seq![w3]);
            assert(eeprom_write_trace(delta, values[0], values[1], values[2]));
        }
        Ok(())
    }

    /// Read the three user EEPROM scratch cells: three direct reads
    /// with no busy gating, since reads are never blocked.
    pub fn read_eeprom(&mut self) -> (r: Result<[u16; 3], Error>)
        ensures
            final(self).store() == old(self).store(),
            final(self).role() == old(self).role(),
            final(self).pin_waits() == old(self).pin_waits(),
            old(self).ops().is_prefix_of(final(self).ops()),
            no_writes(final(self).ops().skip(old(self).ops().len() as int)),
            r matches Ok(a) ==> ({
                &&& a[0] == old(self).store().ueeprom1
                &&& a[1] == old(self).store().ueeprom2
                &&& a[2] == old(self).store().ueeprom3
                &&& final(self).ops().len() == old(self).ops().len() + 3
                &&& final(self).ops()[final(self).ops().len() - 3] == (BusOp::Read {
                    addr: crate::register::UEEPROM1_ADDR,
                    result: Ok(a[0]),
                })
                &&& final(self).ops()[final(self).ops().len() - 2] == (BusOp::Read {
                    addr: crate::register::UEEPROM2_ADDR,
                    result: Ok(a[1]),
                })
                &&& final(self).ops().last() == (BusOp::Read {
                    addr: crate::register::UEEPROM3_ADDR,
                    result: Ok(a[2]),
                })
            }),
            r is Err ==> r == Err::<[u16; 3], Error>(Error::Bus(crate::bus::BusFault))
                && crate::bus::op_failed(final(self).ops().last()),
    {
        let ghost base = self.ops();
        let u1 = match self.tmp_ll.read_ueeprom1() {
            Ok(u) => u,
            Err(e) => {
                proof {
                    lemma_push_is_prefix(base, self.ops());
                }
                return Err(e);
            },
        };
        proof {
            lemma_push_is_prefix(base, self.ops());
        }
        let ghost o1 = self.ops();
        let u2 = match self.tmp_ll.read_ueeprom2() {
            Ok(u) => u,
            Err(e) => {
                proof {
                    lemma_prefix_push(base, o1, self.ops().last());
                }
                return Err(e);
            },
        };
        proof {
            lemma_prefix_push(base, o1, self.ops().last());
        }
        let ghost o2 = self.ops();
        let u3 = match self.tmp_ll.read_ueeprom3() {
            Ok(u) => u,
            Err(e) => {
                proof {
                    lemma_prefix_push(base, o2, self.ops().last());
                }
                return Err(e);
            },
        };
        proof {
            lemma_prefix_push(base, o2, self.ops().last());
        }
        Ok([u1.0, u2.0, u3.0])
    }
}

/// The alert classification that a configuration word's two alert
/// flags encode: both set, high only, low only, or neither.
pub open spec fn spec_classify(high: bool, low: bool) -> Alert {
    if high && low {
        Alert::HighLow
    } else if high {
        Alert::High
    } else if low {
        Alert::Low
    } else {
        Alert::NoAlert
    }
}

/// Classify the alert flags of a configuration that was just read.
pub fn classify_alert(c: &Configuration) -> (a: Alert)
    ensures
        a == spec_classify(c.high_alert, c.low_alert),
{
    if c.high_alert && c.low_alert {
        Alert::HighLow
    } else if c.high_alert {
        Alert::High
    } else if c.low_alert {
        Alert::Low
    } else {
        Alert::NoAlert
    }
}

/// The configuration to write when entering one-shot mode: the mode
/// and the averaging replaced, everything else as read.
pub fn oneshot_target(c: Configuration, average: Average) -> (t: Configuration)
    ensures
        t == with_mode_average(c, ConversionMode::OneShot, average),
{
    Configuration { mode: ConversionMode::OneShot, average, ..c }
}

/// The configuration to write when entering shutdown mode.
pub fn shutdown_target(c: Configuration) -> (t: Configuration)
    ensures
        t == with_mode(c, ConversionMode::Shutdown),
{
    Configuration { mode: ConversionMode::Shutdown, ..c }
}

/// The configuration to write when entering continuous mode, with the
/// averaging and cycle replaced where the settings supply them.
pub fn continuous_target(c: Configuration, k: &ContinuousConfig) -> (t: Configuration)
    ensures
        t == cont_target(c, *k),
{
    let average = match k.average {
        Option::Some(a) => a,
        Option::None => c.average,
    };
    let conversion = match k.conversion {
        Option::Some(v) => v,
        Option::None => c.conversion,
    };
    Configuration { mode: ConversionMode::Continuous, average, conversion, ..c }
}

/// The configuration to write to trigger the device's software reset.
pub fn reset_target(c: Configuration) -> (t: Configuration)
    ensures
        t == (Configuration { reset: true, ..c }),
{
    Configuration { reset: true, ..c }
}

/// The configuration to write when pointing the alert line at a
/// condition: the pin-select replaced and the polarity active high.
pub fn pin_select_target(c: Configuration, sel: AlertPinSelect) -> (t: Configuration)
    ensures
        t == with_pin_select(c, sel),
{
    Configuration { dr_alert: sel, polarity: Polarity::ActiveHigh, ..c }
}

impl<B: RegisterBus, P: AlertLine> Tmp117<B, P, OneShotMode> {
    /// Read the temperature of a finished one-shot conversion.  The
    /// device shuts itself down after the conversion, so success hands
    /// back the value and a shutdown-typed handle; before data-ready
    /// the call fails with `DataNotReady`, hands the one-shot handle
    /// back unchanged, and writes nothing to the device.
    pub fn read_temp(self) -> (r: Result<
        (Celsius, Tmp117<B, P, ShutdownMode>),
        (Tmp117<B, P, OneShotMode>, Error),
    >)
        requires
            self.wf(),
        ensures
            r matches Ok((temp, t)) ==> ({
                &&& t.wf()
                &&& t.role() == self.role()
                &&& t.store() == self.store()
                &&& t.pin_waits() == self.pin_waits()
                &&& self.ops().is_prefix_of(t.ops())
                &&& t.ops().len() == self.ops().len() + 2
                &&& no_writes(t.ops().skip(self.ops().len() as int))
                &&& (t.ops()[t.ops().len() - 2] matches BusOp::Read {
                    addr: CONFIGURATION_ADDR,
                    result: Ok(v),
                } && spec_decode_config(v) matches Some(c) && c.data_ready)
                &&& (t.ops().last() matches BusOp::Read {
                    addr: TEMPERATURE_ADDR,
                    result: Ok(w),
                } && temp.lsb == w as i16)
            }),
            r matches Err((t, e)) ==> ({
                &&& t.wf()
                &&& t.role() == self.role()
                &&& t.store() == self.store()
                &&& t.pin_waits() == self.pin_waits()
                &&& self.ops().is_prefix_of(t.ops())
                &&& no_writes(t.ops().skip(self.ops().len() as int))
                &&& (e == Error::DataNotReady <==> (t.ops().len() == self.ops().len() + 1 && (
                t.ops().last() matches BusOp::Read {
                    addr: CONFIGURATION_ADDR,
                    result: Ok(v),
                } && spec_decode_config(v) matches Some(c) && !c.data_ready)))
                &&& (e matches Error::Bus(_) ==> crate::bus::op_failed(t.ops().last()))
                &&& (e == Error::InvalidRegisterData ==> (t.ops().last() matches BusOp::Read {
                    addr: CONFIGURATION_ADDR,
                    result: Ok(v),
                } && spec_decode_config(v) is None))
                &&& t.ops().len() > self.ops().len()
                &&& (e matches Error::Bus(_) || e == Error::InvalidRegisterData || e
                    == Error::DataNotReady)
            }),
    {
        let mut s = self;
        let ghost base = s.ops();
        let c = match s.tmp_ll.read_config() {
            Ok(c) => c,
            Err(e) => {
                proof {
                    lemma_push_is_prefix(base, s.ops());
                    lemma_skip_one(base, s.ops());
                }
                return Err((s, e));
            },
        };
        proof {
            lemma_push_is_prefix(base, s.ops());
            lemma_skip_one(base, s.ops());
        }
        if !c.data_ready {
            return Err((s, Error::DataNotReady));
        }
        let ghost o1 = s.ops();
        let t = match s.tmp_ll.read_temperature() {
            Ok(t) => t,
            Err(e) => {
                proof {
                    lemma_prefix_push(base, o1, s.ops().last());
                    lemma_skip_two(base, s.ops(), o1.last(), s.ops().last());
                }
                return Err((s, e));
            },
        };
        proof {
            lemma_prefix_push(base, o1, s.ops().last());
            lemma_skip_two(base, s.ops(), o1.last(), s.ops().last());
        }
        let temp = Celsius::from_raw(t.0);
        Ok((temp, s.retag()))
    }
}

impl<B: RegisterBus, P: AlertLine> Tmp117<B, P, ContinuousMode> {
    /// Read the temperature register and decode it, without checking
    /// readiness: the raw read behind the waiting variants.
    fn read_temp_raw(&mut self) -> (r: Result<Celsius, Error>)
        ensures
            final(self).store() == old(self).store(),
            final(self).role() == old(self).role(),
            final(self).pin_waits() == old(self).pin_waits(),
            old(self).ops().is_prefix_of(final(self).ops()),
            final(self).ops().len() == old(self).ops().len() + 1,
            no_writes(final(self).ops().skip(old(self).ops().len() as int)),
            r matches Ok(t) ==> (final(self).ops().last() matches BusOp::Read {
                addr: TEMPERATURE_ADDR,
                result: Ok(w),
            } && t.lsb == w as i16),
            r is Err ==> r == Err::<Celsius, Error>(Error::Bus(crate::bus::BusFault)) && final(self).ops().last() == (BusOp::Read {
                addr: TEMPERATURE_ADDR,
                result: Err::<u16, crate::bus::BusFault>(crate::bus::BusFault),
            }),
    {
        let ghost base = self.ops();
        let t = match self.tmp_ll.read_temperature() {
            Ok(t) => t,
            Err(e) => {
                proof {
                    lemma_push_is_prefix(base, self.ops());
                    lemma_skip_one(base, self.ops());
                }
                return Err(e);
            },
        };
        proof {
            lemma_push_is_prefix(base, self.ops());
            lemma_skip_one(base, self.ops());
        }
        Ok(Celsius::from_raw(t.0))
    }

    /// Read the temperature without waiting: fails with `DataNotReady`
    /// if no fresh conversion is available, and writes nothing to the
    /// device either way.
    pub fn read_temp(&mut self) -> (r: Result<Celsius, Error>)
        ensures
            final(self).store() == old(self).store(),
            final(self).role() == old(self).role(),
            final(self).pin_waits() == old(self).pin_waits(),
            old(self).ops().is_prefix_of(final(self).ops()),
            no_writes(final(self).ops().skip(old(self).ops().len() as int)),
            r matches Ok(t) ==> ({
                &&& final(self).ops().len() == old(self).ops().len() + 2
                &&& (final(self).ops()[final(self).ops().len() - 2] matches BusOp::Read {
                    addr: CONFIGURATION_ADDR,
                    result: Ok(v),
                } && spec_decode_config(v) matches Some(c) && c.data_ready)
                &&& (final(self).ops().last() matches BusOp::Read {
                    addr: TEMPERATURE_ADDR,
                    result: Ok(w),
                } && t.lsb == w as i16)
            }),
            r == Err::<Celsius, Error>(Error::DataNotReady) <==> (final(self).ops().len() == old(self).ops().len() + 1 && (final(self).ops().last() matches BusOp::Read {
                addr: CONFIGURATION_ADDR,
                result: Ok(v),
            } && spec_decode_config(v) matches Some(c) && !c.data_ready)),
            r matches Err(e) ==> (e matches Error::Bus(_) ==> crate::bus::op_failed(
                final(self).ops().last(),
            )),
            r == Err::<Celsius, Error>(Error::InvalidRegisterData) ==> (final(self).ops().last()
                matches BusOp::Read {
                addr: CONFIGURATION_ADDR,
                result: Ok(v),
            } && spec_decode_config(v) is None),
            r is Err ==> (r == Err::<Celsius, Error>(Error::Bus(crate::bus::BusFault)) || r
                == Err::<Celsius, Error>(Error::InvalidRegisterData) || r == Err::<
                Celsius,
                Error,
            >(Error::DataNotReady)),
    {
        let ghost base = self.ops();
        let c = match self.tmp_ll.read_config() {
            Ok(c) => c,
            Err(e) => {
                proof {
                    lemma_push_is_prefix(base, self.ops());
                    lemma_skip_one(base, self.ops());
                }
                return Err(e);
            },
        };
        proof {
            lemma_push_is_prefix(base, self.ops());
            lemma_skip_one(base, self.ops());
        }
        if !c.data_ready {
            return Err(Error::DataNotReady);
        }
        let ghost o1 = self.ops();
        match self.read_temp_raw() {
            Ok(t) => {
                proof {
                    lemma_no_writes_join(base, o1, self.ops());
                }
                Ok(t)
            },
            Err(e) => {
                proof {
                    lemma_no_writes_join(base, o1, self.ops());
                }
                Err(e)
            },
        }
    }

    /// Read the configuration and classify the alert flags: both set,
    /// high only, low only, or none.  The flags clear on read within
    /// the device.
    pub fn check_alert(&mut self) -> (r: Result<Alert, Error>)
        ensures
            final(self).store() == old(self).store(),
            final(self).role() == old(self).role(),
            final(self).pin_waits() == old(self).pin_waits(),
            old(self).ops().is_prefix_of(final(self).ops()),
            final(self).ops().len() == old(self).ops().len() + 1,
            no_writes(final(self).ops().skip(old(self).ops().len() as int)),
            r matches Ok(a) ==> (final(self).ops().last() matches BusOp::Read {
                addr: CONFIGURATION_ADDR,
                result: Ok(v),
            } && spec_decode_config(v) matches Some(c) && a == spec_classify(
                c.high_alert,
                c.low_alert,
            )),
            r matches Err(e) ==> (e matches Error::Bus(_) ==> crate::bus::op_failed(
                final(self).ops().last(),
            )),
            r == Err::<Alert, Error>(Error::InvalidRegisterData) ==> (final(self).ops().last()
                matches BusOp::Read {
                addr: CONFIGURATION_ADDR,
                result: Ok(v),
            } && spec_decode_config(v) is None),
            r is Err ==> (r == Err::<Alert, Error>(Error::Bus(crate::bus::BusFault)) || r
                == Err::<Alert, Error>(Error::InvalidRegisterData)),
    {
        let ghost base = self.ops();
        let c = match self.tmp_ll.read_config() {
            Ok(c) => c,
            Err(e) => {
                proof {
                    lemma_push_is_prefix(base, self.ops());
                    lemma_skip_one(base, self.ops());
                }
                return Err(e);
            },
        };
        proof {
            lemma_push_is_prefix(base, self.ops());
            lemma_skip_one(base, self.ops());
        }
        Ok(classify_alert(&c))
    }

    /// Wait for a conversion and read the temperature.  With no alert
    /// line this polls with ordinary reads and never writes anything.
    /// With a line, the call reconfigures the pin-select and polarity
    /// fields once when the line was not yet watching data-ready, and
    /// never again while it is; it then waits on the line instead of
    /// polling, and reads the temperature on wake.
    pub fn wait_read_temp(&mut self) -> (r: Result<Celsius, Error>)
        requires
            old(self).wf(),
        ensures
            final(self).wf(),
            old(self).ops().is_prefix_of(final(self).ops()),
            old(self).role() == Role::NoLine ==> ({
                &&& final(self).role() == Role::NoLine
                &&& final(self).store() == old(self).store()
                &&& no_writes(final(self).ops().skip(old(self).ops().len() as int))
                &&& final(self).pin_waits() == old(self).pin_waits()
            }),
            old(self).role() == Role::WatchingDataReady ==> ({
                &&& final(self).role() == Role::WatchingDataReady
                &&& final(self).store() == old(self).store()
                &&& no_writes(final(self).ops().skip(old(self).ops().len() as int))
            }),
            (old(self).role() == Role::Unconfigured || old(self).role() == Role::WatchingAlert)
                ==> ({
                &&& (r is Ok ==> final(self).role() == Role::WatchingDataReady && final(self).store() == (DeviceStore {
                    config: clear_status(
                        with_pin_select(old(self).store().config, AlertPinSelect::DataReady),
                    ),
                    ..old(self).store()
                }) && one_config_write(final(self).ops().skip(old(self).ops().len() as int)))
                &&& (r is Err ==> final(self).role() == Role::Unconfigured || final(self).role()
                    == Role::WatchingDataReady)
            }),
            old(self).role() != Role::NoLine && r is Ok ==> final(self).pin_waits() == old(
                self,
            ).pin_waits().push(true),
            r == Err::<Celsius, Error>(Error::AlertPin) ==> final(self).pin_waits() == old(
                self,
            ).pin_waits().push(false),
            old(self).role() != Role::NoLine && final(self).pin_waits().len() > old(
                self,
            ).pin_waits().len() && !final(self).pin_waits().last() ==> r == Err::<Celsius, Error>(
                Error::AlertPin,
            ),
            final(self).pin_waits().len() <= old(self).pin_waits().len() + 1,
            old(self).role() == Role::WatchingDataReady ==> final(self).ops().len() <= old(self).ops().len() + 1,
            (old(self).role() == Role::Unconfigured || old(self).role() == Role::WatchingAlert)
                ==> final(self).ops().len() <= old(self).ops().len() + 3,
            r matches Err(e) ==> ({
                &&& (e matches Error::Bus(_) ==> crate::bus::op_failed(final(self).ops().last()))
                &&& (e == Error::InvalidRegisterData ==> (final(self).ops().last()
                    matches BusOp::Read {
                    addr: CONFIGURATION_ADDR,
                    result: Ok(v),
                } && spec_decode_config(v) is None))
            }),
            r matches Ok(t) ==> (final(self).ops().last() matches BusOp::Read {
                addr: TEMPERATURE_ADDR,
                result: Ok(w),
            } && t.lsb == w as i16),
    {
        if self.alert.is_none() {
            let ghost base = self.ops();
            let mut fuel: u64 = u64::MAX;
            while fuel > 0
                invariant
                    self.store() == old(self).store(),
                    self.role() == old(self).role(),
                    self.role() == Role::NoLine,
                    self.pin_waits() == old(self).pin_waits(),
                    base == old(self).ops(),
                    base.is_prefix_of(self.ops()),
                    no_writes(self.ops().skip(base.len() as int)),
                decreases fuel,
            {
                fuel = fuel - 1;
                let ghost before = self.ops();
                let res = self.read_temp();
                proof {
                    lemma_no_writes_join(base, before, self.ops());
                }
                match res {
                    Ok(t) => {
                        return Ok(t);
                    },
                    Err(e) => {
                        match e {
                            Error::DataNotReady => (),
                            _ => {
                                return Err(e);
                            },
                        }
                    },
                }
            }
            return Err(Error::DataNotReady);
        }
        // A line is present: take it out of its role while anything on
        // the device side may change.
        let ap = match self.alert.take() {
            Option::Some(ap) => ap,
            Option::None => {
                proof {
                    assert(false);
                }
                return Err(Error::AlertPin);
            },
        };
        let ghost base = self.ops();
        let (mut pin, was_dr) = match ap {
            AlertPin::DataReady(p) => (p, true),
            AlertPin::Unknown(p) => (p, false),
            AlertPin::Alert(p) => (p, false),
        };
        if !was_dr {
            match self.configure_pin(AlertPinSelect::DataReady) {
                Ok(()) => (),
                Err(e) => {
                    self.alert = Some(AlertPin::Unknown(pin));
                    return Err(e);
                },
            };
        }
        let ghost o1 = self.ops();
        let wr = pin.wait_for_high();
        self.alert = Some(AlertPin::DataReady(pin));
        match wr {
            Ok(()) => (),
            Err(_) => {
                return Err(Error::AlertPin);
            },
        };
        let out = self.read_temp_raw();
        proof {
            if !was_dr {
                lemma_one_write_extend(base, o1, self.ops());
            } else {
                lemma_no_writes_join(base, o1, self.ops());
            }
        }
        out
    }

    /// Wait for an alert condition and classify it.  With no alert
    /// line this polls the flags with ordinary reads and returns the
    /// first classification other than none.  With a line, the call
    /// reconfigures the pin-select and polarity fields once when the
    /// line was not yet watching the alert flags, and never again
    /// while it is; it then waits on the line and classifies on wake.
    pub fn wait_alert(&mut self) -> (r: Result<Alert, Error>)
        requires
            old(self).wf(),
        ensures
            final(self).wf(),
            old(self).ops().is_prefix_of(final(self).ops()),
            old(self).role() == Role::NoLine ==> ({
                &&& final(self).role() == Role::NoLine
                &&& final(self).store() == old(self).store()
                &&& no_writes(final(self).ops().skip(old(self).ops().len() as int))
                &&& final(self).pin_waits() == old(self).pin_waits()
                &&& (r matches Ok(a) ==> a != Alert::NoAlert)
            }),
            old(self).role() == Role::WatchingAlert ==> ({
                &&& final(self).role() == Role::WatchingAlert
                &&& final(self).store() == old(self).store()
                &&& no_writes(final(self).ops().skip(old(self).ops().len() as int))
            }),
            (old(self).role() == Role::Unconfigured || old(self).role()
                == Role::WatchingDataReady) ==> ({
                &&& (r is Ok ==> final(self).role() == Role::WatchingAlert && final(self).store()
                    == (DeviceStore {
                    config: clear_status(
                        with_pin_select(old(self).store().config, AlertPinSelect::Alert),
                    ),
                    ..old(self).store()
                }) && one_config_write(final(self).ops().skip(old(self).ops().len() as int)))
                &&& (r is Err ==> final(self).role() == Role::Unconfigured || final(self).role()
                    == Role::WatchingAlert)
            }),
            old(self).role() != Role::NoLine && r is Ok ==> final(self).pin_waits() == old(
                self,
            ).pin_waits().push(true),
            r == Err::<Alert, Error>(Error::AlertPin) ==> final(self).pin_waits() == old(
                self,
            ).pin_waits().push(false),
            old(self).role() != Role::NoLine && final(self).pin_waits().len() > old(
                self,
            ).pin_waits().len() && !final(self).pin_waits().last() ==> r == Err::<Alert, Error>(
                Error::AlertPin,
            ),
            final(self).pin_waits().len() <= old(self).pin_waits().len() + 1,
            old(self).role() == Role::WatchingAlert ==> final(self).ops().len() <= old(self).ops().len() + 1,
            (old(self).role() == Role::Unconfigured || old(self).role() == Role::WatchingDataReady)
                ==> final(self).ops().len() <= old(self).ops().len() + 3,
            r matches Err(e) ==> ({
                &&& (e matches Error::Bus(_) ==> crate::bus::op_failed(final(self).ops().last()))
                &&& (e == Error::InvalidRegisterData ==> (final(self).ops().last()
                    matches BusOp::Read {
                    addr: CONFIGURATION_ADDR,
                    result: Ok(v),
                } && spec_decode_config(v) is None))
            }),
            r matches Ok(a) ==> (final(self).ops().last() matches BusOp::Read {
                addr: CONFIGURATION_ADDR,
                result: Ok(v),
            } && spec_decode_config(v) matches Some(c) && a == spec_classify(
                c.high_alert,
                c.low_alert,
            )),
    {
        if self.alert.is_none() {
            let ghost base = self.ops();
            let mut fuel: u64 = u64::MAX;
            while fuel > 0
                invariant
                    self.store() == old(self).store(),
                    self.role() == old(self).role(),
                    self.role() == Role::NoLine,
                    self.pin_waits() == old(self).pin_waits(),
                    base == old(self).ops(),
                    base.is_prefix_of(self.ops()),
                    no_writes(self.ops().skip(base.len() as int)),
                decreases fuel,
            {
                fuel = fuel - 1;
                let ghost before = self.ops();
                let res = self.check_alert();
                proof {
                    lemma_no_writes_join(base, before, self.ops());
                }
                match res {
                    Ok(a) => {
                        match a {
                            Alert::NoAlert => (),
                            _ => {
                                return Ok(a);
                            },
                        }
                    },
                    Err(e) => {
                        return Err(e);
                    },
                }
            }
            return Err(Error::DataNotReady);
        }
        let ap = match self.alert.take() {
            Option::Some(ap) => ap,
            Option::None => {
                proof {
                    assert(false);
                }
                return Err(Error::AlertPin);
            },
        };
        let ghost base = self.ops();
        let (mut pin, was_alert) = match ap {
            AlertPin::Alert(p) => (p, true),
            AlertPin::Unknown(p) => (p, false),
            AlertPin::DataReady(p) => (p, false),
        };
        if !was_alert {
            match self.configure_pin(AlertPinSelect::Alert) {
                Ok(()) => (),
                Err(e) => {
                    self.alert = Some(AlertPin::Unknown(pin));
                    return Err(e);
                },
            };
        }
        let ghost o1 = self.ops();
        let wr = pin.wait_for_high();
        self.alert = Some(AlertPin::Alert(pin));
        match wr {
            Ok(()) => (),
            Err(_) => {
                return Err(Error::AlertPin);
            },
        };
        let out = self.check_alert();
        proof {
            if !was_alert {
                lemma_one_write_extend(base, o1, self.ops());
            } else {
                lemma_no_writes_join(base, o1, self.ops());
            }
        }
        out
    }
}

impl<B: RegisterBus, P: AlertLine, M> Tmp117<B, P, M> {
    /// Reconfigure the device's pin-select and polarity fields for the
    /// given condition, with the alert line temporarily held out of
    /// any role; used by the waiting reads when the role changes.
    fn configure_pin(&mut self, sel: AlertPinSelect) -> (r: Result<(), Error>)
        ensures
            final(self).role() == old(self).role(),
            final(self).pin_waits() == old(self).pin_waits(),
            old(self).ops().is_prefix_of(final(self).ops()),
            r is Ok ==> ({
                &&& final(self).store() == (DeviceStore {
                    config: clear_status(with_pin_select(old(self).store().config, sel)),
                    ..old(self).store()
                })
                &&& final(self).ops().len() == old(self).ops().len() + 2
                &&& is_config_read(final(self).ops()[final(self).ops().len() - 2])
                &&& (final(self).ops().last() matches BusOp::Write {
                    addr: CONFIGURATION_ADDR,
                    ok: true,
                    ..
                })
                &&& one_config_write(final(self).ops().skip(old(self).ops().len() as int))
            }),
            final(self).ops().len() <= old(self).ops().len() + 2,
            r is Err ==> ({
                &&& (final(self).store() == old(self).store() || final(self).store()
                    == (DeviceStore {
                    config: clear_status(with_pin_select(old(self).store().config, sel)),
                    ..old(self).store()
                }))
                &&& (r == Err::<(), Error>(Error::Bus(crate::bus::BusFault)) ==> crate::bus::op_failed(
                    final(self).ops().last(),
                ))
                &&& (r == Err::<(), Error>(Error::InvalidRegisterData) ==> (final(self).ops().last() matches BusOp::Read {
                    addr: CONFIGURATION_ADDR,
                    result: Ok(v),
                } && spec_decode_config(v) is None))
                &&& (r == Err::<(), Error>(Error::Bus(crate::bus::BusFault)) || r == Err::<
                    (),
                    Error,
                >(Error::InvalidRegisterData))
            }),
    {
        let ghost base = self.ops();
        let c = match self.tmp_ll.read_config() {
            Ok(c) => c,
            Err(e) => {
                proof {
                    lemma_push_is_prefix(base, self.ops());
                }
                return Err(e);
            },
        };
        proof {
            lemma_push_is_prefix(base, self.ops());
        }
        let target = pin_select_target(c, sel);
        let ghost o1 = self.ops();
        match self.tmp_ll.write_config(target) {
            Ok(()) => {
                proof {
                    lemma_prefix_push(base, o1, self.ops().last());
                    let delta = self.ops().skip(base.len() as int);
                    lemma_skip_two(base, self.ops(), o1.last(), self.ops().last());
                    assert(is_write(delta[1]) && op_addr(delta[1]) == CONFIGURATION_ADDR);
                    assert(!is_write(delta[0]));
                    assert(one_config_write(delta));
                }
                Ok(())
            },
            Err(e) => {
                proof {
                    lemma_prefix_push(base, o1, self.ops().last());
                }
                Err(e)
            },
        }
    }
}

/// The configuration as `to_continuous` leaves it: continuous mode,
/// with the averaging and the cycle replaced where the settings
/// supply them.
pub open spec fn cont_target(c: Configuration, k: ContinuousConfig) -> Configuration {
    Configuration {
        mode: ConversionMode::Continuous,
        average: match k.average {
            Some(a) => a,
            None => c.average,
        },
        conversion: match k.conversion {
            Some(v) => v,
            None => c.conversion,
        },
        ..c
    }
}

/// The completed high-limit write that `to_continuous` issues when a
/// high limit is supplied, as a history slice.
pub open spec fn high_write(k: ContinuousConfig) -> Seq<BusOp> {
    match k.high {
        Some(h) => seq![
            BusOp::Write {
                addr: crate::register::HIGH_LIMIT_ADDR,
                value: h.lsb as u16,
                ok: true,
            },
        ],
        None => Seq::empty(),
    }
}

/// The completed low-limit write that `to_continuous` issues when a
/// low limit is supplied, as a history slice.
pub open spec fn low_write(k: ContinuousConfig) -> Seq<BusOp> {
    match k.low {
        Some(l) => seq![
            BusOp::Write { addr: crate::register::LOW_LIMIT_ADDR, value: l.lsb as u16, ok: true },
        ],
        None => Seq::empty(),
    }
}

/// The completed offset write that `to_continuous` issues when an
/// offset is supplied, as a history slice.
pub open spec fn offset_write(k: ContinuousConfig) -> Seq<BusOp> {
    match k.offset {
        Some(o) => seq![
            BusOp::Write {
                addr: crate::register::TEMPERATURE_OFFSET_ADDR,
                value: o.lsb as u16,
                ok: true,
            },
        ],
        None => Seq::empty(),
    }
}

/// All the direct writes that `to_continuous` issues after its
/// configuration edit: high limit, low limit, offset, in that fixed
/// order, each present exactly when the settings supply it.
pub open spec fn limit_writes(k: ContinuousConfig) -> Seq<BusOp> {
    high_write(k) + low_write(k) + offset_write(k)
}

/// The history slice that `write_eeprom` leaves behind on success: a
/// busy-poll run before each of the three cell writes, in the fixed
/// cell order.
pub open spec fn eeprom_write_trace(s: Seq<BusOp>, a: u16, b: u16, c: u16) -> bool {
    exists|p1: Seq<BusOp>, p2: Seq<BusOp>, p3: Seq<BusOp>|
        #![trigger busy_poll_seq(p1), busy_poll_seq(p2), busy_poll_seq(p3)]
        {
            &&& s == p1 + seq![
                BusOp::Write { addr: crate::register::UEEPROM1_ADDR, value: a, ok: true },
            ] + p2 + seq![
                BusOp::Write { addr: crate::register::UEEPROM2_ADDR, value: b, ok: true },
            ] + p3 + seq![
                BusOp::Write { addr: crate::register::UEEPROM3_ADDR, value: c, ok: true },
            ]
            &&& busy_poll_seq(p1)
            &&& busy_poll_seq(p2)
            &&& busy_poll_seq(p3)
        }
}

/// One push on a base: the new slice past the base is that one entry.
proof fn lemma_skip_one(base: Seq<BusOp>, cur: Seq<BusOp>)
    requires
        cur.len() == base.len() + 1,
        cur == base.push(cur.last()),
    ensures
        cur.skip(base.len() as int) =~= seq![cur.last()],
        !is_write(cur.last()) ==> no_writes(cur.skip(base.len() as int)),
{
}

/// Two pushes on a base: the new slice past the base is those two
/// entries in order.
proof fn lemma_skip_two(base: Seq<BusOp>, cur: Seq<BusOp>, a: BusOp, b: BusOp)
    requires
        cur == base.push(a).push(b),
    ensures
        cur.skip(base.len() as int) =~= seq![a, b],
        !is_write(a) && !is_write(b) ==> no_writes(cur.skip(base.len() as int)),
{
    assert(cur.skip(base.len() as int) =~= seq![a, b]);
}

/// Write-free slices compose: if nothing past the base was a write
/// when the middle state was reached, and nothing past the middle was
/// a write either, then nothing past the base is a write.
proof fn lemma_no_writes_join(base: Seq<BusOp>, mid: Seq<BusOp>, cur: Seq<BusOp>)
    requires
        base.is_prefix_of(mid),
        mid.is_prefix_of(cur),
        no_writes(mid.skip(base.len() as int)),
        no_writes(cur.skip(mid.len() as int)),
    ensures
        base.is_prefix_of(cur),
        no_writes(cur.skip(base.len() as int)),
{
    assert(cur.subrange(0, base.len() as int) =~= base);
    assert forall|i: int| 0 <= i < cur.len() - base.len() implies !is_write(
        #[trigger] cur.skip(base.len() as int)[i],
    ) by {
        let j = base.len() + i;
        assert(cur.skip(base.len() as int)[i] == cur[j]);
        if j < mid.len() {
            assert(mid[j] == cur.subrange(0, mid.len() as int)[j]);
            assert(mid.skip(base.len() as int)[i] == mid[j]);
        } else {
            assert(cur.skip(mid.len() as int)[j - mid.len()] == cur[j]);
        }
    }
}

/// A slice with exactly one configuration write, extended by
/// write-free transactions, still holds exactly that one write.
proof fn lemma_one_write_extend(base: Seq<BusOp>, mid: Seq<BusOp>, cur: Seq<BusOp>)
    requires
        base.is_prefix_of(mid),
        mid.is_prefix_of(cur),
        one_config_write(mid.skip(base.len() as int)),
        no_writes(cur.skip(mid.len() as int)),
    ensures
        base.is_prefix_of(cur),
        one_config_write(cur.skip(base.len() as int)),
{
    assert(cur.subrange(0, base.len() as int) =~= base);
    let dm = mid.skip(base.len() as int);
    let dc = cur.skip(base.len() as int);
    let j = choose|j: int|
        0 <= j < dm.len() && is_write(#[trigger] dm[j]) && op_addr(dm[j]) == CONFIGURATION_ADDR
            && (forall|i: int| 0 <= i < dm.len() && i != j ==> !is_write(#[trigger] dm[i]));
    assert(dm[j] == mid[base.len() + j]);
    assert(mid[base.len() + j] == cur.subrange(0, mid.len() as int)[base.len() + j]);
    assert(dc[j] == cur[base.len() + j]);
    assert(is_write(dc[j]) && op_addr(dc[j]) == CONFIGURATION_ADDR);
    assert forall|i: int| 0 <= i < dc.len() && i != j implies !is_write(#[trigger] dc[i]) by {
        let k = base.len() + i;
        assert(dc[i] == cur[k]);
        if k < mid.len() {
            assert(mid[k] == cur.subrange(0, mid.len() as int)[k]);
            assert(dm[i] == mid[k]);
        } else {
            assert(cur.skip(mid.len() as int)[k - mid.len()] == cur[k]);
        }
    }
    assert(one_config_write(dc));
}

/// Appending one completed transaction keeps the slice past the base
/// all-completed.
proof fn lemma_all_completed_push(base: Seq<BusOp>, cur: Seq<BusOp>, op: BusOp)
    requires
        base.len() <= cur.len(),
        crate::bus::all_completed(cur.skip(base.len() as int)),
        !crate::bus::op_failed(op),
    ensures
        crate::bus::all_completed(cur.push(op).skip(base.len() as int)),
{
    let b = base.len() as int;
    assert forall|i: int|
        0 <= i < cur.push(op).skip(b).len() implies !crate::bus::op_failed(
        #[trigger] cur.push(op).skip(b)[i],
    ) by {
        assert(cur.push(op).skip(b)[i] == cur.push(op)[b + i]);
        if b + i < cur.len() {
            assert(cur.skip(b)[i] == cur[b + i]);
        }
    }
}

/// Dropping the transaction just appended gives back the slice that
/// stood past the base before it.
proof fn lemma_skip_drop_push(base: Seq<BusOp>, cur: Seq<BusOp>, op: BusOp)
    requires
        base.len() <= cur.len(),
    ensures
        cur.push(op).skip(base.len() as int).drop_last() =~= cur.skip(base.len() as int),
{
}

/// All-completed slices compose across a middle state.
proof fn lemma_all_completed_join(base: Seq<BusOp>, mid: Seq<BusOp>, cur: Seq<BusOp>)
    requires
        base.is_prefix_of(mid),
        mid.is_prefix_of(cur),
        crate::bus::all_completed(mid.skip(base.len() as int)),
        crate::bus::all_completed(cur.skip(mid.len() as int)),
    ensures
        base.is_prefix_of(cur),
        crate::bus::all_completed(cur.skip(base.len() as int)),
{
    assert(cur.subrange(0, base.len() as int) =~= base);
    assert forall|i: int|
        0 <= i < cur.len() - base.len() implies !crate::bus::op_failed(
        #[trigger] cur.skip(base.len() as int)[i],
    ) by {
        let j = base.len() + i;
        assert(cur.skip(base.len() as int)[i] == cur[j]);
        if j < mid.len() {
            assert(mid[j] == cur.subrange(0, mid.len() as int)[j]);
            assert(mid.skip(base.len() as int)[i] == mid[j]);
        } else {
            assert(cur.skip(mid.len() as int)[j - mid.len()] == cur[j]);
        }
    }
}

/// The same composition when the very last transaction is excluded.
proof fn lemma_all_completed_join_drop(base: Seq<BusOp>, mid: Seq<BusOp>, cur: Seq<BusOp>)
    requires
        base.is_prefix_of(mid),
        mid.is_prefix_of(cur),
        cur.len() > mid.len(),
        crate::bus::all_completed(mid.skip(base.len() as int)),
        crate::bus::all_completed(cur.skip(mid.len() as int).drop_last()),
    ensures
        base.is_prefix_of(cur),
        crate::bus::all_completed(cur.skip(base.len() as int).drop_last()),
{
    assert(cur.subrange(0, base.len() as int) =~= base);
    assert forall|i: int|
        0 <= i < cur.len() - base.len() - 1 implies !crate::bus::op_failed(
        #[trigger] cur.skip(base.len() as int).drop_last()[i],
    ) by {
        let j = base.len() + i;
        assert(cur.skip(base.len() as int).drop_last()[i] == cur[j]);
        if j < mid.len() {
            assert(mid[j] == cur.subrange(0, mid.len() as int)[j]);
            assert(mid.skip(base.len() as int)[i] == mid[j]);
        } else {
            assert(cur.skip(mid.len() as int).drop_last()[j - mid.len()] == cur[j]);
        }
    }
}

/// A single push on a base history leaves the base a prefix.
proof fn lemma_push_is_prefix(base: Seq<BusOp>, cur: Seq<BusOp>)
    requires
        cur.len() == base.len() + 1,
        cur == base.push(cur.last()),
    ensures
        base.is_prefix_of(cur),
{
    assert(cur.subrange(0, base.len() as int) =~= base);
}

/// Pushing one more entry keeps an established prefix a prefix.
proof fn lemma_prefix_push(base: Seq<BusOp>, cur: Seq<BusOp>, op: BusOp)
    requires
        base.is_prefix_of(cur),
    ensures
        base.is_prefix_of(cur.push(op)),
{
    assert(cur.push(op).subrange(0, base.len() as int) =~= base);
}

/// Prefixes chain: a prefix of a prefix is a prefix.
proof fn lemma_prefix_trans(a: Seq<BusOp>, b: Seq<BusOp>, c: Seq<BusOp>)
    requires
        a.is_prefix_of(b),
        b.is_prefix_of(c),
    ensures
        a.is_prefix_of(c),
{
    assert(c.subrange(0, a.len() as int) =~= a);
}

/// Two pushes on a base history leave the base as a prefix, with the
/// two new entries at the end.
proof fn lemma_two_step(base: Seq<BusOp>, mid: Seq<BusOp>, cur: Seq<BusOp>, a: BusOp, b: BusOp)
    requires
        mid == base.push(a),
        cur == mid.push(b),
    ensures
        base.is_prefix_of(cur),
        cur.len() == base.len() + 2,
        cur[cur.len() - 2] == a,
        cur.last() == b,
{
    assert(cur.subrange(0, base.len() as int) =~= base);
}

} // verus!
