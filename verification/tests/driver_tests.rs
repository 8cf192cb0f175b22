use tmp117::bus::BusFault;
use tmp117::bus::BusOp;
use tmp117::driver::AlertPin;
use tmp117::driver::ContinuousConfig;
use tmp117::driver::Tmp117;
use tmp117::register::Average;
use tmp117::register::HighLimit;
use tmp117::register::LowLimit;
use tmp117::register::TemperatureOffset;
use tmp117::register::CONFIGURATION_ADDR;
use tmp117::register::UEEPROM1_ADDR;
use tmp117::register::UEEPROM2_ADDR;
use tmp117::register::UEEPROM3_ADDR;
use tmp117::sim::SimBus;
use tmp117::sim::SimPin;
use tmp117::tmp117_ll::Tmp117LL;
use tmp117::Alert;
use tmp117::Celsius;
use tmp117::Error;
use tmp117::UnknownMode;

fn no_settings() -> ContinuousConfig {
    ContinuousConfig { average: None, conversion: None, high: None, low: None, offset: None }
}

fn is_busy_config_read(op: &BusOp) -> bool {
    match op {
        BusOp::Read { addr, result: Ok(v) } => *addr == CONFIGURATION_ADDR && (v >> 12) & 1 == 1,
        _ => false,
    }
}

fn is_clear_config_read(op: &BusOp) -> bool {
    match op {
        BusOp::Read { addr, result: Ok(v) } => *addr == CONFIGURATION_ADDR && (v >> 12) & 1 == 0,
        _ => false,
    }
}

#[test]
fn rw_register_round_trip() {
    let sim = SimBus::new();
    let mut ll = Tmp117LL::new(sim);
    ll.write_high_limit(HighLimit(0x1234)).unwrap();
    assert_eq!(ll.read_high_limit().unwrap(), HighLimit(0x1234));
    ll.write_low_limit(LowLimit(0xFF00)).unwrap();
    assert_eq!(ll.read_low_limit().unwrap(), LowLimit(0xFF00));
    ll.write_temperature_offset(TemperatureOffset(0x0040)).unwrap();
    assert_eq!(ll.read_temperature_offset().unwrap(), TemperatureOffset(0x0040));
    ll.write_raw_reg(UEEPROM1_ADDR, 7).unwrap();
    assert_eq!(ll.read_ueeprom1().unwrap().0, 7);
    ll.write_raw_reg(UEEPROM2_ADDR, 8).unwrap();
    assert_eq!(ll.read_ueeprom2().unwrap().0, 8);
    ll.write_raw_reg(UEEPROM3_ADDR, 9).unwrap();
    assert_eq!(ll.read_ueeprom3().unwrap().0, 9);
}

#[test]
fn oneshot_gating_and_shutdown_handoff() {
    let mut sim = SimBus::new();
    sim.temp_raw = 0x0C80;
    let t = Tmp117::<SimBus, SimPin, UnknownMode>::new(sim, None);
    let mut t1 = match t.to_oneshot(Average::NoAverage) {
        Ok(t1) => t1,
        Err(_) => panic!("to_oneshot failed"),
    };
    let writes_after_transition = t1.bus().log.iter().filter(|op| {
        matches!(op, BusOp::Write { .. })
    }).count();
    t1.bus_mut().ready_countdown = 1;
    // Not ready yet: DataNotReady, and the one-shot handle comes back.
    t1 = match t1.read_temp() {
        Err((t_back, Error::DataNotReady)) => t_back,
        _ => panic!("expected DataNotReady"),
    };
    // Ready now: the value and a shutdown-typed handle.
    let (temp, t_shutdown) = match t1.read_temp() {
        Ok(pair) => pair,
        Err(_) => panic!("expected a temperature"),
    };
    assert_eq!(temp.lsb, 3200);
    assert_eq!(temp.nano_celsius(), 25_000_000_000);
    // Reading the temperature never wrote to the device.
    let writes_total = t_shutdown.bus().log.iter().filter(|op| {
        matches!(op, BusOp::Write { .. })
    }).count();
    assert_eq!(writes_total, writes_after_transition);
}

#[test]
fn eeprom_write_protocol_ordering() {
    let mut sim = SimBus::new();
    sim.busy_countdown = 2;
    sim.busy_per_write = 2;
    let mut t = Tmp117::<SimBus, SimPin, UnknownMode>::new(sim, None);
    t.write_eeprom([10, 20, 30]).unwrap();
    let log = &t.bus().log;
    // For each cell: exactly two busy polls, one clear poll, the write.
    assert_eq!(log.len(), 12);
    let cells: [(u8, u16); 3] = [(UEEPROM1_ADDR, 10), (UEEPROM2_ADDR, 20), (UEEPROM3_ADDR, 30)];
    for (i, (addr, value)) in cells.iter().enumerate() {
        let chunk = &log[i * 4..i * 4 + 4];
        assert!(is_busy_config_read(&chunk[0]));
        assert!(is_busy_config_read(&chunk[1]));
        assert!(is_clear_config_read(&chunk[2]));
        assert_eq!(chunk[3], BusOp::Write { addr: *addr, value: *value, ok: true });
    }
    // The cells retain the values: reads are not busy-gated.
    assert_eq!(t.read_eeprom().unwrap(), [10, 20, 30]);
}

#[test]
fn wait_read_temp_without_line_only_reads() {
    let mut sim = SimBus::new();
    sim.temp_raw = 0x1900;
    let t = Tmp117::<SimBus, SimPin, UnknownMode>::new(sim, None);
    let mut tc = match t.to_continuous(no_settings()) {
        Ok(tc) => tc,
        Err(_) => panic!("to_continuous failed"),
    };
    tc.bus_mut().ready_countdown = 3;
    let before = tc.bus().log.len();
    let temp = tc.wait_read_temp().unwrap();
    assert_eq!(temp.lsb as u16, 0x1900);
    let tail = &tc.bus().log[before..];
    // Three not-ready polls, the ready poll, then the temperature read.
    assert_eq!(tail.len(), 5);
    for op in tail {
        assert!(matches!(op, BusOp::Read { .. }));
    }
}

#[test]
fn wait_read_temp_with_line_reconfigures_once() {
    let mut sim = SimBus::new();
    sim.temp_raw = 0x0C80;
    let pin = SimPin::new();
    let t = Tmp117::<SimBus, SimPin, UnknownMode>::new(sim, Some(pin));
    let mut tc = match t.to_continuous(no_settings()) {
        Ok(tc) => tc,
        Err(_) => panic!("to_continuous failed"),
    };
    let n0 = tc.bus().log.len();
    tc.wait_read_temp().unwrap();
    let first: Vec<&BusOp> = tc.bus().log[n0..].iter().collect();
    let first_writes: Vec<&&BusOp> = first.iter().filter(|op| {
        matches!(op, BusOp::Write { .. })
    }).collect();
    // The first call reconfigures the pin-select fields exactly once,
    // for data-ready (bit 2) and active-high polarity (bit 3).
    assert_eq!(first_writes.len(), 1);
    match first_writes[0] {
        BusOp::Write { addr, value, ok } => {
            assert_eq!(*addr, CONFIGURATION_ADDR);
            assert!(*ok);
            assert_eq!((value >> 2) & 1, 1);
            assert_eq!((value >> 3) & 1, 1);
        },
        _ => panic!("expected a write"),
    }
    // Later calls never reconfigure and keep using the line.
    let n1 = tc.bus().log.len();
    tc.wait_read_temp().unwrap();
    let second_writes = tc.bus().log[n1..].iter().filter(|op| {
        matches!(op, BusOp::Write { .. })
    }).count();
    assert_eq!(second_writes, 0);
    let (_ll, alert) = tc.free();
    match alert {
        Some(AlertPin::DataReady(p)) => assert_eq!(p.count, 2),
        _ => panic!("the line should be watching data-ready"),
    }
}

#[test]
fn alert_classification_all_combinations() {
    let cases: [(bool, bool, Alert); 4] = [
        (true, true, Alert::HighLow),
        (true, false, Alert::High),
        (false, true, Alert::Low),
        (false, false, Alert::NoAlert),
    ];
    for (high, low, expected) in cases.iter() {
        let mut sim = SimBus::new();
        sim.high_alert = *high;
        sim.low_alert = *low;
        let t = Tmp117::<SimBus, SimPin, UnknownMode>::new(sim, None);
        let mut tc = match t.to_continuous(no_settings()) {
            Ok(tc) => tc,
            Err(_) => panic!("to_continuous failed"),
        };
        assert_eq!(tc.check_alert().unwrap(), *expected);
    }
}

#[test]
fn wait_alert_with_line_reconfigures_for_alert() {
    let mut sim = SimBus::new();
    sim.high_alert = true;
    let pin = SimPin::new();
    let t = Tmp117::<SimBus, SimPin, UnknownMode>::new(sim, Some(pin));
    let mut tc = match t.to_continuous(no_settings()) {
        Ok(tc) => tc,
        Err(_) => panic!("to_continuous failed"),
    };
    let n0 = tc.bus().log.len();
    let a = tc.wait_alert().unwrap();
    assert_eq!(a, Alert::High);
    let writes: Vec<&BusOp> = tc.bus().log[n0..].iter().filter(|op| {
        matches!(op, BusOp::Write { .. })
    }).collect();
    assert_eq!(writes.len(), 1);
    match writes[0] {
        BusOp::Write { value, .. } => {
            // Pin-select drops to the alert flags: bit 2 clear, bit 3 high.
            assert_eq!((value >> 2) & 1, 0);
            assert_eq!((value >> 3) & 1, 1);
        },
        _ => panic!("expected a write"),
    }
    let (_ll, alert) = tc.free();
    match alert {
        Some(AlertPin::Alert(p)) => assert_eq!(p.count, 1),
        _ => panic!("the line should be watching the alert flags"),
    }
}

#[test]
fn wait_alert_without_line_polls_until_alert() {
    let sim = SimBus::new();
    let t = Tmp117::<SimBus, SimPin, UnknownMode>::new(sim, None);
    let mut tc = match t.to_continuous(no_settings()) {
        Ok(tc) => tc,
        Err(_) => panic!("to_continuous failed"),
    };
    tc.bus_mut().low_alert = true;
    let a = tc.wait_alert().unwrap();
    assert_eq!(a, Alert::Low);
}

#[test]
fn end_to_end_oneshot_scenario() {
    let sim = SimBus::new();
    let t = Tmp117::<SimBus, SimPin, UnknownMode>::new(sim, None);
    let mut t1 = match t.to_oneshot(Average::NoAverage) {
        Ok(t1) => t1,
        Err(_) => panic!("to_oneshot failed"),
    };
    {
        let bus = t1.bus_mut();
        bus.ready_countdown = 3;
        bus.temp_raw = 0x0C80;
    }
    // The device reports data-ready only after three polls.
    for _ in 0..3 {
        t1 = match t1.read_temp() {
            Err((t_back, Error::DataNotReady)) => t_back,
            _ => panic!("expected DataNotReady while converting"),
        };
    }
    let (temp, t_shutdown) = match t1.read_temp() {
        Ok(pair) => pair,
        Err(_) => panic!("expected the temperature on the fourth poll"),
    };
    assert_eq!(temp.nano_celsius(), 25_000_000_000);
    // A second temperature read is not expressible on the shutdown
    // handle; the sensor must first transition out of shutdown.
    let t2 = match t_shutdown.to_oneshot(Average::Avg8) {
        Ok(t2) => t2,
        Err(_) => panic!("to_oneshot failed"),
    };
    drop(t2);
}

#[test]
fn to_continuous_stores_limits_and_offset() {
    let sim = SimBus::new();
    let t = Tmp117::<SimBus, SimPin, UnknownMode>::new(sim, None);
    let settings = ContinuousConfig {
        average: Some(Average::NoAverage),
        conversion: None,
        high: Some(Celsius { lsb: 3200 }),
        low: Some(Celsius { lsb: -256 }),
        offset: Some(Celsius { lsb: 64 }),
    };
    let tc = match t.to_continuous(settings) {
        Ok(tc) => tc,
        Err(_) => panic!("to_continuous failed"),
    };
    assert_eq!(tc.bus().high_limit, 0x0C80);
    // Negative limits are stored in two's complement.
    assert_eq!(tc.bus().low_limit, 0xFF00);
    assert_eq!(tc.bus().temp_offset, 64);
}

#[test]
fn reset_writes_reset_bit_and_restores_defaults() {
    let sim = SimBus::new();
    let t = Tmp117::<SimBus, SimPin, UnknownMode>::new(sim, None);
    let t1 = match t.to_oneshot(Average::Avg32) {
        Ok(t1) => t1,
        Err(_) => panic!("to_oneshot failed"),
    };
    let t2 = match t1.reset() {
        Ok(t2) => t2,
        Err(_) => panic!("reset failed"),
    };
    let last_write = t2.bus().log.iter().rev().find(|op| {
        matches!(op, BusOp::Write { .. })
    }).unwrap();
    match last_write {
        BusOp::Write { addr, value, .. } => {
            assert_eq!(*addr, CONFIGURATION_ADDR);
            assert_eq!((value >> 1) & 1, 1);
        },
        _ => panic!("expected a write"),
    }
    // The simulated device restored its power-on configuration.
    assert_eq!(t2.bus().config.encode(), 0x0220);
}

#[test]
fn bus_fault_is_surfaced_unchanged() {
    let sim = SimBus::new();
    let t = Tmp117::<SimBus, SimPin, UnknownMode>::new(sim, None);
    let mut tc = match t.to_continuous(no_settings()) {
        Ok(tc) => tc,
        Err(_) => panic!("to_continuous failed"),
    };
    tc.bus_mut().fail_next = true;
    assert_eq!(tc.read_temp(), Err(Error::Bus(BusFault)));
    // The fault is not retried: exactly one failed transaction is logged.
    let failed = tc.bus().log.iter().filter(|op| {
        matches!(op, BusOp::Read { result: Err(_), .. })
    }).count();
    assert_eq!(failed, 1);
}

#[test]
fn undecodable_configuration_is_invalid_register_data() {
    let sim = SimBus::new();
    let t = Tmp117::<SimBus, SimPin, UnknownMode>::new(sim, None);
    let mut tc = match t.to_continuous(no_settings()) {
        Ok(tc) => tc,
        Err(_) => panic!("to_continuous failed"),
    };
    // A word whose mode field holds the reserved pattern.
    tc.bus_mut().glitch = Some(2u16 << 10);
    assert_eq!(tc.read_temp(), Err(Error::InvalidRegisterData));
    // Recoverable by re-reading.
    tc.bus_mut().ready_countdown = 0;
    assert!(tc.read_temp().is_ok());
}

#[test]
fn alert_line_fault_is_alert_pin_error() {
    let sim = SimBus::new();
    let mut pin = SimPin::new();
    pin.fail = true;
    let t = Tmp117::<SimBus, SimPin, UnknownMode>::new(sim, Some(pin));
    let mut tc = match t.to_continuous(no_settings()) {
        Ok(tc) => tc,
        Err(_) => panic!("to_continuous failed"),
    };
    assert_eq!(tc.wait_read_temp(), Err(Error::AlertPin));
}

#[test]
fn borrow_mut_reaches_the_line_in_any_role() {
    let mut ap = AlertPin::Unknown(SimPin::new());
    assert_eq!(ap.borrow_mut().count, 0);
    ap.borrow_mut().fail = true;
    match ap {
        AlertPin::Unknown(p) => assert!(p.fail),
        _ => panic!("the role must not change"),
    }
}

#[test]
fn switching_watched_condition_reconfigures_again() {
    let mut sim = SimBus::new();
    sim.high_alert = true;
    let pin = SimPin::new();
    let t = Tmp117::<SimBus, SimPin, UnknownMode>::new(sim, Some(pin));
    let mut tc = match t.to_continuous(no_settings()) {
        Ok(tc) => tc,
        Err(_) => panic!("to_continuous failed"),
    };
    tc.wait_alert().unwrap();
    // Switching from watching alerts to watching data-ready forces one
    // reconfiguration and a role change.
    let n1 = tc.bus().log.len();
    tc.wait_read_temp().unwrap();
    let writes: Vec<&BusOp> = tc.bus().log[n1..].iter().filter(|op| {
        matches!(op, BusOp::Write { .. })
    }).collect();
    assert_eq!(writes.len(), 1);
    match writes[0] {
        BusOp::Write { value, .. } => assert_eq!((value >> 2) & 1, 1),
        _ => panic!("expected a write"),
    }
    // Staying on data-ready reconfigures nothing further.
    let n2 = tc.bus().log.len();
    tc.wait_read_temp().unwrap();
    let later = tc.bus().log[n2..].iter().filter(|op| {
        matches!(op, BusOp::Write { .. })
    }).count();
    assert_eq!(later, 0);
}

#[test]
fn low_level_reads_device_id_and_eeprom_status() {
    let mut sim = SimBus::new();
    sim.device_id_raw = 0x1117;
    let ll = Tmp117LL::new(sim);
    let t = Tmp117::<SimBus, SimPin, UnknownMode>::new_from_ll(ll, None);
    let (mut ll, _alert) = t.free();
    let d = ll.read_device_id().unwrap();
    assert_eq!(d.device_id, 0x117);
    assert_eq!(d.revision, 1);
    let status = ll.read_eeprom_status().unwrap();
    assert!(!status.busy);
    assert!(!status.unlock);
    ll.bus_mut().busy_countdown = 1;
    assert!(ll.read_eeprom_status().unwrap().busy);
}
