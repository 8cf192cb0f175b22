use tmp117::register::Average;
use tmp117::register::AlertPinSelect;
use tmp117::register::Configuration;
use tmp117::register::Conversion;
use tmp117::register::ConversionMode;
use tmp117::register::DeviceID;
use tmp117::register::EEPROM;
use tmp117::register::Polarity;
use tmp117::register::TriggerMode;
use tmp117::Celsius;
use tmp117::NANO_CELSIUS_PER_LSB;

fn power_on_config() -> Configuration {
    Configuration {
        reset: false,
        dr_alert: AlertPinSelect::Alert,
        polarity: Polarity::ActiveLow,
        trigger_mode: TriggerMode::Alert,
        average: Average::Avg8,
        conversion: Conversion::Ms1000,
        mode: ConversionMode::Continuous,
        eeprom_busy: false,
        data_ready: false,
        low_alert: false,
        high_alert: false,
    }
}

#[test]
fn config_power_on_word() {
    // AVG = 01 at bits 5..6, CONV = 100 at bits 7..9, MOD = 00.
    assert_eq!(power_on_config().encode(), 0x0220);
}

#[test]
fn config_codec_round_trip() {
    let c = Configuration {
        reset: false,
        dr_alert: AlertPinSelect::DataReady,
        polarity: Polarity::ActiveHigh,
        trigger_mode: TriggerMode::Thermal,
        average: Average::Avg64,
        conversion: Conversion::Ms16000,
        mode: ConversionMode::OneShot,
        eeprom_busy: true,
        data_ready: true,
        low_alert: true,
        high_alert: true,
    };
    let w = c.encode();
    assert_eq!(Configuration::decode(w), Some(c));
}

#[test]
fn config_decode_rejects_reserved_mode() {
    // Mode bits 10..11 set to the reserved pattern 2.
    assert_eq!(Configuration::decode(2u16 << 10), None);
    assert_eq!(Configuration::decode(0x0800 | 0x0220), None);
}

#[test]
fn config_decode_ignores_reserved_bit0() {
    assert_eq!(Configuration::decode(0x0221), Configuration::decode(0x0220));
}

#[test]
fn config_decode_fields() {
    let c = Configuration::decode(0x0220).unwrap();
    assert_eq!(c.average, Average::Avg8);
    assert_eq!(c.conversion, Conversion::Ms1000);
    assert_eq!(c.mode, ConversionMode::Continuous);
    assert!(!c.data_ready && !c.eeprom_busy && !c.low_alert && !c.high_alert);
    let ready = Configuration::decode(0x0220 | (1 << 13)).unwrap();
    assert!(ready.data_ready);
    let busy = Configuration::decode(0x0220 | (1 << 12)).unwrap();
    assert!(busy.eeprom_busy);
}

#[test]
fn eeprom_status_decode() {
    assert_eq!(EEPROM::decode(0), EEPROM { busy: false, unlock: false });
    assert_eq!(EEPROM::decode(1 << 14), EEPROM { busy: true, unlock: false });
    assert_eq!(EEPROM::decode(1 << 15), EEPROM { busy: false, unlock: true });
}

#[test]
fn device_id_decode() {
    let d = DeviceID::decode(0x3117);
    assert_eq!(d, DeviceID { device_id: 0x117, revision: 3 });
}

#[test]
fn temperature_decode_zero() {
    let t = Celsius::from_raw(0x0000);
    assert_eq!(t.nano_celsius(), 0);
    assert_eq!(t.nano_celsius() as f64 / 1e9, 0.0);
}

#[test]
fn temperature_decode_min() {
    // 0x8000 is -32768 LSB: exactly -256 degrees Celsius.
    let t = Celsius::from_raw(0x8000);
    assert_eq!(t.lsb, -32768);
    assert_eq!(t.nano_celsius(), -256_000_000_000);
    assert_eq!(t.nano_celsius() as f64 / 1e9, -256.0);
}

#[test]
fn temperature_decode_max() {
    // 0x7FFF is 32767 LSB: +255.9921875 degrees Celsius.
    let t = Celsius::from_raw(0x7FFF);
    assert_eq!(t.nano_celsius(), 255_992_187_500);
    assert_eq!(t.nano_celsius() as f64 / 1e9, 255.9921875);
}

#[test]
fn temperature_scale_matches_datasheet() {
    assert_eq!(NANO_CELSIUS_PER_LSB, 7_812_500);
    // 25.0 degrees Celsius is 3200 LSB.
    assert_eq!(Celsius::from_raw(0x0C80).nano_celsius(), 25_000_000_000);
    assert_eq!(Celsius { lsb: 3200 }.nano_celsius() as f64 / 1e9, 25.0f64);
}

#[test]
fn temperature_raw_round_trip() {
    let t = Celsius { lsb: -2 };
    assert_eq!(t.to_raw(), 0xFFFE);
    assert_eq!(Celsius::from_raw(t.to_raw()), t);
}
