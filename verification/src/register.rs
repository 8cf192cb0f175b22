//! The register map of the sensor: one addressable 16-bit word per
//! register, each with its access rights and its field layout, together
//! with the codec between raw words and named fields.
//!
//! The layout packs fields from the least significant bit upward.  The
//! configuration word is the only one with a reserved encoding: the
//! two-bit conversion-mode field has no meaning for the bit pattern 2,
//! and decoding rejects a word that carries it.

use vstd::prelude::*;

verus! {

/// The address byte of a register on the two-wire bus.
#[derive(Clone, Copy, PartialEq, Eq, Structural, Debug)]
pub struct Address(pub u8);

/// Address of the read-only temperature register.
pub const TEMPERATURE_ADDR: u8 = 0x00;

/// Address of the configuration register.
pub const CONFIGURATION_ADDR: u8 = 0x01;

/// Address of the high-limit register.
pub const HIGH_LIMIT_ADDR: u8 = 0x02;

/// Address of the low-limit register.
pub const LOW_LIMIT_ADDR: u8 = 0x03;

/// Address of the EEPROM status register.
pub const EEPROM_ADDR: u8 = 0x04;

/// Address of the first user EEPROM scratch cell.
pub const UEEPROM1_ADDR: u8 = 0x05;

/// Address of the second user EEPROM scratch cell.
pub const UEEPROM2_ADDR: u8 = 0x06;

/// Address of the third user EEPROM scratch cell.
pub const UEEPROM3_ADDR: u8 = 0x07;

/// Address of the temperature-offset register.
pub const TEMPERATURE_OFFSET_ADDR: u8 = 0x08;

/// Address of the read-only device-id register.
pub const DEVICE_ID_ADDR: u8 = 0x0F;

/// Temperature register (read-only): a signed two's-complement word,
/// one LSB per 0.0078125 degrees Celsius.
#[derive(Clone, Copy, PartialEq, Eq, Structural, Debug)]
pub struct Temperature(pub u16);

/// High-limit register (read-write): same format as the temperature.
#[derive(Clone, Copy, PartialEq, Eq, Structural, Debug)]
pub struct HighLimit(pub u16);

/// Low-limit register (read-write): same format as the temperature.
#[derive(Clone, Copy, PartialEq, Eq, Structural, Debug)]
pub struct LowLimit(pub u16);

/// First user EEPROM scratch cell (read-write).
#[derive(Clone, Copy, PartialEq, Eq, Structural, Debug)]
pub struct UEEPROM1(pub u16);

/// Second user EEPROM scratch cell (read-write).
#[derive(Clone, Copy, PartialEq, Eq, Structural, Debug)]
pub struct UEEPROM2(pub u16);

/// Third user EEPROM scratch cell (read-write).
#[derive(Clone, Copy, PartialEq, Eq, Structural, Debug)]
pub struct UEEPROM3(pub u16);

/// Temperature-offset register (read-write): added to the conversion
/// result; same format as the temperature.
#[derive(Clone, Copy, PartialEq, Eq, Structural, Debug)]
pub struct TemperatureOffset(pub u16);

/// What the dedicated alert pin reflects.
#[derive(Clone, Copy, PartialEq, Eq, Structural, Debug)]
pub enum AlertPinSelect {
    /// The pin reflects the state of the alert flags.
    Alert,
    /// The pin reflects the state of the data-ready flag.
    DataReady,
}

/// Polarity of the alert pin.
#[derive(Clone, Copy, PartialEq, Eq, Structural, Debug)]
pub enum Polarity {
    /// The pin is active low.
    ActiveLow,
    /// The pin is active high.
    ActiveHigh,
}

/// Alert or thermal trigger mode.
#[derive(Clone, Copy, PartialEq, Eq, Structural, Debug)]
pub enum TriggerMode {
    /// Alert mode: both limit flags are live.
    Alert,
    /// Thermal mode: only the high flag is live, with hysteresis.
    Thermal,
}

/// Conversion averaging: how many results are accumulated before the
/// temperature register is updated.
#[derive(Clone, Copy, PartialEq, Eq, Structural, Debug)]
pub enum Average {
    /// No averaging.
    NoAverage,
    /// Eight averaged conversions.
    Avg8,
    /// Thirty-two averaged conversions.
    Avg32,
    /// Sixty-four averaged conversions.
    Avg64,
}

/// Conversion cycle time; the names give the cycle without averaging.
#[derive(Clone, Copy, PartialEq, Eq, Structural, Debug)]
pub enum Conversion {
    /// 15.5 ms cycle without averaging.
    Ms15_5,
    /// 125 ms cycle without averaging.
    Ms125,
    /// 250 ms cycle without averaging.
    Ms250,
    /// 500 ms cycle without averaging.
    Ms500,
    /// 1 s cycle without averaging.
    Ms1000,
    /// 4 s cycle without averaging.
    Ms4000,
    /// 8 s cycle without averaging.
    Ms8000,
    /// 16 s cycle without averaging.
    Ms16000,
}

/// The sensor's acquisition mode as stored in the configuration word.
#[derive(Clone, Copy, PartialEq, Eq, Structural, Debug)]
pub enum ConversionMode {
    /// Convert continuously.
    Continuous,
    /// Shut down; no conversions run.
    Shutdown,
    /// Run one conversion, then shut down.
    OneShot,
}

/// The configuration register, decoded into its named fields.  The
/// status flags (`eeprom_busy`, `data_ready`, `low_alert`, `high_alert`)
/// are read-only and self-clearing on read; `reset` always reads back
/// as false.
#[derive(Clone, Copy, PartialEq, Eq, Structural, Debug)]
pub struct Configuration {
    /// Software reset: writing true resets the device within about 2 ms.
    pub reset: bool,
    /// What the alert pin reflects.
    pub dr_alert: AlertPinSelect,
    /// Polarity of the alert pin.
    pub polarity: Polarity,
    /// Alert or thermal trigger mode.
    pub trigger_mode: TriggerMode,
    /// Averaging used for each conversion.
    pub average: Average,
    /// Conversion cycle time.
    pub conversion: Conversion,
    /// Acquisition mode.
    pub mode: ConversionMode,
    /// Read-only: the EEPROM is busy programming or powering up.
    pub eeprom_busy: bool,
    /// Read-only: a conversion finished and the temperature register is
    /// fresh; cleared by reading temperature or configuration.
    pub data_ready: bool,
    /// Read-only: the conversion result crossed the low limit.
    pub low_alert: bool,
    /// Read-only: the conversion result crossed the high limit.
    pub high_alert: bool,
}

/// EEPROM status register: the busy flag mirrors the one in the
/// configuration register; the unlock bit routes scratch-cell writes to
/// the non-volatile array.
#[derive(Clone, Copy, PartialEq, Eq, Structural, Debug)]
pub struct EEPROM {
    /// The EEPROM is busy programming or powering up (read-only).
    pub busy: bool,
    /// Writes to the scratch cells program the EEPROM when set.
    pub unlock: bool,
}

/// Device-id register (read-only): a 12-bit id and a 4-bit revision.
#[derive(Clone, Copy, PartialEq, Eq, Structural, Debug)]
pub struct DeviceID {
    /// The 12-bit device id.
    pub device_id: u16,
    /// The 4-bit revision number.
    pub revision: u8,
}

/// One bit, as a 16-bit word.
pub open spec fn bit16(b: bool) -> u16 {
    if b {
        1
    } else {
        0
    }
}

/// Field encoding of the pin-select choice.
pub open spec fn spec_alert_select_bits(s: AlertPinSelect) -> u16 {
    match s {
        AlertPinSelect::Alert => 0,
        AlertPinSelect::DataReady => 1,
    }
}

/// Field encoding of the polarity choice.
pub open spec fn spec_polarity_bits(p: Polarity) -> u16 {
    match p {
        Polarity::ActiveLow => 0,
        Polarity::ActiveHigh => 1,
    }
}

/// Field encoding of the trigger mode.
pub open spec fn spec_trigger_bits(t: TriggerMode) -> u16 {
    match t {
        TriggerMode::Alert => 0,
        TriggerMode::Thermal => 1,
    }
}

/// Field encoding of the averaging choice.
pub open spec fn spec_average_bits(a: Average) -> u16 {
    match a {
        Average::NoAverage => 0,
        Average::Avg8 => 1,
        Average::Avg32 => 2,
        Average::Avg64 => 3,
    }
}

/// Field decoding of the averaging choice (total on the 2-bit range).
pub open spec fn spec_average_of(bits: u16) -> Average {
    if bits == 0 {
        Average::NoAverage
    } else if bits == 1 {
        Average::Avg8
    } else if bits == 2 {
        Average::Avg32
    } else {
        Average::Avg64
    }
}

/// Field encoding of the conversion cycle.
pub open spec fn spec_conversion_bits(c: Conversion) -> u16 {
    match c {
        Conversion::Ms15_5 => 0,
        Conversion::Ms125 => 1,
        Conversion::Ms250 => 2,
        Conversion::Ms500 => 3,
        Conversion::Ms1000 => 4,
        Conversion::Ms4000 => 5,
        Conversion::Ms8000 => 6,
        Conversion::Ms16000 => 7,
    }
}

/// Field decoding of the conversion cycle (total on the 3-bit range).
pub open spec fn spec_conversion_of(bits: u16) -> Conversion {
    if bits == 0 {
        Conversion::Ms15_5
    } else if bits == 1 {
        Conversion::Ms125
    } else if bits == 2 {
        Conversion::Ms250
    } else if bits == 3 {
        Conversion::Ms500
    } else if bits == 4 {
        Conversion::Ms1000
    } else if bits == 5 {
        Conversion::Ms4000
    } else if bits == 6 {
        Conversion::Ms8000
    } else {
        Conversion::Ms16000
    }
}

/// Field encoding of the acquisition mode.  The bit pattern 2 encodes
/// nothing: no mode maps to it.
pub open spec fn spec_mode_bits(m: ConversionMode) -> u16 {
    match m {
        ConversionMode::Continuous => 0,
        ConversionMode::Shutdown => 1,
        ConversionMode::OneShot => 3,
    }
}

/// Pack the named fields of the configuration into its 16-bit word.
/// Bit 0 is reserved and encodes as zero.
pub open spec fn spec_encode_config(c: Configuration) -> u16 {
    (bit16(c.reset) << 1) | (spec_alert_select_bits(c.dr_alert) << 2) | (spec_polarity_bits(
        c.polarity,
    ) << 3) | (spec_trigger_bits(c.trigger_mode) << 4) | (spec_average_bits(c.average) << 5) | (
    spec_conversion_bits(c.conversion) << 7) | (spec_mode_bits(c.mode) << 10) | (bit16(
        c.eeprom_busy,
    ) << 12) | (bit16(c.data_ready) << 13) | (bit16(c.low_alert) << 14) | (bit16(c.high_alert)
        << 15)
}

/// The two-bit mode field of a raw configuration word.
pub open spec fn spec_mode_field(v: u16) -> u16 {
    (v >> 10) & 3
}

/// The busy flag of a raw configuration word.
pub open spec fn spec_busy_bit(v: u16) -> bool {
    (v >> 12) & 1 == 1
}

/// The reset bit of a raw configuration word.
pub open spec fn spec_reset_bit(v: u16) -> bool {
    (v >> 1) & 1 == 1
}

/// Unpack a raw configuration word into its named fields, rejecting the
/// reserved mode pattern.  Bit 0 is reserved and is ignored.
pub open spec fn spec_decode_config(v: u16) -> Option<Configuration> {
    if spec_mode_field(v) == 2 {
        None
    } else {
        Some(
            Configuration {
                reset: (v >> 1) & 1 == 1,
                dr_alert: if (v >> 2) & 1 == 1 {
                    AlertPinSelect::DataReady
                } else {
                    AlertPinSelect::Alert
                },
                polarity: if (v >> 3) & 1 == 1 {
                    Polarity::ActiveHigh
                } else {
                    Polarity::ActiveLow
                },
                trigger_mode: if (v >> 4) & 1 == 1 {
                    TriggerMode::Thermal
                } else {
                    TriggerMode::Alert
                },
                average: spec_average_of((v >> 5) & 3),
                conversion: spec_conversion_of((v >> 7) & 7),
                mode: if spec_mode_field(v) == 0 {
                    ConversionMode::Continuous
                } else if spec_mode_field(v) == 1 {
                    ConversionMode::Shutdown
                } else {
                    ConversionMode::OneShot
                },
                eeprom_busy: (v >> 12) & 1 == 1,
                data_ready: (v >> 13) & 1 == 1,
                low_alert: (v >> 14) & 1 == 1,
                high_alert: (v >> 15) & 1 == 1,
            },
        )
    }
}

/// Bit-level fact: each field of a word composed of disjoint bounded
/// fields extracts back to that field.
proof fn lemma_compose_extract(
    w: u16,
    r: u16,
    d: u16,
    p: u16,
    t: u16,
    a: u16,
    cv: u16,
    m: u16,
    b: u16,
    dr: u16,
    lo: u16,
    hi: u16,
)
    by (bit_vector)
    requires
        w == (r << 1) | (d << 2) | (p << 3) | (t << 4) | (a << 5) | (cv << 7) | (m << 10) | (b
            << 12) | (dr << 13) | (lo << 14) | (hi << 15),
        r < 2,
        d < 2,
        p < 2,
        t < 2,
        a < 4,
        cv < 8,
        m < 4,
        b < 2,
        dr < 2,
        lo < 2,
        hi < 2,
    ensures
        (w >> 1) & 1 == r,
        (w >> 2) & 1 == d,
        (w >> 3) & 1 == p,
        (w >> 4) & 1 == t,
        (w >> 5) & 3 == a,
        (w >> 7) & 7 == cv,
        (w >> 10) & 3 == m,
        (w >> 12) & 1 == b,
        (w >> 13) & 1 == dr,
        (w >> 14) & 1 == lo,
        (w >> 15) & 1 == hi,
{
}

/// A word whose extracted fields are the encodings of `c`'s fields
/// decodes to exactly `c`.
proof fn lemma_decode_at(w: u16, c: Configuration)
    requires
        (w >> 1) & 1 == bit16(c.reset),
        (w >> 2) & 1 == spec_alert_select_bits(c.dr_alert),
        (w >> 3) & 1 == spec_polarity_bits(c.polarity),
        (w >> 4) & 1 == spec_trigger_bits(c.trigger_mode),
        (w >> 5) & 3 == spec_average_bits(c.average),
        (w >> 7) & 7 == spec_conversion_bits(c.conversion),
        (w >> 10) & 3 == spec_mode_bits(c.mode),
        (w >> 12) & 1 == bit16(c.eeprom_busy),
        (w >> 13) & 1 == bit16(c.data_ready),
        (w >> 14) & 1 == bit16(c.low_alert),
        (w >> 15) & 1 == bit16(c.high_alert),
    ensures
        spec_decode_config(w) == Some(c),
{
    assert(spec_average_of(spec_average_bits(c.average)) == c.average);
    assert(spec_conversion_of(spec_conversion_bits(c.conversion)) == c.conversion);
    assert(spec_mode_bits(c.mode) != 2);
    assert(spec_decode_config(w) is Some);
    let d = spec_decode_config(w)->Some_0;
    assert(d.reset == c.reset && d.dr_alert == c.dr_alert && d.polarity == c.polarity
        && d.trigger_mode == c.trigger_mode && d.eeprom_busy == c.eeprom_busy && d.data_ready
        == c.data_ready && d.low_alert == c.low_alert && d.high_alert == c.high_alert);
    assert(d.average == c.average && d.conversion == c.conversion && d.mode == c.mode);
    assert(d == c);
}

/// Codec round trip: decoding an encoded configuration returns exactly
/// the configuration that was encoded.
pub proof fn lemma_config_round_trip(c: Configuration)
    ensures
        spec_decode_config(spec_encode_config(c)) == Some(c),
{
    lemma_compose_extract(
        spec_encode_config(c),
        bit16(c.reset),
        spec_alert_select_bits(c.dr_alert),
        spec_polarity_bits(c.polarity),
        spec_trigger_bits(c.trigger_mode),
        spec_average_bits(c.average),
        spec_conversion_bits(c.conversion),
        spec_mode_bits(c.mode),
        bit16(c.eeprom_busy),
        bit16(c.data_ready),
        bit16(c.low_alert),
        bit16(c.high_alert),
    );
    lemma_decode_at(spec_encode_config(c), c);
}


/// The decoded reset field is exactly the word's reset bit.
pub proof fn lemma_decode_reset_bit(w: u16)
    ensures
        (spec_decode_config(w) matches Some(c) ==> c.reset == spec_reset_bit(w)),
{
}

impl Configuration {
    /// Pack this configuration into its raw 16-bit word.
    pub fn encode(self) -> (w: u16)
        ensures
            w == spec_encode_config(self),
            spec_decode_config(w) == Some(self),
    {
        proof {
            lemma_config_round_trip(self);
        }
        let r: u16 = if self.reset {
            1
        } else {
            0
        };
        let d: u16 = match self.dr_alert {
            AlertPinSelect::Alert => 0,
            AlertPinSelect::DataReady => 1,
        };
        let p: u16 = match self.polarity {
            Polarity::ActiveLow => 0,
            Polarity::ActiveHigh => 1,
        };
        let t: u16 = match self.trigger_mode {
            TriggerMode::Alert => 0,
            TriggerMode::Thermal => 1,
        };
        let a: u16 = match self.average {
            Average::NoAverage => 0,
            Average::Avg8 => 1,
            Average::Avg32 => 2,
            Average::Avg64 => 3,
        };
        let cv: u16 = match self.conversion {
            Conversion::Ms15_5 => 0,
            Conversion::Ms125 => 1,
            Conversion::Ms250 => 2,
            Conversion::Ms500 => 3,
            Conversion::Ms1000 => 4,
            Conversion::Ms4000 => 5,
            Conversion::Ms8000 => 6,
            Conversion::Ms16000 => 7,
        };
        let m: u16 = match self.mode {
            ConversionMode::Continuous => 0,
            ConversionMode::Shutdown => 1,
            ConversionMode::OneShot => 3,
        };
        let b: u16 = if self.eeprom_busy {
            1
        } else {
            0
        };
        let dr: u16 = if self.data_ready {
            1
        } else {
            0
        };
        let lo: u16 = if self.low_alert {
            1
        } else {
            0
        };
        let hi: u16 = if self.high_alert {
            1
        } else {
            0
        };
        (r << 1) | (d << 2) | (p << 3) | (t << 4) | (a << 5) | (cv << 7) | (m << 10) | (b << 12) | (
        dr << 13) | (lo << 14) | (hi << 15)
    }

    /// Unpack a raw 16-bit word, rejecting the reserved mode pattern.
    pub fn decode(v: u16) -> (r: Option<Configuration>)
        ensures
            r == spec_decode_config(v),
    {
        let mode_bits: u16 = (v >> 10) & 3;
        if mode_bits == 2 {
            return None;
        }
        let avg_bits: u16 = (v >> 5) & 3;
        let conv_bits: u16 = (v >> 7) & 7;
        Some(
            Configuration {
                reset: (v >> 1) & 1 == 1,
                dr_alert: if (v >> 2) & 1 == 1 {
                    AlertPinSelect::DataReady
                } else {
                    AlertPinSelect::Alert
                },
                polarity: if (v >> 3) & 1 == 1 {
                    Polarity::ActiveHigh
                } else {
                    Polarity::ActiveLow
                },
                trigger_mode: if (v >> 4) & 1 == 1 {
                    TriggerMode::Thermal
                } else {
                    TriggerMode::Alert
                },
                average: if avg_bits == 0 {
                    Average::NoAverage
                } else if avg_bits == 1 {
                    Average::Avg8
                } else if avg_bits == 2 {
                    Average::Avg32
                } else {
                    Average::Avg64
                },
                conversion: if conv_bits == 0 {
                    Conversion::Ms15_5
                } else if conv_bits == 1 {
                    Conversion::Ms125
                } else if conv_bits == 2 {
                    Conversion::Ms250
                } else if conv_bits == 3 {
                    Conversion::Ms500
                } else if conv_bits == 4 {
                    Conversion::Ms1000
                } else if conv_bits == 5 {
                    Conversion::Ms4000
                } else if conv_bits == 6 {
                    Conversion::Ms8000
                } else {
                    Conversion::Ms16000
                },
                mode: if mode_bits == 0 {
                    ConversionMode::Continuous
                } else if mode_bits == 1 {
                    ConversionMode::Shutdown
                } else {
                    ConversionMode::OneShot
                },
                eeprom_busy: (v >> 12) & 1 == 1,
                data_ready: (v >> 13) & 1 == 1,
                low_alert: (v >> 14) & 1 == 1,
                high_alert: (v >> 15) & 1 == 1,
            },
        )
    }
}

/// Unpack the EEPROM status register; bits 0 to 13 are reserved and are
/// ignored, so this never fails.
pub open spec fn spec_decode_eeprom(v: u16) -> EEPROM {
    EEPROM { busy: (v >> 14) & 1 == 1, unlock: (v >> 15) & 1 == 1 }
}

impl EEPROM {
    /// Unpack the raw EEPROM status word.
    pub fn decode(v: u16) -> (r: EEPROM)
        ensures
            r == spec_decode_eeprom(v),
    {
        EEPROM { busy: (v >> 14) & 1 == 1, unlock: (v >> 15) & 1 == 1 }
    }
}

/// Unpack the device-id register: the low 12 bits are the id, the high
/// 4 bits the revision.
pub open spec fn spec_decode_device_id(v: u16) -> DeviceID {
    DeviceID { device_id: v & 0xFFF, revision: ((v >> 12) & 0xF) as u8 }
}

impl DeviceID {
    /// Unpack the raw device-id word.
    pub fn decode(v: u16) -> (r: DeviceID)
        ensures
            r == spec_decode_device_id(v),
    {
        DeviceID { device_id: v & 0xFFF, revision: ((v >> 12) & 0xF) as u8 }
    }
}

} // verus!
