//! Charger configuration register 1 (address 0x04).

use crate::bits::{
    bit, bit_range, field, field_max, flag, lemma_field_bounded, lemma_field_round_trip, set_bit,
    set_bit_range, with_field, with_flag,
};
use vstd::prelude::*;

verus! {

/// How the battery charger is to behave.
#[derive(Debug, Clone, Copy, PartialEq, Eq, Structural)]
pub struct ChargerConfig {
    /// The charger is on.
    pub charger_enable: bool,
    /// Charging is suspended.
    pub suspend_charge: bool,
    /// Charging ends when the battery is full. The register holds the
    /// opposite, "termination off".
    pub charge_termination: bool,
    /// The charger is held in reset.
    pub charger_reset: bool,
    /// The kind of temperature sensor in the battery pack.
    pub sensor_type: SensorType,
    /// The safety timer runs.
    pub safety_timer_enable: bool,
    /// When the safety timer ends the charge.
    pub charger_safety_timer_timeout: SafetyTimerTimeOut,
}

impl ChargerConfig {
    /// The configuration that `default` gives: charger on, not suspended,
    /// termination on, not in reset, 10 kOhm sensor, safety timer on with a
    /// four-hour timeout.
    pub open spec fn spec_default() -> Self {
        ChargerConfig {
            charger_enable: true,
            suspend_charge: false,
            charge_termination: true,
            charger_reset: false,
            sensor_type: SensorType::V10K,
            safety_timer_enable: true,
            charger_safety_timer_timeout: SafetyTimerTimeOut::V4Hours,
        }
    }

    /// The register byte that holds this configuration.
    ///
    /// | bits | field |
    /// |---|---|
    /// | 0 | charger enable |
    /// | 1 | suspend charge |
    /// | 2 | termination off |
    /// | 3 | charger reset |
    /// | 4 | sensor is 10 kOhm |
    /// | 5 | safety timer enable |
    /// | 7:6 | safety timer timeout |
    pub open spec fn register_byte(self) -> u8 {
        (if self.charger_enable { 0x01u8 } else { 0x00u8 })
            | (if self.suspend_charge { 0x02u8 } else { 0x00u8 })
            | (if self.charge_termination { 0x00u8 } else { 0x04u8 })
            | (if self.charger_reset { 0x08u8 } else { 0x00u8 })
            | (if self.sensor_type.is_10k() { 0x10u8 } else { 0x00u8 })
            | (if self.safety_timer_enable { 0x20u8 } else { 0x00u8 })
            | (self.charger_safety_timer_timeout.spec_code() << 6u8)
    }

    /// Round trip: each field of the register byte reads back as the
    /// configuration's own, so no field disturbs another.
    pub proof fn lemma_register_fields(self)
        ensures
            flag(self.register_byte(), 0) == self.charger_enable,
            flag(self.register_byte(), 1) == self.suspend_charge,
            flag(self.register_byte(), 2) == !self.charge_termination,
            flag(self.register_byte(), 3) == self.charger_reset,
            flag(self.register_byte(), 4) == self.sensor_type.is_10k(),
            flag(self.register_byte(), 5) == self.safety_timer_enable,
            field(self.register_byte(), 7, 6) == self.charger_safety_timer_timeout.spec_code(),
    {
        let b0 = self.charger_enable;
        let b1 = self.suspend_charge;
        let b2 = !self.charge_termination;
        let b3 = self.charger_reset;
        let b4 = self.sensor_type.is_10k();
        let b5 = self.safety_timer_enable;
        let code: u8 = self.charger_safety_timer_timeout.spec_code();
        let byte: u8 = self.register_byte();
        assert(flag(byte, 0) == b0 && flag(byte, 1) == b1 && flag(byte, 2) == b2 && flag(byte, 3)
            == b3 && flag(byte, 4) == b4 && flag(byte, 5) == b5 && field(byte, 7, 6) == code)
            by (bit_vector)
            requires
                code <= 3,
                byte == (if b0 { 0x01u8 } else { 0x00u8 }) | (if b1 { 0x02u8 } else { 0x00u8 }) | (if b2 {
                    0x04u8
                } else {
                    0x00u8
                }) | (if b3 { 0x08u8 } else { 0x00u8 }) | (if b4 { 0x10u8 } else { 0x00u8 }) | (if b5 {
                    0x20u8
                } else {
                    0x00u8
                }) | (code << 6u8),
        ;
    }

    /// The default configuration is the byte 0x31: bits 0, 4 and 5 set.
    pub proof fn lemma_default_register_byte()
        ensures
            Self::spec_default().register_byte() == 0x31,
    {
        assert((0x01u8 | 0x00u8 | 0x00u8 | 0x00u8 | 0x10u8 | 0x20u8 | (0b00u8 << 6u8)) == 0x31u8)
            by (bit_vector);
    }

    /// Encoding has no hidden state: whatever two runs of
    /// `CHGCONFIG1::from` return for one configuration is the same register
    /// value.
    pub proof fn lemma_encoding_deterministic(self, first: CHGCONFIG1, second: CHGCONFIG1)
        requires
            call_ensures(<CHGCONFIG1 as From<ChargerConfig>>::from, (self,), first),
            call_ensures(<CHGCONFIG1 as From<ChargerConfig>>::from, (self,), second),
        ensures
            first == second,
            first.0 == self.register_byte(),
    {
    }

    /// Two configurations have the same register byte only if they are the
    /// same configuration, and one configuration has but one byte.
    pub proof fn lemma_register_byte_injective(self, other: Self)
        ensures
            self.register_byte() == other.register_byte() <==> self == other,
    {
        self.lemma_register_fields();
        other.lemma_register_fields();
        if self.register_byte() == other.register_byte() {
            self.charger_safety_timer_timeout.lemma_code_injective(
                other.charger_safety_timer_timeout,
            );
        }
    }
}

impl Default for ChargerConfig {
    fn default() -> (r: Self)
        ensures
            r == Self::spec_default(),
    {
        ChargerConfig {
            charger_enable: true,
            suspend_charge: false,
            charge_termination: true,
            charger_reset: false,
            sensor_type: SensorType::V10K,
            safety_timer_enable: true,
            charger_safety_timer_timeout: SafetyTimerTimeOut::V4Hours,
        }
    }
}

impl From<ChargerConfig> for CHGCONFIG1 {
    fn from(v: ChargerConfig) -> (r: CHGCONFIG1) {
        let mut reg = CHGCONFIG1(0x00);
        reg.set_charger_enable(v.charger_enable);
        reg.set_suspend_charge(v.suspend_charge);
        reg.set_charge_termination_off(!v.charge_termination);
        reg.set_charger_reset(v.charger_reset);
        reg.set_sensor_type10k(v.sensor_type.into());
        reg.set_safety_timer_enable(v.safety_timer_enable);
        reg.set_charge_safety_timer(v.charger_safety_timer_timeout);
        proof {
            let b0 = v.charger_enable;
            let b1 = v.suspend_charge;
            let b2 = !v.charge_termination;
            let b3 = v.charger_reset;
            let b4 = v.sensor_type.is_10k();
            let b5 = v.safety_timer_enable;
            let code: u8 = v.charger_safety_timer_timeout.spec_code();
            assert(with_field(
                with_flag(
                    with_flag(
                        with_flag(with_flag(with_flag(with_flag(0x00u8, 0, b0), 1, b1), 2, b2), 3, b3),
                        4,
                        b4,
                    ),
                    5,
                    b5,
                ),
                7,
                6,
                code,
            ) == (if b0 { 0x01u8 } else { 0x00u8 }) | (if b1 { 0x02u8 } else { 0x00u8 }) | (if b2 {
                0x04u8
            } else {
                0x00u8
            }) | (if b3 { 0x08u8 } else { 0x00u8 }) | (if b4 { 0x10u8 } else { 0x00u8 }) | (if b5 {
                0x20u8
            } else {
                0x00u8
            }) | (code << 6u8)) by (bit_vector)
                requires
                    code <= 3,
            ;
        }
        reg
    }
}

impl vstd::std_specs::convert::FromSpecImpl<ChargerConfig> for CHGCONFIG1 {
    open spec fn obeys_from_spec() -> bool {
        true
    }

    open spec fn from_spec(v: ChargerConfig) -> CHGCONFIG1 {
        CHGCONFIG1(v.register_byte())
    }
}

/// The temperature sensor of the battery pack.
#[derive(Debug, Clone, Copy, PartialEq, Eq, Structural)]
pub enum SensorType {
    /// A 100 kOhm thermistor
    V100K,
    /// A 10 kOhm thermistor
    V10K,
}

impl SensorType {
    /// Whether the sensor is the 10 kOhm one, which is what bit 4 of the
    /// register says.
    pub open spec fn is_10k(self) -> bool {
        self is V10K
    }
}

impl From<SensorType> for bool {
    fn from(v: SensorType) -> (r: bool) {
        match v {
            SensorType::V100K => false,
            SensorType::V10K => true,
        }
    }
}

impl vstd::std_specs::convert::FromSpecImpl<SensorType> for bool {
    open spec fn obeys_from_spec() -> bool {
        true
    }

    open spec fn from_spec(v: SensorType) -> bool {
        v.is_10k()
    }
}

/// The time after which the safety timer ends a charge.
#[derive(Debug, Clone, Copy, PartialEq, Eq, Structural)]
pub enum SafetyTimerTimeOut {
    /// Four hours
    V4Hours,
    /// Five hours
    V5Hours,
    /// Six hours
    V6Hours,
    /// Eight hours
    V8Hours,
}

impl SafetyTimerTimeOut {
    /// The code of this timeout in bits 7:6 of the register.
    pub open spec fn spec_code(self) -> u8 {
        match self {
            SafetyTimerTimeOut::V4Hours => 0b00,
            SafetyTimerTimeOut::V5Hours => 0b01,
            SafetyTimerTimeOut::V6Hours => 0b10,
            SafetyTimerTimeOut::V8Hours => 0b11,
        }
    }

    /// The code of this timeout in bits 7:6 of the register.
    #[verifier::when_used_as_spec(spec_code)]
    pub fn code(self) -> (r: u8)
        ensures
            r == self.spec_code(),
    {
        match self {
            SafetyTimerTimeOut::V4Hours => 0b00,
            SafetyTimerTimeOut::V5Hours => 0b01,
            SafetyTimerTimeOut::V6Hours => 0b10,
            SafetyTimerTimeOut::V8Hours => 0b11,
        }
    }

    /// The timeout that the code `v` stands for. Every value of the two-bit
    /// field is the code of one timeout; a larger number is none.
    pub fn from(v: u8) -> (r: Self)
        requires
            v <= 0b11,
        ensures
            r.spec_code() == v,
    {
        match v {
            0b00 => SafetyTimerTimeOut::V4Hours,
            0b01 => SafetyTimerTimeOut::V5Hours,
            0b10 => SafetyTimerTimeOut::V6Hours,
            _ => SafetyTimerTimeOut::V8Hours,
        }
    }

    /// Every code fits in the two bits of the field.
    pub proof fn lemma_code_fits(self)
        ensures
            self.spec_code() <= 0b11,
    {
    }

    /// No two timeouts share a code, so a code read back names the timeout
    /// that was written.
    pub proof fn lemma_code_injective(self, other: Self)
        requires
            self.spec_code() == other.spec_code(),
        ensures
            self == other,
    {
    }

    /// Round trip: a timeout written to bits 7:6 of a byte is the timeout
    /// read from them, whatever the byte held before.
    pub proof fn lemma_field_round_trip(self, byte: u8, read: Self)
        requires
            read.spec_code() == field(with_field(byte, 7, 6, self.spec_code()), 7, 6),
        ensures
            read == self,
    {
        assert(field_max(7, 6) == 0b11) by (bit_vector);
        lemma_field_round_trip(byte, 7, 6, self.spec_code());
    }
}

impl From<SafetyTimerTimeOut> for u8 {
    fn from(v: SafetyTimerTimeOut) -> (r: u8) {
        v.code()
    }
}

impl vstd::std_specs::convert::FromSpecImpl<SafetyTimerTimeOut> for u8 {
    open spec fn obeys_from_spec() -> bool {
        true
    }

    open spec fn from_spec(v: SafetyTimerTimeOut) -> u8 {
        v.spec_code()
    }
}

/// Charger configuration register 1.
///
/// | bits | field |
/// |---|---|
/// | 0 | charger enable |
/// | 1 | suspend charge |
/// | 2 | charge termination off |
/// | 3 | charger reset |
/// | 4 | sensor is 10 kOhm |
/// | 5 | safety timer enable |
/// | 7:6 | safety timer timeout |
#[derive(Debug, Clone, Copy, PartialEq, Eq, Structural)]
pub struct CHGCONFIG1(pub u8);

impl CHGCONFIG1 {
    /// Whether the charger is on (bit 0).
    pub fn charger_enable(&self) -> (r: bool)
        ensures
            r == flag(self.0, 0),
    {
        bit(&self.0, 0)
    }

    /// Turns the charger on or off (bit 0).
    pub fn set_charger_enable(&mut self, value: bool)
        ensures
            final(self).0 == with_flag(old(self).0, 0, value),
    {
        set_bit(&mut self.0, 0, value);
    }

    /// Whether charging is suspended (bit 1).
    pub fn suspend_charge(&self) -> (r: bool)
        ensures
            r == flag(self.0, 1),
    {
        bit(&self.0, 1)
    }

    /// Suspends or resumes charging (bit 1).
    pub fn set_suspend_charge(&mut self, value: bool)
        ensures
            final(self).0 == with_flag(old(self).0, 1, value),
    {
        set_bit(&mut self.0, 1, value);
    }

    /// Whether charge termination is switched off (bit 2).
    pub fn charge_termination_off(&self) -> (r: bool)
        ensures
            r == flag(self.0, 2),
    {
        bit(&self.0, 2)
    }

    /// Switches charge termination off (`true`) or on (`false`) (bit 2).
    pub fn set_charge_termination_off(&mut self, value: bool)
        ensures
            final(self).0 == with_flag(old(self).0, 2, value),
    {
        set_bit(&mut self.0, 2, value);
    }

    /// Whether the charger is held in reset (bit 3).
    pub fn charger_reset(&self) -> (r: bool)
        ensures
            r == flag(self.0, 3),
    {
        bit(&self.0, 3)
    }

    /// Asserts or releases the charger reset (bit 3).
    pub fn set_charger_reset(&mut self, value: bool)
        ensures
            final(self).0 == with_flag(old(self).0, 3, value),
    {
        set_bit(&mut self.0, 3, value);
    }

    /// Whether the sensor is a 10 kOhm thermistor (bit 4).
    pub fn sensor_type10k(&self) -> (r: bool)
        ensures
            r == flag(self.0, 4),
    {
        bit(&self.0, 4)
    }

    /// Says whether the sensor is a 10 kOhm thermistor (bit 4).
    pub fn set_sensor_type10k(&mut self, value: bool)
        ensures
            final(self).0 == with_flag(old(self).0, 4, value),
    {
        set_bit(&mut self.0, 4, value);
    }

    /// Whether the safety timer runs (bit 5).
    pub fn safety_timer_enable(&self) -> (r: bool)
        ensures
            r == flag(self.0, 5),
    {
        bit(&self.0, 5)
    }

    /// Starts or stops the safety timer (bit 5).
    pub fn set_safety_timer_enable(&mut self, value: bool)
        ensures
            final(self).0 == with_flag(old(self).0, 5, value),
    {
        set_bit(&mut self.0, 5, value);
    }

    /// The timeout of the safety timer (bits 7:6).
    pub fn charge_safety_timer(&self) -> (r: SafetyTimerTimeOut)
        ensures
            r.spec_code() == field(self.0, 7, 6),
    {
        let raw: u8 = bit_range(&self.0, 7, 6);
        proof {
            lemma_field_bounded(self.0, 7, 6);
            assert(field_max(7, 6) == 0b11) by (bit_vector);
        }
        SafetyTimerTimeOut::from(raw)
    }

    /// Sets the timeout of the safety timer (bits 7:6).
    pub fn set_charge_safety_timer(&mut self, value: SafetyTimerTimeOut)
        ensures
            final(self).0 == with_field(old(self).0, 7, 6, value.spec_code()),
    {
        set_bit_range(&mut self.0, 7, 6, value.into());
    }
}

/// The temperature sensor of the battery pack, as a number.
#[derive(Debug, Clone, Copy, PartialEq, Eq, Structural)]
pub enum BatterySensorType {
    /// A 100 kOhm thermistor
    V100K,
    /// A 10 kOhm thermistor
    V10K,
}

impl BatterySensorType {
    /// The number that stands for this sensor.
    pub open spec fn spec_code(self) -> u8 {
        match self {
            BatterySensorType::V100K => 0x00,
            BatterySensorType::V10K => 0x01,
        }
    }

    /// The sensor that the number `v` stands for: 0 or 1, nothing else.
    pub fn from(v: u8) -> (r: Self)
        requires
            v <= 0x01,
        ensures
            r.spec_code() == v,
    {
        match v {
            0x00 => BatterySensorType::V100K,
            _ => BatterySensorType::V10K,
        }
    }
}

} // verus!
