//! The ADC configuration register (address 0x07).

use crate::bits::{
    bit, bit_range, field, field_max, flag, lemma_field_round_trip, set_bit, set_bit_range,
    with_field, with_flag,
};
use vstd::prelude::*;

verus! {

/// The analog input that a conversion samples.
#[derive(Debug, Clone, Copy, PartialEq, Eq, Structural)]
pub enum AdcInputSelect {
    /// Voltage at pin AD_IN1
    VoltageAdIn1,
    /// Voltage at pin AD_IN2
    VoltageAdIn2,
    /// Voltage at pin AD_IN3
    VoltageAdIn3,
    /// Voltage at pin AD_IN4
    VoltageAdIn4,
    /// Voltage at pin TS, the battery temperature sensor
    VoltageTsPin,
    /// Voltage at pin ISET, which follows the charge current
    VoltageIsetPin,
    /// Input voltage of the charger
    InputVoltageCharger,
    /// Voltage at the battery pins
    VoltageBatPins,
    /// Voltage at pin AD_IN5
    VoltageAdIn5,
    /// Voltage at pin AD_IN6
    VoltageAdIn6,
    /// Voltage at pin AD_IN7
    VoltageAdIn7,
    /// Touch screen, all functions
    TouchScreenAllFunc,
    /// Touch screen, x and y position
    TouchScreenXYPos,
}

impl AdcInputSelect {
    /// The code that selects this input in bits 3:0 of the register.
    pub open spec fn spec_code(self) -> u8 {
        match self {
            AdcInputSelect::VoltageAdIn1 => 0b0000,
            AdcInputSelect::VoltageAdIn2 => 0b0001,
            AdcInputSelect::VoltageAdIn3 => 0b0010,
            AdcInputSelect::VoltageAdIn4 => 0b0011,
            AdcInputSelect::VoltageTsPin => 0b0100,
            AdcInputSelect::VoltageIsetPin => 0b0101,
            AdcInputSelect::InputVoltageCharger => 0b1000,
            AdcInputSelect::VoltageBatPins => 0b1001,
            AdcInputSelect::VoltageAdIn5 => 0b1010,
            AdcInputSelect::VoltageAdIn6 => 0b1011,
            AdcInputSelect::VoltageAdIn7 => 0b1100,
            AdcInputSelect::TouchScreenAllFunc => 0b1110,
            AdcInputSelect::TouchScreenXYPos => 0b1111,
        }
    }

    /// The code that selects this input in bits 3:0 of the register.
    #[verifier::when_used_as_spec(spec_code)]
    pub fn code(self) -> (r: u8)
        ensures
            r == self.spec_code(),
    {
        match self {
            AdcInputSelect::VoltageAdIn1 => 0b0000,
            AdcInputSelect::VoltageAdIn2 => 0b0001,
            AdcInputSelect::VoltageAdIn3 => 0b0010,
            AdcInputSelect::VoltageAdIn4 => 0b0011,
            AdcInputSelect::VoltageTsPin => 0b0100,
            AdcInputSelect::VoltageIsetPin => 0b0101,
            AdcInputSelect::InputVoltageCharger => 0b1000,
            AdcInputSelect::VoltageBatPins => 0b1001,
            AdcInputSelect::VoltageAdIn5 => 0b1010,
            AdcInputSelect::VoltageAdIn6 => 0b1011,
            AdcInputSelect::VoltageAdIn7 => 0b1100,
            AdcInputSelect::TouchScreenAllFunc => 0b1110,
            AdcInputSelect::TouchScreenXYPos => 0b1111,
        }
    }

    /// Whether `v` is the code of an input. Of the sixteen values of the
    /// four-bit field, 0b0110, 0b0111 and 0b1101 select nothing.
    pub open spec fn spec_is_code(v: u8) -> bool {
        v <= 0b1111 && v != 0b0110 && v != 0b0111 && v != 0b1101
    }

    /// Whether `v` is the code of an input.
    #[verifier::when_used_as_spec(spec_is_code)]
    pub fn is_code(v: u8) -> (r: bool)
        ensures
            r == Self::spec_is_code(v),
    {
        v <= 0b1111 && v != 0b0110 && v != 0b0111 && v != 0b1101
    }

    /// The input that the code `v` selects.
    pub fn from(v: u8) -> (r: Self)
        requires
            Self::spec_is_code(v),
        ensures
            r.spec_code() == v,
    {
        match v {
            0b0000 => AdcInputSelect::VoltageAdIn1,
            0b0001 => AdcInputSelect::VoltageAdIn2,
            0b0010 => AdcInputSelect::VoltageAdIn3,
            0b0011 => AdcInputSelect::VoltageAdIn4,
            0b0100 => AdcInputSelect::VoltageTsPin,
            0b0101 => AdcInputSelect::VoltageIsetPin,
            0b1000 => AdcInputSelect::InputVoltageCharger,
            0b1001 => AdcInputSelect::VoltageBatPins,
            0b1010 => AdcInputSelect::VoltageAdIn5,
            0b1011 => AdcInputSelect::VoltageAdIn6,
            0b1100 => AdcInputSelect::VoltageAdIn7,
            0b1110 => AdcInputSelect::TouchScreenAllFunc,
            _ => AdcInputSelect::TouchScreenXYPos,
        }
    }

    /// The codes are exactly the values that `spec_is_code` admits: each
    /// input has one, and each admitted value belongs to an input.
    pub proof fn lemma_codes(v: u8)
        ensures
            Self::spec_is_code(v) <==> exists|input: Self| #[trigger] input.spec_code() == v,
    {
        if Self::spec_is_code(v) {
            let input = match v {
                0b0000 => AdcInputSelect::VoltageAdIn1,
                0b0001 => AdcInputSelect::VoltageAdIn2,
                0b0010 => AdcInputSelect::VoltageAdIn3,
                0b0011 => AdcInputSelect::VoltageAdIn4,
                0b0100 => AdcInputSelect::VoltageTsPin,
                0b0101 => AdcInputSelect::VoltageIsetPin,
                0b1000 => AdcInputSelect::InputVoltageCharger,
                0b1001 => AdcInputSelect::VoltageBatPins,
                0b1010 => AdcInputSelect::VoltageAdIn5,
                0b1011 => AdcInputSelect::VoltageAdIn6,
                0b1100 => AdcInputSelect::VoltageAdIn7,
                0b1110 => AdcInputSelect::TouchScreenAllFunc,
                _ => AdcInputSelect::TouchScreenXYPos,
            };
            assert(input.spec_code() == v);
        }
    }

    /// No two inputs share a code, so a code read back names the input that
    /// was written.
    pub proof fn lemma_code_injective(self, other: Self)
        requires
            self.spec_code() == other.spec_code(),
        ensures
            self == other,
    {
    }

    /// Round trip: after an input was written to bits 3:0 of a byte, those
    /// bits hold the code of an input, and the input read from them is the
    /// one written, whatever the byte held before.
    pub proof fn lemma_field_round_trip(self, byte: u8, read: Self)
        requires
            read.spec_code() == field(with_field(byte, 3, 0, self.spec_code()), 3, 0),
        ensures
            Self::spec_is_code(field(with_field(byte, 3, 0, self.spec_code()), 3, 0)),
            read == self,
    {
        assert(field_max(3, 0) == 0x0F) by (bit_vector);
        lemma_field_round_trip(byte, 3, 0, self.spec_code());
    }
}

impl From<AdcInputSelect> for u8 {
    fn from(v: AdcInputSelect) -> (r: u8) {
        v.code()
    }
}

impl vstd::std_specs::convert::FromSpecImpl<AdcInputSelect> for u8 {
    open spec fn obeys_from_spec() -> bool {
        true
    }

    open spec fn from_spec(v: AdcInputSelect) -> u8 {
        v.spec_code()
    }
}

/// The byte that arms a conversion: converter enabled (bit 7), conversion
/// started (bit 6), end-of-conversion cleared (bit 5), the reference voltage
/// as asked (bit 4), and the input's code (bits 3:0).
pub open spec fn conversion_command(channel: AdcInputSelect, vref: bool) -> u8 {
    0xC0u8 | (if vref { 0x10u8 } else { 0x00u8 }) | channel.spec_code()
}

/// The ADC configuration register.
///
/// | bits | field |
/// |---|---|
/// | 3:0 | input select |
/// | 4 | reference voltage enable |
/// | 5 | end of conversion |
/// | 6 | conversion start |
/// | 7 | converter enable |
#[derive(Debug, Clone, Copy, PartialEq, Eq, Structural)]
pub struct ADCONFIG(pub u8);

impl ADCONFIG {
    /// The input that bits 3:0 select.
    pub fn input_select(&self) -> (r: AdcInputSelect)
        requires
            AdcInputSelect::spec_is_code(field(self.0, 3, 0)),
        ensures
            r.spec_code() == field(self.0, 3, 0),
    {
        let raw: u8 = bit_range(&self.0, 3, 0);
        AdcInputSelect::from(raw)
    }

    /// Selects the input in bits 3:0.
    pub fn set_input_select(&mut self, value: AdcInputSelect)
        ensures
            final(self).0 == with_field(old(self).0, 3, 0, value.spec_code()),
    {
        set_bit_range(&mut self.0, 3, 0, value.code());
    }

    /// Whether the reference voltage is enabled (bit 4).
    pub fn vref_enable(&self) -> (r: bool)
        ensures
            r == flag(self.0, 4),
    {
        bit(&self.0, 4)
    }

    /// Enables or disables the reference voltage (bit 4).
    pub fn set_vref_enable(&mut self, value: bool)
        ensures
            final(self).0 == with_flag(old(self).0, 4, value),
    {
        set_bit(&mut self.0, 4, value);
    }

    /// Whether the converter is idle and its result ready (bit 5).
    pub fn end_of_conversion(&self) -> (r: bool)
        ensures
            r == flag(self.0, 5),
    {
        bit(&self.0, 5)
    }

    /// Writes the end-of-conversion bit (bit 5).
    pub fn set_end_of_conversion(&mut self, value: bool)
        ensures
            final(self).0 == with_flag(old(self).0, 5, value),
    {
        set_bit(&mut self.0, 5, value);
    }

    /// Whether a conversion was started (bit 6).
    pub fn conversion_start(&self) -> (r: bool)
        ensures
            r == flag(self.0, 6),
    {
        bit(&self.0, 6)
    }

    /// Writes the conversion-start bit (bit 6).
    pub fn set_conversion_start(&mut self, value: bool)
        ensures
            final(self).0 == with_flag(old(self).0, 6, value),
    {
        set_bit(&mut self.0, 6, value);
    }

    /// Whether the converter is enabled (bit 7).
    pub fn ad_enable(&self) -> (r: bool)
        ensures
            r == flag(self.0, 7),
    {
        bit(&self.0, 7)
    }

    /// Enables or disables the converter (bit 7).
    pub fn set_ad_enable(&mut self, value: bool)
        ensures
            final(self).0 == with_flag(old(self).0, 7, value),
    {
        set_bit(&mut self.0, 7, value);
    }

    /// Turns the register into the command that arms a conversion of
    /// `channel`. The five fields cover the byte, so nothing of the old
    /// value is left.
    pub fn arm(&mut self, channel: AdcInputSelect, vref: bool)
        ensures
            final(self).0 == conversion_command(channel, vref),
    {
        self.set_ad_enable(true);
        self.set_conversion_start(true);
        self.set_vref_enable(vref);
        self.set_input_select(channel);
        self.set_end_of_conversion(false);
        proof {
            let before: u8 = old(self).0;
            let code: u8 = channel.spec_code();
            assert(code <= 0b1111);
            assert(with_flag(
                with_field(with_flag(with_flag(with_flag(before, 7, true), 6, true), 4, vref), 3, 0, code),
                5,
                false,
            ) == 0xC0u8 | (if vref { 0x10u8 } else { 0x00u8 }) | code) by (bit_vector)
                requires
                    code <= 0b1111,
            ;
        }
    }

    /// What `arm` writes reads back field by field as what was asked for.
    pub proof fn lemma_command_fields(channel: AdcInputSelect, vref: bool)
        ensures
            field(conversion_command(channel, vref), 3, 0) == channel.spec_code(),
            flag(conversion_command(channel, vref), 4) == vref,
            !flag(conversion_command(channel, vref), 5),
            flag(conversion_command(channel, vref), 6),
            flag(conversion_command(channel, vref), 7),
    {
        let code: u8 = channel.spec_code();
        let command: u8 = conversion_command(channel, vref);
        assert(code <= 0b1111);
        assert(field(command, 3, 0) == code && flag(command, 4) == vref && !flag(command, 5)
            && flag(command, 6) && flag(command, 7)) by (bit_vector)
            requires
                code <= 0b1111,
                command == 0xC0u8 | (if vref { 0x10u8 } else { 0x00u8 }) | code,
        ;
    }
}

} // verus!
