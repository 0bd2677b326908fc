//! The power path control register (address 0x01).

use crate::bits::{bit, bit_range, field, flag, set_bit, set_bit_range, with_field, with_flag};
use vstd::prelude::*;

verus! {

/// Which inputs may feed the system and the charger, and how much current
/// each may draw.
#[derive(Debug, Clone, Copy, PartialEq, Eq, Structural)]
pub struct PowerPath {
    /// The USB input is in use. The register holds the opposite, "USB
    /// disabled".
    pub usb_power_enable: bool,
    /// The most current that the USB input may draw.
    pub usb_input_current: UsbInputCurrent,
    /// The AC adapter input is in use. The register holds the opposite, "AC
    /// disabled".
    pub ac_power_enable: bool,
    /// The most current that the AC adapter input may draw.
    pub ac_input_current: AcInputCurrent,
}

impl PowerPath {
    /// The power path that `default` gives: USB in use at 500 mA, the AC
    /// adapter in use at 2500 mA.
    pub open spec fn spec_default() -> Self {
        PowerPath {
            usb_power_enable: true,
            usb_input_current: UsbInputCurrent::V500mA,
            ac_power_enable: true,
            ac_input_current: AcInputCurrent::V2500mA,
        }
    }

    /// The register byte that holds this power path. The two status bits,
    /// 6 and 7, belong to the chip and are written as zero.
    ///
    /// | bits | field |
    /// |---|---|
    /// | 1:0 | USB input current |
    /// | 3:2 | AC input current |
    /// | 4 | AC input disabled |
    /// | 5 | USB input disabled |
    pub open spec fn register_byte(self) -> u8 {
        self.usb_input_current.spec_code() | (self.ac_input_current.spec_code() << 2u8) | (
        if self.ac_power_enable {
            0x00u8
        } else {
            0x10u8
        }) | (if self.usb_power_enable {
            0x00u8
        } else {
            0x20u8
        })
    }

    /// Round trip: each field of the register byte reads back as the power
    /// path's own, so no field disturbs another. The status bits read as
    /// zero whatever the enable flags are: they report what the chip sees
    /// at its pins, not what was written.
    pub proof fn lemma_register_fields(self)
        ensures
            field(self.register_byte(), 1, 0) == self.usb_input_current.spec_code(),
            field(self.register_byte(), 3, 2) == self.ac_input_current.spec_code(),
            flag(self.register_byte(), 4) == !self.ac_power_enable,
            flag(self.register_byte(), 5) == !self.usb_power_enable,
            !flag(self.register_byte(), 6),
            !flag(self.register_byte(), 7),
    {
        let usb: u8 = self.usb_input_current.spec_code();
        let ac: u8 = self.ac_input_current.spec_code();
        let ac_off = !self.ac_power_enable;
        let usb_off = !self.usb_power_enable;
        let byte: u8 = self.register_byte();
        assert(field(byte, 1, 0) == usb && field(byte, 3, 2) == ac && flag(byte, 4) == ac_off
            && flag(byte, 5) == usb_off && !flag(byte, 6) && !flag(byte, 7)) by (bit_vector)
            requires
                usb <= 3,
                ac <= 3,
                byte == usb | (ac << 2u8) | (if ac_off { 0x10u8 } else { 0x00u8 }) | (if usb_off {
                    0x20u8
                } else {
                    0x00u8
                }),
        ;
    }

    /// The default power path is the byte 0x0D: both inputs enabled, code
    /// 0b01 for USB and 0b11 for AC.
    pub proof fn lemma_default_register_byte()
        ensures
            Self::spec_default().register_byte() == 0x0D,
    {
        assert((0b01u8 | (0b11u8 << 2u8) | 0x00u8 | 0x00u8) == 0x0Du8) by (bit_vector);
    }

    /// Encoding has no hidden state: whatever two runs of `PPATH1::from`
    /// return for one power path is the same register value.
    pub proof fn lemma_encoding_deterministic(self, first: PPATH1, second: PPATH1)
        requires
            call_ensures(<PPATH1 as From<PowerPath>>::from, (self,), first),
            call_ensures(<PPATH1 as From<PowerPath>>::from, (self,), second),
        ensures
            first == second,
            first.0 == self.register_byte(),
    {
    }

    /// Two power paths have the same register byte only if they are the same
    /// power path, and one power path has but one byte.
    pub proof fn lemma_register_byte_injective(self, other: Self)
        ensures
            self.register_byte() == other.register_byte() <==> self == other,
    {
        self.lemma_register_fields();
        other.lemma_register_fields();
        if self.register_byte() == other.register_byte() {
            self.usb_input_current.lemma_code_injective(other.usb_input_current);
            self.ac_input_current.lemma_code_injective(other.ac_input_current);
        }
    }
}

impl From<PowerPath> for PPATH1 {
    fn from(power_path: PowerPath) -> (r: PPATH1) {
        let mut reg = PPATH1(0x00);
        reg.set_usb_input_current(power_path.usb_input_current.code());
        reg.set_ac_input_current(power_path.ac_input_current.code());
        reg.set_ac_power_disable(!power_path.ac_power_enable);
        reg.set_usb_power_disable(!power_path.usb_power_enable);
        proof {
            let usb: u8 = power_path.usb_input_current.spec_code();
            let ac: u8 = power_path.ac_input_current.spec_code();
            let ac_off = !power_path.ac_power_enable;
            let usb_off = !power_path.usb_power_enable;
            assert(with_flag(
                with_flag(with_field(with_field(0x00u8, 1, 0, usb), 3, 2, ac), 4, ac_off),
                5,
                usb_off,
            ) == usb | (ac << 2u8) | (if ac_off { 0x10u8 } else { 0x00u8 }) | (if usb_off {
                0x20u8
            } else {
                0x00u8
            })) by (bit_vector)
                requires
                    usb <= 3,
                    ac <= 3,
            ;
        }
        reg
    }
}

impl vstd::std_specs::convert::FromSpecImpl<PowerPath> for PPATH1 {
    open spec fn obeys_from_spec() -> bool {
        true
    }

    open spec fn from_spec(v: PowerPath) -> PPATH1 {
        PPATH1(v.register_byte())
    }
}

impl Default for PowerPath {
    fn default() -> (r: Self)
        ensures
            r == Self::spec_default(),
    {
        PowerPath {
            usb_power_enable: true,
            usb_input_current: UsbInputCurrent::V500mA,
            ac_power_enable: true,
            ac_input_current: AcInputCurrent::V2500mA,
        }
    }
}

/// The most current that the AC adapter input may draw.
#[derive(Debug, Clone, Copy, PartialEq, Eq, Structural)]
pub enum AcInputCurrent {
    /// 100 mA
    V100mA,
    /// 500 mA
    V500mA,
    /// 1300 mA
    V1300mA,
    /// 2500 mA
    V2500mA,
}

impl AcInputCurrent {
    /// The code of this limit in bits 3:2 of the register.
    pub open spec fn spec_code(self) -> u8 {
        match self {
            AcInputCurrent::V100mA => 0b00,
            AcInputCurrent::V500mA => 0b01,
            AcInputCurrent::V1300mA => 0b10,
            AcInputCurrent::V2500mA => 0b11,
        }
    }

    /// The code of this limit in bits 3:2 of the register.
    #[verifier::when_used_as_spec(spec_code)]
    pub fn code(self) -> (r: u8)
        ensures
            r == self.spec_code(),
    {
        match self {
            AcInputCurrent::V100mA => 0b00,
            AcInputCurrent::V500mA => 0b01,
            AcInputCurrent::V1300mA => 0b10,
            AcInputCurrent::V2500mA => 0b11,
        }
    }

    /// No two limits share a code, and every code fits in the two bits of
    /// the field.
    pub proof fn lemma_code_injective(self, other: Self)
        ensures
            self.spec_code() <= 0b11,
            self.spec_code() == other.spec_code() ==> self == other,
    {
    }
}

/// The most current that the USB input may draw.
#[derive(Debug, Clone, Copy, PartialEq, Eq, Structural)]
pub enum UsbInputCurrent {
    /// 100 mA
    V100mA,
    /// 500 mA
    V500mA,
    /// 800 mA
    V800mA,
    /// 1300 mA
    V1300mA,
}

impl UsbInputCurrent {
    /// The code of this limit in bits 1:0 of the register.
    pub open spec fn spec_code(self) -> u8 {
        match self {
            UsbInputCurrent::V100mA => 0b00,
            UsbInputCurrent::V500mA => 0b01,
            UsbInputCurrent::V800mA => 0b10,
            UsbInputCurrent::V1300mA => 0b11,
        }
    }

    /// The code of this limit in bits 1:0 of the register.
    #[verifier::when_used_as_spec(spec_code)]
    pub fn code(self) -> (r: u8)
        ensures
            r == self.spec_code(),
    {
        match self {
            UsbInputCurrent::V100mA => 0b00,
            UsbInputCurrent::V500mA => 0b01,
            UsbInputCurrent::V800mA => 0b10,
            UsbInputCurrent::V1300mA => 0b11,
        }
    }

    /// No two limits share a code, and every code fits in the two bits of
    /// the field.
    pub proof fn lemma_code_injective(self, other: Self)
        ensures
            self.spec_code() <= 0b11,
            self.spec_code() == other.spec_code() ==> self == other,
    {
    }
}

/// The power path control register.
///
/// | bits | field |
/// |---|---|
/// | 1:0 | USB input current |
/// | 3:2 | AC input current |
/// | 4 | AC input disabled |
/// | 5 | USB input disabled |
/// | 6 | AC power present (read only) |
/// | 7 | USB power present (read only) |
#[derive(Debug, Clone, Copy, PartialEq, Eq, Structural)]
pub struct PPATH1(pub u8);

impl PPATH1 {
    /// The code of the USB input current limit (bits 1:0).
    pub fn usb_input_current(&self) -> (r: u8)
        ensures
            r == field(self.0, 1, 0),
    {
        bit_range(&self.0, 1, 0)
    }

    /// Writes the code of the USB input current limit (bits 1:0). Of a
    /// larger number only the two low bits are kept.
    pub fn set_usb_input_current(&mut self, value: u8)
        ensures
            final(self).0 == with_field(old(self).0, 1, 0, value),
    {
        set_bit_range(&mut self.0, 1, 0, value);
    }

    /// The code of the AC input current limit (bits 3:2).
    pub fn ac_input_current(&self) -> (r: u8)
        ensures
            r == field(self.0, 3, 2),
    {
        bit_range(&self.0, 3, 2)
    }

    /// Writes the code of the AC input current limit (bits 3:2). Of a larger
    /// number only the two low bits are kept.
    pub fn set_ac_input_current(&mut self, value: u8)
        ensures
            final(self).0 == with_field(old(self).0, 3, 2, value),
    {
        set_bit_range(&mut self.0, 3, 2, value);
    }

    /// Whether the AC input is disabled (bit 4).
    pub fn ac_disable(&self) -> (r: bool)
        ensures
            r == flag(self.0, 4),
    {
        bit(&self.0, 4)
    }

    /// Disables or enables the AC input (bit 4).
    pub fn set_ac_power_disable(&mut self, value: bool)
        ensures
            final(self).0 == with_flag(old(self).0, 4, value),
    {
        set_bit(&mut self.0, 4, value);
    }

    /// Whether the USB input is disabled (bit 5).
    pub fn usb_power_disable(&self) -> (r: bool)
        ensures
            r == flag(self.0, 5),
    {
        bit(&self.0, 5)
    }

    /// Disables or enables the USB input (bit 5).
    pub fn set_usb_power_disable(&mut self, value: bool)
        ensures
            final(self).0 == with_flag(old(self).0, 5, value),
    {
        set_bit(&mut self.0, 5, value);
    }

    /// Whether the chip sees power at the AC input (bit 6). The bit is the
    /// chip's to set; nothing here writes it.
    pub fn ac_power(&self) -> (r: bool)
        ensures
            r == flag(self.0, 6),
    {
        bit(&self.0, 6)
    }

    /// Whether the chip sees power at the USB input (bit 7). The bit is the
    /// chip's to set; nothing here writes it.
    pub fn usb_power(&self) -> (r: bool)
        ensures
            r == flag(self.0, 7),
    {
        bit(&self.0, 7)
    }

    /// The status bits are independent of the write side: no setter of this
    /// register changes what `ac_power` and `usb_power` read.
    pub proof fn lemma_status_untouched(byte: u8, value: u8, on: bool)
        ensures
            flag(with_field(byte, 1, 0, value), 6) == flag(byte, 6),
            flag(with_field(byte, 1, 0, value), 7) == flag(byte, 7),
            flag(with_field(byte, 3, 2, value), 6) == flag(byte, 6),
            flag(with_field(byte, 3, 2, value), 7) == flag(byte, 7),
            flag(with_flag(byte, 4, on), 6) == flag(byte, 6),
            flag(with_flag(byte, 4, on), 7) == flag(byte, 7),
            flag(with_flag(byte, 5, on), 6) == flag(byte, 6),
            flag(with_flag(byte, 5, on), 7) == flag(byte, 7),
    {
        assert(flag(with_field(byte, 1, 0, value), 6) == flag(byte, 6) && flag(
            with_field(byte, 1, 0, value),
            7,
        ) == flag(byte, 7) && flag(with_field(byte, 3, 2, value), 6) == flag(byte, 6) && flag(
            with_field(byte, 3, 2, value),
            7,
        ) == flag(byte, 7)) by (bit_vector);
        assert(flag(with_flag(byte, 4, on), 6) == flag(byte, 6) && flag(with_flag(byte, 4, on), 7)
            == flag(byte, 7) && flag(with_flag(byte, 5, on), 6) == flag(byte, 6) && flag(
            with_flag(byte, 5, on),
            7,
        ) == flag(byte, 7)) by (bit_vector);
    }
}

} // verus!
