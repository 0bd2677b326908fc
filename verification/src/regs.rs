//! The register map: where each register lives, and what its bits mean.

use vstd::prelude::*;

pub mod adc;
pub mod chgconfig;
pub mod dcdc;
pub mod ldo;
pub mod ppath;

verus! {

/// The registers of the chip. Each is one byte wide and has a one-byte address.
#[derive(Debug, Clone, Copy, PartialEq, Eq, Structural)]
pub enum Registers {
    /// Power path control (address 0x01)
    PPATH1,
    /// Interrupt reporting and masking (address 0x02)
    INT,
    /// Battery charger configuration 0 (address 0x03)
    CHGCONFIG0,
    /// Battery charger configuration 1 (address 0x04)
    CHGCONFIG1,
    /// Battery charger configuration 2 (address 0x05)
    CHGCONFIG2,
    /// Battery charger configuration 3 (address 0x06)
    CHGCONFIG3,
    /// ADC configuration and control (address 0x07)
    ADCONFIG,
    /// Touch screen interface control (address 0x08)
    TSCMODE,
    /// ADC result, low byte (address 0x09)
    ADRESULT_1,
    /// ADC result, high byte (address 0x0A)
    ADRESULT_2,
    /// Power-good reporting (address 0x0B)
    PGOOD,
    /// Power-good masking (address 0x0C)
    PGOODMASK,
    /// Sequencing and enable bits of the converters and regulators (address 0x0D)
    CON_CTRL1,
    /// Timers, undervoltage lockout, DCDC2 and DCDC3 control (address 0x0E)
    CON_CTRL2,
    /// Discharge resistors and forced PWM mode (address 0x0F)
    CON_CTRL3,
    /// Output voltage of DCDC1 (address 0x10)
    DEFDCDC1,
    /// Output voltage of DCDC2 while its select pin is low (address 0x11)
    DEFDCDC2_LOW,
    /// Output voltage of DCDC2 while its select pin is high (address 0x12)
    DEFDCDC2_HIGH,
    /// Output voltage of DCDC3 while its select pin is low (address 0x13)
    DEFDCDC3_LOW,
    /// Output voltage of DCDC3 while its select pin is high (address 0x14)
    DEFDCDC3_HIGH,
    /// Slew rate of DCDC2 and DCDC3 voltage changes (address 0x15)
    DEFSLEW,
    /// Sequencing and output voltage of LDO1 (address 0x16)
    LDO_CTRL1,
    /// Output voltage of LDO2 (address 0x17)
    DEFLDO2,
    /// White LED control 1 (address 0x18)
    WLED_CTRL1,
    /// White LED control 2 (address 0x19)
    WLED_CTRL2,
}

impl Registers {
    /// The address of the register on the chip.
    pub open spec fn spec_addr(self) -> u8 {
        match self {
            Registers::PPATH1 => 0x01,
            Registers::INT => 0x02,
            Registers::CHGCONFIG0 => 0x03,
            Registers::CHGCONFIG1 => 0x04,
            Registers::CHGCONFIG2 => 0x05,
            Registers::CHGCONFIG3 => 0x06,
            Registers::ADCONFIG => 0x07,
            Registers::TSCMODE => 0x08,
            Registers::ADRESULT_1 => 0x09,
            Registers::ADRESULT_2 => 0x0A,
            Registers::PGOOD => 0x0B,
            Registers::PGOODMASK => 0x0C,
            Registers::CON_CTRL1 => 0x0D,
            Registers::CON_CTRL2 => 0x0E,
            Registers::CON_CTRL3 => 0x0F,
            Registers::DEFDCDC1 => 0x10,
            Registers::DEFDCDC2_LOW => 0x11,
            Registers::DEFDCDC2_HIGH => 0x12,
            Registers::DEFDCDC3_LOW => 0x13,
            Registers::DEFDCDC3_HIGH => 0x14,
            Registers::DEFSLEW => 0x15,
            Registers::LDO_CTRL1 => 0x16,
            Registers::DEFLDO2 => 0x17,
            Registers::WLED_CTRL1 => 0x18,
            Registers::WLED_CTRL2 => 0x19,
        }
    }

    /// The address of the register on the chip.
    #[verifier::when_used_as_spec(spec_addr)]
    pub fn addr(self) -> (r: u8)
        ensures
            r == self.spec_addr(),
    {
        match self {
            Registers::PPATH1 => 0x01,
            Registers::INT => 0x02,
            Registers::CHGCONFIG0 => 0x03,
            Registers::CHGCONFIG1 => 0x04,
            Registers::CHGCONFIG2 => 0x05,
            Registers::CHGCONFIG3 => 0x06,
            Registers::ADCONFIG => 0x07,
            Registers::TSCMODE => 0x08,
            Registers::ADRESULT_1 => 0x09,
            Registers::ADRESULT_2 => 0x0A,
            Registers::PGOOD => 0x0B,
            Registers::PGOODMASK => 0x0C,
            Registers::CON_CTRL1 => 0x0D,
            Registers::CON_CTRL2 => 0x0E,
            Registers::CON_CTRL3 => 0x0F,
            Registers::DEFDCDC1 => 0x10,
            Registers::DEFDCDC2_LOW => 0x11,
            Registers::DEFDCDC2_HIGH => 0x12,
            Registers::DEFDCDC3_LOW => 0x13,
            Registers::DEFDCDC3_HIGH => 0x14,
            Registers::DEFSLEW => 0x15,
            Registers::LDO_CTRL1 => 0x16,
            Registers::DEFLDO2 => 0x17,
            Registers::WLED_CTRL1 => 0x18,
            Registers::WLED_CTRL2 => 0x19,
        }
    }

    /// No two registers share an address, and the addresses fill the range
    /// 0x01 to 0x19.
    pub proof fn lemma_addr_injective(self, other: Self)
        ensures
            0x01 <= self.spec_addr() <= 0x19,
            self.spec_addr() == other.spec_addr() ==> self == other,
    {
    }
}

} // verus!
