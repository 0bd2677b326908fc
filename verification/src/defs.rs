//! Output voltages that the regulators can be set to.
//!
//! The chip selects a voltage by a numeric code. The tables are the
//! datasheet's: the codes are fixed by the hardware and follow no formula.

use crate::bits::{field, field_max, lemma_field_round_trip, with_field};
use vstd::prelude::*;

verus! {

/// Output voltage of the step-down converters DCDC1, DCDC2 and DCDC3 and of the
/// linear regulator LDO2.
#[derive(Debug, Clone, Copy, PartialEq, Eq, Structural)]
pub enum DCDCVoltage {
    /// 0.725 V
    V0_725,
    /// 0.750 V
    V0_750,
    /// 0.775 V
    V0_775,
    /// 0.800 V
    V0_800,
    /// 0.825 V
    V0_825,
    /// 0.850 V
    V0_850,
    /// 0.875 V
    V0_875,
    /// 0.900 V
    V0_900,
    /// 0.925 V
    V0_925,
    /// 0.950 V
    V0_950,
    /// 0.975 V
    V0_975,
    /// 1.000 V
    V1_000,
    /// 1.025 V
    V1_025,
    /// 1.050 V
    V1_050,
    /// 1.075 V
    V1_075,
    /// 1.100 V
    V1_100,
    /// 1.125 V
    V1_125,
    /// 1.150 V
    V1_150,
    /// 1.175 V
    V1_175,
    /// 1.200 V
    V1_200,
    /// 1.225 V
    V1_225,
    /// 1.250 V
    V1_250,
    /// 1.275 V
    V1_275,
    /// 1.300 V
    V1_300,
    /// 1.325 V
    V1_325,
    /// 1.350 V
    V1_350,
    /// 1.375 V
    V1_375,
    /// 1.400 V
    V1_400,
    /// 1.425 V
    V1_425,
    /// 1.450 V
    V1_450,
    /// 1.475 V
    V1_475,
    /// 1.500 V
    V1_500,
    /// 1.550 V
    V1_550,
    /// 1.600 V
    V1_600,
    /// 1.650 V
    V1_650,
    /// 1.700 V
    V1_700,
    /// 1.750 V
    V1_750,
    /// 1.800 V
    V1_800,
    /// 1.850 V
    V1_850,
    /// 1.900 V
    V1_900,
    /// 1.950 V
    V1_950,
    /// 2.000 V
    V2_000,
    /// 2.050 V
    V2_050,
    /// 2.100 V
    V2_100,
    /// 2.150 V
    V2_150,
    /// 2.200 V
    V2_200,
    /// 2.250 V
    V2_250,
    /// 2.300 V
    V2_300,
    /// 2.350 V
    V2_350,
    /// 2.400 V
    V2_400,
    /// 2.450 V
    V2_450,
    /// 2.500 V
    V2_500,
    /// 2.550 V
    V2_550,
    /// 2.600 V
    V2_600,
    /// 2.650 V
    V2_650,
    /// 2.700 V
    V2_700,
    /// 2.750 V
    V2_750,
    /// 2.800 V
    V2_800,
    /// 2.850 V
    V2_850,
    /// 2.900 V
    V2_900,
    /// 3.000 V
    V3_000,
    /// 3.100 V
    V3_100,
    /// 3.200 V
    V3_200,
    /// 3.300 V
    V3_300,
}

impl DCDCVoltage {
    /// The code that selects this voltage in the six-bit field of a DCDC or LDO2 register.
    pub open spec fn spec_code(self) -> u8 {
        match self {
            DCDCVoltage::V0_725 => 0x00,
            DCDCVoltage::V0_750 => 0x01,
            DCDCVoltage::V0_775 => 0x02,
            DCDCVoltage::V0_800 => 0x03,
            DCDCVoltage::V0_825 => 0x04,
            DCDCVoltage::V0_850 => 0x05,
            DCDCVoltage::V0_875 => 0x06,
            DCDCVoltage::V0_900 => 0x07,
            DCDCVoltage::V0_925 => 0x08,
            DCDCVoltage::V0_950 => 0x09,
            DCDCVoltage::V0_975 => 0x0A,
            DCDCVoltage::V1_000 => 0x0B,
            DCDCVoltage::V1_025 => 0x0C,
            DCDCVoltage::V1_050 => 0x0D,
            DCDCVoltage::V1_075 => 0x0E,
            DCDCVoltage::V1_100 => 0x0F,
            DCDCVoltage::V1_125 => 0x10,
            DCDCVoltage::V1_150 => 0x11,
            DCDCVoltage::V1_175 => 0x12,
            DCDCVoltage::V1_200 => 0x13,
            DCDCVoltage::V1_225 => 0x14,
            DCDCVoltage::V1_250 => 0x15,
            DCDCVoltage::V1_275 => 0x16,
            DCDCVoltage::V1_300 => 0x17,
            DCDCVoltage::V1_325 => 0x18,
            DCDCVoltage::V1_350 => 0x19,
            DCDCVoltage::V1_375 => 0x1A,
            DCDCVoltage::V1_400 => 0x1B,
            DCDCVoltage::V1_425 => 0x1C,
            DCDCVoltage::V1_450 => 0x1D,
            DCDCVoltage::V1_475 => 0x1E,
            DCDCVoltage::V1_500 => 0x1F,
            DCDCVoltage::V1_550 => 0x20,
            DCDCVoltage::V1_600 => 0x21,
            DCDCVoltage::V1_650 => 0x22,
            DCDCVoltage::V1_700 => 0x23,
            DCDCVoltage::V1_750 => 0x24,
            DCDCVoltage::V1_800 => 0x25,
            DCDCVoltage::V1_850 => 0x26,
            DCDCVoltage::V1_900 => 0x27,
            DCDCVoltage::V1_950 => 0x28,
            DCDCVoltage::V2_000 => 0x29,
            DCDCVoltage::V2_050 => 0x2A,
            DCDCVoltage::V2_100 => 0x2B,
            DCDCVoltage::V2_150 => 0x2C,
            DCDCVoltage::V2_200 => 0x2D,
            DCDCVoltage::V2_250 => 0x2E,
            DCDCVoltage::V2_300 => 0x2F,
            DCDCVoltage::V2_350 => 0x30,
            DCDCVoltage::V2_400 => 0x31,
            DCDCVoltage::V2_450 => 0x32,
            DCDCVoltage::V2_500 => 0x33,
            DCDCVoltage::V2_550 => 0x34,
            DCDCVoltage::V2_600 => 0x35,
            DCDCVoltage::V2_650 => 0x36,
            DCDCVoltage::V2_700 => 0x37,
            DCDCVoltage::V2_750 => 0x38,
            DCDCVoltage::V2_800 => 0x39,
            DCDCVoltage::V2_850 => 0x3A,
            DCDCVoltage::V2_900 => 0x3B,
            DCDCVoltage::V3_000 => 0x3C,
            DCDCVoltage::V3_100 => 0x3D,
            DCDCVoltage::V3_200 => 0x3E,
            DCDCVoltage::V3_300 => 0x3F,
        }
    }

    /// The code that selects this voltage in the six-bit field of a DCDC or LDO2 register.
    #[verifier::when_used_as_spec(spec_code)]
    pub fn code(self) -> (r: u8)
        ensures
            r == self.spec_code(),
    {
        match self {
            DCDCVoltage::V0_725 => 0x00,
            DCDCVoltage::V0_750 => 0x01,
            DCDCVoltage::V0_775 => 0x02,
            DCDCVoltage::V0_800 => 0x03,
            DCDCVoltage::V0_825 => 0x04,
            DCDCVoltage::V0_850 => 0x05,
            DCDCVoltage::V0_875 => 0x06,
            DCDCVoltage::V0_900 => 0x07,
            DCDCVoltage::V0_925 => 0x08,
            DCDCVoltage::V0_950 => 0x09,
            DCDCVoltage::V0_975 => 0x0A,
            DCDCVoltage::V1_000 => 0x0B,
            DCDCVoltage::V1_025 => 0x0C,
            DCDCVoltage::V1_050 => 0x0D,
            DCDCVoltage::V1_075 => 0x0E,
            DCDCVoltage::V1_100 => 0x0F,
            DCDCVoltage::V1_125 => 0x10,
            DCDCVoltage::V1_150 => 0x11,
            DCDCVoltage::V1_175 => 0x12,
            DCDCVoltage::V1_200 => 0x13,
            DCDCVoltage::V1_225 => 0x14,
            DCDCVoltage::V1_250 => 0x15,
            DCDCVoltage::V1_275 => 0x16,
            DCDCVoltage::V1_300 => 0x17,
            DCDCVoltage::V1_325 => 0x18,
            DCDCVoltage::V1_350 => 0x19,
            DCDCVoltage::V1_375 => 0x1A,
            DCDCVoltage::V1_400 => 0x1B,
            DCDCVoltage::V1_425 => 0x1C,
            DCDCVoltage::V1_450 => 0x1D,
            DCDCVoltage::V1_475 => 0x1E,
            DCDCVoltage::V1_500 => 0x1F,
            DCDCVoltage::V1_550 => 0x20,
            DCDCVoltage::V1_600 => 0x21,
            DCDCVoltage::V1_650 => 0x22,
            DCDCVoltage::V1_700 => 0x23,
            DCDCVoltage::V1_750 => 0x24,
            DCDCVoltage::V1_800 => 0x25,
            DCDCVoltage::V1_850 => 0x26,
            DCDCVoltage::V1_900 => 0x27,
            DCDCVoltage::V1_950 => 0x28,
            DCDCVoltage::V2_000 => 0x29,
            DCDCVoltage::V2_050 => 0x2A,
            DCDCVoltage::V2_100 => 0x2B,
            DCDCVoltage::V2_150 => 0x2C,
            DCDCVoltage::V2_200 => 0x2D,
            DCDCVoltage::V2_250 => 0x2E,
            DCDCVoltage::V2_300 => 0x2F,
            DCDCVoltage::V2_350 => 0x30,
            DCDCVoltage::V2_400 => 0x31,
            DCDCVoltage::V2_450 => 0x32,
            DCDCVoltage::V2_500 => 0x33,
            DCDCVoltage::V2_550 => 0x34,
            DCDCVoltage::V2_600 => 0x35,
            DCDCVoltage::V2_650 => 0x36,
            DCDCVoltage::V2_700 => 0x37,
            DCDCVoltage::V2_750 => 0x38,
            DCDCVoltage::V2_800 => 0x39,
            DCDCVoltage::V2_850 => 0x3A,
            DCDCVoltage::V2_900 => 0x3B,
            DCDCVoltage::V3_000 => 0x3C,
            DCDCVoltage::V3_100 => 0x3D,
            DCDCVoltage::V3_200 => 0x3E,
            DCDCVoltage::V3_300 => 0x3F,
        }
    }

    /// The voltage that the code `v` selects. Every value of the 6-bit
    /// field is the code of one voltage; a larger number is none.
    pub fn from(v: u8) -> (r: Self)
        requires
            v <= 0x3F,
        ensures
            r.spec_code() == v,
    {
        match v {
            0x00 => DCDCVoltage::V0_725,
            0x01 => DCDCVoltage::V0_750,
            0x02 => DCDCVoltage::V0_775,
            0x03 => DCDCVoltage::V0_800,
            0x04 => DCDCVoltage::V0_825,
            0x05 => DCDCVoltage::V0_850,
            0x06 => DCDCVoltage::V0_875,
            0x07 => DCDCVoltage::V0_900,
            0x08 => DCDCVoltage::V0_925,
            0x09 => DCDCVoltage::V0_950,
            0x0A => DCDCVoltage::V0_975,
            0x0B => DCDCVoltage::V1_000,
            0x0C => DCDCVoltage::V1_025,
            0x0D => DCDCVoltage::V1_050,
            0x0E => DCDCVoltage::V1_075,
            0x0F => DCDCVoltage::V1_100,
            0x10 => DCDCVoltage::V1_125,
            0x11 => DCDCVoltage::V1_150,
            0x12 => DCDCVoltage::V1_175,
            0x13 => DCDCVoltage::V1_200,
            0x14 => DCDCVoltage::V1_225,
            0x15 => DCDCVoltage::V1_250,
            0x16 => DCDCVoltage::V1_275,
            0x17 => DCDCVoltage::V1_300,
            0x18 => DCDCVoltage::V1_325,
            0x19 => DCDCVoltage::V1_350,
            0x1A => DCDCVoltage::V1_375,
            0x1B => DCDCVoltage::V1_400,
            0x1C => DCDCVoltage::V1_425,
            0x1D => DCDCVoltage::V1_450,
            0x1E => DCDCVoltage::V1_475,
            0x1F => DCDCVoltage::V1_500,
            0x20 => DCDCVoltage::V1_550,
            0x21 => DCDCVoltage::V1_600,
            0x22 => DCDCVoltage::V1_650,
            0x23 => DCDCVoltage::V1_700,
            0x24 => DCDCVoltage::V1_750,
            0x25 => DCDCVoltage::V1_800,
            0x26 => DCDCVoltage::V1_850,
            0x27 => DCDCVoltage::V1_900,
            0x28 => DCDCVoltage::V1_950,
            0x29 => DCDCVoltage::V2_000,
            0x2A => DCDCVoltage::V2_050,
            0x2B => DCDCVoltage::V2_100,
            0x2C => DCDCVoltage::V2_150,
            0x2D => DCDCVoltage::V2_200,
            0x2E => DCDCVoltage::V2_250,
            0x2F => DCDCVoltage::V2_300,
            0x30 => DCDCVoltage::V2_350,
            0x31 => DCDCVoltage::V2_400,
            0x32 => DCDCVoltage::V2_450,
            0x33 => DCDCVoltage::V2_500,
            0x34 => DCDCVoltage::V2_550,
            0x35 => DCDCVoltage::V2_600,
            0x36 => DCDCVoltage::V2_650,
            0x37 => DCDCVoltage::V2_700,
            0x38 => DCDCVoltage::V2_750,
            0x39 => DCDCVoltage::V2_800,
            0x3A => DCDCVoltage::V2_850,
            0x3B => DCDCVoltage::V2_900,
            0x3C => DCDCVoltage::V3_000,
            0x3D => DCDCVoltage::V3_100,
            0x3E => DCDCVoltage::V3_200,
            _ => DCDCVoltage::V3_300,
        }
    }

    /// Every code fits in the 6 bits of the field.
    pub proof fn lemma_code_fits(self)
        ensures
            self.spec_code() <= 0x3F,
    {
    }

    /// No two voltages share a code, so a code read back names the voltage
    /// that was written.
    pub proof fn lemma_code_injective(self, other: Self)
        requires
            self.spec_code() == other.spec_code(),
        ensures
            self == other,
    {
    }

    /// Round trip: a voltage written to bits 5:0 of a byte is the voltage
    /// read from them, whatever the byte held before.
    pub proof fn lemma_field_round_trip(self, byte: u8, read: Self)
        requires
            read.spec_code() == field(with_field(byte, 5, 0, self.spec_code()), 5, 0),
        ensures
            read == self,
    {
        assert(field_max(5, 0) == 0x3F) by (bit_vector);
        lemma_field_round_trip(byte, 5, 0, self.spec_code());
    }
}

impl From<DCDCVoltage> for u8 {
    fn from(v: DCDCVoltage) -> (r: u8) {
        v.code()
    }
}

impl vstd::std_specs::convert::FromSpecImpl<DCDCVoltage> for u8 {
    open spec fn obeys_from_spec() -> bool {
        true
    }

    open spec fn from_spec(v: DCDCVoltage) -> u8 {
        v.spec_code()
    }
}
/// Output voltage of the linear regulator LDO1.
#[derive(Debug, Clone, Copy, PartialEq, Eq, Structural)]
pub enum LDO1Voltage {
    /// 1.000 V
    V1_000,
    /// 1.100 V
    V1_100,
    /// 1.200 V
    V1_200,
    /// 1.250 V
    V1_250,
    /// 1.300 V
    V1_300,
    /// 1.350 V
    V1_350,
    /// 1.400 V
    V1_400,
    /// 1.500 V
    V1_500,
    /// 1.600 V
    V1_600,
    /// 1.800 V
    V1_800,
    /// 2.500 V
    V2_500,
    /// 2.750 V
    V2_750,
    /// 2.800 V
    V2_800,
    /// 3.000 V
    V3_000,
    /// 3.100 V
    V3_100,
    /// 3.300 V
    V3_300,
}

impl LDO1Voltage {
    /// The code that selects this voltage in the four-bit field of the LDO1 register.
    pub open spec fn spec_code(self) -> u8 {
        match self {
            LDO1Voltage::V1_000 => 0x00,
            LDO1Voltage::V1_100 => 0x01,
            LDO1Voltage::V1_200 => 0x02,
            LDO1Voltage::V1_250 => 0x03,
            LDO1Voltage::V1_300 => 0x04,
            LDO1Voltage::V1_350 => 0x05,
            LDO1Voltage::V1_400 => 0x06,
            LDO1Voltage::V1_500 => 0x07,
            LDO1Voltage::V1_600 => 0x08,
            LDO1Voltage::V1_800 => 0x09,
            LDO1Voltage::V2_500 => 0x0A,
            LDO1Voltage::V2_750 => 0x0B,
            LDO1Voltage::V2_800 => 0x0C,
            LDO1Voltage::V3_000 => 0x0D,
            LDO1Voltage::V3_100 => 0x0E,
            LDO1Voltage::V3_300 => 0x0F,
        }
    }

    /// The code that selects this voltage in the four-bit field of the LDO1 register.
    #[verifier::when_used_as_spec(spec_code)]
    pub fn code(self) -> (r: u8)
        ensures
            r == self.spec_code(),
    {
        match self {
            LDO1Voltage::V1_000 => 0x00,
            LDO1Voltage::V1_100 => 0x01,
            LDO1Voltage::V1_200 => 0x02,
            LDO1Voltage::V1_250 => 0x03,
            LDO1Voltage::V1_300 => 0x04,
            LDO1Voltage::V1_350 => 0x05,
            LDO1Voltage::V1_400 => 0x06,
            LDO1Voltage::V1_500 => 0x07,
            LDO1Voltage::V1_600 => 0x08,
            LDO1Voltage::V1_800 => 0x09,
            LDO1Voltage::V2_500 => 0x0A,
            LDO1Voltage::V2_750 => 0x0B,
            LDO1Voltage::V2_800 => 0x0C,
            LDO1Voltage::V3_000 => 0x0D,
            LDO1Voltage::V3_100 => 0x0E,
            LDO1Voltage::V3_300 => 0x0F,
        }
    }

    /// The voltage that the code `v` selects. Every value of the 4-bit
    /// field is the code of one voltage; a larger number is none.
    pub fn from(v: u8) -> (r: Self)
        requires
            v <= 0x0F,
        ensures
            r.spec_code() == v,
    {
        match v {
            0x00 => LDO1Voltage::V1_000,
            0x01 => LDO1Voltage::V1_100,
            0x02 => LDO1Voltage::V1_200,
            0x03 => LDO1Voltage::V1_250,
            0x04 => LDO1Voltage::V1_300,
            0x05 => LDO1Voltage::V1_350,
            0x06 => LDO1Voltage::V1_400,
            0x07 => LDO1Voltage::V1_500,
            0x08 => LDO1Voltage::V1_600,
            0x09 => LDO1Voltage::V1_800,
            0x0A => LDO1Voltage::V2_500,
            0x0B => LDO1Voltage::V2_750,
            0x0C => LDO1Voltage::V2_800,
            0x0D => LDO1Voltage::V3_000,
            0x0E => LDO1Voltage::V3_100,
            _ => LDO1Voltage::V3_300,
        }
    }

    /// Every code fits in the 4 bits of the field.
    pub proof fn lemma_code_fits(self)
        ensures
            self.spec_code() <= 0x0F,
    {
    }

    /// No two voltages share a code, so a code read back names the voltage
    /// that was written.
    pub proof fn lemma_code_injective(self, other: Self)
        requires
            self.spec_code() == other.spec_code(),
        ensures
            self == other,
    {
    }

    /// Round trip: a voltage written to bits 3:0 of a byte is the voltage
    /// read from them, whatever the byte held before.
    pub proof fn lemma_field_round_trip(self, byte: u8, read: Self)
        requires
            read.spec_code() == field(with_field(byte, 3, 0, self.spec_code()), 3, 0),
        ensures
            read == self,
    {
        assert(field_max(3, 0) == 0x0F) by (bit_vector);
        lemma_field_round_trip(byte, 3, 0, self.spec_code());
    }
}

impl From<LDO1Voltage> for u8 {
    fn from(v: LDO1Voltage) -> (r: u8) {
        v.code()
    }
}

impl vstd::std_specs::convert::FromSpecImpl<LDO1Voltage> for u8 {
    open spec fn obeys_from_spec() -> bool {
        true
    }

    open spec fn from_spec(v: LDO1Voltage) -> u8 {
        v.spec_code()
    }
}
} // verus!
