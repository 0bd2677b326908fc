//! The registers of the two linear regulators.

use crate::bits::{
    bit, bit_range, field, field_max, flag, lemma_field_bounded, set_bit, set_bit_range, with_field,
    with_flag,
};
use crate::defs::{DCDCVoltage, LDO1Voltage};
use vstd::prelude::*;

verus! {

/// The sequencing and output voltage register of LDO1 (address 0x16).
///
/// | bits | field |
/// |---|---|
/// | 3:0 | output voltage of LDO1 |
/// | 7:5 | power-up sequencing |
#[derive(Debug, Clone, Copy, PartialEq, Eq, Structural)]
pub struct LDO_CTRL1(pub u8);

impl LDO_CTRL1 {
    /// The output voltage of LDO1 (bits 3:0).
    pub fn ldo1(&self) -> (r: LDO1Voltage)
        ensures
            r.spec_code() == field(self.0, 3, 0),
    {
        let raw: u8 = bit_range(&self.0, 3, 0);
        proof {
            lemma_field_bounded(self.0, 3, 0);
            assert(field_max(3, 0) == 0x0F) by (bit_vector);
        }
        LDO1Voltage::from(raw)
    }

    /// Sets the output voltage of LDO1 (bits 3:0).
    pub fn set_ldo1(&mut self, value: LDO1Voltage)
        ensures
            final(self).0 == with_field(old(self).0, 3, 0, value.spec_code()),
    {
        set_bit_range(&mut self.0, 3, 0, value.into());
    }

    /// The power-up sequencing code (bits 7:5).
    pub fn ldo_seq(&self) -> (r: u8)
        ensures
            r == field(self.0, 7, 5),
    {
        bit_range(&self.0, 7, 5)
    }

    /// Writes the power-up sequencing code (bits 7:5). Of a larger number
    /// only the three low bits are kept.
    pub fn set_ldo_seq(&mut self, value: u8)
        ensures
            final(self).0 == with_field(old(self).0, 7, 5, value),
    {
        set_bit_range(&mut self.0, 7, 5, value);
    }
}

/// The output voltage register of LDO2 (address 0x17).
///
/// | bits | field |
/// |---|---|
/// | 5:0 | output voltage of LDO2 |
/// | 6 | LDO2 tracks DCDC3 |
#[derive(Debug, Clone, Copy, PartialEq, Eq, Structural)]
pub struct DEFLDO2(pub u8);

impl DEFLDO2 {
    /// The output voltage of LDO2 (bits 5:0).
    pub fn ldo2(&self) -> (r: DCDCVoltage)
        ensures
            r.spec_code() == field(self.0, 5, 0),
    {
        let raw: u8 = bit_range(&self.0, 5, 0);
        proof {
            lemma_field_bounded(self.0, 5, 0);
            assert(field_max(5, 0) == 0x3F) by (bit_vector);
        }
        DCDCVoltage::from(raw)
    }

    /// Sets the output voltage of LDO2 (bits 5:0).
    pub fn set_ldo2(&mut self, value: DCDCVoltage)
        ensures
            final(self).0 == with_field(old(self).0, 5, 0, value.spec_code()),
    {
        set_bit_range(&mut self.0, 5, 0, value.into());
    }

    /// Whether LDO2 tracks the output of DCDC3 (bit 6).
    pub fn tracking(&self) -> (r: bool)
        ensures
            r == flag(self.0, 6),
    {
        bit(&self.0, 6)
    }

    /// Makes LDO2 track the output of DCDC3, or not (bit 6).
    pub fn set_tracking(&mut self, value: bool)
        ensures
            final(self).0 == with_flag(old(self).0, 6, value),
    {
        set_bit(&mut self.0, 6, value);
    }
}

} // verus!
