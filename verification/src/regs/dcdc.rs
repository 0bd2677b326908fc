//! The output voltage registers of the three step-down converters.

use crate::bits::{
    bit, bit_range, field, field_max, flag, lemma_field_bounded, set_bit, set_bit_range, with_field,
    with_flag,
};
use crate::defs::DCDCVoltage;
use vstd::prelude::*;

verus! {

/// The output voltage register of DCDC1 (address 0x10).
///
/// | bits | field |
/// |---|---|
/// | 5:0 | output voltage |
/// | 7 | external adjustment |
#[derive(Debug, Clone, Copy, PartialEq, Eq, Structural)]
pub struct DEFDCDC1(pub u8);

impl DEFDCDC1 {
    /// The output voltage (bits 5:0).
    pub fn dcdc1(&self) -> (r: DCDCVoltage)
        ensures
            r.spec_code() == field(self.0, 5, 0),
    {
        let raw: u8 = bit_range(&self.0, 5, 0);
        proof {
            lemma_field_bounded(self.0, 5, 0);
            assert(field_max(5, 0) == 0x3F) by (bit_vector);
        }
        DCDCVoltage::from(raw)
    }

    /// Sets the output voltage (bits 5:0).
    pub fn set_dcdc1(&mut self, value: DCDCVoltage)
        ensures
            final(self).0 == with_field(old(self).0, 5, 0, value.spec_code()),
    {
        set_bit_range(&mut self.0, 5, 0, value.into());
    }

    /// Whether the output voltage is set by an external resistor divider
    /// (bit 7).
    pub fn extadj(&self) -> (r: bool)
        ensures
            r == flag(self.0, 7),
    {
        bit(&self.0, 7)
    }

    /// Hands the output voltage to an external resistor divider, or takes it
    /// back (bit 7).
    pub fn set_extadj(&mut self, value: bool)
        ensures
            final(self).0 == with_flag(old(self).0, 7, value),
    {
        set_bit(&mut self.0, 7, value);
    }
}

/// The output voltage register of DCDC2 while its select pin is high (address 0x12).
///
/// | bits | field |
/// |---|---|
/// | 5:0 | output voltage |
/// | 7 | external adjustment |
#[derive(Debug, Clone, Copy, PartialEq, Eq, Structural)]
pub struct DEFDCDC2_HIGH(pub u8);

impl DEFDCDC2_HIGH {
    /// The output voltage (bits 5:0).
    pub fn dcdc2(&self) -> (r: DCDCVoltage)
        ensures
            r.spec_code() == field(self.0, 5, 0),
    {
        let raw: u8 = bit_range(&self.0, 5, 0);
        proof {
            lemma_field_bounded(self.0, 5, 0);
            assert(field_max(5, 0) == 0x3F) by (bit_vector);
        }
        DCDCVoltage::from(raw)
    }

    /// Sets the output voltage (bits 5:0).
    pub fn set_dcdc2(&mut self, value: DCDCVoltage)
        ensures
            final(self).0 == with_field(old(self).0, 5, 0, value.spec_code()),
    {
        set_bit_range(&mut self.0, 5, 0, value.into());
    }

    /// Whether the output voltage is set by an external resistor divider
    /// (bit 7).
    pub fn extadj(&self) -> (r: bool)
        ensures
            r == flag(self.0, 7),
    {
        bit(&self.0, 7)
    }

    /// Hands the output voltage to an external resistor divider, or takes it
    /// back (bit 7).
    pub fn set_extadj(&mut self, value: bool)
        ensures
            final(self).0 == with_flag(old(self).0, 7, value),
    {
        set_bit(&mut self.0, 7, value);
    }
}

/// The output voltage register of DCDC3 while its select pin is high (address 0x14).
///
/// | bits | field |
/// |---|---|
/// | 5:0 | output voltage |
/// | 7 | external adjustment |
#[derive(Debug, Clone, Copy, PartialEq, Eq, Structural)]
pub struct DEFDCDC3_HIGH(pub u8);

impl DEFDCDC3_HIGH {
    /// The output voltage (bits 5:0).
    pub fn dcdc3(&self) -> (r: DCDCVoltage)
        ensures
            r.spec_code() == field(self.0, 5, 0),
    {
        let raw: u8 = bit_range(&self.0, 5, 0);
        proof {
            lemma_field_bounded(self.0, 5, 0);
            assert(field_max(5, 0) == 0x3F) by (bit_vector);
        }
        DCDCVoltage::from(raw)
    }

    /// Sets the output voltage (bits 5:0).
    pub fn set_dcdc3(&mut self, value: DCDCVoltage)
        ensures
            final(self).0 == with_field(old(self).0, 5, 0, value.spec_code()),
    {
        set_bit_range(&mut self.0, 5, 0, value.into());
    }

    /// Whether the output voltage is set by an external resistor divider
    /// (bit 7).
    pub fn extadj(&self) -> (r: bool)
        ensures
            r == flag(self.0, 7),
    {
        bit(&self.0, 7)
    }

    /// Hands the output voltage to an external resistor divider, or takes it
    /// back (bit 7).
    pub fn set_extadj(&mut self, value: bool)
        ensures
            final(self).0 == with_flag(old(self).0, 7, value),
    {
        set_bit(&mut self.0, 7, value);
    }
}

} // verus!
