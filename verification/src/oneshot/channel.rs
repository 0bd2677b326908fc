//! The channels of the converter, one type each.
//!
//! A channel names the input to sample and says whether the reference
//! voltage is on during the conversion. Each input has two channels: one
//! under the input's own name, with the reference voltage off, and one with
//! `_VrefOn` behind the name, with the reference voltage on.

use crate::regs::adc::AdcInputSelect;
use vstd::prelude::*;

verus! {

/// A channel's choice of reference voltage.
pub trait VrefParam {
    /// Whether the reference voltage is on while this channel is sampled.
    spec fn spec_vref() -> bool;

    /// Whether the reference voltage is on while this channel is sampled.
    fn vref() -> (r: bool)
        ensures
            r == Self::spec_vref(),
    ;
}

/// A channel's choice of input.
pub trait InputChannel {
    /// The input that this channel samples.
    spec fn spec_channel() -> AdcInputSelect;

    /// The input that this channel samples.
    fn channel() -> (r: AdcInputSelect)
        ensures
            r == Self::spec_channel(),
    ;
}

/// Samples the voltage at pin AD_IN1, with the reference voltage off.
pub struct VoltageAdIn1;

impl InputChannel for VoltageAdIn1 {
    open spec fn spec_channel() -> AdcInputSelect {
        AdcInputSelect::VoltageAdIn1
    }

    fn channel() -> (r: AdcInputSelect) {
        AdcInputSelect::VoltageAdIn1
    }
}

impl VrefParam for VoltageAdIn1 {
    open spec fn spec_vref() -> bool {
        false
    }

    fn vref() -> (r: bool) {
        false
    }
}

/// Samples the voltage at pin AD_IN2, with the reference voltage off.
pub struct VoltageAdIn2;

impl InputChannel for VoltageAdIn2 {
    open spec fn spec_channel() -> AdcInputSelect {
        AdcInputSelect::VoltageAdIn2
    }

    fn channel() -> (r: AdcInputSelect) {
        AdcInputSelect::VoltageAdIn2
    }
}

impl VrefParam for VoltageAdIn2 {
    open spec fn spec_vref() -> bool {
        false
    }

    fn vref() -> (r: bool) {
        false
    }
}

/// Samples the voltage at pin AD_IN3, with the reference voltage off.
pub struct VoltageAdIn3;

impl InputChannel for VoltageAdIn3 {
    open spec fn spec_channel() -> AdcInputSelect {
        AdcInputSelect::VoltageAdIn3
    }

    fn channel() -> (r: AdcInputSelect) {
        AdcInputSelect::VoltageAdIn3
    }
}

impl VrefParam for VoltageAdIn3 {
    open spec fn spec_vref() -> bool {
        false
    }

    fn vref() -> (r: bool) {
        false
    }
}

/// Samples the voltage at pin AD_IN4, with the reference voltage off.
pub struct VoltageAdIn4;

impl InputChannel for VoltageAdIn4 {
    open spec fn spec_channel() -> AdcInputSelect {
        AdcInputSelect::VoltageAdIn4
    }

    fn channel() -> (r: AdcInputSelect) {
        AdcInputSelect::VoltageAdIn4
    }
}

impl VrefParam for VoltageAdIn4 {
    open spec fn spec_vref() -> bool {
        false
    }

    fn vref() -> (r: bool) {
        false
    }
}

/// Samples the voltage at pin TS, with the reference voltage off.
pub struct VoltageTsPin;

impl InputChannel for VoltageTsPin {
    open spec fn spec_channel() -> AdcInputSelect {
        AdcInputSelect::VoltageTsPin
    }

    fn channel() -> (r: AdcInputSelect) {
        AdcInputSelect::VoltageTsPin
    }
}

impl VrefParam for VoltageTsPin {
    open spec fn spec_vref() -> bool {
        false
    }

    fn vref() -> (r: bool) {
        false
    }
}

/// Samples the voltage at pin ISET, with the reference voltage off.
pub struct VoltageIsetPin;

impl InputChannel for VoltageIsetPin {
    open spec fn spec_channel() -> AdcInputSelect {
        AdcInputSelect::VoltageIsetPin
    }

    fn channel() -> (r: AdcInputSelect) {
        AdcInputSelect::VoltageIsetPin
    }
}

impl VrefParam for VoltageIsetPin {
    open spec fn spec_vref() -> bool {
        false
    }

    fn vref() -> (r: bool) {
        false
    }
}

/// Samples the input voltage of the charger, with the reference voltage off.
pub struct InputVoltageCharger;

impl InputChannel for InputVoltageCharger {
    open spec fn spec_channel() -> AdcInputSelect {
        AdcInputSelect::InputVoltageCharger
    }

    fn channel() -> (r: AdcInputSelect) {
        AdcInputSelect::InputVoltageCharger
    }
}

impl VrefParam for InputVoltageCharger {
    open spec fn spec_vref() -> bool {
        false
    }

    fn vref() -> (r: bool) {
        false
    }
}

/// Samples the voltage at the battery pins, with the reference voltage off.
pub struct VoltageBatPins;

impl InputChannel for VoltageBatPins {
    open spec fn spec_channel() -> AdcInputSelect {
        AdcInputSelect::VoltageBatPins
    }

    fn channel() -> (r: AdcInputSelect) {
        AdcInputSelect::VoltageBatPins
    }
}

impl VrefParam for VoltageBatPins {
    open spec fn spec_vref() -> bool {
        false
    }

    fn vref() -> (r: bool) {
        false
    }
}

/// Samples the voltage at pin AD_IN5, with the reference voltage off.
pub struct VoltageAdIn5;

impl InputChannel for VoltageAdIn5 {
    open spec fn spec_channel() -> AdcInputSelect {
        AdcInputSelect::VoltageAdIn5
    }

    fn channel() -> (r: AdcInputSelect) {
        AdcInputSelect::VoltageAdIn5
    }
}

impl VrefParam for VoltageAdIn5 {
    open spec fn spec_vref() -> bool {
        false
    }

    fn vref() -> (r: bool) {
        false
    }
}

/// Samples the voltage at pin AD_IN6, with the reference voltage off.
pub struct VoltageAdIn6;

impl InputChannel for VoltageAdIn6 {
    open spec fn spec_channel() -> AdcInputSelect {
        AdcInputSelect::VoltageAdIn6
    }

    fn channel() -> (r: AdcInputSelect) {
        AdcInputSelect::VoltageAdIn6
    }
}

impl VrefParam for VoltageAdIn6 {
    open spec fn spec_vref() -> bool {
        false
    }

    fn vref() -> (r: bool) {
        false
    }
}

/// Samples the voltage at pin AD_IN7, with the reference voltage off.
pub struct VoltageAdIn7;

impl InputChannel for VoltageAdIn7 {
    open spec fn spec_channel() -> AdcInputSelect {
        AdcInputSelect::VoltageAdIn7
    }

    fn channel() -> (r: AdcInputSelect) {
        AdcInputSelect::VoltageAdIn7
    }
}

impl VrefParam for VoltageAdIn7 {
    open spec fn spec_vref() -> bool {
        false
    }

    fn vref() -> (r: bool) {
        false
    }
}

/// Samples the touch screen, all functions, with the reference voltage off.
pub struct TouchScreenAllFunc;

impl InputChannel for TouchScreenAllFunc {
    open spec fn spec_channel() -> AdcInputSelect {
        AdcInputSelect::TouchScreenAllFunc
    }

    fn channel() -> (r: AdcInputSelect) {
        AdcInputSelect::TouchScreenAllFunc
    }
}

impl VrefParam for TouchScreenAllFunc {
    open spec fn spec_vref() -> bool {
        false
    }

    fn vref() -> (r: bool) {
        false
    }
}

/// Samples the touch screen, x and y position, with the reference voltage off.
pub struct TouchScreenXYPos;

impl InputChannel for TouchScreenXYPos {
    open spec fn spec_channel() -> AdcInputSelect {
        AdcInputSelect::TouchScreenXYPos
    }

    fn channel() -> (r: AdcInputSelect) {
        AdcInputSelect::TouchScreenXYPos
    }
}

impl VrefParam for TouchScreenXYPos {
    open spec fn spec_vref() -> bool {
        false
    }

    fn vref() -> (r: bool) {
        false
    }
}

/// Samples the voltage at pin AD_IN1, with the reference voltage on.
pub struct VoltageAdIn1_VrefOn;

impl InputChannel for VoltageAdIn1_VrefOn {
    open spec fn spec_channel() -> AdcInputSelect {
        AdcInputSelect::VoltageAdIn1
    }

    fn channel() -> (r: AdcInputSelect) {
        AdcInputSelect::VoltageAdIn1
    }
}

impl VrefParam for VoltageAdIn1_VrefOn {
    open spec fn spec_vref() -> bool {
        true
    }

    fn vref() -> (r: bool) {
        true
    }
}

/// Samples the voltage at pin AD_IN2, with the reference voltage on.
pub struct VoltageAdIn2_VrefOn;

impl InputChannel for VoltageAdIn2_VrefOn {
    open spec fn spec_channel() -> AdcInputSelect {
        AdcInputSelect::VoltageAdIn2
    }

    fn channel() -> (r: AdcInputSelect) {
        AdcInputSelect::VoltageAdIn2
    }
}

impl VrefParam for VoltageAdIn2_VrefOn {
    open spec fn spec_vref() -> bool {
        true
    }

    fn vref() -> (r: bool) {
        true
    }
}

/// Samples the voltage at pin AD_IN3, with the reference voltage on.
pub struct VoltageAdIn3_VrefOn;

impl InputChannel for VoltageAdIn3_VrefOn {
    open spec fn spec_channel() -> AdcInputSelect {
        AdcInputSelect::VoltageAdIn3
    }

    fn channel() -> (r: AdcInputSelect) {
        AdcInputSelect::VoltageAdIn3
    }
}

impl VrefParam for VoltageAdIn3_VrefOn {
    open spec fn spec_vref() -> bool {
        true
    }

    fn vref() -> (r: bool) {
        true
    }
}

/// Samples the voltage at pin AD_IN4, with the reference voltage on.
pub struct VoltageAdIn4_VrefOn;

impl InputChannel for VoltageAdIn4_VrefOn {
    open spec fn spec_channel() -> AdcInputSelect {
        AdcInputSelect::VoltageAdIn4
    }

    fn channel() -> (r: AdcInputSelect) {
        AdcInputSelect::VoltageAdIn4
    }
}

impl VrefParam for VoltageAdIn4_VrefOn {
    open spec fn spec_vref() -> bool {
        true
    }

    fn vref() -> (r: bool) {
        true
    }
}

/// Samples the voltage at pin TS, with the reference voltage on.
pub struct VoltageTsPin_VrefOn;

impl InputChannel for VoltageTsPin_VrefOn {
    open spec fn spec_channel() -> AdcInputSelect {
        AdcInputSelect::VoltageTsPin
    }

    fn channel() -> (r: AdcInputSelect) {
        AdcInputSelect::VoltageTsPin
    }
}

impl VrefParam for VoltageTsPin_VrefOn {
    open spec fn spec_vref() -> bool {
        true
    }

    fn vref() -> (r: bool) {
        true
    }
}

/// Samples the voltage at pin ISET, with the reference voltage on.
pub struct VoltageIsetPin_VrefOn;

impl InputChannel for VoltageIsetPin_VrefOn {
    open spec fn spec_channel() -> AdcInputSelect {
        AdcInputSelect::VoltageIsetPin
    }

    fn channel() -> (r: AdcInputSelect) {
        AdcInputSelect::VoltageIsetPin
    }
}

impl VrefParam for VoltageIsetPin_VrefOn {
    open spec fn spec_vref() -> bool {
        true
    }

    fn vref() -> (r: bool) {
        true
    }
}

/// Samples the input voltage of the charger, with the reference voltage on.
pub struct InputVoltageCharger_VrefOn;

impl InputChannel for InputVoltageCharger_VrefOn {
    open spec fn spec_channel() -> AdcInputSelect {
        AdcInputSelect::InputVoltageCharger
    }

    fn channel() -> (r: AdcInputSelect) {
        AdcInputSelect::InputVoltageCharger
    }
}

impl VrefParam for InputVoltageCharger_VrefOn {
    open spec fn spec_vref() -> bool {
        true
    }

    fn vref() -> (r: bool) {
        true
    }
}

/// Samples the voltage at the battery pins, with the reference voltage on.
pub struct VoltageBatPins_VrefOn;

impl InputChannel for VoltageBatPins_VrefOn {
    open spec fn spec_channel() -> AdcInputSelect {
        AdcInputSelect::VoltageBatPins
    }

    fn channel() -> (r: AdcInputSelect) {
        AdcInputSelect::VoltageBatPins
    }
}

impl VrefParam for VoltageBatPins_VrefOn {
    open spec fn spec_vref() -> bool {
        true
    }

    fn vref() -> (r: bool) {
        true
    }
}

/// Samples the voltage at pin AD_IN5, with the reference voltage on.
pub struct VoltageAdIn5_VrefOn;

impl InputChannel for VoltageAdIn5_VrefOn {
    open spec fn spec_channel() -> AdcInputSelect {
        AdcInputSelect::VoltageAdIn5
    }

    fn channel() -> (r: AdcInputSelect) {
        AdcInputSelect::VoltageAdIn5
    }
}

impl VrefParam for VoltageAdIn5_VrefOn {
    open spec fn spec_vref() -> bool {
        true
    }

    fn vref() -> (r: bool) {
        true
    }
}

/// Samples the voltage at pin AD_IN6, with the reference voltage on.
pub struct VoltageAdIn6_VrefOn;

impl InputChannel for VoltageAdIn6_VrefOn {
    open spec fn spec_channel() -> AdcInputSelect {
        AdcInputSelect::VoltageAdIn6
    }

    fn channel() -> (r: AdcInputSelect) {
        AdcInputSelect::VoltageAdIn6
    }
}

impl VrefParam for VoltageAdIn6_VrefOn {
    open spec fn spec_vref() -> bool {
        true
    }

    fn vref() -> (r: bool) {
        true
    }
}

/// Samples the voltage at pin AD_IN7, with the reference voltage on.
pub struct VoltageAdIn7_VrefOn;

impl InputChannel for VoltageAdIn7_VrefOn {
    open spec fn spec_channel() -> AdcInputSelect {
        AdcInputSelect::VoltageAdIn7
    }

    fn channel() -> (r: AdcInputSelect) {
        AdcInputSelect::VoltageAdIn7
    }
}

impl VrefParam for VoltageAdIn7_VrefOn {
    open spec fn spec_vref() -> bool {
        true
    }

    fn vref() -> (r: bool) {
        true
    }
}

/// Samples the touch screen, all functions, with the reference voltage on.
pub struct TouchScreenAllFunc_VrefOn;

impl InputChannel for TouchScreenAllFunc_VrefOn {
    open spec fn spec_channel() -> AdcInputSelect {
        AdcInputSelect::TouchScreenAllFunc
    }

    fn channel() -> (r: AdcInputSelect) {
        AdcInputSelect::TouchScreenAllFunc
    }
}

impl VrefParam for TouchScreenAllFunc_VrefOn {
    open spec fn spec_vref() -> bool {
        true
    }

    fn vref() -> (r: bool) {
        true
    }
}

/// Samples the touch screen, x and y position, with the reference voltage on.
pub struct TouchScreenXYPos_VrefOn;

impl InputChannel for TouchScreenXYPos_VrefOn {
    open spec fn spec_channel() -> AdcInputSelect {
        AdcInputSelect::TouchScreenXYPos
    }

    fn channel() -> (r: AdcInputSelect) {
        AdcInputSelect::TouchScreenXYPos
    }
}

impl VrefParam for TouchScreenXYPos_VrefOn {
    open spec fn spec_vref() -> bool {
        true
    }

    fn vref() -> (r: bool) {
        true
    }
}

} // verus!
