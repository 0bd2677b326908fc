use tps6507x::oneshot::assemble_sample;
use tps6507x::regs::adc::{AdcInputSelect, ADCONFIG};
use tps6507x::regs::chgconfig::{
    BatterySensorType, ChargerConfig, SafetyTimerTimeOut, SensorType, CHGCONFIG1,
};
use tps6507x::regs::dcdc::{DEFDCDC1, DEFDCDC2_HIGH, DEFDCDC3_HIGH};
use tps6507x::regs::ldo::{DEFLDO2, LDO_CTRL1};
use tps6507x::regs::ppath::{AcInputCurrent, PowerPath, UsbInputCurrent, PPATH1};
use tps6507x::regs::Registers;
use tps6507x::{DCDCVoltage, LDO1Voltage};

const INPUTS: [(AdcInputSelect, u8); 13] = [
    (AdcInputSelect::VoltageAdIn1, 0b0000),
    (AdcInputSelect::VoltageAdIn2, 0b0001),
    (AdcInputSelect::VoltageAdIn3, 0b0010),
    (AdcInputSelect::VoltageAdIn4, 0b0011),
    (AdcInputSelect::VoltageTsPin, 0b0100),
    (AdcInputSelect::VoltageIsetPin, 0b0101),
    (AdcInputSelect::InputVoltageCharger, 0b1000),
    (AdcInputSelect::VoltageBatPins, 0b1001),
    (AdcInputSelect::VoltageAdIn5, 0b1010),
    (AdcInputSelect::VoltageAdIn6, 0b1011),
    (AdcInputSelect::VoltageAdIn7, 0b1100),
    (AdcInputSelect::TouchScreenAllFunc, 0b1110),
    (AdcInputSelect::TouchScreenXYPos, 0b1111),
];

const TIMEOUTS: [SafetyTimerTimeOut; 4] = [
    SafetyTimerTimeOut::V4Hours,
    SafetyTimerTimeOut::V5Hours,
    SafetyTimerTimeOut::V6Hours,
    SafetyTimerTimeOut::V8Hours,
];

#[test]
fn test_bitfield_ldo2() {
    let reg = DEFLDO2(DCDCVoltage::V3_300.code());
    assert_eq!(reg.0, 0x3F);
}

#[test]
fn test_bitfield_chgconfig1() {
    let mut reg = CHGCONFIG1(0x00);
    reg.set_sensor_type10k(true);
    reg.set_safety_timer_enable(true);
    assert_eq!(reg.0, 0x30);
}

#[test]
fn voltage_codes_are_the_datasheets() {
    assert_eq!(DCDCVoltage::V3_300.code(), 0x3F);
    assert_eq!(DCDCVoltage::V2_200.code(), 0x2D);
    assert_eq!(DCDCVoltage::V1_500.code(), 0x1F);
    assert_eq!(DCDCVoltage::V0_725.code(), 0x00);
    assert_eq!(DCDCVoltage::V1_550.code(), 0x20);
    assert_eq!(DCDCVoltage::V2_900.code(), 0x3B);
    assert_eq!(DCDCVoltage::V3_000.code(), 0x3C);
    assert_eq!(u8::from(DCDCVoltage::V1_800), 0x25);
    assert_eq!(LDO1Voltage::V1_000.code(), 0x0);
    assert_eq!(LDO1Voltage::V1_250.code(), 0x3);
    assert_eq!(LDO1Voltage::V1_800.code(), 0x9);
    assert_eq!(LDO1Voltage::V2_500.code(), 0xA);
    assert_eq!(LDO1Voltage::V3_300.code(), 0xF);
    assert_eq!(u8::from(LDO1Voltage::V2_750), 0xB);
}

#[test]
fn every_voltage_code_round_trips() {
    for code in 0u8..=0x3F {
        assert_eq!(DCDCVoltage::from(code).code(), code);
        let mut reg = DEFLDO2(0xFF);
        reg.set_ldo2(DCDCVoltage::from(code));
        assert_eq!(reg.0, 0xC0 | code);
        assert_eq!(reg.ldo2(), DCDCVoltage::from(code));
    }
    for code in 0u8..=0x0F {
        assert_eq!(LDO1Voltage::from(code).code(), code);
        let mut reg = LDO_CTRL1(0x00);
        reg.set_ldo1(LDO1Voltage::from(code));
        assert_eq!(reg.0, code);
        assert_eq!(reg.ldo1(), LDO1Voltage::from(code));
    }
}

#[test]
fn register_addresses_match_the_map() {
    assert_eq!(Registers::PPATH1.addr(), 0x01);
    assert_eq!(Registers::INT.addr(), 0x02);
    assert_eq!(Registers::CHGCONFIG0.addr(), 0x03);
    assert_eq!(Registers::CHGCONFIG1.addr(), 0x04);
    assert_eq!(Registers::CHGCONFIG2.addr(), 0x05);
    assert_eq!(Registers::CHGCONFIG3.addr(), 0x06);
    assert_eq!(Registers::ADCONFIG.addr(), 0x07);
    assert_eq!(Registers::TSCMODE.addr(), 0x08);
    assert_eq!(Registers::ADRESULT_1.addr(), 0x09);
    assert_eq!(Registers::ADRESULT_2.addr(), 0x0A);
    assert_eq!(Registers::PGOOD.addr(), 0x0B);
    assert_eq!(Registers::PGOODMASK.addr(), 0x0C);
    assert_eq!(Registers::CON_CTRL1.addr(), 0x0D);
    assert_eq!(Registers::CON_CTRL2.addr(), 0x0E);
    assert_eq!(Registers::CON_CTRL3.addr(), 0x0F);
    assert_eq!(Registers::DEFDCDC1.addr(), 0x10);
    assert_eq!(Registers::DEFDCDC2_LOW.addr(), 0x11);
    assert_eq!(Registers::DEFDCDC2_HIGH.addr(), 0x12);
    assert_eq!(Registers::DEFDCDC3_LOW.addr(), 0x13);
    assert_eq!(Registers::DEFDCDC3_HIGH.addr(), 0x14);
    assert_eq!(Registers::DEFSLEW.addr(), 0x15);
    assert_eq!(Registers::LDO_CTRL1.addr(), 0x16);
    assert_eq!(Registers::DEFLDO2.addr(), 0x17);
    assert_eq!(Registers::WLED_CTRL1.addr(), 0x18);
    assert_eq!(Registers::WLED_CTRL2.addr(), 0x19);
}

#[test]
fn adc_input_codes_round_trip() {
    for (input, code) in INPUTS {
        assert_eq!(input.code(), code);
        assert_eq!(u8::from(input), code);
        assert!(AdcInputSelect::is_code(code));
        assert_eq!(AdcInputSelect::from(code), input);
        let mut reg = ADCONFIG(0xF0);
        reg.set_input_select(input);
        assert_eq!(reg.0, 0xF0 | code);
        assert_eq!(reg.input_select(), input);
    }
}

#[test]
fn adc_input_codes_without_an_input_are_told_apart() {
    assert!(!AdcInputSelect::is_code(0b0110));
    assert!(!AdcInputSelect::is_code(0b0111));
    assert!(!AdcInputSelect::is_code(0b1101));
    assert!(!AdcInputSelect::is_code(0x10));
    assert!(!AdcInputSelect::is_code(0xFF));
}

#[test]
fn adconfig_flags_sit_at_bits_4_to_7() {
    let mut reg = ADCONFIG(0x00);
    reg.set_vref_enable(true);
    assert_eq!(reg.0, 0x10);
    reg.set_end_of_conversion(true);
    assert_eq!(reg.0, 0x30);
    reg.set_conversion_start(true);
    assert_eq!(reg.0, 0x70);
    reg.set_ad_enable(true);
    assert_eq!(reg.0, 0xF0);
    assert!(reg.vref_enable() && reg.end_of_conversion() && reg.conversion_start() && reg.ad_enable());
    reg.set_end_of_conversion(false);
    assert_eq!(reg.0, 0xD0);
    assert!(!reg.end_of_conversion());
    reg.set_ad_enable(false);
    reg.set_conversion_start(false);
    reg.set_vref_enable(false);
    assert_eq!(reg.0, 0x00);
    assert!(!reg.vref_enable() && !reg.conversion_start() && !reg.ad_enable());
    assert!(ADCONFIG(0b0010_0000).end_of_conversion());
    assert!(!ADCONFIG(0b1101_1111).end_of_conversion());
}

#[test]
fn arm_builds_the_conversion_command() {
    let mut reg = ADCONFIG(0b0011_0000);
    reg.arm(AdcInputSelect::VoltageBatPins, true);
    assert_eq!(reg.0, 0b1101_1001);

    for old in [0x00u8, 0x20, 0x2F, 0xFF, 0x5A] {
        for (input, code) in INPUTS {
            let mut reg = ADCONFIG(old);
            reg.arm(input, false);
            assert_eq!(reg.0, 0xC0 | code);
            let mut reg = ADCONFIG(old);
            reg.arm(input, true);
            assert_eq!(reg.0, 0xD0 | code);
        }
    }
}

#[test]
fn assemble_sample_puts_the_low_byte_low() {
    assert_eq!(assemble_sample(0xA5, 0x02), 0x02A5);
    assert_eq!(assemble_sample(0x00, 0x00), 0x0000);
    assert_eq!(assemble_sample(0xFF, 0x00), 0x00FF);
    assert_eq!(assemble_sample(0x00, 0xFF), 0xFF00);
    assert_eq!(assemble_sample(0xFF, 0xFF), 0xFFFF);
    assert_eq!(assemble_sample(0x01, 0x03), 769);
}

#[test]
fn charger_config_default_is_as_documented() {
    let config = ChargerConfig::default();
    assert_eq!(
        config,
        ChargerConfig {
            charger_enable: true,
            suspend_charge: false,
            charge_termination: true,
            charger_reset: false,
            sensor_type: SensorType::V10K,
            safety_timer_enable: true,
            charger_safety_timer_timeout: SafetyTimerTimeOut::V4Hours,
        }
    );
    assert_eq!(CHGCONFIG1::from(config).0, 0x31);
    let disabled = ChargerConfig {
        charger_enable: false,
        ..config
    };
    assert_eq!(CHGCONFIG1::from(disabled).0, 0x30);
}

#[test]
fn power_path_default_is_as_documented() {
    let path = PowerPath::default();
    assert_eq!(
        path,
        PowerPath {
            usb_power_enable: true,
            usb_input_current: UsbInputCurrent::V500mA,
            ac_power_enable: true,
            ac_input_current: AcInputCurrent::V2500mA,
        }
    );
    assert_eq!(PPATH1::from(path).0, 0x0D);
}

#[test]
fn charger_config_fields_read_back() {
    for bits in 0u8..64 {
        for timeout in TIMEOUTS {
            let config = ChargerConfig {
                charger_enable: bits & 1 != 0,
                suspend_charge: bits & 2 != 0,
                charge_termination: bits & 4 != 0,
                charger_reset: bits & 8 != 0,
                sensor_type: if bits & 16 != 0 { SensorType::V10K } else { SensorType::V100K },
                safety_timer_enable: bits & 32 != 0,
                charger_safety_timer_timeout: timeout,
            };
            let reg = CHGCONFIG1::from(config);
            assert_eq!(reg.charger_enable(), config.charger_enable);
            assert_eq!(reg.suspend_charge(), config.suspend_charge);
            assert_eq!(reg.charge_termination_off(), !config.charge_termination);
            assert_eq!(reg.charger_reset(), config.charger_reset);
            assert_eq!(reg.sensor_type10k(), bool::from(config.sensor_type));
            assert_eq!(reg.safety_timer_enable(), config.safety_timer_enable);
            assert_eq!(reg.charge_safety_timer(), timeout);
            // Encoding twice gives the same byte twice.
            assert_eq!(CHGCONFIG1::from(config), reg);
        }
    }
}

#[test]
fn charger_config_bytes_are_bit_exact() {
    let off = ChargerConfig {
        charger_enable: false,
        suspend_charge: false,
        charge_termination: true,
        charger_reset: false,
        sensor_type: SensorType::V100K,
        safety_timer_enable: false,
        charger_safety_timer_timeout: SafetyTimerTimeOut::V4Hours,
    };
    assert_eq!(CHGCONFIG1::from(off).0, 0x00);
    assert_eq!(CHGCONFIG1::from(ChargerConfig { charger_enable: true, ..off }).0, 0x01);
    assert_eq!(CHGCONFIG1::from(ChargerConfig { suspend_charge: true, ..off }).0, 0x02);
    assert_eq!(CHGCONFIG1::from(ChargerConfig { charge_termination: false, ..off }).0, 0x04);
    assert_eq!(CHGCONFIG1::from(ChargerConfig { charger_reset: true, ..off }).0, 0x08);
    assert_eq!(CHGCONFIG1::from(ChargerConfig { sensor_type: SensorType::V10K, ..off }).0, 0x10);
    assert_eq!(CHGCONFIG1::from(ChargerConfig { safety_timer_enable: true, ..off }).0, 0x20);
    assert_eq!(
        CHGCONFIG1::from(ChargerConfig {
            charger_safety_timer_timeout: SafetyTimerTimeOut::V5Hours,
            ..off
        })
        .0,
        0x40
    );
    assert_eq!(
        CHGCONFIG1::from(ChargerConfig {
            charger_safety_timer_timeout: SafetyTimerTimeOut::V6Hours,
            ..off
        })
        .0,
        0x80
    );
    assert_eq!(
        CHGCONFIG1::from(ChargerConfig {
            charger_safety_timer_timeout: SafetyTimerTimeOut::V8Hours,
            ..off
        })
        .0,
        0xC0
    );
}

#[test]
fn safety_timer_codes_round_trip() {
    for (code, timeout) in TIMEOUTS.iter().enumerate() {
        let code = code as u8;
        assert_eq!(timeout.code(), code);
        assert_eq!(u8::from(*timeout), code);
        assert_eq!(SafetyTimerTimeOut::from(code), *timeout);
        let mut reg = CHGCONFIG1(0x3F);
        reg.set_charge_safety_timer(*timeout);
        assert_eq!(reg.0, 0x3F | (code << 6));
        assert_eq!(reg.charge_safety_timer(), *timeout);
    }
}

#[test]
fn sensor_types_convert() {
    assert_eq!(bool::from(SensorType::V10K), true);
    assert_eq!(bool::from(SensorType::V100K), false);
    assert_eq!(BatterySensorType::from(0x00), BatterySensorType::V100K);
    assert_eq!(BatterySensorType::from(0x01), BatterySensorType::V10K);
}

#[test]
fn chgconfig1_setters_change_their_own_bit_only() {
    for start in [0x00u8, 0xFF, 0xA5, 0x5A] {
        for on in [false, true] {
            let expect = |bit: u8| if on { start | (1 << bit) } else { start & !(1 << bit) };
            let mut reg = CHGCONFIG1(start);
            reg.set_charger_enable(on);
            assert_eq!(reg.0, expect(0));
            let mut reg = CHGCONFIG1(start);
            reg.set_suspend_charge(on);
            assert_eq!(reg.0, expect(1));
            let mut reg = CHGCONFIG1(start);
            reg.set_charge_termination_off(on);
            assert_eq!(reg.0, expect(2));
            let mut reg = CHGCONFIG1(start);
            reg.set_charger_reset(on);
            assert_eq!(reg.0, expect(3));
            let mut reg = CHGCONFIG1(start);
            reg.set_sensor_type10k(on);
            assert_eq!(reg.0, expect(4));
            let mut reg = CHGCONFIG1(start);
            reg.set_safety_timer_enable(on);
            assert_eq!(reg.0, expect(5));
        }
    }
}

#[test]
fn setting_field_b_leaves_field_a_alone() {
    // Set A, then B, and A's bits are what they were.
    let mut reg = CHGCONFIG1(0x00);
    reg.set_charge_safety_timer(SafetyTimerTimeOut::V6Hours);
    reg.set_sensor_type10k(true);
    assert_eq!(reg.charge_safety_timer(), SafetyTimerTimeOut::V6Hours);
    reg.set_charger_enable(true);
    reg.set_charger_reset(true);
    assert_eq!(reg.charge_safety_timer(), SafetyTimerTimeOut::V6Hours);
    assert!(reg.sensor_type10k());
    assert_eq!(reg.0, 0b1001_1001);

    let mut reg = PPATH1(0x00);
    reg.set_usb_input_current(0b10);
    reg.set_ac_input_current(0b01);
    assert_eq!(reg.usb_input_current(), 0b10);
    reg.set_ac_power_disable(true);
    assert_eq!(reg.ac_input_current(), 0b01);
    assert_eq!(reg.usb_input_current(), 0b10);

    let mut reg = LDO_CTRL1(0x00);
    reg.set_ldo_seq(0b101);
    reg.set_ldo1(LDO1Voltage::V3_300);
    assert_eq!(reg.ldo_seq(), 0b101);
    reg.set_ldo_seq(0b010);
    assert_eq!(reg.ldo1(), LDO1Voltage::V3_300);
    assert_eq!(reg.0, 0b0100_1111);
}

#[test]
fn setting_a_field_twice_is_setting_it_once() {
    let mut once = ADCONFIG(0xA5);
    once.set_input_select(AdcInputSelect::VoltageAdIn7);
    let mut twice = once;
    twice.set_input_select(AdcInputSelect::VoltageAdIn7);
    assert_eq!(once, twice);

    let mut once = PPATH1(0x5A);
    once.set_usb_power_disable(true);
    let mut twice = once;
    twice.set_usb_power_disable(true);
    assert_eq!(once, twice);
}

#[test]
fn power_path_fields_read_back() {
    let usb = [
        UsbInputCurrent::V100mA,
        UsbInputCurrent::V500mA,
        UsbInputCurrent::V800mA,
        UsbInputCurrent::V1300mA,
    ];
    let ac = [
        AcInputCurrent::V100mA,
        AcInputCurrent::V500mA,
        AcInputCurrent::V1300mA,
        AcInputCurrent::V2500mA,
    ];
    for (usb_code, usb_current) in usb.iter().enumerate() {
        for (ac_code, ac_current) in ac.iter().enumerate() {
            for flags in 0u8..4 {
                let path = PowerPath {
                    usb_power_enable: flags & 1 != 0,
                    usb_input_current: *usb_current,
                    ac_power_enable: flags & 2 != 0,
                    ac_input_current: *ac_current,
                };
                let reg = PPATH1::from(path);
                assert_eq!(usb_current.code(), usb_code as u8);
                assert_eq!(ac_current.code(), ac_code as u8);
                assert_eq!(reg.usb_input_current(), usb_code as u8);
                assert_eq!(reg.ac_input_current(), ac_code as u8);
                assert_eq!(reg.usb_power_disable(), !path.usb_power_enable);
                assert_eq!(reg.ac_disable(), !path.ac_power_enable);
                // The status bits are the chip's: never written.
                assert!(!reg.usb_power());
                assert!(!reg.ac_power());
                assert_eq!(PPATH1::from(path), reg);
            }
        }
    }
}

#[test]
fn power_path_status_bits_are_read_only_and_independent() {
    let mut reg = PPATH1(0b1100_0000);
    assert!(reg.usb_power());
    assert!(reg.ac_power());
    reg.set_usb_power_disable(true);
    reg.set_ac_power_disable(true);
    reg.set_usb_input_current(0b11);
    reg.set_ac_input_current(0b11);
    assert_eq!(reg.0, 0xFF);
    assert!(reg.usb_power());
    assert!(reg.ac_power());
    assert!(PPATH1(0b1000_0000).usb_power());
    assert!(!PPATH1(0b1000_0000).ac_power());
    assert!(PPATH1(0b0100_0000).ac_power());
    assert!(!PPATH1(0b0100_0000).usb_power());
}

#[test]
fn raw_fields_keep_only_the_bits_that_fit() {
    let mut reg = PPATH1(0x00);
    reg.set_usb_input_current(0xFF);
    assert_eq!(reg.0, 0b0000_0011);
    reg.set_ac_input_current(0b0110);
    assert_eq!(reg.0, 0b0000_1011);
    let mut reg = LDO_CTRL1(0x1F);
    reg.set_ldo_seq(0xFF);
    assert_eq!(reg.0, 0xFF);
    reg.set_ldo_seq(0b1000);
    assert_eq!(reg.0, 0x1F);
    assert_eq!(LDO_CTRL1(0b1010_0000).ldo_seq(), 0b101);
}

#[test]
fn dcdc_registers_hold_voltage_and_external_adjust() {
    let mut reg = DEFDCDC1(0x00);
    reg.set_dcdc1(DCDCVoltage::V2_200);
    assert_eq!(reg.0, 0x2D);
    reg.set_extadj(true);
    assert_eq!(reg.0, 0xAD);
    assert_eq!(reg.dcdc1(), DCDCVoltage::V2_200);
    assert!(reg.extadj());

    let mut reg = DEFDCDC2_HIGH(0xFF);
    reg.set_dcdc2(DCDCVoltage::V1_500);
    assert_eq!(reg.0, 0xDF);
    reg.set_extadj(false);
    assert_eq!(reg.0, 0x5F);
    assert_eq!(reg.dcdc2(), DCDCVoltage::V1_500);
    assert!(!reg.extadj());

    let mut reg = DEFDCDC3_HIGH(0x40);
    reg.set_dcdc3(DCDCVoltage::V3_300);
    assert_eq!(reg.0, 0x7F);
    assert_eq!(reg.dcdc3(), DCDCVoltage::V3_300);
    assert!(!reg.extadj());
    assert!(DEFDCDC3_HIGH(0x80).extadj());
}

#[test]
fn ldo2_register_holds_voltage_and_tracking() {
    let mut reg = DEFLDO2(0x00);
    reg.set_tracking(true);
    assert_eq!(reg.0, 0x40);
    reg.set_ldo2(DCDCVoltage::V1_800);
    assert_eq!(reg.0, 0x65);
    assert!(reg.tracking());
    assert_eq!(reg.ldo2(), DCDCVoltage::V1_800);
    reg.set_tracking(false);
    assert_eq!(reg.0, 0x25);
    assert!(!reg.tracking());
}
