use embedded_hal::blocking::i2c::{Write, WriteRead};
use embedded_hal_mock::i2c::{Mock as I2cMock, Transaction as I2cTransaction};
use embedded_hal_mock::MockError;
use std::io::ErrorKind;

use tps6507x::channel;
use tps6507x::regs::Registers;
use tps6507x::{
    AcInputCurrent, Bus, ChargerConfig, DCDCVoltage, LDO1Voltage, PowerPath, SafetyTimerTimeOut,
    SensorType, Tps6507x, Tps6507xError, UsbInputCurrent, SLAVE_ADDR,
};

/// Lets the driver talk to anything that speaks embedded-hal's blocking I2C.
struct HalBus<I2C>(I2C);

impl<I2C, E> Bus for HalBus<I2C>
where
    I2C: Write<Error = E> + WriteRead<Error = E>,
{
    type Error = E;

    fn write(&mut self, address: u8, bytes: &[u8]) -> Result<(), E> {
        self.0.write(address, bytes)
    }

    fn write_read(&mut self, address: u8, bytes: &[u8], buffer: &mut [u8]) -> Result<(), E> {
        self.0.write_read(address, bytes, buffer)
    }
}

fn driver(expectations: &[I2cTransaction]) -> Tps6507x<HalBus<I2cMock>> {
    Tps6507x::new(HalBus(I2cMock::new(expectations)))
}

fn finish(tps: Tps6507x<HalBus<I2cMock>>) {
    let mut bus = tps.destroy();
    bus.0.done();
}

fn fault() -> MockError {
    MockError::Io(ErrorKind::Other)
}

#[test]
fn basic_test() {
    let expectations = [
        I2cTransaction::write(tps6507x::SLAVE_ADDR, vec![0x10, 0x2D]),
        I2cTransaction::write(tps6507x::SLAVE_ADDR, vec![0x12, 0x3F]),
        I2cTransaction::write(tps6507x::SLAVE_ADDR, vec![0x14, 0x1F]),
        I2cTransaction::write(tps6507x::SLAVE_ADDR, vec![0x17, 0x3F]),
        I2cTransaction::write(tps6507x::SLAVE_ADDR, vec![0x04, 0x30]),
        // Poll Usb connected
        I2cTransaction::write_read(tps6507x::SLAVE_ADDR, vec![0x01], vec![0b1000_1101]),
        // Poll Usb disconnected
        I2cTransaction::write_read(tps6507x::SLAVE_ADDR, vec![0x01], vec![0b0000_1101]),
    ];
    let i2c = I2cMock::new(&expectations);

    let mut tps = Tps6507x::new(HalBus(i2c));
    tps.set_dcdc1(DCDCVoltage::V2_200).unwrap();
    tps.set_dcdc2_high(DCDCVoltage::V3_300).unwrap();
    tps.set_dcdc3_high(DCDCVoltage::V1_500).unwrap();
    tps.set_ldo2(DCDCVoltage::V3_300).unwrap();
    tps.set_charger_config(ChargerConfig {
        charger_enable: false,
        ..Default::default()
    })
    .unwrap();

    assert_eq!(tps.usb_power().unwrap(), true);
    assert_eq!(tps.usb_power().unwrap(), false);

    let mut i2c = tps.destroy();
    i2c.0.done();
}

#[test]
fn adc_read_test() {
    let expectations = [
        // set_adc_vref(true)
        I2cTransaction::write_read(tps6507x::SLAVE_ADDR, vec![0x07], vec![0b0010_0000]),
        I2cTransaction::write(tps6507x::SLAVE_ADDR, vec![0x07, 0b0011_0000]),
        // poll till conversion finished
        I2cTransaction::write_read(tps6507x::SLAVE_ADDR, vec![0x07], vec![0b0011_0000]),
        // enable adc, set channel and start measure
        I2cTransaction::write(tps6507x::SLAVE_ADDR, vec![0x07, 0b1101_1001]),
        // read conversion results
        I2cTransaction::write_read(tps6507x::SLAVE_ADDR, vec![0x09], vec![0xA5]),
        I2cTransaction::write_read(tps6507x::SLAVE_ADDR, vec![0x0A], vec![0x02]),
    ];
    let i2c = I2cMock::new(&expectations);

    let mut tps = Tps6507x::new(HalBus(i2c));
    tps.set_adc_vref(true).unwrap();
    let sample = tps.read(&mut channel::VoltageBatPins_VrefOn).unwrap();

    assert_eq!(sample, (0x02 << 8) | 0xA5);

    let mut i2c = tps.destroy();
    i2c.0.done();
}

#[test]
fn slave_address_is_0x48() {
    assert_eq!(SLAVE_ADDR, 0x48);
}

#[test]
fn read_on_busy_converter_would_block_and_writes_nothing() {
    // End-of-conversion (bit 5) clear: the only transaction is the poll.
    let mut tps = driver(&[I2cTransaction::write_read(SLAVE_ADDR, vec![0x07], vec![0b0001_0000])]);
    let r = tps.read(&mut channel::VoltageBatPins_VrefOn);
    assert_eq!(r, Err(nb::Error::WouldBlock));
    finish(tps);
}

#[test]
fn read_can_be_retried_after_would_block() {
    let mut tps = driver(&[
        I2cTransaction::write_read(SLAVE_ADDR, vec![0x07], vec![0x00]),
        I2cTransaction::write_read(SLAVE_ADDR, vec![0x07], vec![0xDF]),
        I2cTransaction::write_read(SLAVE_ADDR, vec![0x07], vec![0x20]),
        I2cTransaction::write(SLAVE_ADDR, vec![0x07, 0b1100_0000]),
        I2cTransaction::write_read(SLAVE_ADDR, vec![0x09], vec![0xFF]),
        I2cTransaction::write_read(SLAVE_ADDR, vec![0x0A], vec![0xFF]),
    ]);
    assert_eq!(tps.read(&mut channel::VoltageAdIn1), Err(nb::Error::WouldBlock));
    assert_eq!(tps.read(&mut channel::VoltageAdIn1), Err(nb::Error::WouldBlock));
    assert_eq!(tps.read(&mut channel::VoltageAdIn1), Ok(0xFFFF));
    finish(tps);
}

#[test]
fn read_writes_a_command_that_owes_nothing_to_the_old_byte() {
    // Every bit of the polled byte is set; the command still has bit 5 and
    // the unused channel bits clear.
    let mut tps = driver(&[
        I2cTransaction::write_read(SLAVE_ADDR, vec![0x07], vec![0xFF]),
        I2cTransaction::write(SLAVE_ADDR, vec![0x07, 0b1100_0100]),
        I2cTransaction::write_read(SLAVE_ADDR, vec![0x09], vec![0x34]),
        I2cTransaction::write_read(SLAVE_ADDR, vec![0x0A], vec![0x12]),
    ]);
    assert_eq!(tps.read(&mut channel::VoltageTsPin), Ok(0x1234));
    finish(tps);
}

#[test]
fn read_low_byte_comes_first() {
    let mut tps = driver(&[
        I2cTransaction::write_read(SLAVE_ADDR, vec![0x07], vec![0x20]),
        I2cTransaction::write(SLAVE_ADDR, vec![0x07, 0b1101_1111]),
        I2cTransaction::write_read(SLAVE_ADDR, vec![0x09], vec![0x01]),
        I2cTransaction::write_read(SLAVE_ADDR, vec![0x0A], vec![0x00]),
    ]);
    assert_eq!(tps.read(&mut channel::TouchScreenXYPos_VrefOn), Ok(1));
    finish(tps);
}

#[test]
fn read_gives_up_when_the_poll_fails() {
    let mut tps = driver(&[
        I2cTransaction::write_read(SLAVE_ADDR, vec![0x07], vec![0x20]).with_error(fault())
    ]);
    assert_eq!(
        tps.read(&mut channel::VoltageAdIn2),
        Err(nb::Error::Other(fault()))
    );
    finish(tps);
}

#[test]
fn read_gives_up_when_the_command_fails() {
    let mut tps = driver(&[
        I2cTransaction::write_read(SLAVE_ADDR, vec![0x07], vec![0x20]),
        I2cTransaction::write(SLAVE_ADDR, vec![0x07, 0b1100_0001]).with_error(fault()),
    ]);
    assert_eq!(
        tps.read(&mut channel::VoltageAdIn2),
        Err(nb::Error::Other(fault()))
    );
    finish(tps);
}

#[test]
fn read_gives_up_when_the_low_byte_fails() {
    let mut tps = driver(&[
        I2cTransaction::write_read(SLAVE_ADDR, vec![0x07], vec![0x20]),
        I2cTransaction::write(SLAVE_ADDR, vec![0x07, 0b1100_0001]),
        I2cTransaction::write_read(SLAVE_ADDR, vec![0x09], vec![0x00]).with_error(fault()),
    ]);
    assert_eq!(
        tps.read(&mut channel::VoltageAdIn2),
        Err(nb::Error::Other(fault()))
    );
    finish(tps);
}

#[test]
fn read_gives_up_when_the_high_byte_fails() {
    let mut tps = driver(&[
        I2cTransaction::write_read(SLAVE_ADDR, vec![0x07], vec![0x20]),
        I2cTransaction::write(SLAVE_ADDR, vec![0x07, 0b1100_0001]),
        I2cTransaction::write_read(SLAVE_ADDR, vec![0x09], vec![0x11]),
        I2cTransaction::write_read(SLAVE_ADDR, vec![0x0A], vec![0x22]).with_error(fault()),
    ]);
    assert_eq!(
        tps.read(&mut channel::VoltageAdIn2),
        Err(nb::Error::Other(fault()))
    );
    finish(tps);
}

fn run<CH: channel::InputChannel + channel::VrefParam>(mut pin: CH, command: u8) {
    let mut tps = driver(&[
        I2cTransaction::write_read(SLAVE_ADDR, vec![0x07], vec![0x20]),
        I2cTransaction::write(SLAVE_ADDR, vec![0x07, command]),
        I2cTransaction::write_read(SLAVE_ADDR, vec![0x09], vec![0x00]),
        I2cTransaction::write_read(SLAVE_ADDR, vec![0x0A], vec![0x00]),
    ]);
    assert_eq!(tps.read(&mut pin), Ok(0));
    finish(tps);
}

#[test]
fn every_channel_writes_its_own_command() {
    run(channel::VoltageAdIn1, 0xC0);
    run(channel::VoltageAdIn2, 0xC1);
    run(channel::VoltageAdIn3, 0xC2);
    run(channel::VoltageAdIn4, 0xC3);
    run(channel::VoltageTsPin, 0xC4);
    run(channel::VoltageIsetPin, 0xC5);
    run(channel::InputVoltageCharger, 0xC8);
    run(channel::VoltageBatPins, 0xC9);
    run(channel::VoltageAdIn5, 0xCA);
    run(channel::VoltageAdIn6, 0xCB);
    run(channel::VoltageAdIn7, 0xCC);
    run(channel::TouchScreenAllFunc, 0xCE);
    run(channel::TouchScreenXYPos, 0xCF);
    run(channel::VoltageAdIn1_VrefOn, 0xD0);
    run(channel::VoltageAdIn2_VrefOn, 0xD1);
    run(channel::VoltageAdIn3_VrefOn, 0xD2);
    run(channel::VoltageAdIn4_VrefOn, 0xD3);
    run(channel::VoltageTsPin_VrefOn, 0xD4);
    run(channel::VoltageIsetPin_VrefOn, 0xD5);
    run(channel::InputVoltageCharger_VrefOn, 0xD8);
    run(channel::VoltageBatPins_VrefOn, 0xD9);
    run(channel::VoltageAdIn5_VrefOn, 0xDA);
    run(channel::VoltageAdIn6_VrefOn, 0xDB);
    run(channel::VoltageAdIn7_VrefOn, 0xDC);
    run(channel::TouchScreenAllFunc_VrefOn, 0xDE);
    run(channel::TouchScreenXYPos_VrefOn, 0xDF);
}

#[test]
fn set_power_path_writes_the_default_byte() {
    let mut tps = driver(&[I2cTransaction::write(SLAVE_ADDR, vec![0x01, 0x0D])]);
    tps.set_power_path(PowerPath::default()).unwrap();
    finish(tps);
}

#[test]
fn set_power_path_stores_the_enable_flags_inverted() {
    let mut tps = driver(&[I2cTransaction::write(SLAVE_ADDR, vec![0x01, 0b0011_0110])]);
    tps.set_power_path(PowerPath {
        usb_power_enable: false,
        usb_input_current: UsbInputCurrent::V800mA,
        ac_power_enable: false,
        ac_input_current: AcInputCurrent::V500mA,
    })
    .unwrap();
    finish(tps);
}

#[test]
fn usb_power_is_the_chips_report_not_what_was_written() {
    // USB enabled on the write side; the chip reports no USB power, then
    // reports USB power while the write side has it disabled.
    let mut tps = driver(&[
        I2cTransaction::write(SLAVE_ADDR, vec![0x01, 0x0D]),
        I2cTransaction::write_read(SLAVE_ADDR, vec![0x01], vec![0b0000_1101]),
        I2cTransaction::write_read(SLAVE_ADDR, vec![0x01], vec![0b1010_1101]),
    ]);
    tps.set_power_path(PowerPath {
        usb_power_enable: true,
        ..PowerPath::default()
    })
    .unwrap();
    assert_eq!(tps.usb_power().unwrap(), false);
    assert_eq!(tps.usb_power().unwrap(), true);
    finish(tps);
}

#[test]
fn acc_power_reads_bit_6() {
    let mut tps = driver(&[
        I2cTransaction::write_read(SLAVE_ADDR, vec![0x01], vec![0b0100_0000]),
        I2cTransaction::write_read(SLAVE_ADDR, vec![0x01], vec![0b1011_1111]),
    ]);
    assert_eq!(tps.acc_power().unwrap(), true);
    assert_eq!(tps.acc_power().unwrap(), false);
    finish(tps);
}

#[test]
fn set_charger_config_writes_the_default_byte() {
    let mut tps = driver(&[I2cTransaction::write(SLAVE_ADDR, vec![0x04, 0x31])]);
    tps.set_charger_config(ChargerConfig::default()).unwrap();
    finish(tps);
}

#[test]
fn set_charger_config_writes_every_field() {
    let mut tps = driver(&[I2cTransaction::write(SLAVE_ADDR, vec![0x04, 0b1000_1110])]);
    tps.set_charger_config(ChargerConfig {
        charger_enable: false,
        suspend_charge: true,
        charge_termination: false,
        charger_reset: true,
        sensor_type: SensorType::V100K,
        safety_timer_enable: false,
        charger_safety_timer_timeout: SafetyTimerTimeOut::V6Hours,
    })
    .unwrap();
    finish(tps);
}

#[test]
fn set_charger_reset_changes_bit_3_only() {
    let mut tps = driver(&[
        I2cTransaction::write_read(SLAVE_ADDR, vec![0x04], vec![0b1011_0001]),
        I2cTransaction::write(SLAVE_ADDR, vec![0x04, 0b1011_1001]),
        I2cTransaction::write_read(SLAVE_ADDR, vec![0x04], vec![0b1111_1111]),
        I2cTransaction::write(SLAVE_ADDR, vec![0x04, 0b1111_0111]),
    ]);
    tps.set_charger_reset(true).unwrap();
    tps.set_charger_reset(false).unwrap();
    finish(tps);
}

#[test]
fn set_ldo1_keeps_the_sequencing_bits() {
    let mut tps = driver(&[
        I2cTransaction::write_read(SLAVE_ADDR, vec![0x16], vec![0b1010_0000]),
        I2cTransaction::write(SLAVE_ADDR, vec![0x16, 0b1010_1111]),
        I2cTransaction::write_read(SLAVE_ADDR, vec![0x16], vec![0b1111_1111]),
        I2cTransaction::write(SLAVE_ADDR, vec![0x16, 0b1111_1001]),
    ]);
    tps.set_ldo1(LDO1Voltage::V3_300).unwrap();
    tps.set_ldo1(LDO1Voltage::V1_800).unwrap();
    finish(tps);
}

#[test]
fn set_adc_vref_changes_bit_4_only() {
    let mut tps = driver(&[
        I2cTransaction::write_read(SLAVE_ADDR, vec![0x07], vec![0b1111_1111]),
        I2cTransaction::write(SLAVE_ADDR, vec![0x07, 0b1110_1111]),
    ]);
    tps.set_adc_vref(false).unwrap();
    finish(tps);
}

#[test]
fn a_failed_read_stops_an_update_before_the_write() {
    let mut tps = driver(&[
        I2cTransaction::write_read(SLAVE_ADDR, vec![0x07], vec![0x00]).with_error(fault()),
        I2cTransaction::write_read(SLAVE_ADDR, vec![0x04], vec![0x00]).with_error(fault()),
        I2cTransaction::write_read(SLAVE_ADDR, vec![0x16], vec![0x00]).with_error(fault()),
    ]);
    assert!(matches!(tps.set_adc_vref(true), Err(Tps6507xError::Interface(e)) if e == fault()));
    assert!(matches!(tps.set_charger_reset(true), Err(Tps6507xError::Interface(e)) if e == fault()));
    assert!(
        matches!(tps.set_ldo1(LDO1Voltage::V1_000), Err(Tps6507xError::Interface(e)) if e == fault())
    );
    finish(tps);
}

#[test]
fn a_failed_write_is_reported_as_interface_error() {
    let mut tps = driver(&[
        I2cTransaction::write(SLAVE_ADDR, vec![0x10, 0x00]).with_error(fault()),
        I2cTransaction::write_read(SLAVE_ADDR, vec![0x07], vec![0x00]),
        I2cTransaction::write(SLAVE_ADDR, vec![0x07, 0x10]).with_error(fault()),
        I2cTransaction::write(SLAVE_ADDR, vec![0x01, 0x0D]).with_error(fault()),
        I2cTransaction::write(SLAVE_ADDR, vec![0x04, 0x31]).with_error(fault()),
    ]);
    assert!(
        matches!(tps.set_dcdc1(DCDCVoltage::V0_725), Err(Tps6507xError::Interface(e)) if e == fault())
    );
    assert!(matches!(tps.set_adc_vref(true), Err(Tps6507xError::Interface(e)) if e == fault()));
    assert!(
        matches!(tps.set_power_path(PowerPath::default()), Err(Tps6507xError::Interface(e)) if e == fault())
    );
    assert!(matches!(
        tps.set_charger_config(ChargerConfig::default()),
        Err(Tps6507xError::Interface(e)) if e == fault()
    ));
    finish(tps);
}

#[test]
fn a_failed_status_read_is_reported_as_interface_error() {
    let mut tps = driver(&[
        I2cTransaction::write_read(SLAVE_ADDR, vec![0x01], vec![0xFF]).with_error(fault()),
        I2cTransaction::write_read(SLAVE_ADDR, vec![0x01], vec![0xFF]).with_error(fault()),
    ]);
    assert!(matches!(tps.usb_power(), Err(Tps6507xError::Interface(e)) if e == fault()));
    assert!(matches!(tps.acc_power(), Err(Tps6507xError::Interface(e)) if e == fault()));
    finish(tps);
}

#[test]
fn raw_access_sends_address_then_value() {
    let mut tps = driver(&[
        I2cTransaction::write(SLAVE_ADDR, vec![0x19, 0xAB]),
        I2cTransaction::write_read(SLAVE_ADDR, vec![0x0B], vec![0x5A]),
        I2cTransaction::write(SLAVE_ADDR, vec![0x02, 0x00]).with_error(fault()),
        I2cTransaction::write_read(SLAVE_ADDR, vec![0x0F], vec![0x00]).with_error(fault()),
    ]);
    assert_eq!(tps.write_register_raw(Registers::WLED_CTRL2, 0xAB), Ok(()));
    assert_eq!(tps.read_register_raw(Registers::PGOOD), Ok(0x5A));
    assert_eq!(tps.write_register_raw(Registers::INT, 0x00), Err(fault()));
    assert_eq!(tps.read_register_raw(Registers::CON_CTRL3), Err(fault()));
    finish(tps);
}

#[test]
fn set_same_configuration_twice_writes_the_same_byte_twice() {
    let config = ChargerConfig {
        suspend_charge: true,
        charger_safety_timer_timeout: SafetyTimerTimeOut::V8Hours,
        ..ChargerConfig::default()
    };
    let mut tps = driver(&[
        I2cTransaction::write(SLAVE_ADDR, vec![0x04, 0xF3]),
        I2cTransaction::write(SLAVE_ADDR, vec![0x04, 0xF3]),
    ]);
    tps.set_charger_config(config).unwrap();
    tps.set_charger_config(config).unwrap();
    finish(tps);
}

/// A bus that is never used, told apart by a number.
struct Tagged(u32);

impl Bus for Tagged {
    type Error = ();

    fn write(&mut self, _address: u8, _bytes: &[u8]) -> Result<(), ()> {
        Err(())
    }

    fn write_read(&mut self, _address: u8, _bytes: &[u8], _buffer: &mut [u8]) -> Result<(), ()> {
        Err(())
    }
}

#[test]
fn destroy_hands_back_the_bus_that_new_took() {
    let tps = Tps6507x::new(Tagged(7));
    assert_eq!(tps.destroy().0, 7);
}

#[test]
fn error_from_bus_error_is_interface() {
    let e: Tps6507xError<u8> = Tps6507xError::from(3u8);
    assert!(matches!(e, Tps6507xError::Interface(3)));
}

#[test]
fn error_from_nested_nonblocking_error_is_flattened() {
    let outer: nb::Error<nb::Error<u8>> = nb::Error::WouldBlock;
    let e: Tps6507xError<nb::Error<u8>> = Tps6507xError::from(outer);
    assert!(matches!(e, Tps6507xError::Interface(nb::Error::WouldBlock)));

    let inner_block: nb::Error<nb::Error<u8>> = nb::Error::Other(nb::Error::WouldBlock);
    let e: Tps6507xError<nb::Error<u8>> = Tps6507xError::from(inner_block);
    assert!(matches!(e, Tps6507xError::Interface(nb::Error::WouldBlock)));

    let inner_other: nb::Error<nb::Error<u8>> = nb::Error::Other(nb::Error::Other(9));
    let e: Tps6507xError<nb::Error<u8>> = Tps6507xError::from(inner_other);
    assert!(matches!(e, Tps6507xError::Interface(nb::Error::Other(9))));
}
