//! The driver: a bus handle and the operations that configure the chip
//! through it.

use crate::bits::{flag, with_field, with_flag};
use crate::bus::{
    extends, lemma_extends_itself, lemma_extends_push, run_between, Bus, Recorded, Transaction,
    SLAVE_ADDR,
};
use crate::defs::{DCDCVoltage, LDO1Voltage};
use crate::regs::adc::ADCONFIG;
use crate::regs::chgconfig::{ChargerConfig, CHGCONFIG1};
use crate::regs::ldo::LDO_CTRL1;
use crate::regs::ppath::{PowerPath, PPATH1};
use crate::regs::Registers;
use vstd::prelude::*;

verus! {

/// Why an operation of the driver failed.
#[derive(Debug)]
pub enum Tps6507xError<E> {
    /// A value read back differs from the value written before. Reserved:
    /// no operation of this crate reads back what it wrote, so none returns
    /// this.
    ReadBackMismatch,
    /// The bus failed, with this error.
    Interface(E),
}

/// The result of an operation of the driver over a bus with error type `E`.
pub type Tps6507xResult<T, E> = Result<T, Tps6507xError<E>>;

impl<E> Tps6507xError<E> {
    /// What the driver returns for what the bus returned: success as it is,
    /// a failure of the bus as `Interface`.
    pub open spec fn lift<T>(outcome: Result<T, E>) -> Tps6507xResult<T, E> {
        match outcome {
            Ok(value) => Ok(value),
            Err(e) => Err(Tps6507xError::Interface(e)),
        }
    }
}

impl<E> From<E> for Tps6507xError<E> {
    fn from(e: E) -> (r: Self) {
        Tps6507xError::Interface(e)
    }
}

impl<E> vstd::std_specs::convert::FromSpecImpl<E> for Tps6507xError<E> {
    open spec fn obeys_from_spec() -> bool {
        true
    }

    open spec fn from_spec(e: E) -> Self {
        Tps6507xError::Interface(e)
    }
}

/// What one write of `value` to `register` leaves in the trace and returns.
pub open spec fn write_run<E>(
    register: Registers,
    value: u8,
    run: Seq<Transaction<E>>,
    r: Tps6507xResult<(), E>,
) -> bool {
    &&& run.len() == 1
    &&& run[0].is_write(register, value)
    &&& r == Tps6507xError::lift(run[0]->status)
}

/// What one read of bit `position` of `register` leaves in the trace and
/// returns.
pub open spec fn flag_run<E>(
    register: Registers,
    position: usize,
    run: Seq<Transaction<E>>,
    r: Tps6507xResult<bool, E>,
) -> bool {
    &&& run.len() == 1
    &&& run[0].is_read(register)
    &&& r == match run[0]->reply {
        Ok(byte) => Ok(flag(byte, position)),
        Err(e) => Err(Tps6507xError::Interface(e)),
    }
}

/// What a read of `register` followed by a write of the updated byte leaves
/// in the trace and returns. A failed read ends the run: nothing is written.
pub open spec fn update_run<E>(
    register: Registers,
    update: spec_fn(u8) -> u8,
    run: Seq<Transaction<E>>,
    r: Tps6507xResult<(), E>,
) -> bool {
    &&& run.len() >= 1
    &&& run[0].is_read(register)
    &&& match run[0]->reply {
        Err(e) => run.len() == 1 && r == Err::<(), Tps6507xError<E>>(Tps6507xError::Interface(e)),
        Ok(current) => {
            &&& run.len() == 2
            &&& run[1].is_write(register, update(current))
            &&& r == Tps6507xError::lift(run[1]->status)
        },
    }
}

/// The driver. It owns the bus handle from `new` to `destroy`.
pub struct Tps6507x<I2C: Bus> {
    i2c: Recorded<I2C>,
}

impl<I2C: Bus> Tps6507x<I2C> {
    /// The bus handle that the driver holds.
    pub closed spec fn bus(&self) -> I2C {
        self.i2c.bus()
    }

    /// Every transaction that the driver has asked of the bus, oldest first,
    /// each with its outcome. The trace exists only in contracts. It grows
    /// by one with every call of the bus and changes in no other way.
    pub closed spec fn trace(&self) -> Seq<Transaction<I2C::Error>> {
        self.i2c.trace()
    }

    /// A driver that owns `i2c` and has not used it yet.
    pub fn new(i2c: I2C) -> (r: Self)
        ensures
            r.bus() == i2c,
            r.trace() == Seq::<Transaction<I2C::Error>>::empty(),
    {
        Tps6507x { i2c: Recorded::new(i2c) }
    }

    /// Ends the driver and hands the bus back.
    pub fn destroy(self) -> (r: I2C)
        ensures
            r == self.bus(),
    {
        self.i2c.into_inner()
    }

    /// Configures the power path: one write of the power path control
    /// register.
    pub fn set_power_path(&mut self, power_path: PowerPath) -> (r: Tps6507xResult<(), I2C::Error>)
        ensures
            extends(old(self).trace(), final(self).trace()),
            write_run(
                Registers::PPATH1,
                power_path.register_byte(),
                run_between(old(self).trace(), final(self).trace()),
                r,
            ),
    {
        let reg: PPATH1 = power_path.into();
        let status = self.write_register_raw(Registers::PPATH1, reg.0);
        proof {
            lemma_extends_itself(old(self).trace());
            lemma_extends_push(old(self).trace(), old(self).trace(), self.trace().last());
        }
        match status {
            Ok(()) => Ok(()),
            Err(e) => Err(Tps6507xError::from(e)),
        }
    }

    /// Whether the chip sees power at its USB input: one read of the power
    /// path control register, of which bit 7 is returned. The bit is the
    /// chip's report, not an echo of what `set_power_path` wrote.
    pub fn usb_power(&mut self) -> (r: Tps6507xResult<bool, I2C::Error>)
        ensures
            extends(old(self).trace(), final(self).trace()),
            flag_run(
                Registers::PPATH1,
                7,
                run_between(old(self).trace(), final(self).trace()),
                r,
            ),
    {
        let reply = self.read_register_raw(Registers::PPATH1);
        proof {
            lemma_extends_itself(old(self).trace());
            lemma_extends_push(old(self).trace(), old(self).trace(), self.trace().last());
        }
        match reply {
            Ok(reg) => Ok(PPATH1(reg).usb_power()),
            Err(e) => Err(Tps6507xError::from(e)),
        }
    }

    /// Whether the chip sees power at its AC adapter input: one read of the
    /// power path control register, of which bit 6 is returned. The bit is
    /// the chip's report, not an echo of what `set_power_path` wrote.
    pub fn acc_power(&mut self) -> (r: Tps6507xResult<bool, I2C::Error>)
        ensures
            extends(old(self).trace(), final(self).trace()),
            flag_run(
                Registers::PPATH1,
                6,
                run_between(old(self).trace(), final(self).trace()),
                r,
            ),
    {
        let reply = self.read_register_raw(Registers::PPATH1);
        proof {
            lemma_extends_itself(old(self).trace());
            lemma_extends_push(old(self).trace(), old(self).trace(), self.trace().last());
        }
        match reply {
            Ok(reg) => Ok(PPATH1(reg).ac_power()),
            Err(e) => Err(Tps6507xError::from(e)),
        }
    }

    /// Configures the charger: one write of charger configuration
    /// register 1.
    pub fn set_charger_config(&mut self, config: ChargerConfig) -> (r: Tps6507xResult<(), I2C::Error>)
        ensures
            extends(old(self).trace(), final(self).trace()),
            write_run(
                Registers::CHGCONFIG1,
                config.register_byte(),
                run_between(old(self).trace(), final(self).trace()),
                r,
            ),
    {
        let reg: CHGCONFIG1 = config.into();
        let status = self.write_register_raw(Registers::CHGCONFIG1, reg.0);
        proof {
            lemma_extends_itself(old(self).trace());
            lemma_extends_push(old(self).trace(), old(self).trace(), self.trace().last());
        }
        match status {
            Ok(()) => Ok(()),
            Err(e) => Err(Tps6507xError::from(e)),
        }
    }

    /// Asserts or releases the charger reset: charger configuration
    /// register 1 is read, its bit 3 changed, and the byte written back.
    pub fn set_charger_reset(&mut self, asserted: bool) -> (r: Tps6507xResult<(), I2C::Error>)
        ensures
            extends(old(self).trace(), final(self).trace()),
            update_run(
                Registers::CHGCONFIG1,
                |current: u8| with_flag(current, 3, asserted),
                run_between(old(self).trace(), final(self).trace()),
                r,
            ),
    {
        let reply = self.read_register_raw(Registers::CHGCONFIG1);
        let ghost read = self.trace();
        proof {
            lemma_extends_itself(old(self).trace());
            lemma_extends_push(old(self).trace(), old(self).trace(), read.last());
        }
        let mut reg = match reply {
            Ok(current) => CHGCONFIG1(current),
            Err(e) => {
                return Err(Tps6507xError::from(e));
            },
        };
        reg.set_charger_reset(asserted);
        let status = self.write_register_raw(Registers::CHGCONFIG1, reg.0);
        proof {
            lemma_extends_push(old(self).trace(), read, self.trace().last());
        }
        match status {
            Ok(()) => Ok(()),
            Err(e) => Err(Tps6507xError::from(e)),
        }
    }

    /// Sets the output voltage of the DCDC1 converter: one write of the
    /// voltage's code to its register.
    pub fn set_dcdc1(&mut self, voltage: DCDCVoltage) -> (r: Tps6507xResult<(), I2C::Error>)
        ensures
            extends(old(self).trace(), final(self).trace()),
            write_run(
                Registers::DEFDCDC1,
                voltage.spec_code(),
                run_between(old(self).trace(), final(self).trace()),
                r,
            ),
    {
        let status = self.write_register_raw(Registers::DEFDCDC1, voltage.code());
        proof {
            lemma_extends_itself(old(self).trace());
            lemma_extends_push(old(self).trace(), old(self).trace(), self.trace().last());
        }
        match status {
            Ok(()) => Ok(()),
            Err(e) => Err(Tps6507xError::from(e)),
        }
    }

    /// Sets the output voltage that the DCDC2 converter gives while its
    /// select pin is high: one write of the voltage's code to that register.
    pub fn set_dcdc2_high(&mut self, voltage: DCDCVoltage) -> (r: Tps6507xResult<(), I2C::Error>)
        ensures
            extends(old(self).trace(), final(self).trace()),
            write_run(
                Registers::DEFDCDC2_HIGH,
                voltage.spec_code(),
                run_between(old(self).trace(), final(self).trace()),
                r,
            ),
    {
        let status = self.write_register_raw(Registers::DEFDCDC2_HIGH, voltage.code());
        proof {
            lemma_extends_itself(old(self).trace());
            lemma_extends_push(old(self).trace(), old(self).trace(), self.trace().last());
        }
        match status {
            Ok(()) => Ok(()),
            Err(e) => Err(Tps6507xError::from(e)),
        }
    }

    /// Sets the output voltage that the DCDC3 converter gives while its
    /// select pin is high: one write of the voltage's code to that register.
    pub fn set_dcdc3_high(&mut self, voltage: DCDCVoltage) -> (r: Tps6507xResult<(), I2C::Error>)
        ensures
            extends(old(self).trace(), final(self).trace()),
            write_run(
                Registers::DEFDCDC3_HIGH,
                voltage.spec_code(),
                run_between(old(self).trace(), final(self).trace()),
                r,
            ),
    {
        let status = self.write_register_raw(Registers::DEFDCDC3_HIGH, voltage.code());
        proof {
            lemma_extends_itself(old(self).trace());
            lemma_extends_push(old(self).trace(), old(self).trace(), self.trace().last());
        }
        match status {
            Ok(()) => Ok(()),
            Err(e) => Err(Tps6507xError::from(e)),
        }
    }

    /// Sets the output voltage of LDO1: its register is read, bits 3:0
    /// changed to the voltage's code, and the byte written back, so that the
    /// sequencing bits stay.
    pub fn set_ldo1(&mut self, voltage: LDO1Voltage) -> (r: Tps6507xResult<(), I2C::Error>)
        ensures
            extends(old(self).trace(), final(self).trace()),
            update_run(
                Registers::LDO_CTRL1,
                |current: u8| with_field(current, 3, 0, voltage.spec_code()),
                run_between(old(self).trace(), final(self).trace()),
                r,
            ),
    {
        let reply = self.read_register_raw(Registers::LDO_CTRL1);
        let ghost read = self.trace();
        proof {
            lemma_extends_itself(old(self).trace());
            lemma_extends_push(old(self).trace(), old(self).trace(), read.last());
        }
        let mut reg = match reply {
            Ok(current) => LDO_CTRL1(current),
            Err(e) => {
                return Err(Tps6507xError::from(e));
            },
        };
        reg.set_ldo1(voltage);
        let status = self.write_register_raw(Registers::LDO_CTRL1, reg.0);
        proof {
            lemma_extends_push(old(self).trace(), read, self.trace().last());
        }
        match status {
            Ok(()) => Ok(()),
            Err(e) => Err(Tps6507xError::from(e)),
        }
    }

    /// Sets the output voltage of LDO2: one write of the voltage's code to
    /// its register.
    pub fn set_ldo2(&mut self, voltage: DCDCVoltage) -> (r: Tps6507xResult<(), I2C::Error>)
        ensures
            extends(old(self).trace(), final(self).trace()),
            write_run(
                Registers::DEFLDO2,
                voltage.spec_code(),
                run_between(old(self).trace(), final(self).trace()),
                r,
            ),
    {
        let status = self.write_register_raw(Registers::DEFLDO2, voltage.code());
        proof {
            lemma_extends_itself(old(self).trace());
            lemma_extends_push(old(self).trace(), old(self).trace(), self.trace().last());
        }
        match status {
            Ok(()) => Ok(()),
            Err(e) => Err(Tps6507xError::from(e)),
        }
    }

    /// Switches the reference voltage of the converter on or off: the ADC
    /// configuration register is read, its bit 4 changed, and the byte
    /// written back.
    pub fn set_adc_vref(&mut self, enable: bool) -> (r: Tps6507xResult<(), I2C::Error>)
        ensures
            extends(old(self).trace(), final(self).trace()),
            update_run(
                Registers::ADCONFIG,
                |current: u8| with_flag(current, 4, enable),
                run_between(old(self).trace(), final(self).trace()),
                r,
            ),
    {
        let reply = self.read_register_raw(Registers::ADCONFIG);
        let ghost read = self.trace();
        proof {
            lemma_extends_itself(old(self).trace());
            lemma_extends_push(old(self).trace(), old(self).trace(), read.last());
        }
        let mut reg = match reply {
            Ok(current) => ADCONFIG(current),
            Err(e) => {
                return Err(Tps6507xError::from(e));
            },
        };
        reg.set_vref_enable(enable);
        let status = self.write_register_raw(Registers::ADCONFIG, reg.0);
        proof {
            lemma_extends_push(old(self).trace(), read, self.trace().last());
        }
        match status {
            Ok(()) => Ok(()),
            Err(e) => Err(Tps6507xError::from(e)),
        }
    }

    /// Raw register write access: one `write` of the register's address and
    /// `value`. Returns what the bus returned.
    pub fn write_register_raw(&mut self, register: Registers, value: u8) -> (r: Result<
        (),
        I2C::Error,
    >)
        ensures
            final(self).trace() == old(self).trace().push(
                Transaction::register_write(register, value, r),
            ),
    {
        let bytes: [u8; 2] = [register.addr(), value];
        let r = self.i2c.write(SLAVE_ADDR, &bytes);
        proof {
            assert(bytes@ =~= seq![register.spec_addr(), value]);
        }
        r
    }

    /// Raw register read access: one `write_read` that sends the register's
    /// address and reads one byte. Returns that byte, or the failure that
    /// the bus returned.
    pub fn read_register_raw(&mut self, register: Registers) -> (r: Result<u8, I2C::Error>)
        ensures
            final(self).trace() == old(self).trace().push(Transaction::register_read(register, r)),
    {
        let bytes: [u8; 1] = [register.addr()];
        let r = self.i2c.read_byte(SLAVE_ADDR, &bytes);
        proof {
            assert(bytes@ =~= seq![register.spec_addr()]);
        }
        r
    }
}

} // verus!
