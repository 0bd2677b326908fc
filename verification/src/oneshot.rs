//! One-shot analog-to-digital conversion.
//!
//! A conversion is asked for, and its result fetched, by one call of `read`.
//! The call never waits. If the converter is still busy it returns
//! `nb::Error::WouldBlock` and the caller calls again later.
//!
//! `read` fetches the two result bytes right after it has armed the
//! conversion, without waiting for the converter to finish. Whether they
//! belong to the conversion just armed or to the one before depends on the
//! chip's timing, which this crate does not model.

use crate::bits::flag;
use crate::bus::{
    extends, lemma_extends_itself, lemma_extends_push, run_between, Bus, Transaction,
};
use crate::device::{Tps6507x, Tps6507xError};
use crate::oneshot::channel::{InputChannel, VrefParam};
use crate::regs::adc::{conversion_command, AdcInputSelect, ADCONFIG};
use crate::regs::Registers;
use vstd::prelude::*;

pub mod channel;

verus! {

/// `nb::Error`, the error of an operation that does not block: either
/// `WouldBlock`, or `Other` with the error of the operation itself.
#[verifier::external_type_specification]
#[verifier::reject_recursive_types(E)]
pub struct ExNbError<E>(nb::Error<E>);

/// Flattens an error that was wrapped twice: where the bus's own error type
/// is already an `nb::Error`, a driver operation used from non-blocking code
/// fails with an `nb::Error` of an `nb::Error`. The outer `WouldBlock`
/// becomes the inner one; an inner error is kept as it is.
impl<E> From<nb::Error<nb::Error<E>>> for Tps6507xError<nb::Error<E>> {
    fn from(e: nb::Error<nb::Error<E>>) -> (r: Self) {
        match e {
            nb::Error::WouldBlock => Tps6507xError::Interface(nb::Error::WouldBlock),
            nb::Error::Other(inner) => Tps6507xError::Interface(inner),
        }
    }
}

impl<E> vstd::std_specs::convert::FromSpecImpl<nb::Error<nb::Error<E>>> for Tps6507xError<nb::Error<E>> {
    open spec fn obeys_from_spec() -> bool {
        true
    }

    open spec fn from_spec(e: nb::Error<nb::Error<E>>) -> Self {
        match e {
            nb::Error::WouldBlock => Tps6507xError::Interface(nb::Error::WouldBlock),
            nb::Error::Other(inner) => Tps6507xError::Interface(inner),
        }
    }
}

/// The sample that the two result registers hold: `low` is bits 7:0 of it,
/// `high` bits 15:8.
pub open spec fn sample_value(low: u8, high: u8) -> u16 {
    (low + 256 * high) as u16
}

/// Puts the two result bytes together: `low | (high << 8)`.
pub fn assemble_sample(low: u8, high: u8) -> (r: u16)
    ensures
        r == sample_value(low, high),
{
    let l: u16 = low as u16;
    let h: u16 = high as u16;
    assert((l | (h << 8)) == l + 256 * h) by (bit_vector)
        requires
            l <= 0xff,
            h <= 0xff,
    ;
    l | (h << 8)
}

/// What one call of `read` for `channel` leaves in the trace and returns.
///
/// 1. The ADC configuration register is read.
/// 2. If its end-of-conversion bit (bit 5) is clear the converter is busy:
///    the run ends there, without a write, and the result is `WouldBlock`.
/// 3. Else the conversion command for `channel` and `vref` is written to the
///    same register.
/// 4. The low result register is read, then the high one.
/// 5. The result is the sample made of the two bytes.
///
/// A transaction that fails ends the run, and its error is the result.
pub open spec fn conversion_run<E>(
    channel: AdcInputSelect,
    vref: bool,
    run: Seq<Transaction<E>>,
    r: Result<u16, nb::Error<E>>,
) -> bool {
    &&& run.len() >= 1
    &&& run[0].is_read(Registers::ADCONFIG)
    &&& match run[0]->reply {
        Err(e) => run.len() == 1 && r == Err::<u16, nb::Error<E>>(nb::Error::Other(e)),
        Ok(config) => if !flag(config, 5) {
            run.len() == 1 && r == Err::<u16, nb::Error<E>>(nb::Error::WouldBlock)
        } else {
            &&& run.len() >= 2
            &&& run[1].is_write(Registers::ADCONFIG, conversion_command(channel, vref))
            &&& match run[1]->status {
                Err(e) => run.len() == 2 && r == Err::<u16, nb::Error<E>>(nb::Error::Other(e)),
                Ok(_) => {
                    &&& run.len() >= 3
                    &&& run[2].is_read(Registers::ADRESULT_1)
                    &&& match run[2]->reply {
                        Err(e) => run.len() == 3 && r == Err::<u16, nb::Error<E>>(
                            nb::Error::Other(e),
                        ),
                        Ok(low) => {
                            &&& run.len() == 4
                            &&& run[3].is_read(Registers::ADRESULT_2)
                            &&& r == match run[3]->reply {
                                Err(e) => Err::<u16, nb::Error<E>>(nb::Error::Other(e)),
                                Ok(high) => Ok(sample_value(low, high)),
                            }
                        },
                    }
                },
            }
        },
    }
}

/// `WouldBlock` is returned when the converter is busy and at no other time,
/// and a busy converter is left alone: the run is the one read that found it
/// busy, and holds no write.
pub proof fn lemma_would_block_iff_busy<E>(
    channel: AdcInputSelect,
    vref: bool,
    run: Seq<Transaction<E>>,
    r: Result<u16, nb::Error<E>>,
)
    requires
        conversion_run(channel, vref, run, r),
    ensures
        r == Err::<u16, nb::Error<E>>(nb::Error::WouldBlock) <==> (run[0]->reply matches Ok(config)
            && !flag(config, 5)),
        r == Err::<u16, nb::Error<E>>(nb::Error::WouldBlock) ==> run.len() == 1 && run[0]
            is WriteRead,
{
}

/// A sample is returned when all four transactions succeed and the
/// converter was ready, and at no other time; the sample is then made of the
/// two bytes read last.
pub proof fn lemma_sample_iff_all_succeed<E>(
    channel: AdcInputSelect,
    vref: bool,
    run: Seq<Transaction<E>>,
    r: Result<u16, nb::Error<E>>,
)
    requires
        conversion_run(channel, vref, run, r),
    ensures
        r is Ok <==> {
            &&& run.len() == 4
            &&& run[0]->reply matches Ok(config) && flag(config, 5)
            &&& run[1]->status is Ok
            &&& run[2]->reply is Ok
            &&& run[3]->reply is Ok
        },
        r is Ok ==> r->Ok_0 == sample_value(run[2]->reply->Ok_0, run[3]->reply->Ok_0),
{
}

impl<I2C: Bus> Tps6507x<I2C> {
    /// Asks for one sample of the channel `CH`, without blocking.
    pub fn read<CH: InputChannel + VrefParam>(&mut self, _pin: &mut CH) -> (r: Result<
        u16,
        nb::Error<I2C::Error>,
    >)
        ensures
            extends(old(self).trace(), final(self).trace()),
            conversion_run(
                CH::spec_channel(),
                CH::spec_vref(),
                run_between(old(self).trace(), final(self).trace()),
                r,
            ),
    {
        let reply = self.read_register_raw(Registers::ADCONFIG);
        let ghost polled = self.trace();
        proof {
            lemma_extends_itself(old(self).trace());
            lemma_extends_push(old(self).trace(), old(self).trace(), polled.last());
        }
        let mut reg = match reply {
            Ok(config) => ADCONFIG(config),
            Err(e) => {
                return Err(nb::Error::Other(e));
            },
        };

        if !reg.end_of_conversion() {
            return Err(nb::Error::WouldBlock);
        }
        reg.arm(CH::channel(), CH::vref());
        let status = self.write_register_raw(Registers::ADCONFIG, reg.0);
        let ghost armed = self.trace();
        proof {
            lemma_extends_push(old(self).trace(), polled, armed.last());
        }
        if let Err(e) = status {
            return Err(nb::Error::Other(e));
        }
        let low = self.read_register_raw(Registers::ADRESULT_1);
        let ghost fetched = self.trace();
        proof {
            lemma_extends_push(old(self).trace(), armed, fetched.last());
        }
        let lowb = match low {
            Ok(byte) => byte,
            Err(e) => {
                return Err(nb::Error::Other(e));
            },
        };
        let high = self.read_register_raw(Registers::ADRESULT_2);
        proof {
            lemma_extends_push(old(self).trace(), fetched, self.trace().last());
        }
        match high {
            Ok(highb) => Ok(assemble_sample(lowb, highb)),
            Err(e) => Err(nb::Error::Other(e)),
        }
    }
}

} // verus!
