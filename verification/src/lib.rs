//! Driver core for the TPS6507x family of power-management ICs.
//!
//! The chip is a register file behind a two-wire bus. This crate turns typed
//! configuration values into the exact bytes its registers take, reads typed
//! values back out of register bytes, and runs the one-shot analog-to-digital
//! conversion protocol. Every function carries a contract that Verus proves.
//!
//! * `bits`: what reading and writing a bit field mean, and what holds of
//!   every field: round trip, independence, idempotence.
//! * `defs`: the output voltages and their codes.
//! * `regs`: the register map, one type per register.
//! * `bus`: the bus as the driver needs it, and the trace of what was asked
//!   of it.
//! * `device`: the driver and its configuration operations.
//! * `oneshot`: the conversion protocol and the channels.
//!
//! Two things are taken on trust. The four functions of the `bitfield` crate
//! that move bits in and out of a byte are believed to do what `bits::field`
//! and `bits::with_field` say. Of a bus nothing is believed at all:
//! the contracts of the driver say what it asks of the bus and what it makes
//! of each answer, never what the answer is.
#![allow(non_camel_case_types)]

pub mod bits;
pub mod bus;
pub mod defs;
pub mod device;
pub mod oneshot;
pub mod regs;

pub use bus::{Bus, Transaction, SLAVE_ADDR};
pub use defs::{DCDCVoltage, LDO1Voltage};
pub use device::{Tps6507x, Tps6507xError, Tps6507xResult};
pub use oneshot::channel;
pub use regs::adc::AdcInputSelect;
pub use regs::chgconfig::{ChargerConfig, SafetyTimerTimeOut, SensorType};
pub use regs::ppath::{AcInputCurrent, PowerPath, UsbInputCurrent};
pub use regs::Registers;
