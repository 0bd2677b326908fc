//! The two-wire bus that the chip sits on, as the driver needs it.
//!
//! The driver does not move bytes itself. It asks a `Bus` to do so, and a
//! `Bus` may fail or answer anything: contracts in this crate promise nothing
//! about what a bus does. What they pin down is the driver's side of the
//! conversation, recorded as a sequence of `Transaction`s: what was asked of
//! the bus, in what order, and what the driver made of each answer.

use crate::regs::Registers;
use vstd::prelude::*;

verus! {

/// The bus address of the chip. It has only this one.
pub const SLAVE_ADDR: u8 = 0x48;

/// A two-wire bus master.
pub trait Bus {
    /// What the bus reports when a transaction fails.
    type Error;

    /// Sends `bytes` to the device at `address`.
    fn write(&mut self, address: u8, bytes: &[u8]) -> Result<(), Self::Error>;

    /// Sends `bytes` to the device at `address` and then, in the same
    /// transaction, reads from it until `buffer` is full.
    fn write_read(&mut self, address: u8, bytes: &[u8], buffer: &mut [u8]) -> Result<
        (),
        Self::Error,
    >;
}

/// One finished call of a `Bus`: its arguments and its outcome.
pub enum Transaction<E> {
    /// A call of `write`.
    Write {
        /// The device addressed.
        address: u8,
        /// The bytes sent.
        bytes: Seq<u8>,
        /// What the bus returned.
        status: Result<(), E>,
    },
    /// A call of `write_read` with a buffer of one byte.
    WriteRead {
        /// The device addressed.
        address: u8,
        /// The bytes sent.
        bytes: Seq<u8>,
        /// The byte that the buffer held afterwards, or the failure that the
        /// bus returned.
        reply: Result<u8, E>,
    },
}

impl<E> Transaction<E> {
    /// A write of `value` to `register` of the chip: the register's address
    /// and the value, in one `write`.
    pub open spec fn register_write(register: Registers, value: u8, status: Result<(), E>) -> Self {
        Transaction::Write {
            address: SLAVE_ADDR,
            bytes: seq![register.spec_addr(), value],
            status,
        }
    }

    /// A read of `register` of the chip: the register's address sent, one
    /// byte read back, in one `write_read`.
    pub open spec fn register_read(register: Registers, reply: Result<u8, E>) -> Self {
        Transaction::WriteRead { address: SLAVE_ADDR, bytes: seq![register.spec_addr()], reply }
    }

    /// Whether this is a write of `value` to `register`, whatever came of it.
    pub open spec fn is_write(self, register: Registers, value: u8) -> bool {
        self is Write && self == Self::register_write(register, value, self->status)
    }

    /// Whether this is a read of `register`, whatever came of it.
    pub open spec fn is_read(self, register: Registers) -> bool {
        self is WriteRead && self == Self::register_read(register, self->reply)
    }
}

/// A bus together with the record of what has been asked of it.
///
/// The record can change in one way only: a call of `write` or `read_byte`
/// makes one call of the bus and puts that call, with its outcome, at the
/// end. So a contract that says what the record holds says what the bus was
/// asked.
pub(crate) struct Recorded<B: Bus> {
    bus: B,
    trace: Ghost<Seq<Transaction<B::Error>>>,
}

impl<B: Bus> Recorded<B> {
    /// The bus.
    pub(crate) closed spec fn bus(&self) -> B {
        self.bus
    }

    /// The calls made so far, oldest first.
    pub(crate) closed spec fn trace(&self) -> Seq<Transaction<B::Error>> {
        self.trace@
    }

    /// Takes `bus`, with an empty record.
    pub(crate) fn new(bus: B) -> (r: Self)
        ensures
            r.bus() == bus,
            r.trace() == Seq::<Transaction<B::Error>>::empty(),
    {
        Recorded { bus, trace: Ghost(Seq::empty()) }
    }

    /// Gives the bus back.
    pub(crate) fn into_inner(self) -> (r: B)
        ensures
            r == self.bus(),
    {
        self.bus
    }

    /// One `write`, recorded.
    pub(crate) fn write(&mut self, address: u8, bytes: &[u8]) -> (r: Result<(), B::Error>)
        ensures
            final(self).trace() == old(self).trace().push(
                Transaction::Write { address, bytes: bytes@, status: r },
            ),
    {
        let r = self.bus.write(address, bytes);
        proof {
            self.trace@ = self.trace@.push(Transaction::Write { address, bytes: bytes@, status: r });
        }
        r
    }

    /// One `write_read` into a buffer of one byte, recorded. The byte is
    /// returned if the bus reports success.
    pub(crate) fn read_byte(&mut self, address: u8, bytes: &[u8]) -> (r: Result<u8, B::Error>)
        ensures
            final(self).trace() == old(self).trace().push(
                Transaction::WriteRead { address, bytes: bytes@, reply: r },
            ),
    {
        let mut buf: [u8; 1] = [0u8];
        let status = self.bus.write_read(address, bytes, &mut buf);
        let r = match status {
            Ok(()) => Ok(buf[0]),
            Err(e) => Err(e),
        };
        proof {
            self.trace@ = self.trace@.push(
                Transaction::WriteRead { address, bytes: bytes@, reply: r },
            );
        }
        r
    }
}

/// Whether `after` is `before` with further transactions behind it.
pub open spec fn extends<E>(before: Seq<Transaction<E>>, after: Seq<Transaction<E>>) -> bool {
    before.len() <= after.len() && after.subrange(0, before.len() as int) == before
}

/// The transactions that `after` has behind those of `before`.
pub open spec fn run_between<E>(before: Seq<Transaction<E>>, after: Seq<Transaction<E>>) -> Seq<
    Transaction<E>,
> {
    after.subrange(before.len() as int, after.len() as int)
}

/// A trace extends itself, by nothing.
pub proof fn lemma_extends_itself<E>(trace: Seq<Transaction<E>>)
    ensures
        extends(trace, trace),
        run_between(trace, trace) == Seq::<Transaction<E>>::empty(),
{
    assert(trace.subrange(0, trace.len() as int) =~= trace);
    assert(run_between(trace, trace) =~= Seq::<Transaction<E>>::empty());
}

/// One more transaction behind a trace that extends `before` still extends
/// it, and comes last in the run.
pub proof fn lemma_extends_push<E>(
    before: Seq<Transaction<E>>,
    after: Seq<Transaction<E>>,
    next: Transaction<E>,
)
    requires
        extends(before, after),
    ensures
        extends(before, after.push(next)),
        run_between(before, after.push(next)) == run_between(before, after).push(next),
{
    assert(after.push(next).subrange(0, before.len() as int) =~= after.subrange(
        0,
        before.len() as int,
    ));
    assert(run_between(before, after.push(next)) =~= run_between(before, after).push(next));
}

} // verus!
