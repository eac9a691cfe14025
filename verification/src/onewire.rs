//! Core 1-Wire bus-master API in the immediate (blocking) discipline:
//! the error taxonomy, the addressing and command model, transaction
//! operations, and the [`OneWire`] trait itself.

use vstd::prelude::*;

use crate::model::{
    reset_outcome, reset_step, run_ops, write_command_step, write_read_step, write_step,
    read_step, BusModel, OpView,
};

verus! {

/// 64-bit address identifying one slave device on the bus.
pub type RomId = u64;

/// A 1-Wire error.
///
/// Implementation-defined error types report, through [`Error::kind`],
/// which portable [`ErrorKind`] they map to, so that generic code can
/// react uniformly to a backend's richer diagnostics.
pub trait Error: core::fmt::Debug {
    /// The portable kind this error maps to, as a specification value.
    spec fn kind_spec(&self) -> ErrorKind;

    /// Convert the error to a generic 1-Wire error kind.
    fn kind(&self) -> (k: ErrorKind)
        ensures
            k == self.kind_spec(),
    ;
}

/// The "cannot fail" error type: no value of it exists, so the mapping
/// to a kind is never reachable.
impl Error for core::convert::Infallible {
    open spec fn kind_spec(&self) -> ErrorKind {
        ErrorKind::Other
    }

    fn kind(&self) -> ErrorKind {
        ErrorKind::Other
    }
}

/// Portable 1-Wire error kinds.
///
/// This represents a common set of bus operation errors.  Implementations
/// are free to define more specific or additional error types; by mapping
/// them onto this set, generic code can still react to them.
#[derive(Debug, Copy, Clone, Eq, PartialEq, Ord, PartialOrd, Hash, Structural)]
#[non_exhaustive]
pub enum ErrorKind {
    /// A bus reset was not acknowledged by any present device,
    /// e.g. no device is connected to the bus.
    NoDevicePresence,
    /// The device with this ROM identifier did not respond.
    RomNotFound(RomId),
    /// A different error occurred.  The original error may contain more
    /// information.
    Other,
}

impl Error for ErrorKind {
    open spec fn kind_spec(&self) -> ErrorKind {
        *self
    }

    fn kind(&self) -> ErrorKind {
        *self
    }
}

/// Maps a whole operation result onto the portable taxonomy.
pub open spec fn kind_of<E: Error>(r: Result<(), E>) -> Result<(), ErrorKind> {
    match r {
        Ok(()) => Ok(()),
        Err(e) => Err(e.kind_spec()),
    }
}

/// Binds a bus-master implementation to its single error type.
pub trait ErrorType {
    /// The error type of this implementation.
    type Error: Error;
}

impl<T: ErrorType> ErrorType for &mut T {
    type Error = T::Error;
}

/// The wire byte of a [`Command`].
pub open spec fn command_byte(c: Command) -> u8 {
    match c {
        Command::SkipRom => 0xcc,
        Command::ConvertTemperature => 0x44,
        Command::ReadScratchPad => 0xbe,
    }
}

/// The [`Command`] a wire byte decodes to.
///
/// Total: an unrecognized byte decodes to `SkipRom`, the
/// least-privileged command, rather than failing.
pub open spec fn byte_command(b: u8) -> Command {
    if b == 0x44 {
        Command::ConvertTemperature
    } else if b == 0xbe {
        Command::ReadScratchPad
    } else {
        Command::SkipRom
    }
}

/// A protocol-level command sent to a 1-Wire device.
#[derive(Debug, Clone, Copy, Eq, PartialEq, Structural)]
pub enum Command {
    /// Skip the ROM-search function and address every device.
    /// Valid only when exactly one device is connected.
    SkipRom,
    /// DS18S20 command to start a temperature conversion.
    ConvertTemperature,
    /// DS18S20 command to read the scratch pad from memory.
    ReadScratchPad,
}

impl From<u8> for Command {
    fn from(item: u8) -> (r: Self) {
        match item {
            0x44 => Command::ConvertTemperature,
            0xbe => Command::ReadScratchPad,
            _ => Command::SkipRom,
        }
    }
}

impl vstd::std_specs::convert::FromSpecImpl<u8> for Command {
    open spec fn obeys_from_spec() -> bool {
        true
    }

    open spec fn from_spec(item: u8) -> Command {
        byte_command(item)
    }
}

impl From<Command> for u8 {
    fn from(item: Command) -> (r: u8) {
        match item {
            Command::SkipRom => 0xcc,
            Command::ConvertTemperature => 0x44,
            Command::ReadScratchPad => 0xbe,
        }
    }
}

impl vstd::std_specs::convert::FromSpecImpl<Command> for u8 {
    open spec fn obeys_from_spec() -> bool {
        true
    }

    open spec fn from_spec(item: Command) -> u8 {
        command_byte(item)
    }
}

/// One step of a transaction.
///
/// Several operations can be combined as part of a transaction.  A
/// `Read` buffer gives the number of bytes to pull; the call replaces
/// its contents, keeping its length.
#[derive(Debug, Eq, PartialEq)]
pub enum Operation {
    /// Perform the addressing phase, matching the device with this ROM
    /// identifier.
    Search(RomId),
    /// Pull enough bytes from the bus to fill this buffer.
    Read(Vec<u8>),
    /// Push the bytes of this buffer onto the bus.
    Write(Vec<u8>),
}

impl View for Operation {
    type V = OpView;

    open spec fn view(&self) -> OpView {
        match self {
            Operation::Search(rom_id) => OpView::Search(*rom_id),
            Operation::Read(buf) => OpView::Read(buf@),
            Operation::Write(buf) => OpView::Write(buf@),
        }
    }
}

/// The abstract content of a whole operation sequence.
pub open spec fn views_of(ops: Seq<Operation>) -> Seq<OpView> {
    ops.map_values(|op: Operation| op@)
}

/// The bus-master contract in the immediate (blocking) discipline:
/// every operation returns only once fully complete, with success or a
/// definite failure.
///
/// A bus master carries an abstract [`BusModel`]; every operation is
/// specified as the corresponding state-machine step on it, so the
/// ordering and atomicity of the wire protocol are fixed by one
/// definition.  Exclusive access — the `&mut self` receiver — is the
/// structural mechanism that keeps two logical transactions from
/// interleaving; no operation of one call can stand between the wire
/// events of another.
pub trait OneWire: ErrorType {
    /// The abstract bus this master drives.
    spec fn model(&self) -> BusModel;

    /// Drives a reset pulse and waits for the presence acknowledgment
    /// window, syncing the slaves.
    ///
    /// Reports `NoDevicePresence` exactly when no device is attached.
    /// A bus reset should be done before any slave interaction.
    fn bus_reset(&mut self) -> (r: Result<(), Self::Error>)
        ensures
            final(self).model() == reset_step(old(self).model()),
            kind_of(r) == reset_outcome(old(self).model()),
    ;

    /// Writes the single command byte to the device with ROM identifier
    /// `rom_id`, after one addressing phase targeted at it.
    fn write(&mut self, rom_id: RomId, command: Command) -> (r: Result<(), Self::Error>)
        ensures
            ({
                let (m2, rr) = write_command_step(old(self).model(), rom_id, command);
                final(self).model() == m2 && kind_of(r) == rr
            }),
    ;

    /// Reads exactly `buffer.len()` bytes from the device with ROM
    /// identifier `rom_id` into `buffer`, in order, one byte following
    /// the previous, after one addressing phase targeted at it.
    ///
    /// A slave must have been selected and a command sent before it
    /// will respond; this layer trusts the caller's protocol knowledge
    /// there.  On failure the buffer is left untouched.
    fn read(&mut self, rom_id: RomId, buffer: &mut Vec<u8>) -> (r: Result<(), Self::Error>)
        ensures
            ({
                let (m2, rr) = read_step(old(self).model(), rom_id, old(buffer)@.len());
                final(self).model() == m2 && kind_of(r) == rr
            }),
            r is Ok ==> final(buffer)@ == old(self).model().emitted.take(
                old(buffer)@.len() as int,
            ),
            r is Err ==> final(buffer)@ == old(buffer)@,
    ;

    /// Writes `bytes` to the device with ROM identifier `rom_id` as one
    /// atomic sequence: one addressing phase, then every byte in order,
    /// with no other bus activity between the first and the last.
    fn write_iter(&mut self, rom_id: RomId, bytes: &[u8]) -> (r: Result<(), Self::Error>)
        ensures
            ({
                let (m2, rr) = write_step(old(self).model(), rom_id, bytes@);
                final(self).model() == m2 && kind_of(r) == rr
            }),
    ;

    /// Writes `bytes` to the device with ROM identifier `rom_id`, then
    /// — without releasing the bus and without a second addressing
    /// phase — reads enough bytes to fill `buffer`, in a single
    /// transaction.
    ///
    /// The single addressing phase is what distinguishes this from a
    /// `write_iter` followed by a `read`: no other addressed operation
    /// can stand between the write and the read.
    fn write_read(&mut self, rom_id: RomId, bytes: &[u8], buffer: &mut Vec<u8>) -> (r: Result<
        (),
        Self::Error,
    >)
        ensures
            ({
                let (m2, rr) = write_read_step(
                    old(self).model(),
                    rom_id,
                    bytes@,
                    old(buffer)@.len(),
                );
                final(self).model() == m2 && kind_of(r) == rr
            }),
            r is Ok ==> final(buffer)@ == old(self).model().emitted.take(
                old(buffer)@.len() as int,
            ),
            r is Err ==> final(buffer)@ == old(buffer)@,
    ;

    /// Writes `bytes` to the device with ROM identifier `rom_id`, then
    /// reads enough bytes to fill `buffer`, in a single transaction:
    /// an ergonomic variant of [`OneWire::write_read`] that consumes
    /// its byte source, with identical semantics.
    fn write_iter_read(&mut self, rom_id: RomId, bytes: Vec<u8>, buffer: &mut Vec<u8>) -> (r:
        Result<(), Self::Error>)
        ensures
            ({
                let (m2, rr) = write_read_step(
                    old(self).model(),
                    rom_id,
                    bytes@,
                    old(buffer)@.len(),
                );
                final(self).model() == m2 && kind_of(r) == rr
            }),
            r is Ok ==> final(buffer)@ == old(self).model().emitted.take(
                old(buffer)@.len() as int,
            ),
            r is Err ==> final(buffer)@ == old(buffer)@,
    ;

    /// Executes the provided operations on the bus as a single
    /// transaction: strictly in the order given, under one
    /// uninterrupted hold of the bus, with the first failure aborting
    /// the remaining steps.  `Read` buffers are filled in place; an
    /// empty sequence is a no-op that succeeds.
    fn transaction(&mut self, operations: &mut Vec<Operation>) -> (r: Result<(), Self::Error>)
        ensures
            ({
                let (m2, ops2, rr) = run_ops(old(self).model(), views_of(old(operations)@));
                final(self).model() == m2 && views_of(final(operations)@) == ops2 && kind_of(r)
                    == rr
            }),
    ;

    /// Executes the provided operations as a single transaction, taking
    /// the sequence by value: an ergonomic variant of
    /// [`OneWire::transaction`] with identical bus semantics, handing
    /// the executed operations — `Read` buffers filled — back on
    /// success.
    fn transaction_iter(&mut self, operations: Vec<Operation>) -> (r: Result<
        Vec<Operation>,
        Self::Error,
    >)
        ensures
            ({
                let (m2, ops2, rr) = run_ops(old(self).model(), views_of(operations@));
                final(self).model() == m2 && (match r {
                    Ok(ops) => rr is Ok && views_of(ops@) == ops2,
                    Err(e) => rr == Err::<(), ErrorKind>(e.kind_spec()),
                })
            }),
    ;
}

/// The reference-forwarding adapter: an exclusive borrow of a bus
/// master is itself a bus master with the identical contract, every
/// call forwarded unchanged to the borrowed target.  Generic code can
/// so accept "a bus master" without caring whether it owns it or
/// borrows it.  No additional state, no additional failure modes.
impl<T: OneWire> OneWire for &mut T {
    open spec fn model(&self) -> BusModel {
        (**self).model()
    }

    fn bus_reset(&mut self) -> (r: Result<(), Self::Error>) {
        T::bus_reset(*self)
    }

    fn write(&mut self, rom_id: RomId, command: Command) -> (r: Result<(), Self::Error>) {
        T::write(*self, rom_id, command)
    }

    fn read(&mut self, rom_id: RomId, buffer: &mut Vec<u8>) -> (r: Result<(), Self::Error>) {
        T::read(*self, rom_id, buffer)
    }

    fn write_iter(&mut self, rom_id: RomId, bytes: &[u8]) -> (r: Result<(), Self::Error>) {
        T::write_iter(*self, rom_id, bytes)
    }

    fn write_read(&mut self, rom_id: RomId, bytes: &[u8], buffer: &mut Vec<u8>) -> (r: Result<
        (),
        Self::Error,
    >) {
        T::write_read(*self, rom_id, bytes, buffer)
    }

    fn write_iter_read(&mut self, rom_id: RomId, bytes: Vec<u8>, buffer: &mut Vec<u8>) -> (r:
        Result<(), Self::Error>) {
        T::write_iter_read(*self, rom_id, bytes, buffer)
    }

    fn transaction(&mut self, operations: &mut Vec<Operation>) -> (r: Result<(), Self::Error>) {
        T::transaction(*self, operations)
    }

    fn transaction_iter(&mut self, operations: Vec<Operation>) -> (r: Result<
        Vec<Operation>,
        Self::Error,
    >) {
        T::transaction_iter(*self, operations)
    }
}

/// Round trip of the command encoding: decoding any recognized wire byte
/// and re-encoding it gives the byte back, and decoding is total — every
/// unrecognized byte decodes to `SkipRom`.
pub proof fn lemma_command_round_trip(b: u8)
    ensures
        b == 0xcc || b == 0x44 || b == 0xbe ==> command_byte(byte_command(b)) == b,
        !(b == 0xcc || b == 0x44 || b == 0xbe) ==> byte_command(b) == Command::SkipRom,
        byte_command(command_byte(byte_command(b))) == byte_command(b),
{
}

} // verus!
