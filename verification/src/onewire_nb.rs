//! The 1-Wire bus-master contract in the poll-driven discipline: every
//! operation may report [`NbError::WouldBlock`] instead of completing,
//! and the caller re-invokes the same logical step until it reports
//! true completion or failure.
//!
//! A would-block is a continuation signal, not an error: it leaves the
//! abstract bus untouched, so a completed operation is byte-for-byte
//! identical to the immediate discipline's — both are the same
//! state-machine step of [`crate::model`].  Each would-block consumes
//! retry budget, so completion comes after boundedly many re-invocations.

use vstd::prelude::*;

use crate::model::{
    reset_outcome, reset_step, run_ops, write_command_step, write_read_step, write_step,
    read_step, BusModel,
};
use crate::onewire::{views_of, Command, Error, ErrorKind, ErrorType, Operation, RomId};

verus! {

/// The error type of a poll-driven operation: either a distinguished
/// "not yet complete" signal or a definite backend failure.
#[derive(Debug, Clone, Copy, PartialEq, Eq)]
pub enum NbError<E> {
    /// The operation is not complete; re-invoke the same logical step.
    WouldBlock,
    /// The operation failed definitely.  The original error may contain
    /// more information.
    Other(E),
}

/// What a poll-driven operation returns.
pub type NbResult<T, E> = Result<T, NbError<E>>;

/// Whether a poll-driven result is the "not yet complete" signal.
pub open spec fn is_would_block<T, E>(r: NbResult<T, E>) -> bool {
    match r {
        Err(NbError::WouldBlock) => true,
        _ => false,
    }
}

/// Maps a completed poll-driven result onto the portable taxonomy.
/// Meaningful only for results that are not a would-block.
pub open spec fn nb_kind_of<E: Error>(r: NbResult<(), E>) -> Result<(), ErrorKind> {
    match r {
        Ok(()) => Ok(()),
        Err(NbError::Other(e)) => Err(e.kind_spec()),
        Err(NbError::WouldBlock) => Ok(()),
    }
}

/// The bus-master contract in the poll-driven discipline.
///
/// The contract of every operation is the one of
/// [`crate::onewire::OneWire`], the identical state-machine step on the
/// identical [`BusModel`]; the two differ only in how a caller observes
/// "not yet complete".  A would-block leaves the bus model and every
/// caller buffer untouched and consumes retry budget, so re-invoking
/// the same step eventually completes it.
pub trait OneWire: ErrorType {
    /// The abstract bus this master drives.
    spec fn model(&self) -> BusModel;

    /// An upper bound on the would-blocks the master may still report
    /// before completing the operation in flight.
    spec fn budget(&self) -> nat;

    /// Does a bus reset and syncs the slaves.
    ///
    /// A bus reset should be done before any slave interaction.
    fn bus_reset(&mut self) -> (r: NbResult<(), Self::Error>)
        ensures
            is_would_block(r) ==> final(self).model() == old(self).model() && final(self).budget()
                < old(self).budget(),
            !is_would_block(r) ==> final(self).model() == reset_step(old(self).model())
                && nb_kind_of(r) == reset_outcome(old(self).model()),
    ;

    /// Writes the single command byte to the device with ROM identifier
    /// `rom_id`.
    fn write(&mut self, rom_id: RomId, command: Command) -> (r: NbResult<(), Self::Error>)
        ensures
            is_would_block(r) ==> final(self).model() == old(self).model() && final(self).budget()
                < old(self).budget(),
            !is_would_block(r) ==> ({
                let (m2, rr) = write_command_step(old(self).model(), rom_id, command);
                final(self).model() == m2 && nb_kind_of(r) == rr
            }),
    ;

    /// Reads exactly `buffer.len()` bytes from the device with ROM
    /// identifier `rom_id` into `buffer`.
    ///
    /// A slave must have been selected and a command sent before it
    /// will respond.
    fn read(&mut self, rom_id: RomId, buffer: &mut Vec<u8>) -> (r: NbResult<(), Self::Error>)
        ensures
            is_would_block(r) ==> final(self).model() == old(self).model() && final(self).budget()
                < old(self).budget() && final(buffer)@ == old(buffer)@,
            !is_would_block(r) ==> ({
                let (m2, rr) = read_step(old(self).model(), rom_id, old(buffer)@.len());
                &&& final(self).model() == m2
                &&& nb_kind_of(r) == rr
                &&& (r is Ok ==> final(buffer)@ == old(self).model().emitted.take(
                    old(buffer)@.len() as int,
                ))
                &&& (r is Err ==> final(buffer)@ == old(buffer)@)
            }),
    ;

    /// Writes `bytes` to the device with ROM identifier `rom_id` as one
    /// atomic sequence.
    fn write_iter(&mut self, rom_id: RomId, bytes: &[u8]) -> (r: NbResult<(), Self::Error>)
        ensures
            is_would_block(r) ==> final(self).model() == old(self).model() && final(self).budget()
                < old(self).budget(),
            !is_would_block(r) ==> ({
                let (m2, rr) = write_step(old(self).model(), rom_id, bytes@);
                final(self).model() == m2 && nb_kind_of(r) == rr
            }),
    ;

    /// Writes `bytes` to the device with ROM identifier `rom_id` and
    /// then reads enough bytes to fill `buffer`, in a single
    /// transaction with one addressing phase.
    fn write_read(&mut self, rom_id: RomId, bytes: &[u8], buffer: &mut Vec<u8>) -> (r: NbResult<
        (),
        Self::Error,
    >)
        ensures
            is_would_block(r) ==> final(self).model() == old(self).model() && final(self).budget()
                < old(self).budget() && final(buffer)@ == old(buffer)@,
            !is_would_block(r) ==> ({
                let (m2, rr) = write_read_step(
                    old(self).model(),
                    rom_id,
                    bytes@,
                    old(buffer)@.len(),
                );
                &&& final(self).model() == m2
                &&& nb_kind_of(r) == rr
                &&& (r is Ok ==> final(buffer)@ == old(self).model().emitted.take(
                    old(buffer)@.len() as int,
                ))
                &&& (r is Err ==> final(buffer)@ == old(buffer)@)
            }),
    ;

    /// As [`OneWire::write_read`], consuming its byte source.
    fn write_iter_read(&mut self, rom_id: RomId, bytes: Vec<u8>, buffer: &mut Vec<u8>) -> (r:
        NbResult<(), Self::Error>)
        ensures
            is_would_block(r) ==> final(self).model() == old(self).model() && final(self).budget()
                < old(self).budget() && final(buffer)@ == old(buffer)@,
            !is_would_block(r) ==> ({
                let (m2, rr) = write_read_step(
                    old(self).model(),
                    rom_id,
                    bytes@,
                    old(buffer)@.len(),
                );
                &&& final(self).model() == m2
                &&& nb_kind_of(r) == rr
                &&& (r is Ok ==> final(buffer)@ == old(self).model().emitted.take(
                    old(buffer)@.len() as int,
                ))
                &&& (r is Err ==> final(buffer)@ == old(buffer)@)
            }),
    ;

    /// Executes the provided operations on the bus as a single
    /// transaction, strictly in the order given.
    fn transaction(&mut self, operations: &mut Vec<Operation>) -> (r: NbResult<
        (),
        Self::Error,
    >)
        ensures
            is_would_block(r) ==> final(self).model() == old(self).model() && final(self).budget()
                < old(self).budget() && final(operations)@ == old(operations)@,
            !is_would_block(r) ==> ({
                let (m2, ops2, rr) = run_ops(old(self).model(), views_of(old(operations)@));
                &&& final(self).model() == m2
                &&& views_of(final(operations)@) == ops2
                &&& nb_kind_of(r) == rr
            }),
    ;

    /// Executes the provided operations as a single transaction, taking
    /// the sequence by value and handing the executed operations back
    /// on success.
    fn transaction_iter(&mut self, operations: Vec<Operation>) -> (r: Result<
        Vec<Operation>,
        NbError<Self::Error>,
    >)
        ensures
            is_would_block(r) ==> final(self).model() == old(self).model() && final(self).budget()
                < old(self).budget(),
            !is_would_block(r) ==> ({
                let (m2, ops2, rr) = run_ops(old(self).model(), views_of(operations@));
                final(self).model() == m2 && (match r {
                    Ok(ops) => rr is Ok && views_of(ops@) == ops2,
                    Err(NbError::Other(e)) => rr == Err::<(), ErrorKind>(e.kind_spec()),
                    Err(NbError::WouldBlock) => false,
                })
            }),
    ;
}

/// The reference-forwarding adapter for the poll-driven discipline: an
/// exclusive borrow of a poll-driven bus master is itself one, every
/// call forwarded unchanged to the borrowed target.
impl<T: OneWire> OneWire for &mut T {
    open spec fn model(&self) -> BusModel {
        (**self).model()
    }

    open spec fn budget(&self) -> nat {
        (**self).budget()
    }

    fn bus_reset(&mut self) -> (r: NbResult<(), Self::Error>) {
        T::bus_reset(*self)
    }

    fn write(&mut self, rom_id: RomId, command: Command) -> (r: NbResult<(), Self::Error>) {
        T::write(*self, rom_id, command)
    }

    fn read(&mut self, rom_id: RomId, buffer: &mut Vec<u8>) -> (r: NbResult<(), Self::Error>) {
        T::read(*self, rom_id, buffer)
    }

    fn write_iter(&mut self, rom_id: RomId, bytes: &[u8]) -> (r: NbResult<(), Self::Error>) {
        T::write_iter(*self, rom_id, bytes)
    }

    fn write_read(&mut self, rom_id: RomId, bytes: &[u8], buffer: &mut Vec<u8>) -> (r: NbResult<
        (),
        Self::Error,
    >) {
        T::write_read(*self, rom_id, bytes, buffer)
    }

    fn write_iter_read(&mut self, rom_id: RomId, bytes: Vec<u8>, buffer: &mut Vec<u8>) -> (r:
        NbResult<(), Self::Error>) {
        T::write_iter_read(*self, rom_id, bytes, buffer)
    }

    fn transaction(&mut self, operations: &mut Vec<Operation>) -> (r: NbResult<
        (),
        Self::Error,
    >) {
        T::transaction(*self, operations)
    }

    fn transaction_iter(&mut self, operations: Vec<Operation>) -> (r: Result<
        Vec<Operation>,
        NbError<Self::Error>,
    >) {
        T::transaction_iter(*self, operations)
    }
}

/// A minimal single-device master interface: the poll-driven core
/// operations — reset, addressed command write, addressed read — from
/// which the blocking flavors of [`crate::blocking`] are derived.
pub trait OneMaster {
    /// An enumeration of the master's errors.
    type Error: Error;

    /// The abstract bus this master drives.
    spec fn model(&self) -> BusModel;

    /// An upper bound on the would-blocks the master may still report
    /// before completing the operation in flight.
    spec fn budget(&self) -> nat;

    /// Does a bus reset and syncs the slaves.
    ///
    /// A bus reset should be done before any slave interaction.
    fn bus_reset(&mut self) -> (r: NbResult<(), Self::Error>)
        ensures
            is_would_block(r) ==> final(self).model() == old(self).model() && final(self).budget()
                < old(self).budget(),
            !is_would_block(r) ==> final(self).model() == reset_step(old(self).model())
                && nb_kind_of(r) == reset_outcome(old(self).model()),
    ;

    /// Writes the single command byte to the device with ROM identifier
    /// `rom_id`.
    fn write(&mut self, rom_id: RomId, command: Command) -> (r: NbResult<(), Self::Error>)
        ensures
            is_would_block(r) ==> final(self).model() == old(self).model() && final(self).budget()
                < old(self).budget(),
            !is_would_block(r) ==> ({
                let (m2, rr) = write_command_step(old(self).model(), rom_id, command);
                final(self).model() == m2 && nb_kind_of(r) == rr
            }),
    ;

    /// Reads exactly `buffer.len()` bytes from the device with ROM
    /// identifier `rom_id` into `buffer`.
    ///
    /// A slave must have been selected and a command sent before it
    /// will respond.
    fn read(&mut self, rom_id: RomId, buffer: &mut Vec<u8>) -> (r: NbResult<(), Self::Error>)
        ensures
            is_would_block(r) ==> final(self).model() == old(self).model() && final(self).budget()
                < old(self).budget() && final(buffer)@ == old(buffer)@,
            !is_would_block(r) ==> ({
                let (m2, rr) = read_step(old(self).model(), rom_id, old(buffer)@.len());
                &&& final(self).model() == m2
                &&& nb_kind_of(r) == rr
                &&& (r is Ok ==> final(buffer)@ == old(self).model().emitted.take(
                    old(buffer)@.len() as int,
                ))
                &&& (r is Err ==> final(buffer)@ == old(buffer)@)
            }),
    ;
}

} // verus!
