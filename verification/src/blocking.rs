//! Blocking flavors of the core master operations, and their derivation
//! from any poll-driven [`crate::onewire_nb::OneMaster`]: re-invoking a
//! step that reports "would block" until it completes yields exactly
//! the immediate discipline's contract — the same state-machine step on
//! the same abstract bus, byte for byte.

use vstd::prelude::*;

use crate::model::{read_step, write_command_step, BusModel};
use crate::onewire::{kind_of, Command, Error, RomId};

pub mod read;
pub mod write;

verus! {

/// A blocking addressed read.
pub trait Read {
    /// The error type of this implementation.
    type Error: Error;

    /// The abstract bus this master drives.
    spec fn model(&self) -> BusModel;

    /// Reads exactly `buffer.len()` bytes from the device with ROM
    /// identifier `rom_id` into `buffer`, returning only once fully
    /// complete.
    ///
    /// A slave must have been selected and a command sent before it
    /// will respond.
    fn read(&mut self, rom_id: RomId, buffer: &mut Vec<u8>) -> (r: Result<(), Self::Error>)
        ensures
            ({
                let (m2, rr) = read_step(old(self).model(), rom_id, old(buffer)@.len());
                final(self).model() == m2 && kind_of(r) == rr
            }),
            r is Ok ==> final(buffer)@ == old(self).model().emitted.take(
                old(buffer)@.len() as int,
            ),
            r is Err ==> final(buffer)@ == old(buffer)@,
    ;
}

/// A blocking addressed command write.
pub trait Write {
    /// The error type of this implementation.
    type Error: Error;

    /// The abstract bus this master drives.
    spec fn model(&self) -> BusModel;

    /// Writes the single command byte to the device with ROM identifier
    /// `rom_id`, returning only once fully complete.
    fn write(&mut self, rom_id: RomId, command: Command) -> (r: Result<(), Self::Error>)
        ensures
            ({
                let (m2, rr) = write_command_step(old(self).model(), rom_id, command);
                final(self).model() == m2 && kind_of(r) == rr
            }),
    ;
}

} // verus!
