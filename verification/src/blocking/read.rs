//! The blocking read, derived from any poll-driven master that opts in.

use vstd::prelude::*;

use crate::model::BusModel;
use crate::onewire::RomId;
use crate::onewire_nb::{NbError, OneMaster};

verus! {

/// Opt-in marker: a poll-driven master with this trait receives the
/// default blocking implementation of [`crate::blocking::Read`].
pub trait Default: OneMaster {

}

/// Re-invokes the poll-driven read until it completes.  Every
/// would-block leaves the bus and the buffer untouched, so the
/// completed call is exactly the immediate discipline's read.
impl<S: Default> crate::blocking::Read for S {
    type Error = <S as OneMaster>::Error;

    open spec fn model(&self) -> BusModel {
        OneMaster::model(self)
    }

    fn read(&mut self, rom_id: RomId, buffer: &mut Vec<u8>) -> (r: Result<(), Self::Error>) {
        loop
            invariant
                self.model() == old(self).model(),
                buffer@ == old(buffer)@,
            decreases self.budget(),
        {
            match OneMaster::read(self, rom_id, buffer) {
                Ok(()) => {
                    return Ok(());
                },
                Err(NbError::Other(e)) => {
                    return Err(e);
                },
                Err(NbError::WouldBlock) => {
                },
            }
        }
    }
}

} // verus!
