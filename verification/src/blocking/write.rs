//! The blocking write, derived from any poll-driven master that opts in.

use vstd::prelude::*;

use crate::model::BusModel;
use crate::onewire::{Command, RomId};
use crate::onewire_nb::{NbError, OneMaster};

verus! {

/// Opt-in marker: a poll-driven master with this trait receives the
/// default blocking implementation of [`crate::blocking::Write`].
pub trait Default: OneMaster {

}

/// Re-invokes the poll-driven write until it completes.  Every
/// would-block leaves the bus untouched, so the completed call is
/// exactly the immediate discipline's write.
impl<S: Default> crate::blocking::Write for S {
    type Error = <S as OneMaster>::Error;

    open spec fn model(&self) -> BusModel {
        OneMaster::model(self)
    }

    fn write(&mut self, rom_id: RomId, command: Command) -> (r: Result<(), Self::Error>) {
        loop
            invariant
                self.model() == old(self).model(),
            decreases self.budget(),
        {
            match OneMaster::write(self, rom_id, command) {
                Ok(()) => {
                    return Ok(());
                },
                Err(NbError::Other(e)) => {
                    return Err(e);
                },
                Err(NbError::WouldBlock) => {
                },
            }
        }
    }
}

} // verus!
