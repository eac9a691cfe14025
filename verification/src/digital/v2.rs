//! The newer generation of the digital pin interface: every operation
//! is fallible, so hardware that can fail mid-call reports it.

use vstd::prelude::*;

verus! {

/// A single digital push-pull output pin, driven fallibly.
pub trait OutputPin {
    /// The error reported when driving the pin fails.
    type Error;

    /// Whether the pin is driven high.
    spec fn pin_state(&self) -> bool;

    /// Drives the pin low.
    fn set_low(&mut self) -> (r: Result<(), Self::Error>)
        ensures
            r is Ok ==> !final(self).pin_state(),
    ;

    /// Drives the pin high.
    fn set_high(&mut self) -> (r: Result<(), Self::Error>)
        ensures
            r is Ok ==> final(self).pin_state(),
    ;
}

/// An output pin that can read back the state it was set to.
pub trait StatefulOutputPin: OutputPin {
    /// Whether the pin is set low.
    fn is_set_low(&self) -> (r: Result<bool, Self::Error>)
        ensures
            r matches Ok(v) ==> v == !self.pin_state(),
    ;

    /// Whether the pin is set high.
    fn is_set_high(&self) -> (r: Result<bool, Self::Error>)
        ensures
            r matches Ok(v) ==> v == self.pin_state(),
    ;
}

/// A single digital input pin, read fallibly.
pub trait InputPin {
    /// The error reported when reading the pin fails.
    type Error;

    /// Whether the pin reads high.
    spec fn pin_state(&self) -> bool;

    /// Whether the pin reads low.
    fn is_low(&self) -> (r: Result<bool, Self::Error>)
        ensures
            r matches Ok(v) ==> v == !self.pin_state(),
    ;

    /// Whether the pin reads high.
    fn is_high(&self) -> (r: Result<bool, Self::Error>)
        ensures
            r matches Ok(v) ==> v == self.pin_state(),
    ;
}

} // verus!
