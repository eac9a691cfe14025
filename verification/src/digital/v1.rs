//! The older generation of the digital pin interface: infallible
//! operations.

use vstd::prelude::*;

verus! {

/// A single digital push-pull output pin, driven infallibly.
pub trait OutputPin {
    /// Whether the pin is driven high.
    spec fn pin_state(&self) -> bool;

    /// Drives the pin low.
    fn set_low(&mut self)
        ensures
            !final(self).pin_state(),
    ;

    /// Drives the pin high.
    fn set_high(&mut self)
        ensures
            final(self).pin_state(),
    ;
}

/// An output pin that can read back the state it was set to.
pub trait StatefulOutputPin: OutputPin {
    /// Whether the pin is set low.
    fn is_set_low(&self) -> (r: bool)
        ensures
            r == !self.pin_state(),
    ;

    /// Whether the pin is set high.
    fn is_set_high(&self) -> (r: bool)
        ensures
            r == self.pin_state(),
    ;
}

/// A single digital input pin, read infallibly.
pub trait InputPin {
    /// Whether the pin reads high.
    spec fn pin_state(&self) -> bool;

    /// Whether the pin reads low.
    fn is_low(&self) -> (r: bool)
        ensures
            r == !self.pin_state(),
    ;

    /// Whether the pin reads high.
    fn is_high(&self) -> (r: bool)
        ensures
            r == self.pin_state(),
    ;
}

} // verus!
