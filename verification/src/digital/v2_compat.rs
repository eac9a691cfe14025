//! Compatibility shims between the two pin generations: every pin of
//! the older, infallible interface serves the newer, fallible one by
//! wrapping each call in an always-succeeding result — a caller of the
//! shim can rely on every call returning `Ok`.

use vstd::prelude::*;

use crate::digital::v1;
use crate::digital::v2;

verus! {

/// Fallible [`v2::OutputPin`] for every infallible [`v1::OutputPin`].
impl<T: v1::OutputPin> v2::OutputPin for T {
    type Error = ();

    open spec fn pin_state(&self) -> bool {
        v1::OutputPin::pin_state(self)
    }

    fn set_low(&mut self) -> (r: Result<(), Self::Error>) {
        v1::OutputPin::set_low(self);
        Ok(())
    }

    fn set_high(&mut self) -> (r: Result<(), Self::Error>) {
        v1::OutputPin::set_high(self);
        Ok(())
    }
}

/// Fallible [`v2::StatefulOutputPin`] for every infallible
/// [`v1::StatefulOutputPin`].
impl<T: v1::StatefulOutputPin + v1::OutputPin> v2::StatefulOutputPin for T {
    fn is_set_low(&self) -> (r: Result<bool, Self::Error>) {
        Ok(v1::StatefulOutputPin::is_set_low(self))
    }

    fn is_set_high(&self) -> (r: Result<bool, Self::Error>) {
        Ok(v1::StatefulOutputPin::is_set_high(self))
    }
}

/// Fallible [`v2::InputPin`] for every infallible [`v1::InputPin`].
impl<T: v1::InputPin> v2::InputPin for T {
    type Error = ();

    open spec fn pin_state(&self) -> bool {
        v1::InputPin::pin_state(self)
    }

    fn is_low(&self) -> (r: Result<bool, Self::Error>) {
        Ok(v1::InputPin::is_low(self))
    }

    fn is_high(&self) -> (r: Result<bool, Self::Error>) {
        Ok(v1::InputPin::is_high(self))
    }
}

} // verus!
