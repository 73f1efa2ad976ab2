//! The little of the GPIO layer that generators need: a pin that can be
//! driven, and the two levels it can be forced to.

use vstd::prelude::*;

verus! {

/// A logic level on an output pin.
#[derive(Clone, Copy, Debug, PartialEq, Eq, Structural)]
pub enum Level {
    Low,
    High,
}

/// A pin that a generator can drive.
pub trait OutputPin {
    /// The GPIO number of the pin.
    spec fn pin_spec(&self) -> i32;

    fn pin(&self) -> (n: i32)
        ensures
            n == self.pin_spec(),
    ;
}

/// An output pin known only by its GPIO number.
#[derive(Debug, PartialEq, Eq)]
pub struct AnyOutputPin {
    pub pin: i32,
}

impl AnyOutputPin {
    /// Claims GPIO `pin`. The caller sees to it that the pin is claimed once.
    pub fn new(pin: i32) -> (p: AnyOutputPin)
        ensures
            p.pin == pin,
    {
        AnyOutputPin { pin }
    }
}

impl OutputPin for AnyOutputPin {
    open spec fn pin_spec(&self) -> i32 {
        self.pin
    }

    fn pin(&self) -> (n: i32) {
        self.pin
    }
}

} // verus!
