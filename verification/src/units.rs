//! Physical units used in timer configuration.

use vstd::prelude::*;

verus! {

/// A frequency in hertz.
#[derive(Clone, Copy, Debug, PartialEq, Eq, Structural)]
pub struct Hertz(pub u32);

impl From<u32> for Hertz {
    fn from(hz: u32) -> (h: Hertz) {
        Hertz(hz)
    }
}

impl vstd::std_specs::convert::FromSpecImpl<u32> for Hertz {
    open spec fn obeys_from_spec() -> bool {
        true
    }

    open spec fn from_spec(hz: u32) -> Hertz {
        Hertz(hz)
    }
}

} // verus!
