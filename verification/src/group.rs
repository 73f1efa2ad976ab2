//! The MCPWM groups of a chip. Each group has its own timers and operators.

use vstd::prelude::*;

verus! {

/// One MCPWM group.
pub trait Group {
    /// The number under which the native driver knows the group.
    const ID: i32;

    /// The number of the group, for use in contracts.
    spec fn id() -> i32;

    /// The contracts speak of the number that the group has.
    proof fn id_is_the_constant()
        ensures
            Self::id() == Self::ID,
    ;
}

/// The first MCPWM group.
pub struct Group0;

impl Group for Group0 {
    const ID: i32 = 0;

    open spec fn id() -> i32 {
        0
    }

    proof fn id_is_the_constant() {
    }
}

/// The second MCPWM group.
pub struct Group1;

impl Group for Group1 {
    const ID: i32 = 1;

    open spec fn id() -> i32 {
        1
    }

    proof fn id_is_the_constant() {
    }
}

} // verus!
