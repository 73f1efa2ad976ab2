//! Comparators: the thresholds against which an operator's timer count is
//! matched.

use vstd::prelude::*;

use crate::driver::ComparatorHandle;

verus! {

/// The flag bits of the native comparator configuration: when a new compare
/// value takes effect.
#[derive(Clone, Copy, Debug, PartialEq, Eq, Structural)]
pub struct ComparatorFlags {
    pub update_cmp_on_tez: bool,
    pub update_cmp_on_tep: bool,
    pub update_cmp_on_sync: bool,
}

/// How a comparator is to be created.
#[derive(Clone, Copy, Debug, PartialEq, Eq, Structural)]
pub struct ComparatorConfig {
    pub flags: ComparatorFlags,
}

/// A comparator that exists in the native driver.
#[derive(Debug, PartialEq, Eq)]
pub struct Comparator(pub ComparatorHandle);

/// Either a comparator or the absence of one.
pub trait OptionalCmp {
}

impl OptionalCmp for Comparator {
}

/// The handle of the comparator behind `cmp`, if there is one.
pub open spec fn handle_of(cmp: Option<&Comparator>) -> Option<ComparatorHandle> {
    match cmp {
        Some(c) => Some(c.0),
        None => None,
    }
}

} // verus!
