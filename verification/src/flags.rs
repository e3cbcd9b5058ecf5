//! The condition-flag register: four independent booleans recomputed by every
//! arithmetic operation.

use vstd::prelude::*;

verus! {

/// The four condition flags: zero, subtract, half-carry and carry. They are
/// mutated only as a side effect of arithmetic operations, never set
/// directly, and never read by the instruction decoder.
#[derive(Clone, Copy, Debug, PartialEq, Eq, Structural)]
pub struct Flags {
    pub z: bool,
    pub n: bool,
    pub h: bool,
    pub cy: bool,
}

impl Flags {
    /// A fresh flag register with every flag clear.
    pub fn new() -> (flags: Flags)
        ensures
            flags == (Flags { z: false, n: false, h: false, cy: false }),
    {
        Flags { z: false, n: false, h: false, cy: false }
    }
}

} // verus!
