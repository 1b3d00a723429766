//! The patterns of the indicator lights.
use crate::ops::Op;
use vstd::prelude::*;

verus! {

/// The pattern that signals success.
pub const PATTERN_OK: u8 = 0xaa;

/// The pattern that signals failure.
pub const PATTERN_FAILURE: u8 = 0x55;

pub struct LEDs;

impl LEDs {
    pub fn new() -> (leds: LEDs) {
        LEDs
    }

    /// The operation that shows `mask` on the lights.
    pub fn light_mask(&self, mask: u8) -> (op: Op)
        ensures
            op == Op::WriteLeds(mask),
    {
        Op::WriteLeds(mask)
    }

    /// The operation that shows the success pattern.
    pub fn light_ok(&self) -> (op: Op)
        ensures
            op == Op::WriteLeds(PATTERN_OK),
    {
        self.light_mask(PATTERN_OK)
    }

    /// The operation that shows the failure pattern.
    pub fn light_failure(&self) -> (op: Op)
        ensures
            op == Op::WriteLeds(PATTERN_FAILURE),
    {
        self.light_mask(PATTERN_FAILURE)
    }
}

} // verus!
