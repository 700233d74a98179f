//! PWM compare register 2.

use crate::bitfield::bit_is;
use crate::bitfield::get_bit;
use crate::bitfield::get_field;
use crate::bitfield::set_bit;
use crate::bitfield::set_field;
use crate::bitfield::spec_get_field;
use crate::bitfield::spec_set_bit;
use crate::bitfield::spec_set_field;
use vstd::prelude::*;

verus! {

/// Layout marker for the `cmp2` register.
pub struct Cmp2Spec;

/// Value read from the register.
#[derive(Clone, Copy, Debug, PartialEq, Eq, Structural)]
pub struct R {
    /// The raw register word.
    pub bits: u32,
}

impl R {
    /// Compare value (bits 0 to 15).
    pub fn value(&self) -> (r: u16)
        ensures
            r == spec_get_field(self.bits, 0, 65535) as u16,
    {
        get_field(self.bits, 0, 65535) as u16
    }
}

/// Value being assembled for a register write.
#[derive(Clone, Copy, Debug, PartialEq, Eq, Structural)]
pub struct W {
    /// The raw register word.
    pub bits: u32,
}

impl W {
    /// Sets the compare value (bits 0 to 15).
    pub fn value(&mut self, value: u16)
        ensures
            final(self).bits == spec_set_field(old(self).bits, 0, 65535, value as u32),
    {
        self.bits = set_field(self.bits, 0, 65535, value as u32);
    }
}

} // verus!
