//! UART receive control register: receive enable and watermark level.

use crate::bitfield::bit_is;
use crate::bitfield::get_bit;
use crate::bitfield::get_field;
use crate::bitfield::set_bit;
use crate::bitfield::set_field;
use crate::bitfield::spec_get_field;
use crate::bitfield::spec_set_bit;
use crate::bitfield::spec_set_field;
use vstd::prelude::*;

verus! {

/// Layout marker for the `rxctrl` register.
pub struct RxctrlSpec;

/// Value read from the register.
#[derive(Clone, Copy, Debug, PartialEq, Eq, Structural)]
pub struct R {
    /// The raw register word.
    pub bits: u32,
}

impl R {
    /// Receive channel enable (bit 0).
    pub fn enable(&self) -> (r: bool)
        ensures
            r == bit_is(self.bits, 0),
    {
        get_bit(self.bits, 0)
    }

    /// Receive watermark level (bits 16 to 18).
    pub fn counter(&self) -> (r: u8)
        ensures
            r == spec_get_field(self.bits, 16, 7) as u8,
    {
        get_field(self.bits, 16, 7) as u8
    }
}

/// Value being assembled for a register write.
#[derive(Clone, Copy, Debug, PartialEq, Eq, Structural)]
pub struct W {
    /// The raw register word.
    pub bits: u32,
}

impl W {
    /// Sets the receive channel enable (bit 0).
    pub fn enable(&mut self, value: bool)
        ensures
            final(self).bits == spec_set_bit(old(self).bits, 0, value),
    {
        self.bits = set_bit(self.bits, 0, value);
    }

    /// Sets the receive watermark level (bits 16 to 18).
    pub fn counter(&mut self, value: u8)
        ensures
            final(self).bits == spec_set_field(old(self).bits, 16, 7, value as u32),
    {
        self.bits = set_field(self.bits, 16, 7, value as u32);
    }
}

} // verus!
