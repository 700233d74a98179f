//! SPI serial clock divisor register.

use crate::bitfield::bit_is;
use crate::bitfield::get_bit;
use crate::bitfield::get_field;
use crate::bitfield::set_bit;
use crate::bitfield::set_field;
use crate::bitfield::spec_get_field;
use crate::bitfield::spec_set_bit;
use crate::bitfield::spec_set_field;
use vstd::prelude::*;

verus! {

/// Layout marker for the `sckdiv` register.
#[allow(non_camel_case_types)]
pub struct SCKDIV_SPEC;

/// Value read from the register.
#[derive(Clone, Copy, Debug, PartialEq, Eq, Structural)]
pub struct R {
    /// The raw register word.
    pub bits: u32,
}

impl R {
    /// Divisor for the serial clock (bits 0 to 11).
    pub fn div(&self) -> (r: u16)
        ensures
            r == spec_get_field(self.bits, 0, 4095) as u16,
    {
        get_field(self.bits, 0, 4095) as u16
    }
}

/// Value being assembled for a register write.
#[derive(Clone, Copy, Debug, PartialEq, Eq, Structural)]
pub struct W {
    /// The raw register word.
    pub bits: u32,
}

impl W {
    /// Sets the divisor for the serial clock (bits 0 to 11).
    pub fn div(&mut self, value: u16)
        ensures
            final(self).bits == spec_set_field(old(self).bits, 0, 4095, value as u32),
    {
        self.bits = set_field(self.bits, 0, 4095, value as u32);
    }
}

} // verus!
