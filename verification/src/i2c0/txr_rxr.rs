//! I2C transmit/receive data register.

use crate::bitfield::bit_is;
use crate::bitfield::get_bit;
use crate::bitfield::get_field;
use crate::bitfield::set_bit;
use crate::bitfield::set_field;
use crate::bitfield::spec_get_field;
use crate::bitfield::spec_set_bit;
use crate::bitfield::spec_set_field;
use vstd::prelude::*;

verus! {

/// Layout marker for the `txr_rxr` register.
pub struct TxrRxrSpec;

/// Value read from the register.
#[derive(Clone, Copy, Debug, PartialEq, Eq, Structural)]
pub struct R {
    /// The raw register word.
    pub bits: u32,
}

impl R {
    /// Data byte (bits 0 to 7).
    pub fn data(&self) -> (r: u8)
        ensures
            r == spec_get_field(self.bits, 0, 255) as u8,
    {
        get_field(self.bits, 0, 255) as u8
    }
}

/// Value being assembled for a register write.
#[derive(Clone, Copy, Debug, PartialEq, Eq, Structural)]
pub struct W {
    /// The raw register word.
    pub bits: u32,
}

impl W {
    /// Sets the data byte (bits 0 to 7).
    pub fn data(&mut self, value: u8)
        ensures
            final(self).bits == spec_set_field(old(self).bits, 0, 255, value as u32),
    {
        self.bits = set_field(self.bits, 0, 255, value as u32);
    }
}

} // verus!
