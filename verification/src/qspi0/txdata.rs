//! SPI transmit data register: outgoing byte and the FIFO full flag.

use crate::bitfield::bit_is;
use crate::bitfield::get_bit;
use crate::bitfield::get_field;
use crate::bitfield::set_bit;
use crate::bitfield::set_field;
use crate::bitfield::spec_get_field;
use crate::bitfield::spec_set_bit;
use crate::bitfield::spec_set_field;
use vstd::prelude::*;

verus! {

/// Layout marker for the `txdata` register.
pub struct TxdataSpec;

/// Value read from the register.
#[derive(Clone, Copy, Debug, PartialEq, Eq, Structural)]
pub struct R {
    /// The raw register word.
    pub bits: u32,
}

impl R {
    /// Transmit data (bits 0 to 7).
    pub fn data(&self) -> (r: u8)
        ensures
            r == spec_get_field(self.bits, 0, 255) as u8,
    {
        get_field(self.bits, 0, 255) as u8
    }

    /// FIFO full flag (bit 31).
    pub fn full(&self) -> (r: bool)
        ensures
            r == bit_is(self.bits, 31),
    {
        get_bit(self.bits, 31)
    }
}

/// Value being assembled for a register write.
#[derive(Clone, Copy, Debug, PartialEq, Eq, Structural)]
pub struct W {
    /// The raw register word.
    pub bits: u32,
}

impl W {
    /// Sets the transmit data (bits 0 to 7).
    pub fn data(&mut self, value: u8)
        ensures
            final(self).bits == spec_set_field(old(self).bits, 0, 255, value as u32),
    {
        self.bits = set_field(self.bits, 0, 255, value as u32);
    }

    /// Sets the FIFO full flag (bit 31).
    pub fn full(&mut self, value: bool)
        ensures
            final(self).bits == spec_set_bit(old(self).bits, 31, value),
    {
        self.bits = set_bit(self.bits, 31, value);
    }
}

} // verus!
