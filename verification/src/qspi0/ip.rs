//! SPI interrupt pending register: one pending bit per watermark condition.

use crate::bitfield::bit_is;
use crate::bitfield::get_bit;
use crate::bitfield::get_field;
use crate::bitfield::set_bit;
use crate::bitfield::set_field;
use crate::bitfield::spec_get_field;
use crate::bitfield::spec_set_bit;
use crate::bitfield::spec_set_field;
use vstd::prelude::*;

verus! {

/// Layout marker for the `ip` register.
pub struct IpSpec;

/// Value read from the register.
#[derive(Clone, Copy, Debug, PartialEq, Eq, Structural)]
pub struct R {
    /// The raw register word.
    pub bits: u32,
}

impl R {
    /// Transmit watermark pending (bit 0).
    pub fn txwm(&self) -> (r: bool)
        ensures
            r == bit_is(self.bits, 0),
    {
        get_bit(self.bits, 0)
    }

    /// Receive watermark pending (bit 1).
    pub fn rxwm(&self) -> (r: bool)
        ensures
            r == bit_is(self.bits, 1),
    {
        get_bit(self.bits, 1)
    }
}

/// Value being assembled for a register write.
#[derive(Clone, Copy, Debug, PartialEq, Eq, Structural)]
pub struct W {
    /// The raw register word.
    pub bits: u32,
}

impl W {
    /// Sets the transmit watermark pending bit (bit 0).
    pub fn txwm(&mut self, value: bool)
        ensures
            final(self).bits == spec_set_bit(old(self).bits, 0, value),
    {
        self.bits = set_bit(self.bits, 0, value);
    }

    /// Sets the receive watermark pending bit (bit 1).
    pub fn rxwm(&mut self, value: bool)
        ensures
            final(self).bits == spec_set_bit(old(self).bits, 1, value),
    {
        self.bits = set_bit(self.bits, 1, value);
    }
}

} // verus!
