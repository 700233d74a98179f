//! I2C status register, read-only.

use crate::bitfield::bit_is;
use crate::bitfield::get_bit;
use crate::bitfield::get_field;
use crate::bitfield::set_bit;
use crate::bitfield::set_field;
use crate::bitfield::spec_get_field;
use crate::bitfield::spec_set_bit;
use crate::bitfield::spec_set_field;
use vstd::prelude::*;

verus! {

/// Layout marker for the `sr` register.
#[allow(non_camel_case_types)]
pub struct SR_SPEC;

/// Value read from the register.
#[derive(Clone, Copy, Debug, PartialEq, Eq, Structural)]
pub struct R {
    /// The raw register word.
    pub bits: u32,
}

impl R {
    /// Interrupt flag: set when an interrupt is pending (bit 0).
    pub fn if_(&self) -> (r: bool)
        ensures
            r == bit_is(self.bits, 0),
    {
        get_bit(self.bits, 0)
    }

    /// Transfer in progress (bit 1).
    pub fn tip(&self) -> (r: bool)
        ensures
            r == bit_is(self.bits, 1),
    {
        get_bit(self.bits, 1)
    }

    /// Arbitration lost (bit 5).
    pub fn al(&self) -> (r: bool)
        ensures
            r == bit_is(self.bits, 5),
    {
        get_bit(self.bits, 5)
    }

    /// Bus busy (bit 6).
    pub fn busy(&self) -> (r: bool)
        ensures
            r == bit_is(self.bits, 6),
    {
        get_bit(self.bits, 6)
    }

    /// Acknowledge received from the addressed target: set means no acknowledge (bit 7).
    pub fn rx_ack(&self) -> (r: bool)
        ensures
            r == bit_is(self.bits, 7),
    {
        get_bit(self.bits, 7)
    }
}

} // verus!
