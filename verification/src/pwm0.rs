//! PWM register layouts and register block.

pub mod cmp2;
pub mod pwms;

use vstd::prelude::*;

verus! {

/// The PWM peripheral's register file, held as plain register words.
#[derive(Clone, Copy, Debug, PartialEq, Eq, Structural)]
pub struct RegisterBlock {
    /// PWM configuration register.
    pub cfg: u32,
    /// Counter register.
    pub count: u32,
    /// Scaled halfword counter register.
    pub pwms: u32,
    /// Compare register 0.
    pub cmp0: u32,
    /// Compare register 1.
    pub cmp1: u32,
    /// Compare register 2.
    pub cmp2: u32,
    /// Compare register 3.
    pub cmp3: u32,
}

} // verus!
