//! Clock-generation (PRCI) register block.

use vstd::prelude::*;

verus! {

/// The clock-generation peripheral's register file, held as plain register
/// words.
#[derive(Clone, Copy, Debug, PartialEq, Eq, Structural)]
pub struct RegisterBlock {
    /// Internal ring oscillator configuration register.
    pub hfrosccfg: u32,
    /// Crystal oscillator configuration register.
    pub hfxosccfg: u32,
    /// PLL configuration register.
    pub pllcfg: u32,
    /// PLL divider register.
    pub plloutdiv: u32,
    /// Core clock configuration register.
    pub coreclkcfg: u32,
}

} // verus!
