//! I2C command/status register: command bits are written here, and the same
//! address reads back as the status register.

use vstd::prelude::*;

verus! {

/// Layout marker for the `cr_sr` register.
#[allow(non_camel_case_types)]
pub struct CR_SR_SPEC;

/// Value read from the register.
#[derive(Clone, Copy, Debug, PartialEq, Eq, Structural)]
pub struct R {
    /// The raw register word.
    pub bits: u32,
}

/// Value being assembled for a register write.
#[derive(Clone, Copy, Debug, PartialEq, Eq, Structural)]
pub struct W {
    /// The raw register word.
    pub bits: u32,
}

} // verus!
