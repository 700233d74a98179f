//! PWM scaled halfword counter register.

use vstd::prelude::*;

verus! {

/// Layout marker for the `pwms` register.
pub struct PwmsSpec;

} // verus!
