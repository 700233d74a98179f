//! Platform-level interrupt controller, modelled as an owned register file:
//! one enable bit and one priority level per external interrupt source.

use crate::bitfield::bit_is;
use crate::bitfield::get_bit;
use crate::bitfield::set_bit;
use vstd::prelude::*;

verus! {

/// External interrupt sources routed through the controller.
#[derive(Clone, Copy, Debug, PartialEq, Eq, Structural)]
pub enum ExternalInterrupt {
    /// First UART instance.
    Uart0,
    /// Second UART instance.
    Uart1,
    /// First SPI instance.
    Qspi0,
    /// Second SPI instance.
    Qspi1,
    /// Third SPI instance.
    Qspi2,
    /// I2C instance.
    I2c0,
}

impl ExternalInterrupt {
    /// Position of this source in the enable word and the priority table.
    pub open spec fn spec_index(self) -> u32 {
        match self {
            ExternalInterrupt::Uart0 => 0,
            ExternalInterrupt::Uart1 => 1,
            ExternalInterrupt::Qspi0 => 2,
            ExternalInterrupt::Qspi1 => 3,
            ExternalInterrupt::Qspi2 => 4,
            ExternalInterrupt::I2c0 => 5,
        }
    }

    /// Position of this source in the enable word and the priority table.
    pub fn index(self) -> (r: u32)
        ensures
            r == self.spec_index(),
            r < 6,
    {
        match self {
            ExternalInterrupt::Uart0 => 0,
            ExternalInterrupt::Uart1 => 1,
            ExternalInterrupt::Qspi0 => 2,
            ExternalInterrupt::Qspi1 => 3,
            ExternalInterrupt::Qspi2 => 4,
            ExternalInterrupt::I2c0 => 5,
        }
    }
}

/// The interrupt controller's state: per-source enable bits and priority
/// levels (0 masks the source, 7 is the most urgent).
pub struct Plic {
    /// Enable bits, one per source, indexed by `ExternalInterrupt::index`.
    pub enables: u32,
    /// Priority level per source, each at most 7.
    pub priorities: Vec<u8>,
}

impl Plic {
    /// The priority table covers every source.
    pub open spec fn wf(self) -> bool {
        self.priorities@.len() == 6
    }

    /// A controller with every source masked at priority zero.
    pub fn new() -> (p: Plic)
        ensures
            p.wf(),
            p.enables == 0u32,
            forall|i: int| 0 <= i < 6 ==> p.priorities@[i] == 0u8,
    {
        let mut priorities: Vec<u8> = Vec::new();
        let mut i: usize = 0;
        while i < 6
            invariant
                i <= 6,
                priorities@.len() == i,
                forall|j: int| 0 <= j < i ==> priorities@[j] == 0u8,
            decreases 6 - i,
        {
            priorities.push(0);
            i = i + 1;
        }
        Plic { enables: 0, priorities }
    }

    /// Enables an interrupt source, leaving every other source alone.
    pub fn enable(&mut self, source: ExternalInterrupt)
        ensures
            bit_is(final(self).enables, source.spec_index()),
            forall|j: u32|
                j < 32 && j != source.spec_index() ==> bit_is(final(self).enables, j) == bit_is(
                    old(self).enables,
                    j,
                ),
            final(self).priorities@ == old(self).priorities@,
    {
        let i = source.index();
        self.enables = set_bit(self.enables, i, true);
        proof {
            assert forall|j: u32| j < 32 && j != source.spec_index() implies bit_is(
                self.enables,
                j,
            ) == bit_is(old(self).enables, j) by {
                crate::bitfield::lemma_set_bit(old(self).enables, source.spec_index(), true, j);
            }
            crate::bitfield::lemma_set_bit(
                old(self).enables,
                source.spec_index(),
                true,
                source.spec_index(),
            );
        }
    }

    /// Disables an interrupt source, leaving every other source alone.
    pub fn disable(&mut self, source: ExternalInterrupt)
        ensures
            !bit_is(final(self).enables, source.spec_index()),
            forall|j: u32|
                j < 32 && j != source.spec_index() ==> bit_is(final(self).enables, j) == bit_is(
                    old(self).enables,
                    j,
                ),
            final(self).priorities@ == old(self).priorities@,
    {
        let i = source.index();
        self.enables = set_bit(self.enables, i, false);
        proof {
            assert forall|j: u32| j < 32 && j != source.spec_index() implies bit_is(
                self.enables,
                j,
            ) == bit_is(old(self).enables, j) by {
                crate::bitfield::lemma_set_bit(old(self).enables, source.spec_index(), false, j);
            }
            crate::bitfield::lemma_set_bit(
                old(self).enables,
                source.spec_index(),
                false,
                source.spec_index(),
            );
        }
    }

    /// Reports whether an interrupt source is enabled.
    pub fn is_enabled(&self, source: ExternalInterrupt) -> (r: bool)
        ensures
            r == bit_is(self.enables, source.spec_index()),
    {
        let i = source.index();
        get_bit(self.enables, i)
    }

    /// Sets the priority level of an interrupt source.
    pub fn set_priority(&mut self, source: ExternalInterrupt, priority: u8)
        requires
            old(self).wf(),
            priority <= 7,
        ensures
            final(self).wf(),
            final(self).priorities@ == old(self).priorities@.update(
                source.spec_index() as int,
                priority,
            ),
            final(self).enables == old(self).enables,
    {
        let i = source.index();
        self.priorities.set(i as usize, priority);
    }

    /// Reports the priority level of an interrupt source.
    pub fn get_priority(&self, source: ExternalInterrupt) -> (r: u8)
        requires
            self.wf(),
        ensures
            r == self.priorities@[source.spec_index() as int],
    {
        let i = source.index();
        *self.priorities.get(i as usize).unwrap()
    }
}

} // verus!
