//! Single-shot resumption-handle slots.
//!
//! Each peripheral wait condition owns one slot. A task that must suspend
//! stores its resumption handle there; the matching interrupt handler takes
//! the handle out before invoking it, so firing is at-most-once per
//! registration. Registering a new wait overwrites any stale handle: only the
//! most recent waiter for a condition is honored.

use vstd::prelude::*;

verus! {

/// Holds at most one pending resumption handle for one wait condition.
#[derive(Clone, Copy, Debug, PartialEq, Eq, Structural)]
pub struct WakerSlot {
    /// The pending handle, if a task is currently waiting.
    pub handle: Option<u64>,
}

/// The slot after a registration: it holds exactly the new handle.
pub open spec fn spec_register(s: WakerSlot, handle: u64) -> WakerSlot {
    WakerSlot { handle: Some(handle) }
}

/// The handle yielded by a take, and the slot it leaves behind (always empty).
pub open spec fn spec_take(s: WakerSlot) -> (Option<u64>, WakerSlot) {
    (s.handle, WakerSlot { handle: None })
}

impl WakerSlot {
    /// An empty slot: no task is waiting.
    pub fn new() -> (s: WakerSlot)
        ensures
            s.handle is None,
    {
        WakerSlot { handle: None }
    }

    /// Registers a waiter, overwriting any stale handle: only the most recent
    /// waiter for this condition will be resumed.
    pub fn register(&mut self, handle: u64)
        ensures
            *final(self) == spec_register(*old(self), handle),
            final(self).handle == Some(handle),
    {
        self.handle = Some(handle);
    }

    /// Takes the pending handle out, leaving the slot empty, so that the
    /// caller can invoke it exactly once.
    pub fn take(&mut self) -> (r: Option<u64>)
        ensures
            (r, *final(self)) == spec_take(*old(self)),
            r == old(self).handle,
            final(self).handle is None,
    {
        let r = self.handle;
        self.handle = None;
        r
    }
}

/// The two wait conditions of one peripheral instance: data available to
/// receive, and space available to transmit.
#[derive(Clone, Copy, Debug, PartialEq, Eq, Structural)]
pub struct WakerPair {
    /// Waiter for the receive condition.
    pub rx: WakerSlot,
    /// Waiter for the transmit condition.
    pub tx: WakerSlot,
}

impl WakerPair {
    /// Both slots empty.
    pub fn new() -> (p: WakerPair)
        ensures
            p.rx.handle is None,
            p.tx.handle is None,
    {
        WakerPair { rx: WakerSlot { handle: None }, tx: WakerSlot { handle: None } }
    }
}

/// Registering a new wait while an old, unfired handle occupies the slot
/// leaves only the new handle to fire: the next take yields the new handle,
/// the slot is then empty, and the overwritten handle can never be yielded
/// again.
pub proof fn lemma_slot_overwrite(s0: WakerSlot, old_handle: u64, new_handle: u64)
    ensures
        spec_register(spec_register(s0, old_handle), new_handle).handle == Some(new_handle),
        spec_take(spec_register(spec_register(s0, old_handle), new_handle)).0 == Some(
            new_handle,
        ),
        old_handle != new_handle ==> spec_take(
            spec_register(spec_register(s0, old_handle), new_handle),
        ).0 != Some(old_handle),
        spec_take(spec_take(spec_register(spec_register(s0, old_handle), new_handle)).1).0
            is None,
{
}

} // verus!
