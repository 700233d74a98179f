//! The SPI full-duplex pump: two cooperatively scheduled tasks, a feeder
//! filling the transmit FIFO and a drainer emptying the receive FIFO,
//! cross-signalling each other so that the bytes in flight never exceed the
//! FIFO depth and no incoming byte is ever lost to a full receive FIFO.
//!
//! Each task is a poll-driven state machine. The scheduler (the embedding,
//! or a test) may interleave feeder polls, drainer polls, line shifts and
//! interrupt wakeups in any order: every one of these events preserves the
//! pump invariant, so the bounded-window property holds under every legal
//! interleaving, not just a particular schedule.

use crate::spi::device_rest;
use crate::spi::prefix_padded;
use crate::spi::CommType;
use crate::spi::SpiBus;
use crate::spi::WatermarkValue;
use crate::spi::SPI_FIFO_DEPTH;
use crate::waker::WakerPair;
use vstd::prelude::*;

verus! {

/// Where one of the pump's two tasks stands.
#[derive(Clone, Copy, Debug, PartialEq, Eq, Structural)]
pub enum PumpTask {
    /// The task can make progress when next polled.
    Running,
    /// The task waits for the other task's signal.
    WaitingForPeer,
    /// The task waits for a hardware watermark interrupt.
    WaitingForHw,
    /// The task has moved all its bytes.
    Done,
}

/// A full-duplex transfer in progress.
///
/// The feeder pushes `out` (zero-padded up to `len`) into the transmit FIFO;
/// the drainer pulls `len` answered bytes into `received`. The cross-signal
/// discipline is the single-slot overwrite protocol: each side parks itself
/// when it cannot proceed and the other side releases it on progress.
pub struct DuplexPump {
    /// Total bytes to move in each direction.
    pub len: usize,
    /// Bytes pushed into the transmit FIFO so far.
    pub write_count: usize,
    /// Bytes pulled out of the receive FIFO so far.
    pub read_count: usize,
    /// The feeder task's state.
    pub feeder: PumpTask,
    /// The drainer task's state.
    pub drainer: PumpTask,
    /// The outgoing bytes; positions past its end transmit the zero pad.
    pub out: Vec<u8>,
    /// The bytes received so far, in order.
    pub received: Vec<u8>,
    /// Handle registered for the feeder's hardware waits.
    pub feeder_handle: u64,
    /// Handle registered for the drainer's hardware waits.
    pub drainer_handle: u64,
    /// The device script as it stood when the pump began.
    pub initial_miso: Ghost<Seq<u8>>,
    /// The line log as it stood when the pump began.
    pub initial_mosi: Ghost<Seq<u8>>,
}

impl DuplexPump {
    /// Bytes that have actually left on the line so far.
    pub open spec fn shifted<PINS>(self, bus: SpiBus<PINS>) -> int {
        self.read_count + bus.spi.rxq@.len()
    }

    /// The pump invariant. It ties the two counters to the FIFO contents and
    /// the line, bounds the in-flight window by the FIFO depth, and pins the
    /// waiting states to the conditions they wait on.
    pub open spec fn inv<PINS>(self, bus: SpiBus<PINS>) -> bool {
        let shifted = self.shifted(bus);
        &&& self.read_count <= self.write_count <= self.len
        &&& self.write_count - self.read_count <= SPI_FIFO_DEPTH
        &&& self.write_count - self.read_count == bus.spi.txq@.len() + bus.spi.rxq@.len()
        &&& self.feeder is Done ==> self.write_count == self.len
        &&& self.drainer is Done ==> self.read_count == self.len
        &&& self.feeder is WaitingForPeer ==> self.write_count - self.read_count
            == SPI_FIFO_DEPTH
        &&& self.feeder is Running ==> self.write_count - self.read_count < SPI_FIFO_DEPTH
        &&& self.feeder is WaitingForHw ==> self.write_count - self.read_count
            < SPI_FIFO_DEPTH
        &&& self.drainer is WaitingForPeer ==> self.write_count == self.read_count
        &&& bus.spi.txq@ == prefix_padded(self.out@, self.write_count as int).subrange(
            shifted,
            self.write_count as int,
        )
        &&& bus.spi.rxq@ == prefix_padded(self.initial_miso@, shifted).subrange(
            self.read_count as int,
            shifted,
        )
        &&& bus.spi.mosi@ == self.initial_mosi@ + prefix_padded(self.out@, shifted)
        &&& bus.spi.miso@ == device_rest(self.initial_miso@, shifted)
        &&& self.received@ == prefix_padded(self.initial_miso@, self.read_count as int)
        &&& !bus.spi.overrun
    }

    /// Begins a duplex transfer of `len` bytes on a bus whose FIFOs are idle.
    pub fn begin<PINS>(
        bus: &SpiBus<PINS>,
        len: usize,
        out: Vec<u8>,
        feeder_handle: u64,
        drainer_handle: u64,
    ) -> (p: DuplexPump)
        requires
            bus.spi.txq@.len() == 0,
            bus.spi.rxq@.len() == 0,
            !bus.spi.overrun,
        ensures
            p.inv(*bus),
            p.len == len,
            p.write_count == 0,
            p.read_count == 0,
            p.feeder is Running,
            p.drainer is Running,
            p.out@ == out@,
            p.received@.len() == 0,
            p.feeder_handle == feeder_handle,
            p.drainer_handle == drainer_handle,
            p.initial_miso@ == bus.spi.miso@,
            p.initial_mosi@ == bus.spi.mosi@,
    {
        let p = DuplexPump {
            len,
            write_count: 0,
            read_count: 0,
            feeder: PumpTask::Running,
            drainer: PumpTask::Running,
            out,
            received: Vec::new(),
            feeder_handle,
            drainer_handle,
            initial_miso: Ghost(bus.spi.miso@),
            initial_mosi: Ghost(bus.spi.mosi@),
        };
        proof {
            assert(bus.spi.txq@ =~= prefix_padded(p.out@, 0).subrange(0, 0));
            assert(bus.spi.rxq@ =~= prefix_padded(p.initial_miso@, 0).subrange(0, 0));
            assert(bus.spi.mosi@ =~= p.initial_mosi@ + prefix_padded(p.out@, 0));
            assert(bus.spi.miso@ =~= device_rest(p.initial_miso@, 0));
            assert(p.received@ =~= prefix_padded(p.initial_miso@, 0));
        }
        p
    }

    /// True once both tasks have finished; the counters then both equal the
    /// requested length, and everything the device answered has been
    /// received in order.
    pub fn is_complete<PINS>(&self, bus: &SpiBus<PINS>) -> (r: bool)
        requires
            self.inv(*bus),
        ensures
            r <==> (self.feeder is Done && self.drainer is Done),
            r ==> self.write_count == self.len && self.read_count == self.len
                && self.received@ == prefix_padded(self.initial_miso@, self.len as int),
    {
        matches!(self.feeder, PumpTask::Done) && matches!(self.drainer, PumpTask::Done)
    }

    /// One poll of the feeder. When running with bytes remaining it pushes
    /// the next outgoing byte, signals an idle drainer, and parks itself
    /// once the in-flight window reaches the FIFO depth. Polls in any other
    /// state make no progress. The pump invariant is preserved in every
    /// case.
    pub fn feeder_step<PINS>(&mut self, bus: &mut SpiBus<PINS>, hw_wakers: &mut WakerPair)
        requires
            old(self).inv(*old(bus)),
        ensures
            final(self).inv(*final(bus)),
            final(self).len == old(self).len,
            final(self).out@ == old(self).out@,
            final(self).initial_miso@ == old(self).initial_miso@,
            final(self).initial_mosi@ == old(self).initial_mosi@,
            final(self).feeder_handle == old(self).feeder_handle,
            final(self).drainer_handle == old(self).drainer_handle,
            final(self).read_count == old(self).read_count,
            final(self).received@ == old(self).received@,
            old(self).write_count <= final(self).write_count <= old(self).write_count + 1,
            !(old(self).feeder is Running) ==> *final(self) == *old(self) && *final(bus) == *old(bus) && *final(hw_wakers) == *old(hw_wakers),
            old(self).feeder is Running && old(self).write_count == old(self).len ==> final(self).feeder is Done && final(self).write_count == old(self).write_count && *final(bus) == *old(bus) && *final(hw_wakers) == *old(hw_wakers),
            // A running feeder with bytes remaining always moves one byte:
            // under the invariant the transmit FIFO has room, the next
            // outgoing byte (or the zero pad) is queued, a drainer waiting
            // for production is released, and the feeder parks exactly when
            // the in-flight window reaches the FIFO depth.
            old(self).feeder is Running && old(self).write_count < old(self).len ==> final(self).write_count == old(self).write_count + 1
                && final(bus).spi.txq@ == old(bus).spi.txq@.push(
                    prefix_padded(old(self).out@, old(self).len as int)[old(self).write_count as int],
                )
                && final(bus).spi.rxq@ == old(bus).spi.rxq@
                && final(bus).spi.miso@ == old(bus).spi.miso@
                && final(bus).spi.mosi@ == old(bus).spi.mosi@
                && final(bus).spi.overrun == old(bus).spi.overrun
                && final(bus).spi.regs_unchanged(old(bus).spi)
                && final(self).drainer == (if old(self).drainer is WaitingForPeer {
                    PumpTask::Running
                } else {
                    old(self).drainer
                })
                && final(self).feeder == (if old(self).write_count + 1 - old(self).read_count
                    == SPI_FIFO_DEPTH {
                    PumpTask::WaitingForPeer
                } else {
                    PumpTask::Running
                })
                && *final(hw_wakers) == *old(hw_wakers),
    {
        match self.feeder {
            PumpTask::Running => {},
            _ => {
                return ;
            },
        }
        if self.write_count == self.len {
            self.feeder = PumpTask::Done;
            return ;
        }
        let byte = if self.write_count < self.out.len() {
            self.out[self.write_count]
        } else {
            0
        };
        let ghost shifted0 = self.shifted(*old(bus));
        if bus.write_output(byte) {
            proof {
                assert(bus.spi.txq@ =~= prefix_padded(
                    self.out@,
                    self.write_count + 1,
                ).subrange(shifted0, self.write_count + 1));
            }
            self.write_count = self.write_count + 1;
            if self.read_count < self.write_count {
                // Signal the drainer: data is on its way.
                match self.drainer {
                    PumpTask::WaitingForPeer => {
                        self.drainer = PumpTask::Running;
                    },
                    _ => {},
                }
            }
            if self.write_count - self.read_count == SPI_FIFO_DEPTH {
                // The in-flight window is full: wait for a read to occur.
                self.feeder = PumpTask::WaitingForPeer;
            }
        } else {
            // Transmit FIFO full: arm the watermark interrupt and suspend.
            // This mirrors the general byte-level primitive, which can block
            // on a full FIFO when driven outside the pump; under the pump
            // invariant a running feeder's window is below the FIFO depth,
            // so the FIFO always has room and this arm is unreachable.
            proof {
                assert(false);
            }
            hw_wakers.tx.register(self.feeder_handle);
            bus.set_watermark(CommType::Tx, WatermarkValue::W7);
            bus.enable_interrupt(CommType::Tx);
            self.feeder = PumpTask::WaitingForHw;
        }
    }

    /// One poll of the drainer. When running it parks itself while nothing
    /// is in flight; otherwise it pulls the next answered byte: on success
    /// it signals a feeder parked on a full window, and on an empty receive
    /// FIFO it arms the receive watermark interrupt and waits for hardware.
    /// Polls in any other state make no progress. The pump invariant is
    /// preserved in every case.
    pub fn drainer_step<PINS>(&mut self, bus: &mut SpiBus<PINS>, hw_wakers: &mut WakerPair)
        requires
            old(self).inv(*old(bus)),
        ensures
            final(self).inv(*final(bus)),
            final(self).len == old(self).len,
            final(self).out@ == old(self).out@,
            final(self).initial_miso@ == old(self).initial_miso@,
            final(self).initial_mosi@ == old(self).initial_mosi@,
            final(self).feeder_handle == old(self).feeder_handle,
            final(self).drainer_handle == old(self).drainer_handle,
            final(self).write_count == old(self).write_count,
            old(self).read_count <= final(self).read_count <= old(self).read_count + 1,
            !(old(self).drainer is Running) ==> *final(self) == *old(self) && *final(bus) == *old(bus) && *final(hw_wakers) == *old(hw_wakers),
            old(self).drainer is Running && old(self).read_count == old(self).len ==> final(self).drainer is Done && final(self).read_count == old(self).read_count && *final(bus) == *old(bus) && *final(hw_wakers) == *old(hw_wakers),
            // Nothing produced yet: the drainer parks for the feeder's
            // signal and touches nothing else.
            old(self).drainer is Running && old(self).read_count < old(self).len && old(self).write_count == old(self).read_count ==> final(self).drainer is WaitingForPeer
                && final(self).feeder == old(self).feeder
                && final(self).read_count == old(self).read_count
                && *final(bus) == *old(bus) && *final(hw_wakers) == *old(hw_wakers),
            // Data waits in the receive FIFO: its head is pulled and kept,
            // and a feeder parked on a full window is released (the window
            // has just dropped below the FIFO depth).
            old(self).drainer is Running && old(self).read_count < old(self).len && old(self).write_count > old(self).read_count && old(bus).spi.rxq@.len() > 0 ==> final(self).read_count == old(self).read_count + 1
                && final(self).received@ == old(self).received@.push(old(bus).spi.rxq@[0])
                && final(bus).spi.rxq@ == old(bus).spi.rxq@.subrange(
                    1,
                    old(bus).spi.rxq@.len() as int,
                )
                && final(bus).spi.txq@ == old(bus).spi.txq@
                && final(bus).spi.miso@ == old(bus).spi.miso@
                && final(bus).spi.mosi@ == old(bus).spi.mosi@
                && final(bus).spi.overrun == old(bus).spi.overrun
                && final(bus).spi.regs_unchanged(old(bus).spi)
                && final(self).drainer is Running
                && final(self).feeder == (if old(self).feeder is WaitingForPeer {
                    PumpTask::Running
                } else {
                    old(self).feeder
                })
                && *final(hw_wakers) == *old(hw_wakers),
            // Bytes are in flight but none has arrived: the drainer arms the
            // receive watermark interrupt at level zero, registers its
            // handle, and waits for hardware.
            old(self).drainer is Running && old(self).read_count < old(self).len && old(self).write_count > old(self).read_count && old(bus).spi.rxq@.len() == 0 ==> final(self).drainer is WaitingForHw
                && final(self).feeder == old(self).feeder
                && final(self).read_count == old(self).read_count
                && final(self).received@ == old(self).received@
                && final(hw_wakers).rx.handle == Some(old(self).drainer_handle)
                && final(hw_wakers).tx == old(hw_wakers).tx
                && final(bus).spi.rxmark == 0u32
                && final(bus).spi.ie == crate::bitfield::spec_set_bit(old(bus).spi.ie, 1, true)
                && final(bus).spi.txmark == old(bus).spi.txmark
                && final(bus).spi.regs_unchanged_but_ie_and_marks(old(bus).spi)
                && final(bus).spi.fifos_unchanged(old(bus).spi),
    {
        match self.drainer {
            PumpTask::Running => {},
            _ => {
                return ;
            },
        }
        if self.read_count == self.len {
            self.drainer = PumpTask::Done;
            return ;
        }
        if self.write_count == self.read_count {
            // Nothing produced yet: wait for the feeder's signal.
            self.drainer = PumpTask::WaitingForPeer;
            return ;
        }
        let ghost shifted0 = self.shifted(*old(bus));
        match bus.read_input() {
            Some(data) => {
                self.received.push(data);
                proof {
                    assert(old(bus).spi.rxq@[0] == prefix_padded(
                        self.initial_miso@,
                        shifted0,
                    )[self.read_count as int]);
                    assert(self.received@ =~= prefix_padded(
                        self.initial_miso@,
                        self.read_count + 1,
                    ));
                    assert(bus.spi.rxq@ =~= prefix_padded(
                        self.initial_miso@,
                        shifted0,
                    ).subrange(self.read_count + 1, shifted0));
                }
                self.read_count = self.read_count + 1;
                if self.write_count - self.read_count < SPI_FIFO_DEPTH {
                    // Signal a feeder parked on a full window.
                    match self.feeder {
                        PumpTask::WaitingForPeer => {
                            self.feeder = PumpTask::Running;
                        },
                        _ => {},
                    }
                }
            },
            None => {
                // Receive FIFO empty: arm the watermark interrupt and suspend.
                hw_wakers.rx.register(self.drainer_handle);
                bus.set_watermark(CommType::Rx, WatermarkValue::W0);
                bus.enable_interrupt(CommType::Rx);
                self.drainer = PumpTask::WaitingForHw;
            },
        }
    }

    /// The controller moves one byte over the wire while the pump runs. The
    /// invariant's bounded window guarantees the receive FIFO has room, so
    /// no byte is ever lost: the overrun flag stays clear.
    pub fn clock<PINS>(&self, bus: &mut SpiBus<PINS>)
        requires
            self.inv(*old(bus)),
            old(bus).spi.txq@.len() > 0,
        ensures
            self.inv(*final(bus)),
            final(bus).spi.txq@.len() == old(bus).spi.txq@.len() - 1,
            final(bus).spi.rxq@.len() == old(bus).spi.rxq@.len() + 1,
            !final(bus).spi.overrun,
    {
        let ghost shifted0 = self.shifted(*old(bus));
        proof {
            // In flight at most the FIFO depth, and one byte is still queued
            // to transmit, so the receive FIFO has room.
            assert(old(bus).spi.rxq@.len() < SPI_FIFO_DEPTH);
            crate::spi::lemma_exchange_step(self.initial_miso@, shifted0);
        }
        bus.spi.shift();
        proof {
            assert(bus.spi.txq@ =~= prefix_padded(
                self.out@,
                self.write_count as int,
            ).subrange(shifted0 + 1, self.write_count as int));
            assert(bus.spi.rxq@ =~= prefix_padded(self.initial_miso@, shifted0 + 1).subrange(
                self.read_count as int,
                shifted0 + 1,
            ));
            assert(bus.spi.mosi@ =~= self.initial_mosi@ + prefix_padded(
                self.out@,
                shifted0 + 1,
            ));
            assert(bus.spi.miso@ =~= device_rest(self.initial_miso@, shifted0 + 1));
        }
    }

    /// A transmit watermark interrupt resumed the feeder's hardware wait.
    pub fn wake_tx(&mut self)
        ensures
            old(self).feeder is WaitingForHw ==> *final(self) == (DuplexPump {
                feeder: PumpTask::Running,
                ..*old(self)
            }),
            !(old(self).feeder is WaitingForHw) ==> *final(self) == *old(self),
    {
        match self.feeder {
            PumpTask::WaitingForHw => {
                self.feeder = PumpTask::Running;
            },
            _ => {},
        }
    }

    /// A receive watermark interrupt resumed the drainer's hardware wait.
    pub fn wake_rx(&mut self)
        ensures
            old(self).drainer is WaitingForHw ==> *final(self) == (DuplexPump {
                drainer: PumpTask::Running,
                ..*old(self)
            }),
            !(old(self).drainer is WaitingForHw) ==> *final(self) == *old(self),
    {
        match self.drainer {
            PumpTask::WaitingForHw => {
                self.drainer = PumpTask::Running;
            },
            _ => {},
        }
    }

    /// Waking preserves the pump invariant: it only turns a hardware wait
    /// back into a runnable task.
    pub proof fn lemma_wake_preserves_inv<PINS>(self, woken: DuplexPump, bus: SpiBus<PINS>)
        requires
            self.inv(bus),
            (self.feeder is WaitingForHw && woken == (DuplexPump {
                feeder: PumpTask::Running,
                ..self
            })) || (self.drainer is WaitingForHw && woken == (DuplexPump {
                drainer: PumpTask::Running,
                ..self
            })) || woken == self,
        ensures
            woken.inv(bus),
    {
    }
}

} // verus!
