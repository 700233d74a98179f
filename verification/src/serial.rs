//! Serial (UART) interface: register model, the split receive and transmit
//! halves, and the poll-driven suspend loops that turn watermark interrupts
//! into single-shot wakeups.
//!
//! The UART is modelled by `Uart`: plain register words and the two
//! eight-deep FIFOs. The line side -- bytes leaving the transmit FIFO and
//! arriving in the receive FIFO -- is driven explicitly by the embedding and
//! by tests.

use crate::bitfield::bit_is;
use crate::bitfield::get_bit;
use crate::bitfield::get_field;
use crate::bitfield::set_bit;
use crate::bitfield::set_field;
use crate::bitfield::spec_get_field;
use crate::bitfield::spec_set_bit;
use crate::bitfield::spec_set_field;
use crate::plic::ExternalInterrupt;
use crate::plic::Plic;
use crate::spi::CommType;
use crate::spi::WatermarkValue;
use crate::waker::WakerPair;
use vstd::prelude::*;

verus! {

/// Depth of each hardware FIFO.
pub const UART_FIFO_DEPTH: usize = 8;

/// The UART register file and its two FIFOs.
pub struct Uart {
    /// Interrupt enable register: transmit watermark bit 0, receive bit 1.
    pub ie: u32,
    /// Transmit control: enable bit 0, stop bits bit 1, watermark bits 16 to 18.
    pub txctrl: u32,
    /// Receive control: enable bit 0, watermark bits 16 to 18.
    pub rxctrl: u32,
    /// Baud rate divisor register.
    pub div: u32,
    /// Transmit FIFO, at most `UART_FIFO_DEPTH` bytes.
    pub txq: Vec<u8>,
    /// Receive FIFO, at most `UART_FIFO_DEPTH` bytes.
    pub rxq: Vec<u8>,
}

impl Uart {
    /// Both FIFOs fit the hardware depth.
    pub open spec fn wf(self) -> bool {
        self.txq@.len() <= UART_FIFO_DEPTH && self.rxq@.len() <= UART_FIFO_DEPTH
    }

    /// The transmit watermark condition: fewer queued bytes than the mark.
    pub open spec fn txwm_pending(self) -> bool {
        (self.txq@.len() as u32) < spec_get_field(self.txctrl, 16, 7)
    }

    /// The receive watermark condition: more queued bytes than the mark.
    pub open spec fn rxwm_pending(self) -> bool {
        (self.rxq@.len() as u32) > spec_get_field(self.rxctrl, 16, 7)
    }

    /// The registers are unchanged.
    pub open spec fn regs_unchanged(self, other: Uart) -> bool {
        self.ie == other.ie && self.txctrl == other.txctrl && self.rxctrl == other.rxctrl
            && self.div == other.div
    }

    /// The FIFOs are unchanged.
    pub open spec fn fifos_unchanged(self, other: Uart) -> bool {
        self.txq@ == other.txq@ && self.rxq@ == other.rxq@
    }

    /// Only the interrupt enable register may differ.
    pub open spec fn same_except_ie(self, other: Uart) -> bool {
        self.txctrl == other.txctrl && self.rxctrl == other.rxctrl && self.div == other.div
            && self.fifos_unchanged(other)
    }

    /// Only the transmit and receive control registers may differ.
    pub open spec fn same_except_ctrl(self, other: Uart) -> bool {
        self.ie == other.ie && self.div == other.div && self.fifos_unchanged(other)
    }

    /// A UART with zeroed registers and empty FIFOs.
    pub fn new() -> (u: Uart)
        ensures
            u.wf(),
            u.ie == 0u32,
            u.txctrl == 0u32,
            u.rxctrl == 0u32,
            u.div == 0u32,
            u.txq@.len() == 0,
            u.rxq@.len() == 0,
    {
        Uart { ie: 0, txctrl: 0, rxctrl: 0, div: 0, txq: Vec::new(), rxq: Vec::new() }
    }

    /// The line takes the oldest byte out of the transmit FIFO (the UART
    /// shifting a byte out), or nothing when the FIFO is empty.
    pub fn device_take_tx(&mut self) -> (r: Option<u8>)
        ensures
            final(self).regs_unchanged(*old(self)),
            final(self).rxq@ == old(self).rxq@,
            r is None <==> old(self).txq@.len() == 0,
            r is None ==> final(self).txq@ == old(self).txq@,
            r matches Some(b) ==> b == old(self).txq@[0] && final(self).txq@ == old(
                self,
            ).txq@.subrange(1, old(self).txq@.len() as int),
    {
        if self.txq.len() == 0 {
            None
        } else {
            Some(self.txq.remove(0))
        }
    }

    /// The line delivers one received byte into the receive FIFO; a byte
    /// arriving at a full FIFO is lost and the delivery reports failure.
    pub fn device_put_rx(&mut self, byte: u8) -> (accepted: bool)
        ensures
            final(self).regs_unchanged(*old(self)),
            final(self).txq@ == old(self).txq@,
            accepted <==> old(self).rxq@.len() < UART_FIFO_DEPTH,
            accepted ==> final(self).rxq@ == old(self).rxq@.push(byte),
            !accepted ==> final(self).rxq@ == old(self).rxq@,
    {
        if self.rxq.len() < UART_FIFO_DEPTH {
            self.rxq.push(byte);
            true
        } else {
            false
        }
    }
}

/// Copies a byte vector.
fn clone_bytes(v: &Vec<u8>) -> (r: Vec<u8>)
    ensures
        r@ == v@,
{
    let mut r: Vec<u8> = Vec::new();
    let mut i: usize = 0;
    while i < v.len()
        invariant
            i <= v@.len(),
            r@ == v@.subrange(0, i as int),
        decreases v@.len() - i,
    {
        r.push(v[i]);
        proof {
            assert(r@ =~= v@.subrange(0, i + 1));
        }
        i = i + 1;
    }
    proof {
        assert(v@.subrange(0, v@.len() as int) =~= v@);
    }
    r
}

/// Copies a UART register file and its FIFO contents. The two halves of a
/// split serial port each carry the shared hardware instance's state.
fn duplicate_uart(u: &Uart) -> (r: Uart)
    ensures
        r.regs_unchanged(*u),
        r.fifos_unchanged(*u),
{
    Uart {
        ie: u.ie,
        txctrl: u.txctrl,
        rxctrl: u.rxctrl,
        div: u.div,
        txq: clone_bytes(&u.txq),
        rxq: clone_bytes(&u.rxq),
    }
}

/// Outcome of polling a serial transfer.
#[derive(Clone, Copy, Debug, PartialEq, Eq, Structural)]
pub enum SerialPoll {
    /// The transfer made progress: this many bytes moved.
    Ready(usize),
    /// The hardware condition is not met; the caller should suspend.
    Pending,
}

/// Serial receiver half.
pub struct Rx<PIN> {
    /// This half's view of the shared UART instance.
    pub uart: Uart,
    /// The receive pin.
    pub pin: PIN,
    /// This UART's external interrupt source.
    pub source: ExternalInterrupt,
}

impl<PIN> Rx<PIN> {
    /// Releases the UART peripheral and associated pin, both unchanged.
    pub fn free(self) -> (r: (Uart, PIN))
        ensures
            r.0 == self.uart,
            r.1 == self.pin,
    {
        (self.uart, self.pin)
    }

    /// Enable the receive watermark interrupt, preserving the transmit
    /// enable bit.
    pub fn enable_interrupt(&mut self)
        ensures
            final(self).uart.ie == spec_set_bit(old(self).uart.ie, 1, true),
            final(self).uart.txctrl == old(self).uart.txctrl,
            final(self).uart.rxctrl == old(self).uart.rxctrl,
            final(self).uart.div == old(self).uart.div,
            final(self).uart.fifos_unchanged(old(self).uart),
            final(self).pin == old(self).pin,
            final(self).source == old(self).source,
    {
        self.uart.ie = set_bit(self.uart.ie, 1, true);
    }

    /// Disable the receive watermark interrupt, preserving the transmit
    /// enable bit.
    pub fn disable_interrupt(&mut self)
        ensures
            final(self).uart.ie == spec_set_bit(old(self).uart.ie, 1, false),
            final(self).uart.txctrl == old(self).uart.txctrl,
            final(self).uart.rxctrl == old(self).uart.rxctrl,
            final(self).uart.div == old(self).uart.div,
            final(self).uart.fifos_unchanged(old(self).uart),
            final(self).pin == old(self).pin,
            final(self).source == old(self).source,
    {
        self.uart.ie = set_bit(self.uart.ie, 1, false);
    }

    /// Change the receive watermark level, preserving the enable bit.
    pub fn set_watermark(&mut self, watermark: WatermarkValue)
        ensures
            final(self).uart.rxctrl == spec_set_field(
                old(self).uart.rxctrl,
                16,
                7,
                watermark.spec_value() as u32,
            ),
            final(self).uart.ie == old(self).uart.ie,
            final(self).uart.txctrl == old(self).uart.txctrl,
            final(self).uart.fifos_unchanged(old(self).uart),
            final(self).uart.div == old(self).uart.div,
            final(self).pin == old(self).pin,
            final(self).source == old(self).source,
    {
        let v = watermark.value() as u32;
        self.uart.rxctrl = set_field(self.uart.rxctrl, 16, 7, v);
    }

    /// Get the receive watermark level.
    pub fn get_watermark(&self) -> (r: u8)
        ensures
            r == spec_get_field(self.uart.rxctrl, 16, 7) as u8,
    {
        get_field(self.uart.rxctrl, 16, 7) as u8
    }

    /// Check if the receive watermark interrupt is enabled.
    pub fn is_interrupt_enabled(&self) -> (r: bool)
        ensures
            r == bit_is(self.uart.ie, 1),
    {
        get_bit(self.uart.ie, 1)
    }

    /// Check if the receive watermark condition holds.
    pub fn is_interrupt_pending(&self) -> (r: bool)
        ensures
            r == self.uart.rxwm_pending(),
    {
        (self.uart.rxq.len() as u32) > get_field(self.uart.rxctrl, 16, 7)
    }

    /// Enables this UART's external interrupt source in the interrupt
    /// controller.
    pub fn enable_exti(&self, plic: &mut Plic)
        ensures
            bit_is(final(plic).enables, self.source.spec_index()),
            forall|j: u32|
                j < 32 && j != self.source.spec_index() ==> bit_is(final(plic).enables, j)
                    == bit_is(old(plic).enables, j),
            final(plic).priorities@ == old(plic).priorities@,
    {
        plic.enable(self.source);
    }

    /// Disables this UART's external interrupt source.
    pub fn disable_exti(&self, plic: &mut Plic)
        ensures
            !bit_is(final(plic).enables, self.source.spec_index()),
            forall|j: u32|
                j < 32 && j != self.source.spec_index() ==> bit_is(final(plic).enables, j)
                    == bit_is(old(plic).enables, j),
            final(plic).priorities@ == old(plic).priorities@,
    {
        plic.disable(self.source);
    }

    /// Reports whether this UART's external interrupt source is enabled.
    pub fn is_exti_enabled(&self, plic: &Plic) -> (r: bool)
        ensures
            r == bit_is(plic.enables, self.source.spec_index()),
    {
        plic.is_enabled(self.source)
    }

    /// Sets this UART's external interrupt source priority.
    pub fn set_exti_priority(&self, plic: &mut Plic, priority: u8)
        requires
            old(plic).wf(),
            priority <= 7,
        ensures
            final(plic).wf(),
            final(plic).priorities@ == old(plic).priorities@.update(
                self.source.spec_index() as int,
                priority,
            ),
            final(plic).enables == old(plic).enables,
    {
        plic.set_priority(self.source, priority);
    }

    /// Reports this UART's external interrupt source priority.
    pub fn get_exti_priority(&self, plic: &Plic) -> (r: u8)
        requires
            plic.wf(),
        ensures
            r == plic.priorities@[self.source.spec_index() as int],
    {
        plic.get_priority(self.source)
    }

    /// Reads one byte from the receive FIFO, or nothing when it is empty and
    /// the caller would have to block.
    pub fn read(&mut self) -> (r: Option<u8>)
        ensures
            final(self).uart.regs_unchanged(old(self).uart),
            final(self).uart.txq@ == old(self).uart.txq@,
            r is None <==> old(self).uart.rxq@.len() == 0,
            r is None ==> final(self).uart.rxq@ == old(self).uart.rxq@,
            r matches Some(b) ==> b == old(self).uart.rxq@[0] && final(self).uart.rxq@ == old(
                self,
            ).uart.rxq@.subrange(1, old(self).uart.rxq@.len() as int),
    {
        if self.uart.rxq.len() == 0 {
            None
        } else {
            Some(self.uart.rxq.remove(0))
        }
    }

    /// One poll of a buffered read.
    ///
    /// An empty buffer completes at once with no bytes moved. When the
    /// receive FIFO is empty, the poll registers `handle` as the receive
    /// waiter (overwriting any stale one), sets the receive watermark to
    /// zero so the next arriving byte interrupts, enables the receive
    /// interrupt, and suspends. Otherwise the suspend/resume protocol
    /// governs only the first byte: the rest of the buffer is filled from
    /// the FIFO without suspension and the poll completes with however many
    /// bytes were available -- a partial transfer is not an error.
    pub fn poll_read(&mut self, buf: &mut Vec<u8>, handle: u64, wakers: &mut WakerPair) -> (r:
        SerialPoll)
        ensures
            final(self).uart.txq@ == old(self).uart.txq@,
            final(wakers).tx == old(wakers).tx,
            old(buf)@.len() == 0 ==> r == SerialPoll::Ready(0usize) && *final(self) == *old(self)
                && final(buf)@ == old(buf)@ && *final(wakers) == *old(wakers),
            old(buf)@.len() > 0 && old(self).uart.rxq@.len() == 0 ==> r == SerialPoll::Pending
                && final(wakers).rx.handle == Some(handle)
                && final(self).uart.rxctrl == spec_set_field(old(self).uart.rxctrl, 16, 7, 0)
                && final(self).uart.ie == spec_set_bit(old(self).uart.ie, 1, true)
                && final(self).uart.txctrl == old(self).uart.txctrl
                && final(self).uart.div == old(self).uart.div
                && final(self).uart.rxq@ == old(self).uart.rxq@
                && final(buf)@ == old(buf)@,
            old(buf)@.len() > 0 && old(self).uart.rxq@.len() > 0 ==> ({
                let count = vstd::math::min(old(buf)@.len() as int, old(self).uart.rxq@.len() as int);
                &&& r == SerialPoll::Ready(count as usize)
                &&& final(self).uart.regs_unchanged(old(self).uart)
                &&& final(buf)@ == old(self).uart.rxq@.subrange(0, count) + old(buf)@.subrange(
                    count,
                    old(buf)@.len() as int,
                )
                &&& final(self).uart.rxq@ == old(self).uart.rxq@.subrange(
                    count,
                    old(self).uart.rxq@.len() as int,
                )
                &&& *final(wakers) == *old(wakers)
            }),
    {
        if buf.len() == 0 {
            return SerialPoll::Ready(0);
        }
        match self.read() {
            None => {
                wakers.rx.register(handle);
                self.set_watermark(WatermarkValue::W0);
                self.enable_interrupt();
                SerialPoll::Pending
            },
            Some(first) => {
                buf[0] = first;
                let mut count: usize = 1;
                proof {
                    assert(buf@ =~= old(self).uart.rxq@.subrange(0, 1int) + old(buf)@.subrange(
                        1int,
                        old(buf)@.len() as int,
                    ));
                }
                loop
                    invariant
                        1 <= count <= buf@.len(),
                        buf@.len() == old(buf)@.len(),
                        count <= old(self).uart.rxq@.len(),
                        self.uart.regs_unchanged(old(self).uart),
                        self.uart.txq@ == old(self).uart.txq@,
                        wakers == old(wakers),
                        buf@ == old(self).uart.rxq@.subrange(0, count as int) + old(
                            buf,
                        )@.subrange(count as int, old(buf)@.len() as int),
                        self.uart.rxq@ == old(self).uart.rxq@.subrange(
                            count as int,
                            old(self).uart.rxq@.len() as int,
                        ),
                    ensures
                        count == vstd::math::min(
                            old(buf)@.len() as int,
                            old(self).uart.rxq@.len() as int,
                        ),
                    decreases buf@.len() - count,
                {
                    if count >= buf.len() {
                        break;
                    }
                    match self.read() {
                        Some(b) => {
                            buf[count] = b;
                            proof {
                                assert(buf@ =~= old(self).uart.rxq@.subrange(
                                    0,
                                    count + 1,
                                ) + old(buf)@.subrange(count + 1, old(buf)@.len() as int));
                                assert(self.uart.rxq@ =~= old(self).uart.rxq@.subrange(
                                    count + 1,
                                    old(self).uart.rxq@.len() as int,
                                ));
                            }
                            count = count + 1;
                        },
                        None => {
                            break;
                        },
                    }
                }
                SerialPoll::Ready(count)
            },
        }
    }
}

/// Serial transmitter half.
pub struct Tx<PIN> {
    /// This half's view of the shared UART instance.
    pub uart: Uart,
    /// The transmit pin.
    pub pin: PIN,
    /// This UART's external interrupt source.
    pub source: ExternalInterrupt,
}

impl<PIN> Tx<PIN> {
    /// Releases the UART peripheral and associated pin, both unchanged.
    pub fn free(self) -> (r: (Uart, PIN))
        ensures
            r.0 == self.uart,
            r.1 == self.pin,
    {
        (self.uart, self.pin)
    }

    /// Enable the transmit watermark interrupt, preserving the receive
    /// enable bit.
    pub fn enable_interrupt(&mut self)
        ensures
            final(self).uart.ie == spec_set_bit(old(self).uart.ie, 0, true),
            final(self).uart.txctrl == old(self).uart.txctrl,
            final(self).uart.rxctrl == old(self).uart.rxctrl,
            final(self).uart.div == old(self).uart.div,
            final(self).uart.fifos_unchanged(old(self).uart),
            final(self).pin == old(self).pin,
            final(self).source == old(self).source,
    {
        self.uart.ie = set_bit(self.uart.ie, 0, true);
    }

    /// Disable the transmit watermark interrupt, preserving the receive
    /// enable bit.
    pub fn disable_interrupt(&mut self)
        ensures
            final(self).uart.ie == spec_set_bit(old(self).uart.ie, 0, false),
            final(self).uart.txctrl == old(self).uart.txctrl,
            final(self).uart.rxctrl == old(self).uart.rxctrl,
            final(self).uart.div == old(self).uart.div,
            final(self).uart.fifos_unchanged(old(self).uart),
            final(self).pin == old(self).pin,
            final(self).source == old(self).source,
    {
        self.uart.ie = set_bit(self.uart.ie, 0, false);
    }

    /// Change the transmit watermark level, preserving the enable and
    /// stop-bit fields.
    pub fn set_watermark(&mut self, watermark: WatermarkValue)
        ensures
            final(self).uart.txctrl == spec_set_field(
                old(self).uart.txctrl,
                16,
                7,
                watermark.spec_value() as u32,
            ),
            final(self).uart.ie == old(self).uart.ie,
            final(self).uart.rxctrl == old(self).uart.rxctrl,
            final(self).uart.fifos_unchanged(old(self).uart),
            final(self).uart.div == old(self).uart.div,
            final(self).pin == old(self).pin,
            final(self).source == old(self).source,
    {
        let v = watermark.value() as u32;
        self.uart.txctrl = set_field(self.uart.txctrl, 16, 7, v);
    }

    /// Get the transmit watermark level.
    pub fn get_watermark(&self) -> (r: u8)
        ensures
            r == spec_get_field(self.uart.txctrl, 16, 7) as u8,
    {
        get_field(self.uart.txctrl, 16, 7) as u8
    }

    /// Check if the transmit watermark interrupt is enabled.
    pub fn is_interrupt_enabled(&self) -> (r: bool)
        ensures
            r == bit_is(self.uart.ie, 0),
    {
        get_bit(self.uart.ie, 0)
    }

    /// Check if the transmit watermark condition holds.
    pub fn is_interrupt_pending(&self) -> (r: bool)
        ensures
            r == self.uart.txwm_pending(),
    {
        (self.uart.txq.len() as u32) < get_field(self.uart.txctrl, 16, 7)
    }

    /// Enables this UART's external interrupt source in the interrupt
    /// controller.
    pub fn enable_exti(&self, plic: &mut Plic)
        ensures
            bit_is(final(plic).enables, self.source.spec_index()),
            forall|j: u32|
                j < 32 && j != self.source.spec_index() ==> bit_is(final(plic).enables, j)
                    == bit_is(old(plic).enables, j),
            final(plic).priorities@ == old(plic).priorities@,
    {
        plic.enable(self.source);
    }

    /// Disables this UART's external interrupt source.
    pub fn disable_exti(&self, plic: &mut Plic)
        ensures
            !bit_is(final(plic).enables, self.source.spec_index()),
            forall|j: u32|
                j < 32 && j != self.source.spec_index() ==> bit_is(final(plic).enables, j)
                    == bit_is(old(plic).enables, j),
            final(plic).priorities@ == old(plic).priorities@,
    {
        plic.disable(self.source);
    }

    /// Reports whether this UART's external interrupt source is enabled.
    pub fn is_exti_enabled(&self, plic: &Plic) -> (r: bool)
        ensures
            r == bit_is(plic.enables, self.source.spec_index()),
    {
        plic.is_enabled(self.source)
    }

    /// Sets this UART's external interrupt source priority.
    pub fn set_exti_priority(&self, plic: &mut Plic, priority: u8)
        requires
            old(plic).wf(),
            priority <= 7,
        ensures
            final(plic).wf(),
            final(plic).priorities@ == old(plic).priorities@.update(
                self.source.spec_index() as int,
                priority,
            ),
            final(plic).enables == old(plic).enables,
    {
        plic.set_priority(self.source, priority);
    }

    /// Reports this UART's external interrupt source priority.
    pub fn get_exti_priority(&self, plic: &Plic) -> (r: u8)
        requires
            plic.wf(),
        ensures
            r == plic.priorities@[self.source.spec_index() as int],
    {
        plic.get_priority(self.source)
    }

    /// Returns true if the transmit FIFO is full.
    pub fn is_buffer_full(&self) -> (r: bool)
        ensures
            r == (self.uart.txq@.len() >= UART_FIFO_DEPTH),
    {
        self.uart.txq.len() >= UART_FIFO_DEPTH
    }

    /// Writes one byte into the transmit FIFO, or reports that it is full
    /// and the caller would have to block.
    pub fn write(&mut self, byte: u8) -> (accepted: bool)
        ensures
            final(self).uart.regs_unchanged(old(self).uart),
            final(self).uart.rxq@ == old(self).uart.rxq@,
            accepted <==> old(self).uart.txq@.len() < UART_FIFO_DEPTH,
            accepted ==> final(self).uart.txq@ == old(self).uart.txq@.push(byte),
            !accepted ==> final(self).uart.txq@ == old(self).uart.txq@,
    {
        if self.is_buffer_full() {
            false
        } else {
            self.uart.txq.push(byte);
            true
        }
    }

    /// Reports whether the transmit FIFO has drained below the configured
    /// watermark, the condition the non-blocking flush waits for.
    pub fn try_flush(&self) -> (r: bool)
        ensures
            r == self.uart.txwm_pending(),
    {
        (self.uart.txq.len() as u32) < get_field(self.uart.txctrl, 16, 7)
    }

    /// One poll of a buffered write.
    ///
    /// An empty buffer completes at once with no bytes moved. When the
    /// transmit FIFO is full, the poll registers `handle` as the transmit
    /// waiter (overwriting any stale one), sets the transmit watermark to
    /// seven so the interrupt fires as the FIFO drains, enables the
    /// transmit interrupt, and suspends. Otherwise the suspend/resume
    /// protocol governs only the first byte: the rest of the buffer is
    /// pushed without suspension until the FIFO fills, and the poll
    /// completes with however many bytes fit -- a partial transfer is not
    /// an error.
    pub fn poll_write(&mut self, buf: &Vec<u8>, handle: u64, wakers: &mut WakerPair) -> (r:
        SerialPoll)
        ensures
            final(self).uart.rxq@ == old(self).uart.rxq@,
            final(wakers).rx == old(wakers).rx,
            buf@.len() == 0 ==> r == SerialPoll::Ready(0usize) && *final(self) == *old(self)
                && *final(wakers) == *old(wakers),
            buf@.len() > 0 && old(self).uart.txq@.len() >= UART_FIFO_DEPTH ==> r
                == SerialPoll::Pending && final(wakers).tx.handle == Some(handle)
                && final(self).uart.txctrl == spec_set_field(old(self).uart.txctrl, 16, 7, 7)
                && final(self).uart.ie == spec_set_bit(old(self).uart.ie, 0, true)
                && final(self).uart.rxctrl == old(self).uart.rxctrl
                && final(self).uart.div == old(self).uart.div
                && final(self).uart.txq@ == old(self).uart.txq@,
            buf@.len() > 0 && old(self).uart.txq@.len() < UART_FIFO_DEPTH ==> ({
                let count = vstd::math::min(
                    buf@.len() as int,
                    UART_FIFO_DEPTH - old(self).uart.txq@.len(),
                );
                &&& r == SerialPoll::Ready(count as usize)
                &&& final(self).uart.regs_unchanged(old(self).uart)
                &&& final(self).uart.txq@ == old(self).uart.txq@ + buf@.subrange(0, count)
                &&& *final(wakers) == *old(wakers)
            }),
    {
        if buf.len() == 0 {
            return SerialPoll::Ready(0);
        }
        if self.write(buf[0]) {
            let mut count: usize = 1;
            proof {
                assert(self.uart.txq@ =~= old(self).uart.txq@ + buf@.subrange(0, 1int));
            }
            loop
                invariant
                    1 <= count <= buf@.len(),
                    count + old(self).uart.txq@.len() <= UART_FIFO_DEPTH,
                    self.uart.regs_unchanged(old(self).uart),
                    self.uart.rxq@ == old(self).uart.rxq@,
                    wakers == old(wakers),
                    self.uart.txq@ == old(self).uart.txq@ + buf@.subrange(0, count as int),
                ensures
                    count == vstd::math::min(
                        buf@.len() as int,
                        UART_FIFO_DEPTH - old(self).uart.txq@.len(),
                    ),
                decreases buf@.len() - count,
            {
                if count >= buf.len() {
                    break;
                }
                if self.write(buf[count]) {
                    proof {
                        assert(self.uart.txq@ =~= old(self).uart.txq@ + buf@.subrange(
                            0,
                            count + 1,
                        ));
                    }
                    count = count + 1;
                } else {
                    break;
                }
            }
            SerialPoll::Ready(count)
        } else {
            wakers.tx.register(handle);
            self.set_watermark(WatermarkValue::W7);
            self.enable_interrupt();
            SerialPoll::Pending
        }
    }
}

/// A flush of the transmit path in progress.
///
/// The first poll always registers the waiter, sets the transmit watermark
/// to one so the interrupt fires once the FIFO has drained, enables the
/// interrupt and suspends; the poll after the resumption completes.
pub struct TxFlush {
    /// Whether the wait has already been registered.
    pub registered: bool,
}

impl TxFlush {
    /// A flush that has not yet registered its wait.
    pub fn new() -> (f: TxFlush)
        ensures
            !f.registered,
    {
        TxFlush { registered: false }
    }

    /// One poll of the flush; true means the flush is complete.
    pub fn poll<PIN>(&mut self, tx: &mut Tx<PIN>, handle: u64, wakers: &mut WakerPair) -> (done:
        bool)
        ensures
            final(wakers).rx == old(wakers).rx,
            old(self).registered ==> done && *final(self) == *old(self) && *final(tx) == *old(tx)
                && *final(wakers) == *old(wakers),
            !old(self).registered ==> !done && final(self).registered
                && final(wakers).tx.handle == Some(handle)
                && final(tx).uart.txctrl == spec_set_field(old(tx).uart.txctrl, 16, 7, 1)
                && final(tx).uart.ie == spec_set_bit(old(tx).uart.ie, 0, true)
                && final(tx).uart.rxctrl == old(tx).uart.rxctrl
                && final(tx).uart.div == old(tx).uart.div
                && final(tx).uart.fifos_unchanged(old(tx).uart),
    {
        if self.registered {
            true
        } else {
            self.registered = true;
            wakers.tx.register(handle);
            tx.set_watermark(WatermarkValue::W1);
            tx.enable_interrupt();
            false
        }
    }
}

/// Serial abstraction owning both halves.
///
/// The port and its two halves each carry the shared hardware instance's
/// register file. While the port is whole, every register write at this
/// level is applied to each carried copy, so the copies agree; after
/// `split` the halves follow the read-modify-write discipline on their own
/// copies, as the hardware's shared registers demand.
pub struct Serial<TX, RX> {
    /// The UART register file.
    pub uart: Uart,
    /// The transmitter half.
    pub tx: Tx<TX>,
    /// The receiver half.
    pub rx: Rx<RX>,
}

impl<TX, RX> Serial<TX, RX> {
    /// Configures a UART for serial communication: interrupts masked, the
    /// divisor set for the requested baud rate, the transmitter enabled with
    /// a watermark of one, and the receiver enabled. Both halves carry the
    /// configured instance.
    pub fn new(uart: Uart, pins: (TX, RX), baud_rate: u32, tlclk: u32, source: ExternalInterrupt)
        -> (s: Serial<TX, RX>)
        requires
            baud_rate > 0,
            baud_rate <= tlclk,
        ensures
            s.uart.ie == 0u32,
            s.uart.div == tlclk / baud_rate - 1,
            s.uart.txctrl == 0x10001u32,
            s.uart.rxctrl == 1u32,
            s.uart.fifos_unchanged(uart),
            s.tx.uart.regs_unchanged(s.uart),
            s.tx.uart.fifos_unchanged(s.uart),
            s.tx.source == source,
            s.rx.uart.regs_unchanged(s.uart),
            s.rx.uart.fifos_unchanged(s.uart),
            s.rx.source == source,
    {
        proof {
            assert(tlclk / baud_rate >= 1) by (nonlinear_arith)
                requires
                    baud_rate > 0 && baud_rate <= tlclk,
            ;
        }
        let div = tlclk / baud_rate - 1;
        let mut uart = uart;
        uart.ie = 0;
        uart.div = div;
        // Transmitter enabled, one stop bit, watermark one.
        uart.txctrl = 0x10001;
        // Receiver enabled.
        uart.rxctrl = 1;
        let tx = Tx { uart: duplicate_uart(&uart), pin: pins.0, source };
        let rx = Rx { uart: duplicate_uart(&uart), pin: pins.1, source };
        Serial { uart, tx, rx }
    }

    /// Starts listening for receive interrupt events: the interrupt enable
    /// register holds the receive enable alone, on every carried copy of
    /// the shared instance.
    pub fn listen(self) -> (s: Serial<TX, RX>)
        ensures
            s.uart.ie == 2u32,
            s.tx.uart.ie == 2u32,
            s.rx.uart.ie == 2u32,
            s.uart.same_except_ie(self.uart),
            s.tx.uart.same_except_ie(self.tx.uart),
            s.rx.uart.same_except_ie(self.rx.uart),
            s.tx.pin == self.tx.pin,
            s.rx.pin == self.rx.pin,
            s.tx.source == self.tx.source,
            s.rx.source == self.rx.source,
    {
        let mut s = self;
        s.uart.ie = 2;
        s.tx.uart.ie = 2;
        s.rx.uart.ie = 2;
        s
    }

    /// Stops listening for interrupt events: the interrupt enable register
    /// is cleared on every carried copy of the shared instance.
    pub fn unlisten(self) -> (s: Serial<TX, RX>)
        ensures
            s.uart.ie == 0u32,
            s.tx.uart.ie == 0u32,
            s.rx.uart.ie == 0u32,
            s.uart.same_except_ie(self.uart),
            s.tx.uart.same_except_ie(self.tx.uart),
            s.rx.uart.same_except_ie(self.rx.uart),
            s.tx.pin == self.tx.pin,
            s.rx.pin == self.rx.pin,
            s.tx.source == self.tx.source,
            s.rx.source == self.rx.source,
    {
        let mut s = self;
        s.uart.ie = 0;
        s.tx.uart.ie = 0;
        s.rx.uart.ie = 0;
        s
    }

    /// Splits the serial abstraction into its transmitter and receiver
    /// halves.
    pub fn split(self) -> (r: (Tx<TX>, Rx<RX>))
        ensures
            r.0 == self.tx,
            r.1 == self.rx,
    {
        (self.tx, self.rx)
    }

    /// Releases the UART peripheral and associated pins, all unchanged.
    pub fn free(self) -> (r: (Uart, (TX, RX)))
        ensures
            r.0 == self.uart,
            r.1 == (self.tx.pin, self.rx.pin),
    {
        (self.uart, (self.tx.pin, self.rx.pin))
    }

    /// Enable the watermark interrupt of the selected directions. The
    /// interrupt enable register is one hardware register: every carried
    /// copy changes together, and the other direction's bit is preserved.
    pub fn enable_interrupt(&mut self, comm_type: CommType)
        ensures
            final(self).uart.same_except_ie(old(self).uart),
            final(self).tx.uart.same_except_ie(old(self).tx.uart),
            final(self).rx.uart.same_except_ie(old(self).rx.uart),
            final(self).tx.pin == old(self).tx.pin,
            final(self).rx.pin == old(self).rx.pin,
            final(self).tx.source == old(self).tx.source,
            final(self).rx.source == old(self).rx.source,
            comm_type is Tx ==> final(self).uart.ie == spec_set_bit(old(self).uart.ie, 0, true)
                && final(self).tx.uart.ie == spec_set_bit(old(self).tx.uart.ie, 0, true)
                && final(self).rx.uart.ie == spec_set_bit(old(self).rx.uart.ie, 0, true),
            comm_type is Rx ==> final(self).uart.ie == spec_set_bit(old(self).uart.ie, 1, true)
                && final(self).tx.uart.ie == spec_set_bit(old(self).tx.uart.ie, 1, true)
                && final(self).rx.uart.ie == spec_set_bit(old(self).rx.uart.ie, 1, true),
            comm_type is TxRx ==> final(self).uart.ie == spec_set_bit(
                spec_set_bit(old(self).uart.ie, 0, true), 1, true)
                && final(self).tx.uart.ie == spec_set_bit(
                spec_set_bit(old(self).tx.uart.ie, 0, true), 1, true)
                && final(self).rx.uart.ie == spec_set_bit(
                spec_set_bit(old(self).rx.uart.ie, 0, true), 1, true),
    {
        match comm_type {
            CommType::Tx => {
                self.tx.enable_interrupt();
                self.uart.ie = set_bit(self.uart.ie, 0, true);
                self.rx.uart.ie = set_bit(self.rx.uart.ie, 0, true);
            },
            CommType::Rx => {
                self.rx.enable_interrupt();
                self.uart.ie = set_bit(self.uart.ie, 1, true);
                self.tx.uart.ie = set_bit(self.tx.uart.ie, 1, true);
            },
            CommType::TxRx => {
                self.tx.enable_interrupt();
                self.uart.ie = set_bit(self.uart.ie, 0, true);
                self.rx.uart.ie = set_bit(self.rx.uart.ie, 0, true);
                self.rx.enable_interrupt();
                self.uart.ie = set_bit(self.uart.ie, 1, true);
                self.tx.uart.ie = set_bit(self.tx.uart.ie, 1, true);
            },
        }
    }

    /// Disable the watermark interrupt of the selected directions on every
    /// carried copy, preserving the other direction's bit.
    pub fn disable_interrupt(&mut self, comm_type: CommType)
        ensures
            final(self).uart.same_except_ie(old(self).uart),
            final(self).tx.uart.same_except_ie(old(self).tx.uart),
            final(self).rx.uart.same_except_ie(old(self).rx.uart),
            final(self).tx.pin == old(self).tx.pin,
            final(self).rx.pin == old(self).rx.pin,
            final(self).tx.source == old(self).tx.source,
            final(self).rx.source == old(self).rx.source,
            comm_type is Tx ==> final(self).uart.ie == spec_set_bit(old(self).uart.ie, 0, false)
                && final(self).tx.uart.ie == spec_set_bit(old(self).tx.uart.ie, 0, false)
                && final(self).rx.uart.ie == spec_set_bit(old(self).rx.uart.ie, 0, false),
            comm_type is Rx ==> final(self).uart.ie == spec_set_bit(old(self).uart.ie, 1, false)
                && final(self).tx.uart.ie == spec_set_bit(old(self).tx.uart.ie, 1, false)
                && final(self).rx.uart.ie == spec_set_bit(old(self).rx.uart.ie, 1, false),
            comm_type is TxRx ==> final(self).uart.ie == spec_set_bit(
                spec_set_bit(old(self).uart.ie, 0, false), 1, false)
                && final(self).tx.uart.ie == spec_set_bit(
                spec_set_bit(old(self).tx.uart.ie, 0, false), 1, false)
                && final(self).rx.uart.ie == spec_set_bit(
                spec_set_bit(old(self).rx.uart.ie, 0, false), 1, false),
    {
        match comm_type {
            CommType::Tx => {
                self.tx.disable_interrupt();
                self.uart.ie = set_bit(self.uart.ie, 0, false);
                self.rx.uart.ie = set_bit(self.rx.uart.ie, 0, false);
            },
            CommType::Rx => {
                self.rx.disable_interrupt();
                self.uart.ie = set_bit(self.uart.ie, 1, false);
                self.tx.uart.ie = set_bit(self.tx.uart.ie, 1, false);
            },
            CommType::TxRx => {
                self.tx.disable_interrupt();
                self.uart.ie = set_bit(self.uart.ie, 0, false);
                self.rx.uart.ie = set_bit(self.rx.uart.ie, 0, false);
                self.rx.disable_interrupt();
                self.uart.ie = set_bit(self.uart.ie, 1, false);
                self.tx.uart.ie = set_bit(self.tx.uart.ie, 1, false);
            },
        }
    }

    /// Change the watermark level of the selected directions on every
    /// carried copy, preserving the enable and stop-bit fields.
    pub fn set_watermark(&mut self, comm_type: CommType, watermark: WatermarkValue)
        ensures
            final(self).uart.same_except_ctrl(old(self).uart),
            final(self).tx.uart.same_except_ctrl(old(self).tx.uart),
            final(self).rx.uart.same_except_ctrl(old(self).rx.uart),
            final(self).tx.pin == old(self).tx.pin,
            final(self).rx.pin == old(self).rx.pin,
            final(self).tx.source == old(self).tx.source,
            final(self).rx.source == old(self).rx.source,
            comm_type is Tx ==> final(self).uart.txctrl == spec_set_field(
                old(self).uart.txctrl, 16, 7, watermark.spec_value() as u32)
                && final(self).tx.uart.txctrl == spec_set_field(
                old(self).tx.uart.txctrl, 16, 7, watermark.spec_value() as u32)
                && final(self).rx.uart.txctrl == spec_set_field(
                old(self).rx.uart.txctrl, 16, 7, watermark.spec_value() as u32)
                && final(self).uart.rxctrl == old(self).uart.rxctrl
                && final(self).tx.uart.rxctrl == old(self).tx.uart.rxctrl
                && final(self).rx.uart.rxctrl == old(self).rx.uart.rxctrl,
            comm_type is Rx ==> final(self).uart.rxctrl == spec_set_field(
                old(self).uart.rxctrl, 16, 7, watermark.spec_value() as u32)
                && final(self).tx.uart.rxctrl == spec_set_field(
                old(self).tx.uart.rxctrl, 16, 7, watermark.spec_value() as u32)
                && final(self).rx.uart.rxctrl == spec_set_field(
                old(self).rx.uart.rxctrl, 16, 7, watermark.spec_value() as u32)
                && final(self).uart.txctrl == old(self).uart.txctrl
                && final(self).tx.uart.txctrl == old(self).tx.uart.txctrl
                && final(self).rx.uart.txctrl == old(self).rx.uart.txctrl,
            comm_type is TxRx ==> final(self).uart.txctrl == spec_set_field(
                old(self).uart.txctrl, 16, 7, watermark.spec_value() as u32)
                && final(self).tx.uart.txctrl == spec_set_field(
                old(self).tx.uart.txctrl, 16, 7, watermark.spec_value() as u32)
                && final(self).rx.uart.txctrl == spec_set_field(
                old(self).rx.uart.txctrl, 16, 7, watermark.spec_value() as u32)
                && final(self).uart.rxctrl == spec_set_field(
                old(self).uart.rxctrl, 16, 7, watermark.spec_value() as u32)
                && final(self).tx.uart.rxctrl == spec_set_field(
                old(self).tx.uart.rxctrl, 16, 7, watermark.spec_value() as u32)
                && final(self).rx.uart.rxctrl == spec_set_field(
                old(self).rx.uart.rxctrl, 16, 7, watermark.spec_value() as u32),
    {
        let v = watermark.value() as u32;
        match comm_type {
            CommType::Tx => {
                self.tx.set_watermark(watermark);
                self.uart.txctrl = set_field(self.uart.txctrl, 16, 7, v);
                self.rx.uart.txctrl = set_field(self.rx.uart.txctrl, 16, 7, v);
            },
            CommType::Rx => {
                self.rx.set_watermark(watermark);
                self.uart.rxctrl = set_field(self.uart.rxctrl, 16, 7, v);
                self.tx.uart.rxctrl = set_field(self.tx.uart.rxctrl, 16, 7, v);
            },
            CommType::TxRx => {
                self.tx.set_watermark(watermark);
                self.uart.txctrl = set_field(self.uart.txctrl, 16, 7, v);
                self.rx.uart.txctrl = set_field(self.rx.uart.txctrl, 16, 7, v);
                self.rx.set_watermark(watermark);
                self.uart.rxctrl = set_field(self.uart.rxctrl, 16, 7, v);
                self.tx.uart.rxctrl = set_field(self.tx.uart.rxctrl, 16, 7, v);
            },
        }
    }

    /// Get the watermark levels as (transmit, receive).
    pub fn get_watermarks(&self) -> (r: (u8, u8))
        ensures
            r.0 == spec_get_field(self.tx.uart.txctrl, 16, 7) as u8,
            r.1 == spec_get_field(self.rx.uart.rxctrl, 16, 7) as u8,
    {
        (self.tx.get_watermark(), self.rx.get_watermark())
    }

    /// Check if the watermark interrupt is enabled for the selected
    /// directions; `TxRx` requires both.
    pub fn is_interrupt_enabled(&self, comm_type: CommType) -> (r: bool)
        ensures
            comm_type is Tx ==> r == bit_is(self.tx.uart.ie, 0),
            comm_type is Rx ==> r == bit_is(self.rx.uart.ie, 1),
            comm_type is TxRx ==> r == (bit_is(self.tx.uart.ie, 0) && bit_is(self.rx.uart.ie, 1)),
    {
        match comm_type {
            CommType::Tx => self.tx.is_interrupt_enabled(),
            CommType::Rx => self.rx.is_interrupt_enabled(),
            CommType::TxRx => self.tx.is_interrupt_enabled() && self.rx.is_interrupt_enabled(),
        }
    }

    /// Check if the watermark condition holds for the selected directions;
    /// `TxRx` requires both.
    pub fn is_interrupt_pending(&self, comm_type: CommType) -> (r: bool)
        ensures
            comm_type is Tx ==> r == self.tx.uart.txwm_pending(),
            comm_type is Rx ==> r == self.rx.uart.rxwm_pending(),
            comm_type is TxRx ==> r == (self.tx.uart.txwm_pending() && self.rx.uart.rxwm_pending()),
    {
        match comm_type {
            CommType::Tx => self.tx.is_interrupt_pending(),
            CommType::Rx => self.rx.is_interrupt_pending(),
            CommType::TxRx => self.tx.is_interrupt_pending() && self.rx.is_interrupt_pending(),
        }
    }

    /// Disables this UART's external interrupt source.
    pub fn disable_exti(&self, plic: &mut Plic)
        ensures
            !bit_is(final(plic).enables, self.tx.source.spec_index()),
            forall|j: u32|
                j < 32 && j != self.tx.source.spec_index() ==> bit_is(final(plic).enables, j)
                    == bit_is(old(plic).enables, j),
            final(plic).priorities@ == old(plic).priorities@,
    {
        self.tx.disable_exti(plic);
    }

    /// Enables this UART's external interrupt source.
    pub fn enable_exti(&self, plic: &mut Plic)
        ensures
            bit_is(final(plic).enables, self.tx.source.spec_index()),
            forall|j: u32|
                j < 32 && j != self.tx.source.spec_index() ==> bit_is(final(plic).enables, j)
                    == bit_is(old(plic).enables, j),
            final(plic).priorities@ == old(plic).priorities@,
    {
        self.tx.enable_exti(plic);
    }

    /// Reports whether this UART's external interrupt source is enabled.
    pub fn is_exti_enabled(&self, plic: &Plic) -> (r: bool)
        ensures
            r == bit_is(plic.enables, self.tx.source.spec_index()),
    {
        self.tx.is_exti_enabled(plic)
    }

    /// Sets this UART's external interrupt source priority.
    pub fn set_exti_priority(&self, plic: &mut Plic, priority: u8)
        requires
            old(plic).wf(),
            priority <= 7,
        ensures
            final(plic).wf(),
            final(plic).priorities@ == old(plic).priorities@.update(
                self.tx.source.spec_index() as int,
                priority,
            ),
            final(plic).enables == old(plic).enables,
    {
        self.tx.set_exti_priority(plic, priority);
    }

    /// Reports this UART's external interrupt source priority.
    pub fn get_exti_priority(&self, plic: &Plic) -> (r: u8)
        requires
            plic.wf(),
        ensures
            r == plic.priorities@[self.tx.source.spec_index() as int],
    {
        self.tx.get_exti_priority(plic)
    }
}

/// Services a UART interrupt: for each direction whose watermark interrupt
/// is enabled, takes that direction's waiter out of its slot for the caller
/// to resume, then disables that direction's enable bit while preserving the
/// other's -- the level-triggered source stays masked until a new wait
/// registers.
///
/// Returns the handles to resume as (receive, transmit).
pub fn on_irq(uart: &mut Uart, wakers: &mut WakerPair) -> (r: (Option<u64>, Option<u64>))
    ensures
        final(uart).fifos_unchanged(*old(uart)),
        final(uart).txctrl == old(uart).txctrl,
        final(uart).rxctrl == old(uart).rxctrl,
        final(uart).div == old(uart).div,
        ({
            let rx_fire = bit_is(old(uart).ie, 1);
            let tx_fire = bit_is(old(uart).ie, 0);
            &&& r.0 == (if rx_fire {
                old(wakers).rx.handle
            } else {
                Option::<u64>::None
            })
            &&& r.1 == (if tx_fire {
                old(wakers).tx.handle
            } else {
                Option::<u64>::None
            })
            &&& final(wakers).rx.handle == (if rx_fire {
                Option::<u64>::None
            } else {
                old(wakers).rx.handle
            })
            &&& final(wakers).tx.handle == (if tx_fire {
                Option::<u64>::None
            } else {
                old(wakers).tx.handle
            })
            &&& !bit_is(final(uart).ie, 0)
            &&& !bit_is(final(uart).ie, 1)
        }),
{
    let ghost ie0 = uart.ie;
    let mut rx_handle: Option<u64> = None;
    let mut tx_handle: Option<u64> = None;
    if get_bit(uart.ie, 1) {
        rx_handle = wakers.rx.take();
        uart.ie = set_bit(uart.ie, 1, false);
        proof {
            crate::bitfield::lemma_set_bit(ie0, 1, false, 0);
            crate::bitfield::lemma_set_bit(ie0, 1, false, 1);
        }
    }
    let ghost ie1 = uart.ie;
    if get_bit(uart.ie, 0) {
        tx_handle = wakers.tx.take();
        uart.ie = set_bit(uart.ie, 0, false);
        proof {
            crate::bitfield::lemma_set_bit(ie1, 0, false, 0);
            crate::bitfield::lemma_set_bit(ie1, 0, false, 1);
        }
    }
    (rx_handle, tx_handle)
}

} // verus!
