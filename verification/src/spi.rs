//! SPI bus: register model, full-duplex FIFO pair, and byte-level transfers.
//!
//! The controller is modelled by `Qspi`: plain register words, the two
//! eight-deep FIFOs, and the serial line itself -- `mosi` logs every byte
//! shifted out, `miso` scripts the bytes the attached device answers with.
//! The `shift` operation is the controller moving one byte over the wire;
//! tests and the transfer loops drive it explicitly.

use crate::bitfield::bit_is;
use crate::bitfield::get_bit;
use crate::bitfield::get_field;
use crate::bitfield::set_bit;
use crate::bitfield::spec_get_field;
use crate::bitfield::spec_set_bit;
use crate::plic::ExternalInterrupt;
use crate::plic::Plic;
use crate::waker::WakerPair;
use vstd::prelude::*;

verus! {

/// Depth of each hardware FIFO.
pub const SPI_FIFO_DEPTH: usize = 8;

/// Chip-select mode: assert automatically around each frame.
pub const CSMODE_AUTO: u32 = 0;

/// Chip-select mode: hold the selection between frames.
pub const CSMODE_HOLD: u32 = 2;

/// Chip-select mode: chip-select lines are not driven.
pub const CSMODE_OFF: u32 = 3;

/// Select between SPI transmission or reception for an operation.
///
/// In the methods that check whether an interrupt is enabled or pending,
/// `TxRx` acts as an any-of over the `Tx` and `Rx` conditions.
#[derive(Clone, Copy, Debug, PartialEq, Eq, Structural)]
pub enum CommType {
    /// Transmission.
    Tx,
    /// Reception.
    Rx,
    /// Both transmission and reception.
    TxRx,
}

/// Watermark values limited from 0 to 7.
#[derive(Clone, Copy, Debug, PartialEq, Eq, Structural)]
pub enum WatermarkValue {
    /// Watermark level 0.
    W0,
    /// Watermark level 1.
    W1,
    /// Watermark level 2.
    W2,
    /// Watermark level 3.
    W3,
    /// Watermark level 4.
    W4,
    /// Watermark level 5.
    W5,
    /// Watermark level 6.
    W6,
    /// Watermark level 7.
    W7,
}

impl WatermarkValue {
    /// The level as a number.
    pub open spec fn spec_value(self) -> u8 {
        match self {
            WatermarkValue::W0 => 0,
            WatermarkValue::W1 => 1,
            WatermarkValue::W2 => 2,
            WatermarkValue::W3 => 3,
            WatermarkValue::W4 => 4,
            WatermarkValue::W5 => 5,
            WatermarkValue::W6 => 6,
            WatermarkValue::W7 => 7,
        }
    }

    /// The level as a number, at most 7.
    pub fn value(self) -> (r: u8)
        ensures
            r == self.spec_value(),
            r <= 7,
    {
        match self {
            WatermarkValue::W0 => 0,
            WatermarkValue::W1 => 1,
            WatermarkValue::W2 => 2,
            WatermarkValue::W3 => 3,
            WatermarkValue::W4 => 4,
            WatermarkValue::W5 => 5,
            WatermarkValue::W6 => 6,
            WatermarkValue::W7 => 7,
        }
    }

    /// The watermark for a level, or an error for a number above 7.
    pub fn try_from(value: u8) -> (r: Result<WatermarkValue, ()>)
        ensures
            value <= 7 ==> (r matches Ok(w) && w.spec_value() == value),
            value > 7 ==> r is Err,
    {
        match value {
            0 => Ok(WatermarkValue::W0),
            1 => Ok(WatermarkValue::W1),
            2 => Ok(WatermarkValue::W2),
            3 => Ok(WatermarkValue::W3),
            4 => Ok(WatermarkValue::W4),
            5 => Ok(WatermarkValue::W5),
            6 => Ok(WatermarkValue::W6),
            7 => Ok(WatermarkValue::W7),
            _ => Err(()),
        }
    }
}

/// Static configuration applied to the bus before a device transaction.
#[derive(Clone, Copy, Debug, PartialEq, Eq, Structural)]
pub struct SpiConfig {
    /// Serial clock divisor (12 bits are used).
    pub clock_divisor: u16,
    /// Chip-select mode, one of the `CSMODE_` values.
    pub cs_mode: u32,
    /// Capture data on the second clock transition.
    pub phase: bool,
    /// Clock idles high.
    pub polarity: bool,
    /// Transmit watermark level.
    pub txmark: u8,
    /// Receive watermark level.
    pub rxmark: u8,
    /// Delay between chip-select assert and first clock edge.
    pub cssck: u8,
    /// Delay between last clock edge and chip-select de-assert.
    pub sckcs: u8,
    /// Delay between chip-select re-asserts.
    pub intercs: u8,
    /// Intra-frame delay without chip-select re-asserts.
    pub interxfr: u8,
}

/// The SPI controller: register words, the two FIFOs, and the serial line.
pub struct Qspi {
    /// Interrupt enable register: transmit watermark bit 0, receive bit 1.
    pub ie: u32,
    /// Transmit watermark register (3-bit field at bit 0).
    pub txmark: u32,
    /// Receive watermark register (3-bit field at bit 0).
    pub rxmark: u32,
    /// Chip-select mode register (2-bit field at bit 0).
    pub csmode: u32,
    /// Serial clock divisor register (12-bit field at bit 0).
    pub sckdiv: u32,
    /// Chip-select index register.
    pub csid: u32,
    /// Chip-select default-polarity register.
    pub csdef: u32,
    /// Clock mode register: phase bit 0, polarity bit 1.
    pub sckmode: u32,
    /// Frame format register.
    pub fmt: u32,
    /// Delay register 0: cssck at bit 0, sckcs at bit 16.
    pub delay0: u32,
    /// Delay register 1: intercs at bit 0, interxfr at bit 16.
    pub delay1: u32,
    /// Transmit FIFO, at most `SPI_FIFO_DEPTH` bytes.
    pub txq: Vec<u8>,
    /// Receive FIFO, at most `SPI_FIFO_DEPTH` bytes.
    pub rxq: Vec<u8>,
    /// Bytes the attached device will answer with, front first.
    pub miso: Vec<u8>,
    /// Log of every byte shifted out on the line, oldest first.
    pub mosi: Vec<u8>,
    /// Set when an incoming byte was lost to a full receive FIFO.
    pub overrun: bool,
}

/// The byte the device answers with at the front of the scripted line:
/// the next scripted byte, or zero once the script is exhausted.
pub open spec fn spec_response(miso: Seq<u8>) -> u8 {
    if miso.len() > 0 {
        miso[0]
    } else {
        0
    }
}

impl Qspi {
    /// Both FIFOs fit the hardware depth.
    pub open spec fn wf(self) -> bool {
        self.txq@.len() <= SPI_FIFO_DEPTH && self.rxq@.len() <= SPI_FIFO_DEPTH
    }

    /// The transmit watermark condition: fewer queued bytes than the mark.
    pub open spec fn txwm_pending(self) -> bool {
        (self.txq@.len() as u32) < spec_get_field(self.txmark, 0, 7)
    }

    /// The receive watermark condition: more queued bytes than the mark.
    pub open spec fn rxwm_pending(self) -> bool {
        (self.rxq@.len() as u32) > spec_get_field(self.rxmark, 0, 7)
    }

    /// Everything but the FIFOs, the line, and the overrun flag is unchanged.
    pub open spec fn regs_unchanged(self, other: Qspi) -> bool {
        self.ie == other.ie && self.txmark == other.txmark && self.rxmark == other.rxmark
            && self.csmode == other.csmode && self.sckdiv == other.sckdiv && self.csid
            == other.csid && self.csdef == other.csdef && self.sckmode == other.sckmode
            && self.fmt == other.fmt && self.delay0 == other.delay0 && self.delay1
            == other.delay1
    }

    /// A controller with empty FIFOs, an idle line, and zeroed registers,
    /// scripted to answer with the given byte sequence.
    pub fn new(miso: Vec<u8>) -> (q: Qspi)
        ensures
            q.wf(),
            q.ie == 0u32,
            q.txmark == 0u32,
            q.rxmark == 0u32,
            q.csmode == 0u32,
            q.txq@.len() == 0,
            q.rxq@.len() == 0,
            q.miso@ == miso@,
            q.mosi@.len() == 0,
            !q.overrun,
    {
        Qspi {
            ie: 0,
            txmark: 0,
            rxmark: 0,
            csmode: 0,
            sckdiv: 0,
            csid: 0,
            csdef: 0,
            sckmode: 0,
            fmt: 0,
            delay0: 0,
            delay1: 0,
            txq: Vec::new(),
            rxq: Vec::new(),
            miso,
            mosi: Vec::new(),
            overrun: false,
        }
    }

    /// The controller moves one byte over the wire: the oldest transmit byte
    /// leaves on the line, and the device's answer enters the receive FIFO --
    /// or is lost when that FIFO is full, which raises the overrun flag.
    pub fn shift(&mut self)
        requires
            old(self).txq@.len() > 0,
        ensures
            final(self).regs_unchanged(*old(self)),
            final(self).mosi@ == old(self).mosi@.push(old(self).txq@[0]),
            final(self).txq@ == old(self).txq@.subrange(1, old(self).txq@.len() as int),
            old(self).miso@.len() > 0 ==> final(self).miso@ == old(self).miso@.subrange(
                1,
                old(self).miso@.len() as int,
            ),
            old(self).miso@.len() == 0 ==> final(self).miso@ == old(self).miso@,
            old(self).rxq@.len() < SPI_FIFO_DEPTH ==> final(self).rxq@ == old(self).rxq@.push(
                spec_response(old(self).miso@),
            ) && final(self).overrun == old(self).overrun,
            old(self).rxq@.len() >= SPI_FIFO_DEPTH ==> final(self).rxq@ == old(self).rxq@
                && final(self).overrun,
    {
        let out = self.txq.remove(0);
        self.mosi.push(out);
        let resp: u8 = if self.miso.len() > 0 {
            self.miso.remove(0)
        } else {
            0
        };
        if self.rxq.len() < SPI_FIFO_DEPTH {
            self.rxq.push(resp);
        } else {
            self.overrun = true;
        }
    }
}

/// SPI bus abstraction: the controller together with its pins.
pub struct SpiBus<PINS> {
    /// The controller model.
    pub spi: Qspi,
    /// The pins given to the bus at construction.
    pub pins: PINS,
}

impl<PINS> SpiBus<PINS> {
    /// Construct the bus from a controller and its pins.
    pub fn new(spi: Qspi, pins: PINS) -> (r: SpiBus<PINS>)
        ensures
            r.spi == spi,
    {
        SpiBus { spi, pins }
    }

    /// Releases the SPI peripheral and associated pins, both unchanged.
    pub fn release(self) -> (r: (Qspi, PINS))
        ensures
            r.0 == self.spi,
            r.1 == self.pins,
    {
        (self.spi, self.pins)
    }

    /// Enable the selected interrupt bits in the control register, leaving
    /// the other direction's enable bit as it was.
    pub fn enable_interrupt(&mut self, comm_type: CommType)
        ensures
            final(self).spi.regs_unchanged_but_ie(old(self).spi),
            comm_type is Tx ==> final(self).spi.ie == spec_set_bit(old(self).spi.ie, 0, true),
            comm_type is Rx ==> final(self).spi.ie == spec_set_bit(old(self).spi.ie, 1, true),
            comm_type is TxRx ==> final(self).spi.ie == 3u32,
    {
        match comm_type {
            CommType::Tx => {
                self.spi.ie = set_bit(self.spi.ie, 0, true);
            },
            CommType::Rx => {
                self.spi.ie = set_bit(self.spi.ie, 1, true);
            },
            CommType::TxRx => {
                self.spi.ie = 3;
            },
        }
    }

    /// Disable the selected interrupt bits in the control register, leaving
    /// the other direction's enable bit as it was.
    pub fn disable_interrupt(&mut self, comm_type: CommType)
        ensures
            final(self).spi.regs_unchanged_but_ie(old(self).spi),
            comm_type is Tx ==> final(self).spi.ie == spec_set_bit(old(self).spi.ie, 0, false),
            comm_type is Rx ==> final(self).spi.ie == spec_set_bit(old(self).spi.ie, 1, false),
            comm_type is TxRx ==> final(self).spi.ie == 0u32,
    {
        match comm_type {
            CommType::Tx => {
                self.spi.ie = set_bit(self.spi.ie, 0, false);
            },
            CommType::Rx => {
                self.spi.ie = set_bit(self.spi.ie, 1, false);
            },
            CommType::TxRx => {
                self.spi.ie = 0;
            },
        }
    }

    /// Change the watermark register of the selected directions.
    pub fn set_watermark(&mut self, comm_type: CommType, watermark: WatermarkValue)
        ensures
            final(self).spi.fifos_unchanged(old(self).spi),
            final(self).spi.ie == old(self).spi.ie,
            final(self).spi.regs_unchanged_but_ie_and_marks(old(self).spi),
            comm_type is Tx ==> final(self).spi.txmark == watermark.spec_value() as u32
                && final(self).spi.rxmark == old(self).spi.rxmark,
            comm_type is Rx ==> final(self).spi.rxmark == watermark.spec_value() as u32
                && final(self).spi.txmark == old(self).spi.txmark,
            comm_type is TxRx ==> final(self).spi.txmark == watermark.spec_value() as u32
                && final(self).spi.rxmark == watermark.spec_value() as u32,
    {
        let v = watermark.value() as u32;
        match comm_type {
            CommType::Tx => {
                self.spi.txmark = v;
            },
            CommType::Rx => {
                self.spi.rxmark = v;
            },
            CommType::TxRx => {
                self.spi.txmark = v;
                self.spi.rxmark = v;
            },
        }
    }

    /// Get the watermark register values as (transmit, receive).
    pub fn get_watermarks(&self) -> (r: (u8, u8))
        ensures
            r.0 == spec_get_field(self.spi.txmark, 0, 7) as u8,
            r.1 == spec_get_field(self.spi.rxmark, 0, 7) as u8,
    {
        (get_field(self.spi.txmark, 0, 7) as u8, get_field(self.spi.rxmark, 0, 7) as u8)
    }

    /// Check if the interrupt is enabled for the given direction; `TxRx` is
    /// true when either direction is enabled.
    pub fn is_interrupt_enabled(&self, comm_type: CommType) -> (r: bool)
        ensures
            comm_type is Tx ==> r == bit_is(self.spi.ie, 0),
            comm_type is Rx ==> r == bit_is(self.spi.ie, 1),
            comm_type is TxRx ==> r == (bit_is(self.spi.ie, 0) || bit_is(self.spi.ie, 1)),
    {
        match comm_type {
            CommType::Tx => get_bit(self.spi.ie, 0),
            CommType::Rx => get_bit(self.spi.ie, 1),
            CommType::TxRx => get_bit(self.spi.ie, 0) || get_bit(self.spi.ie, 1),
        }
    }

    /// Check if the watermark condition holds for the given direction;
    /// `TxRx` is true when either condition holds.
    pub fn is_interrupt_pending(&self, comm_type: CommType) -> (r: bool)
        ensures
            comm_type is Tx ==> r == self.spi.txwm_pending(),
            comm_type is Rx ==> r == self.spi.rxwm_pending(),
            comm_type is TxRx ==> r == (self.spi.txwm_pending() || self.spi.rxwm_pending()),
    {
        match comm_type {
            CommType::Tx => (self.spi.txq.len() as u32) < get_field(self.spi.txmark, 0, 7),
            CommType::Rx => (self.spi.rxq.len() as u32) > get_field(self.spi.rxmark, 0, 7),
            CommType::TxRx => {
                let tx = (self.spi.txq.len() as u32) < get_field(self.spi.txmark, 0, 7);
                let rx = (self.spi.rxq.len() as u32) > get_field(self.spi.rxmark, 0, 7);
                tx || rx
            },
        }
    }

    /// Enables this bus's external interrupt source in the interrupt
    /// controller.
    pub fn enable_exti(&self, plic: &mut Plic, source: ExternalInterrupt)
        ensures
            bit_is(final(plic).enables, source.spec_index()),
            forall|j: u32|
                j < 32 && j != source.spec_index() ==> bit_is(final(plic).enables, j) == bit_is(
                    old(plic).enables,
                    j,
                ),
            final(plic).priorities@ == old(plic).priorities@,
    {
        plic.enable(source);
    }

    /// Disables this bus's external interrupt source in the interrupt
    /// controller.
    pub fn disable_exti(&self, plic: &mut Plic, source: ExternalInterrupt)
        ensures
            !bit_is(final(plic).enables, source.spec_index()),
            forall|j: u32|
                j < 32 && j != source.spec_index() ==> bit_is(final(plic).enables, j) == bit_is(
                    old(plic).enables,
                    j,
                ),
            final(plic).priorities@ == old(plic).priorities@,
    {
        plic.disable(source);
    }

    /// Reports whether this bus's external interrupt source is enabled.
    pub fn is_exti_enabled(&self, plic: &Plic, source: ExternalInterrupt) -> (r: bool)
        ensures
            r == bit_is(plic.enables, source.spec_index()),
    {
        plic.is_enabled(source)
    }

    /// Sets this bus's external interrupt source priority.
    pub fn set_exti_priority(&self, plic: &mut Plic, source: ExternalInterrupt, priority: u8)
        requires
            old(plic).wf(),
            priority <= 7,
        ensures
            final(plic).wf(),
            final(plic).priorities@ == old(plic).priorities@.update(
                source.spec_index() as int,
                priority,
            ),
            final(plic).enables == old(plic).enables,
    {
        plic.set_priority(source, priority);
    }

    /// Reports this bus's external interrupt source priority.
    pub fn get_exti_priority(&self, plic: &Plic, source: ExternalInterrupt) -> (r: u8)
        requires
            plic.wf(),
        ensures
            r == plic.priorities@[source.spec_index() as int],
    {
        plic.get_priority(source)
    }

    /// Starts a frame by holding chip-select, unless the mode is off.
    pub fn start_frame(&mut self)
        ensures
            final(self).spi.fifos_unchanged(old(self).spi),
            final(self).spi.regs_unchanged_but_csmode(old(self).spi),
            spec_get_field(old(self).spi.csmode, 0, 3) == CSMODE_OFF ==> final(self).spi.csmode
                == old(self).spi.csmode,
            spec_get_field(old(self).spi.csmode, 0, 3) != CSMODE_OFF ==> final(self).spi.csmode
                == CSMODE_HOLD,
    {
        if get_field(self.spi.csmode, 0, 3) != CSMODE_OFF {
            self.spi.csmode = CSMODE_HOLD;
        }
    }

    /// Finishes a frame by releasing chip-select to automatic mode, unless
    /// the mode is off. Chip-select is released on every exit path of a
    /// device transaction, including early error returns.
    pub fn end_frame(&mut self)
        ensures
            final(self).spi.fifos_unchanged(old(self).spi),
            final(self).spi.regs_unchanged_but_csmode(old(self).spi),
            spec_get_field(old(self).spi.csmode, 0, 3) == CSMODE_OFF ==> final(self).spi.csmode
                == old(self).spi.csmode,
            spec_get_field(old(self).spi.csmode, 0, 3) != CSMODE_OFF ==> final(self).spi.csmode
                == CSMODE_AUTO,
    {
        if get_field(self.spi.csmode, 0, 3) != CSMODE_OFF {
            self.spi.csmode = CSMODE_AUTO;
        }
    }

    /// Reads a single byte from the receive FIFO, or nothing when it is
    /// empty and the caller would have to block.
    pub fn read_input(&mut self) -> (r: Option<u8>)
        ensures
            final(self).spi.regs_unchanged(old(self).spi),
            final(self).spi.txq@ == old(self).spi.txq@,
            final(self).spi.miso@ == old(self).spi.miso@,
            final(self).spi.mosi@ == old(self).spi.mosi@,
            final(self).spi.overrun == old(self).spi.overrun,
            r is None <==> old(self).spi.rxq@.len() == 0,
            r is None ==> final(self).spi.rxq@ == old(self).spi.rxq@,
            r matches Some(b) ==> b == old(self).spi.rxq@[0] && final(self).spi.rxq@ == old(self).spi.rxq@.subrange(1, old(self).spi.rxq@.len() as int),
    {
        if self.spi.rxq.len() == 0 {
            None
        } else {
            Some(self.spi.rxq.remove(0))
        }
    }

    /// Writes a single byte into the transmit FIFO, or reports that the FIFO
    /// is full and the caller would have to block.
    pub fn write_output(&mut self, word: u8) -> (accepted: bool)
        ensures
            final(self).spi.regs_unchanged(old(self).spi),
            final(self).spi.rxq@ == old(self).spi.rxq@,
            final(self).spi.miso@ == old(self).spi.miso@,
            final(self).spi.mosi@ == old(self).spi.mosi@,
            final(self).spi.overrun == old(self).spi.overrun,
            accepted <==> old(self).spi.txq@.len() < SPI_FIFO_DEPTH,
            accepted ==> final(self).spi.txq@ == old(self).spi.txq@.push(word),
            !accepted ==> final(self).spi.txq@ == old(self).spi.txq@,
    {
        if self.spi.txq.len() < SPI_FIFO_DEPTH {
            self.spi.txq.push(word);
            true
        } else {
            false
        }
    }

    /// Discards everything in the receive FIFO, leaving it empty. Data in
    /// the FIFO, if any, is lost.
    pub fn wait_for_rxfifo(&mut self)
        ensures
            final(self).spi.regs_unchanged(old(self).spi),
            final(self).spi.txq@ == old(self).spi.txq@,
            final(self).spi.miso@ == old(self).spi.miso@,
            final(self).spi.mosi@ == old(self).spi.mosi@,
            final(self).spi.overrun == old(self).spi.overrun,
            final(self).spi.rxq@.len() == 0,
    {
        loop
            invariant
                self.spi.regs_unchanged(old(self).spi),
                self.spi.txq@ == old(self).spi.txq@,
                self.spi.miso@ == old(self).spi.miso@,
                self.spi.mosi@ == old(self).spi.mosi@,
                self.spi.overrun == old(self).spi.overrun,
            ensures
                self.spi.rxq@.len() == 0,
            decreases self.spi.rxq@.len(),
        {
            match self.read_input() {
                Some(_) => {},
                None => {
                    break;
                },
            }
        }
    }
}

/// The first `n` values of `s`, padded with zeros once `s` runs out.
///
/// Applied to the device script, this is what the device answers over `n`
/// shifts; applied to an outgoing buffer, it is what a transfer of length
/// `n` puts on the line.
pub open spec fn prefix_padded(s: Seq<u8>, n: int) -> Seq<u8> {
    Seq::new(
        n as nat,
        |i: int|
            if i < s.len() {
                s[i]
            } else {
                0
            },
    )
}

/// The device script after `k` answers have been consumed.
pub open spec fn device_rest(s: Seq<u8>, k: int) -> Seq<u8> {
    if k <= s.len() {
        s.subrange(k, s.len() as int)
    } else {
        Seq::empty()
    }
}

impl<PINS> SpiBus<PINS> {
    /// Exchanges one byte with the device in lockstep: writes it, lets the
    /// controller shift it out, and reads the device's answer.
    fn exchange_byte(&mut self, byte: u8) -> (r: u8)
        requires
            old(self).spi.txq@.len() == 0,
            old(self).spi.rxq@.len() == 0,
        ensures
            final(self).spi.regs_unchanged(old(self).spi),
            final(self).spi.overrun == old(self).spi.overrun,
            final(self).spi.txq@.len() == 0,
            final(self).spi.rxq@.len() == 0,
            final(self).spi.mosi@ == old(self).spi.mosi@.push(byte),
            final(self).spi.miso@ == device_rest(old(self).spi.miso@, 1),
            r == spec_response(old(self).spi.miso@),
    {
        let _ = self.write_output(byte);
        self.shift_line();
        self.read_input().unwrap()
    }

    /// Forwards to the controller's line shift.
    fn shift_line(&mut self)
        requires
            old(self).spi.txq@.len() > 0,
        ensures
            final(self).spi.regs_unchanged(old(self).spi),
            final(self).spi.mosi@ == old(self).spi.mosi@.push(old(self).spi.txq@[0]),
            final(self).spi.txq@ == old(self).spi.txq@.subrange(
                1,
                old(self).spi.txq@.len() as int,
            ),
            final(self).spi.miso@ == device_rest(old(self).spi.miso@, 1),
            old(self).spi.rxq@.len() < SPI_FIFO_DEPTH ==> final(self).spi.rxq@ == old(self).spi.rxq@.push(spec_response(old(self).spi.miso@)) && final(self).spi.overrun
                == old(self).spi.overrun,
            old(self).spi.rxq@.len() >= SPI_FIFO_DEPTH ==> final(self).spi.rxq@ == old(self).spi.rxq@ && final(self).spi.overrun,
    {
        proof {
            if old(self).spi.miso@.len() == 0 {
                assert(device_rest(old(self).spi.miso@, 1) =~= old(self).spi.miso@);
            }
        }
        self.spi.shift();
    }

    /// Reads `len` bytes from the device, transmitting the zero pad byte for
    /// each: the device's answers, in order, padded with zeros once its
    /// script runs out.
    ///
    /// Sequential one-for-one pacing: each byte is written, shifted and read
    /// before the next, so the in-flight window never exceeds one byte. The
    /// transmit FIFO must be idle, as the frame discipline guarantees.
    pub fn read(&mut self, len: usize) -> (r: Vec<u8>)
        requires
            old(self).spi.txq@.len() == 0,
        ensures
            final(self).spi.regs_unchanged(old(self).spi),
            final(self).spi.overrun == old(self).spi.overrun,
            final(self).spi.txq@.len() == 0,
            final(self).spi.rxq@.len() == 0,
            r@ == prefix_padded(old(self).spi.miso@, len as int),
            final(self).spi.mosi@ == old(self).spi.mosi@ + prefix_padded(
                Seq::<u8>::empty(),
                len as int,
            ),
            final(self).spi.miso@ == device_rest(old(self).spi.miso@, len as int),
    {
        self.wait_for_rxfifo();
        let mut r: Vec<u8> = Vec::new();
        let mut i: usize = 0;
        while i < len
            invariant
                i <= len,
                self.spi.regs_unchanged(old(self).spi),
                self.spi.overrun == old(self).spi.overrun,
                self.spi.txq@.len() == 0,
                self.spi.rxq@.len() == 0,
                r@ == prefix_padded(old(self).spi.miso@, i as int),
                self.spi.mosi@ == old(self).spi.mosi@ + prefix_padded(
                    Seq::<u8>::empty(),
                    i as int,
                ),
                self.spi.miso@ == device_rest(old(self).spi.miso@, i as int),
            decreases len - i,
        {
            let ghost miso0 = old(self).spi.miso@;
            let b = self.exchange_byte(0);
            r.push(b);
            proof {
                lemma_exchange_step(miso0, i as int);
                assert(r@ =~= prefix_padded(miso0, i + 1 as int));
                assert(self.spi.mosi@ =~= old(self).spi.mosi@ + prefix_padded(
                    Seq::<u8>::empty(),
                    i + 1 as int,
                ));
            }
            i = i + 1;
        }
        r
    }

    /// Writes `words` to the device in sequential one-for-one pacing,
    /// discarding the device's answers. Every byte reaches the line in
    /// order. The transmit FIFO must be idle.
    pub fn write(&mut self, words: &Vec<u8>) -> (count: usize)
        requires
            old(self).spi.txq@.len() == 0,
        ensures
            count == words@.len(),
            final(self).spi.regs_unchanged(old(self).spi),
            final(self).spi.overrun == old(self).spi.overrun,
            final(self).spi.txq@.len() == 0,
            final(self).spi.rxq@.len() == 0,
            final(self).spi.mosi@ == old(self).spi.mosi@ + words@,
            final(self).spi.miso@ == device_rest(old(self).spi.miso@, words@.len() as int),
    {
        self.wait_for_rxfifo();
        let len = words.len();
        let mut i: usize = 0;
        while i < len
            invariant
                i <= len,
                len == words@.len(),
                self.spi.regs_unchanged(old(self).spi),
                self.spi.overrun == old(self).spi.overrun,
                self.spi.txq@.len() == 0,
                self.spi.rxq@.len() == 0,
                self.spi.mosi@ == old(self).spi.mosi@ + words@.subrange(0, i as int),
                self.spi.miso@ == device_rest(old(self).spi.miso@, i as int),
            decreases len - i,
        {
            let ghost miso0 = old(self).spi.miso@;
            let b = words[i];
            let _ = self.exchange_byte(b);
            proof {
                lemma_exchange_step(miso0, i as int);
                assert(self.spi.mosi@ =~= old(self).spi.mosi@ + words@.subrange(0, i + 1));
            }
            i = i + 1;
        }
        proof {
            assert(words@.subrange(0, len as int) =~= words@);
        }
        len
    }

    /// Full-duplex transfer: writes `write` padded with zeros up to the
    /// longer of the two lengths, and returns the first `read_len` of the
    /// device's answers. The transmit FIFO must be idle.
    pub fn transfer(&mut self, read_len: usize, write: &Vec<u8>) -> (r: Vec<u8>)
        requires
            old(self).spi.txq@.len() == 0,
        ensures
            final(self).spi.regs_unchanged(old(self).spi),
            final(self).spi.overrun == old(self).spi.overrun,
            final(self).spi.txq@.len() == 0,
            final(self).spi.rxq@.len() == 0,
            r@ == prefix_padded(old(self).spi.miso@, read_len as int),
            final(self).spi.mosi@ == old(self).spi.mosi@ + prefix_padded(
                write@,
                vstd::math::max(read_len as int, write@.len() as int),
            ),
            final(self).spi.miso@ == device_rest(
                old(self).spi.miso@,
                vstd::math::max(read_len as int, write@.len() as int),
            ),
    {
        self.wait_for_rxfifo();
        let max_len = if read_len > write.len() {
            read_len
        } else {
            write.len()
        };
        let mut r: Vec<u8> = Vec::new();
        let mut i: usize = 0;
        while i < max_len
            invariant
                i <= max_len,
                max_len == vstd::math::max(read_len as int, write@.len() as int),
                self.spi.regs_unchanged(old(self).spi),
                self.spi.overrun == old(self).spi.overrun,
                self.spi.txq@.len() == 0,
                self.spi.rxq@.len() == 0,
                r@ == prefix_padded(old(self).spi.miso@, vstd::math::min(i as int, read_len as int)),
                self.spi.mosi@ == old(self).spi.mosi@ + prefix_padded(write@, i as int),
                self.spi.miso@ == device_rest(old(self).spi.miso@, i as int),
            decreases max_len - i,
        {
            let ghost miso0 = old(self).spi.miso@;
            let b = if i < write.len() {
                write[i]
            } else {
                0
            };
            let data = self.exchange_byte(b);
            if i < read_len {
                r.push(data);
            }
            proof {
                lemma_exchange_step(miso0, i as int);
                assert(self.spi.mosi@ =~= old(self).spi.mosi@ + prefix_padded(write@, i + 1));
                assert(r@ =~= prefix_padded(miso0, vstd::math::min(i + 1, read_len as int)));
            }
            i = i + 1;
        }
        r
    }

    /// Full-duplex transfer in place: writes the buffer's bytes and replaces
    /// each with the device's answer for that position. The transmit FIFO
    /// must be idle.
    pub fn transfer_in_place(&mut self, words: &mut Vec<u8>)
        requires
            old(self).spi.txq@.len() == 0,
        ensures
            final(words)@.len() == old(words)@.len(),
            final(words)@ == prefix_padded(old(self).spi.miso@, old(words)@.len() as int),
            final(self).spi.regs_unchanged(old(self).spi),
            final(self).spi.overrun == old(self).spi.overrun,
            final(self).spi.txq@.len() == 0,
            final(self).spi.rxq@.len() == 0,
            final(self).spi.mosi@ == old(self).spi.mosi@ + old(words)@,
            final(self).spi.miso@ == device_rest(old(self).spi.miso@, old(words)@.len() as int),
    {
        self.wait_for_rxfifo();
        let len = words.len();
        let mut i: usize = 0;
        while i < len
            invariant
                i <= len,
                len == words@.len() && len == old(words)@.len(),
                self.spi.regs_unchanged(old(self).spi),
                self.spi.overrun == old(self).spi.overrun,
                self.spi.txq@.len() == 0,
                self.spi.rxq@.len() == 0,
                words@ == prefix_padded(old(self).spi.miso@, i as int) + old(words)@.subrange(
                    i as int,
                    len as int,
                ),
                self.spi.mosi@ == old(self).spi.mosi@ + old(words)@.subrange(0, i as int),
                self.spi.miso@ == device_rest(old(self).spi.miso@, i as int),
            decreases len - i,
        {
            let ghost miso0 = old(self).spi.miso@;
            let b = words[i];
            proof {
                assert(words@[i as int] == old(words)@[i as int]);
            }
            let data = self.exchange_byte(b);
            words[i] = data;
            proof {
                lemma_exchange_step(miso0, i as int);
                assert(self.spi.mosi@ =~= old(self).spi.mosi@ + old(words)@.subrange(0, i + 1));
                assert(words@ =~= prefix_padded(miso0, i + 1) + old(words)@.subrange(
                    i + 1,
                    len as int,
                ));
            }
            i = i + 1;
        }
        proof {
            assert(words@ =~= prefix_padded(old(self).spi.miso@, len as int));
        }
    }

    /// Empties the receive FIFO; data still queued there is discarded.
    pub fn flush(&mut self)
        ensures
            final(self).spi.regs_unchanged(old(self).spi),
            final(self).spi.txq@ == old(self).spi.txq@,
            final(self).spi.miso@ == old(self).spi.miso@,
            final(self).spi.mosi@ == old(self).spi.mosi@,
            final(self).spi.overrun == old(self).spi.overrun,
            final(self).spi.rxq@.len() == 0,
    {
        self.wait_for_rxfifo();
    }
}

/// One lockstep exchange consumes one scripted answer: the answer read is
/// the next scripted value (or the zero pad), and the script advances by one.
pub(crate) proof fn lemma_exchange_step(miso: Seq<u8>, i: int)
    requires
        0 <= i,
    ensures
        device_rest(device_rest(miso, i), 1) == device_rest(miso, i + 1),
        spec_response(device_rest(miso, i)) == if i < miso.len() {
            miso[i]
        } else {
            0u8
        },
        prefix_padded(miso, i + 1) == prefix_padded(miso, i).push(
            spec_response(device_rest(miso, i)),
        ),
{
    assert(device_rest(device_rest(miso, i), 1) =~= device_rest(miso, i + 1));
    assert(prefix_padded(miso, i + 1) =~= prefix_padded(miso, i).push(
        spec_response(device_rest(miso, i)),
    ));
}

impl SpiConfig {
    /// The chip-select mode is one of the supported modes.
    pub open spec fn wf(self) -> bool {
        self.cs_mode == CSMODE_AUTO || self.cs_mode == CSMODE_HOLD || self.cs_mode == CSMODE_OFF
    }
}

impl<PINS> SpiBus<PINS> {
    /// Configures the bus: clock divisor, chip-select routing and mode, clock
    /// phase and polarity, single-lane eight-bit frames with the most
    /// significant bit first, watermark levels and inter-frame delays; ends
    /// with chip-select de-asserted so a frame can begin cleanly.
    pub fn configure(&mut self, config: &SpiConfig, cs_index: Option<u32>)
        requires
            config.wf(),
        ensures
            final(self).spi.fifos_unchanged(old(self).spi),
            final(self).spi.ie == old(self).spi.ie,
            spec_get_field(final(self).spi.sckdiv, 0, 0xfff) == config.clock_divisor & 0xfff,
            cs_index matches Some(index) ==> final(self).spi.csid == index,
            cs_index is None ==> final(self).spi.csid == old(self).spi.csid,
            final(self).spi.csdef == 1u32,
            bit_is(final(self).spi.sckmode, 0) == config.phase,
            bit_is(final(self).spi.sckmode, 1) == config.polarity,
            spec_get_field(final(self).spi.fmt, 16, 0xf) == 8,
            spec_get_field(final(self).spi.txmark, 0, 7) == config.txmark & 7,
            spec_get_field(final(self).spi.rxmark, 0, 7) == config.rxmark & 7,
            final(self).spi.delay0 == ((config.cssck as u32) | ((config.sckcs as u32) << 16)),
            final(self).spi.delay1 == ((config.intercs as u32) | ((config.interxfr as u32)
                << 16)),
            config.cs_mode == CSMODE_OFF ==> final(self).spi.csmode == CSMODE_OFF,
            config.cs_mode != CSMODE_OFF ==> final(self).spi.csmode == CSMODE_AUTO,
    {
        self.spi.sckdiv = (config.clock_divisor & 0xfff) as u32;
        match cs_index {
            Some(index) => {
                self.spi.csid = index;
            },
            None => {},
        }
        self.spi.csmode = config.cs_mode;
        // Chip-select polarity defaults to inactive-high.
        self.spi.csdef = 1;
        let mut sckmode: u32 = 0;
        sckmode = crate::bitfield::set_bit(sckmode, 0, config.phase);
        sckmode = crate::bitfield::set_bit(sckmode, 1, config.polarity);
        self.spi.sckmode = sckmode;
        // Single lane, most significant bit first, receive direction, 8 bits.
        self.spi.fmt = crate::bitfield::set_field(0, 16, 0xf, 8);
        self.spi.txmark = ((config.txmark & 7) as u32);
        self.spi.rxmark = ((config.rxmark & 7) as u32);
        self.spi.delay0 = (config.cssck as u32) | ((config.sckcs as u32) << 16);
        self.spi.delay1 = (config.intercs as u32) | ((config.interxfr as u32) << 16);
        proof {
            crate::bitfield::lemma_set_bit(0, 0, config.phase, 0);
            crate::bitfield::lemma_set_bit(0, 0, config.phase, 1);
            crate::bitfield::lemma_set_bit(
                crate::bitfield::spec_set_bit(0, 0, config.phase),
                1,
                config.polarity,
                0,
            );
            crate::bitfield::lemma_set_bit(
                crate::bitfield::spec_set_bit(0, 0, config.phase),
                1,
                config.polarity,
                1,
            );
            assert(spec_get_field(crate::bitfield::spec_set_field(0, 16, 0xf, 8), 16, 0xf)
                == 8) by (bit_vector);
            let divisor = config.clock_divisor;
            let txm = config.txmark;
            let rxm = config.rxmark;
            let mode = config.cs_mode;
            assert(spec_get_field((divisor & 0xfff) as u32, 0, 0xfff) == divisor & 0xfff)
                by (bit_vector);
            assert(spec_get_field((txm & 7) as u32, 0, 7) == txm & 7) by (bit_vector);
            assert(spec_get_field((rxm & 7) as u32, 0, 7) == rxm & 7) by (bit_vector);
            assert(spec_get_field(mode, 0, 3) == mode) by (bit_vector)
                requires
                    mode == 0 || mode == 2 || mode == 3,
            ;
        }
        self.end_frame();
    }
}

/// Services this bus's external interrupt: for each direction whose
/// interrupt is both enabled and pending, takes that direction's waiter out
/// of its slot for the caller to resume, then disables that direction's
/// interrupt enable bit -- the level-triggered source stays masked until a
/// new wait registers.
///
/// Returns the handles to resume as (receive, transmit).
pub fn on_irq<PINS>(bus: &mut SpiBus<PINS>, wakers: &mut WakerPair) -> (r: (
    Option<u64>,
    Option<u64>,
))
    ensures
        final(bus).spi.fifos_unchanged(old(bus).spi),
        final(bus).spi.regs_unchanged_but_ie(old(bus).spi),
        ({
            let rx_fire = bit_is(old(bus).spi.ie, 1) && old(bus).spi.rxwm_pending();
            let tx_fire = bit_is(old(bus).spi.ie, 0) && old(bus).spi.txwm_pending();
            &&& r.0 == (if rx_fire {
                old(wakers).rx.handle
            } else {
                Option::<u64>::None
            })
            &&& r.1 == (if tx_fire {
                old(wakers).tx.handle
            } else {
                Option::<u64>::None
            })
            &&& final(wakers).rx.handle == (if rx_fire {
                Option::<u64>::None
            } else {
                old(wakers).rx.handle
            })
            &&& final(wakers).tx.handle == (if tx_fire {
                Option::<u64>::None
            } else {
                old(wakers).tx.handle
            })
            &&& bit_is(final(bus).spi.ie, 1) == (bit_is(old(bus).spi.ie, 1) && !rx_fire)
            &&& bit_is(final(bus).spi.ie, 0) == (bit_is(old(bus).spi.ie, 0) && !tx_fire)
        }),
{
    let ghost ie0 = bus.spi.ie;
    let mut rx_handle: Option<u64> = None;
    let mut tx_handle: Option<u64> = None;
    if bus.is_interrupt_enabled(CommType::Rx) && bus.is_interrupt_pending(CommType::Rx) {
        rx_handle = wakers.rx.take();
        bus.disable_interrupt(CommType::Rx);
        proof {
            crate::bitfield::lemma_set_bit(ie0, 1, false, 0);
            crate::bitfield::lemma_set_bit(ie0, 1, false, 1);
        }
    }
    let ghost ie1 = bus.spi.ie;
    if bus.is_interrupt_enabled(CommType::Tx) && bus.is_interrupt_pending(CommType::Tx) {
        tx_handle = wakers.tx.take();
        bus.disable_interrupt(CommType::Tx);
        proof {
            crate::bitfield::lemma_set_bit(ie1, 0, false, 0);
            crate::bitfield::lemma_set_bit(ie1, 0, false, 1);
        }
    }
    (rx_handle, tx_handle)
}

/// A bus shared by several devices. The asynchronous mutual exclusion that
/// serializes whole transactions lives in the embedding; the bus itself is
/// owned state.
pub struct SharedBus<PINS> {
    /// The wrapped bus.
    pub bus: SpiBus<PINS>,
}

impl<PINS> SharedBus<PINS> {
    /// Wraps a bus for shared use.
    pub fn new(bus: SpiBus<PINS>) -> (r: SharedBus<PINS>)
        ensures
            r.bus.spi == bus.spi,
    {
        SharedBus { bus }
    }

    /// Starts a frame on the shared bus.
    pub fn start_frame(&mut self)
        ensures
            final(self).bus.spi.fifos_unchanged(old(self).bus.spi),
            final(self).bus.spi.regs_unchanged_but_csmode(old(self).bus.spi),
            spec_get_field(old(self).bus.spi.csmode, 0, 3) == CSMODE_OFF ==> final(self).bus.spi.csmode == old(self).bus.spi.csmode,
            spec_get_field(old(self).bus.spi.csmode, 0, 3) != CSMODE_OFF ==> final(self).bus.spi.csmode == CSMODE_HOLD,
    {
        self.bus.start_frame();
    }

    /// Finishes a frame on the shared bus.
    pub fn end_frame(&mut self)
        ensures
            final(self).bus.spi.fifos_unchanged(old(self).bus.spi),
            final(self).bus.spi.regs_unchanged_but_csmode(old(self).bus.spi),
            spec_get_field(old(self).bus.spi.csmode, 0, 3) == CSMODE_OFF ==> final(self).bus.spi.csmode == old(self).bus.spi.csmode,
            spec_get_field(old(self).bus.spi.csmode, 0, 3) != CSMODE_OFF ==> final(self).bus.spi.csmode == CSMODE_AUTO,
    {
        self.bus.end_frame();
    }

    /// Releases the SPI peripheral and associated pins, both unchanged.
    pub fn release(self) -> (r: (Qspi, PINS))
        ensures
            r.0 == self.bus.spi,
            r.1 == self.bus.pins,
    {
        self.bus.release()
    }
}

impl Qspi {
    /// Everything but the interrupt enable register is unchanged.
    pub open spec fn regs_unchanged_but_ie(self, other: Qspi) -> bool {
        self.txmark == other.txmark && self.rxmark == other.rxmark && self.csmode
            == other.csmode && self.sckdiv == other.sckdiv && self.csid == other.csid
            && self.csdef == other.csdef && self.sckmode == other.sckmode && self.fmt
            == other.fmt && self.delay0 == other.delay0 && self.delay1 == other.delay1
            && self.fifos_unchanged(other)
    }

    /// Everything but the chip-select mode register is unchanged.
    pub open spec fn regs_unchanged_but_csmode(self, other: Qspi) -> bool {
        self.ie == other.ie && self.txmark == other.txmark && self.rxmark == other.rxmark
            && self.sckdiv == other.sckdiv && self.csid == other.csid && self.csdef
            == other.csdef && self.sckmode == other.sckmode && self.fmt == other.fmt
            && self.delay0 == other.delay0 && self.delay1 == other.delay1
    }

    /// Everything but the interrupt enable and watermark registers is
    /// unchanged.
    pub open spec fn regs_unchanged_but_ie_and_marks(self, other: Qspi) -> bool {
        self.csmode == other.csmode && self.sckdiv == other.sckdiv && self.csid == other.csid
            && self.csdef == other.csdef && self.sckmode == other.sckmode && self.fmt
            == other.fmt && self.delay0 == other.delay0 && self.delay1 == other.delay1
    }

    /// The FIFOs, the line, and the overrun flag are unchanged.
    pub open spec fn fifos_unchanged(self, other: Qspi) -> bool {
        self.txq@ == other.txq@ && self.rxq@ == other.rxq@ && self.miso@ == other.miso@
            && self.mosi@ == other.mosi@ && self.overrun == other.overrun
    }
}

/// A flush of the SPI transmit path in progress.
///
/// The receive FIFO is emptied up front; the first poll then registers the
/// waiter, sets the transmit watermark to one so the interrupt fires once
/// the FIFO has drained, enables the interrupt and suspends; the poll after
/// the resumption completes.
pub struct SpiFlush {
    /// Whether the wait has already been registered.
    pub registered: bool,
}

impl SpiFlush {
    /// A flush that has not yet registered its wait.
    pub fn new() -> (f: SpiFlush)
        ensures
            !f.registered,
    {
        SpiFlush { registered: false }
    }

    /// One poll of the flush; true means the flush is complete.
    pub fn poll<PINS>(
        &mut self,
        bus: &mut SpiBus<PINS>,
        handle: u64,
        hw_wakers: &mut WakerPair,
    ) -> (done: bool)
        ensures
            final(hw_wakers).rx == old(hw_wakers).rx,
            old(self).registered ==> done && *final(self) == *old(self) && *final(bus) == *old(bus) && *final(hw_wakers) == *old(hw_wakers),
            !old(self).registered ==> !done && final(self).registered && final(hw_wakers).tx.handle == Some(handle) && final(bus).spi.rxq@.len() == 0 && final(bus).spi.txmark == 1u32 && final(bus).spi.ie == spec_set_bit(old(bus).spi.ie, 0, true)
                && final(bus).spi.txq@ == old(bus).spi.txq@
                && final(bus).spi.miso@ == old(bus).spi.miso@
                && final(bus).spi.mosi@ == old(bus).spi.mosi@
                && final(bus).spi.overrun == old(bus).spi.overrun
                && final(bus).spi.rxmark == old(bus).spi.rxmark
                && final(bus).spi.regs_unchanged_but_ie_and_marks(old(bus).spi),
    {
        if self.registered {
            true
        } else {
            self.registered = true;
            bus.wait_for_rxfifo();
            hw_wakers.tx.register(handle);
            bus.set_watermark(CommType::Tx, WatermarkValue::W1);
            bus.enable_interrupt(CommType::Tx);
            false
        }
    }
}

} // verus!
