//! SPI device abstraction: a whole transaction on a bus owned exclusively by
//! one device.
//!
//! A transaction brackets a sequence of transfer operations between
//! chip-select assert and release: the frame is started, each operation runs
//! in order, the receive FIFO is flushed, and chip-select is released on the
//! way out. Delay operations produce no bus traffic here; the embedding
//! performs the actual waiting between operations.

use crate::bitfield::spec_get_field;
use crate::spi::device_rest;
use crate::spi::prefix_padded;
use crate::spi::SpiBus;
use crate::spi::SpiConfig;
use crate::spi::CSMODE_AUTO;
use crate::spi::CSMODE_OFF;
use vstd::prelude::*;

verus! {

/// One operation of a device transaction.
#[derive(Clone, Debug, PartialEq, Eq)]
pub enum SpiOperation {
    /// Read this many bytes, transmitting the zero pad for each.
    Read(usize),
    /// Write these bytes, discarding what the device answers.
    Write(Vec<u8>),
    /// Full-duplex: read the first length while writing the bytes, padded
    /// with zeros up to the longer of the two.
    Transfer(usize, Vec<u8>),
    /// Full-duplex in place: write the bytes and keep the answers.
    TransferInPlace(Vec<u8>),
    /// Delay this many nanoseconds; no bus traffic.
    DelayNs(u32),
}

/// The bytes an operation puts on the line.
pub open spec fn op_out(op: SpiOperation) -> Seq<u8> {
    match op {
        SpiOperation::Read(n) => prefix_padded(Seq::empty(), n as int),
        SpiOperation::Write(w) => w@,
        SpiOperation::Transfer(n, w) => prefix_padded(
            w@,
            vstd::math::max(n as int, w@.len() as int),
        ),
        SpiOperation::TransferInPlace(w) => w@,
        SpiOperation::DelayNs(_) => Seq::empty(),
    }
}

/// The number of answered bytes an operation keeps.
pub open spec fn op_read_len(op: SpiOperation) -> int {
    match op {
        SpiOperation::Read(n) => n as int,
        SpiOperation::Write(w) => 0,
        SpiOperation::Transfer(n, w) => n as int,
        SpiOperation::TransferInPlace(w) => w@.len() as int,
        SpiOperation::DelayNs(_) => 0,
    }
}

/// Everything a transaction's operations put on the line, in order.
pub open spec fn ops_out(ops: Seq<SpiOperation>) -> Seq<u8>
    decreases ops.len(),
{
    if ops.len() == 0 {
        Seq::empty()
    } else {
        ops_out(ops.drop_last()) + op_out(ops.last())
    }
}

/// Taking one more operation appends exactly that operation's line bytes.
pub proof fn lemma_ops_out_take(ops: Seq<SpiOperation>, j: int)
    requires
        0 <= j < ops.len(),
    ensures
        ops_out(ops.subrange(0, j + 1)) == ops_out(ops.subrange(0, j)) + op_out(ops[j]),
{
    assert(ops.subrange(0, j + 1).drop_last() =~= ops.subrange(0, j));
    assert(ops.subrange(0, j + 1).last() == ops[j]);
}

/// Consuming a device script in two steps consumes it in one.
pub proof fn lemma_device_rest_compose(s: Seq<u8>, a: int, b: int)
    requires
        0 <= a,
        0 <= b,
    ensures
        device_rest(device_rest(s, a), b) == device_rest(s, a + b),
{
    if a <= s.len() {
        assert(device_rest(device_rest(s, a), b) =~= device_rest(s, a + b));
    } else {
        assert(device_rest(s, a) =~= Seq::<u8>::empty());
        assert(device_rest(device_rest(s, a), b) =~= device_rest(s, a + b));
    }
}

/// Copies a byte vector.
fn copy_bytes(v: &Vec<u8>) -> (r: Vec<u8>)
    ensures
        r@ == v@,
{
    let mut r: Vec<u8> = Vec::new();
    let mut i: usize = 0;
    while i < v.len()
        invariant
            i <= v@.len(),
            r@ == v@.subrange(0, i as int),
        decreases v@.len() - i,
    {
        r.push(v[i]);
        proof {
            assert(r@ =~= v@.subrange(0, i + 1));
        }
        i = i + 1;
    }
    proof {
        assert(v@.subrange(0, v@.len() as int) =~= v@);
    }
    r
}

/// SPI device with exclusive use of its bus.
pub struct SpiExclusiveDeviceAsync<PINS> {
    /// The bus this device owns.
    pub bus: SpiBus<PINS>,
}

impl<PINS> SpiExclusiveDeviceAsync<PINS> {
    /// Creates the device, configuring the bus for it.
    pub fn new(bus: SpiBus<PINS>, config: &SpiConfig, cs_index: Option<u32>) -> (d:
        SpiExclusiveDeviceAsync<PINS>)
        requires
            config.wf(),
        ensures
            d.bus.spi.fifos_unchanged(bus.spi),
            config.cs_mode == CSMODE_OFF ==> d.bus.spi.csmode == CSMODE_OFF,
            config.cs_mode != CSMODE_OFF ==> d.bus.spi.csmode == CSMODE_AUTO,
    {
        let mut bus = bus;
        bus.configure(config, cs_index);
        SpiExclusiveDeviceAsync { bus }
    }

    /// Releases the bus back unchanged, deconstructing the device.
    pub fn release(self) -> (r: SpiBus<PINS>)
        ensures
            r == self.bus,
    {
        self.bus
    }

    /// Runs a whole transaction on this device's bus.
    pub fn transaction(&mut self, operations: &Vec<SpiOperation>) -> (r: Vec<Vec<u8>>)
        requires
            old(self).bus.spi.txq@.len() == 0,
        ensures
            final(self).bus.spi.txq@.len() == 0,
            final(self).bus.spi.rxq@.len() == 0,
            final(self).bus.spi.overrun == old(self).bus.spi.overrun,
            final(self).bus.spi.mosi@ == old(self).bus.spi.mosi@ + ops_out(operations@),
            final(self).bus.spi.miso@ == device_rest(
                old(self).bus.spi.miso@,
                ops_out(operations@).len() as int,
            ),
            spec_get_field(old(self).bus.spi.csmode, 0, 3) == CSMODE_OFF ==> final(self).bus.spi.csmode == old(self).bus.spi.csmode,
            spec_get_field(old(self).bus.spi.csmode, 0, 3) != CSMODE_OFF ==> final(self).bus.spi.csmode == CSMODE_AUTO,
            r@.len() == operations@.len(),
            forall|j: int|
                0 <= j < operations@.len() ==> r@[j]@ == prefix_padded(
                    device_rest(
                        old(self).bus.spi.miso@,
                        ops_out(operations@.subrange(0, j)).len() as int,
                    ),
                    op_read_len(operations@[j]),
                ),
    {
        bus_transaction(&mut self.bus, operations)
    }
}

/// Runs a whole transaction on a bus: chip-select is asserted, the
/// operations run in order against the device, the receive FIFO is flushed,
/// and chip-select is released -- on every exit path. A device sharing the
/// bus with others runs this under the bus mutex the embedding provides.
///
/// Exactly the operations' bytes go out on the line, in order, and each
/// operation's result holds the device's answers for its positions of the
/// script; delays produce no traffic. The result holds one byte vector per
/// operation, empty for writes and delays.
#[verifier::loop_isolation(false)]
pub fn bus_transaction<PINS>(bus: &mut SpiBus<PINS>, operations: &Vec<SpiOperation>) -> (r: Vec<
    Vec<u8>,
>)
    requires
        old(bus).spi.txq@.len() == 0,
    ensures
        final(bus).spi.txq@.len() == 0,
        final(bus).spi.rxq@.len() == 0,
        final(bus).spi.overrun == old(bus).spi.overrun,
        final(bus).spi.mosi@ == old(bus).spi.mosi@ + ops_out(operations@),
        final(bus).spi.miso@ == device_rest(
            old(bus).spi.miso@,
            ops_out(operations@).len() as int,
        ),
        spec_get_field(old(bus).spi.csmode, 0, 3) == CSMODE_OFF ==> final(bus).spi.csmode
            == old(bus).spi.csmode,
        spec_get_field(old(bus).spi.csmode, 0, 3) != CSMODE_OFF ==> final(bus).spi.csmode
            == CSMODE_AUTO,
        r@.len() == operations@.len(),
        forall|j: int|
            0 <= j < operations@.len() ==> r@[j]@ == prefix_padded(
                device_rest(
                    old(bus).spi.miso@,
                    ops_out(operations@.subrange(0, j)).len() as int,
                ),
                op_read_len(operations@[j]),
            ),
{
    {
        let ghost miso0 = bus.spi.miso@;
        let ghost mosi0 = bus.spi.mosi@;
        bus.start_frame();
        proof {
            assert(mosi0 + ops_out(operations@.subrange(0, 0)) =~= mosi0);
            assert(device_rest(miso0, 0) =~= miso0);
        }
        let mut results: Vec<Vec<u8>> = Vec::new();
        let n_ops = operations.len();
        let mut i: usize = 0;
        while i < n_ops
            invariant
                0 <= i <= n_ops,
                bus.spi.txq@.len() == 0,
                bus.spi.overrun == old(bus).spi.overrun,
                bus.spi.mosi@ == mosi0 + ops_out(operations@.subrange(0, i as int)),
                bus.spi.miso@ == device_rest(
                    miso0,
                    ops_out(operations@.subrange(0, i as int)).len() as int,
                ),
                bus.spi.regs_unchanged_but_csmode(old(bus).spi),
                spec_get_field(old(bus).spi.csmode, 0, 3) == CSMODE_OFF
                    ==> bus.spi.csmode == old(bus).spi.csmode,
                spec_get_field(old(bus).spi.csmode, 0, 3) != CSMODE_OFF
                    ==> bus.spi.csmode == crate::spi::CSMODE_HOLD,
                results@.len() == i,
                forall|j: int|
                    0 <= j < i ==> results@[j]@ == prefix_padded(
                        device_rest(miso0, ops_out(operations@.subrange(0, j)).len() as int),
                        op_read_len(operations@[j]),
                    ),
            decreases n_ops - i,
        {
            let ghost shifted = ops_out(operations@.subrange(0, i as int)).len() as int;
            proof {
                lemma_ops_out_take(operations@, i as int);
            }
            match &operations[i] {
                SpiOperation::Read(n) => {
                    let data = bus.read(*n);
                    results.push(data);
                },
                SpiOperation::Write(w) => {
                    let _ = bus.write(w);
                    results.push(Vec::new());
                    proof {
                        assert(Seq::<u8>::empty() =~= prefix_padded(
                            device_rest(miso0, shifted),
                            0,
                        ));
                    }
                },
                SpiOperation::Transfer(n, w) => {
                    let data = bus.transfer(*n, w);
                    results.push(data);
                },
                SpiOperation::TransferInPlace(w) => {
                    let mut words = copy_bytes(w);
                    bus.transfer_in_place(&mut words);
                    results.push(words);
                },
                SpiOperation::DelayNs(_) => {
                    // The embedding performs the delay; no bus traffic.
                    results.push(Vec::new());
                    proof {
                        assert(Seq::<u8>::empty() =~= prefix_padded(
                            device_rest(miso0, shifted),
                            0,
                        ));
                    }
                },
            }
            proof {
                lemma_device_rest_compose(
                    miso0,
                    shifted,
                    op_out(operations@[i as int]).len() as int,
                );
                assert(bus.spi.mosi@ =~= mosi0 + ops_out(
                    operations@.subrange(0, i + 1),
                ));
            }
            i = i + 1;
        }
        proof {
            assert(operations@.subrange(0, n_ops as int) =~= operations@);
        }
        bus.flush();
        proof {
            assert(spec_get_field(2u32, 0, 3) == 2u32) by (bit_vector);
        }
        bus.end_frame();
        results
    }
}

} // verus!
