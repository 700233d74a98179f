//! I2C master interface: register model, command primitives, and the
//! multi-operation transaction engine.
//!
//! The controller is modelled by plain register words; the attached target
//! device is scripted: `target_acks` answers one acknowledge per byte put on
//! the wire (a missing entry acknowledges), and `target_data` supplies the
//! bytes a read receives (exhausted entries read as 0xFF, the idle-line
//! value). The `wire` log records every byte the master sends, address
//! bytes included.

use crate::bitfield::bit_is;
use crate::bitfield::get_bit;
use crate::bitfield::set_bit;
use crate::bitfield::spec_set_bit;
use crate::plic::ExternalInterrupt;
use crate::plic::Plic;
use vstd::prelude::*;

verus! {

/// Transmission speed.
#[derive(Clone, Copy, Debug, PartialEq, Eq, Structural)]
pub enum Speed {
    /// 100 kbps.
    Normal,
    /// 400 kbps.
    Fast,
    /// Custom speed in bits per second.
    Custom(u32),
}

impl Speed {
    /// The speed in bits per second.
    pub open spec fn spec_bps(self) -> u32 {
        match self {
            Speed::Normal => 100_000,
            Speed::Fast => 400_000,
            Speed::Custom(bps) => bps,
        }
    }

    /// The speed in bits per second.
    pub fn bps(self) -> (r: u32)
        ensures
            r == self.spec_bps(),
    {
        match self {
            Speed::Normal => 100_000,
            Speed::Fast => 400_000,
            Speed::Custom(bps) => bps,
        }
    }
}

/// In a no-acknowledge error, what the target left unacknowledged.
#[derive(Clone, Copy, Debug, PartialEq, Eq, Structural)]
pub enum NoAcknowledgeSource {
    /// The address byte was not acknowledged.
    Address,
    /// A data byte was not acknowledged.
    Data,
}

/// Errors surfaced by the I2C master.
#[derive(Clone, Copy, Debug, PartialEq, Eq, Structural)]
pub enum I2cError {
    /// Bus arbitration was lost; a stop condition was issued.
    ArbitrationLoss,
    /// The target did not acknowledge; a stop condition was issued.
    NoAcknowledge(NoAcknowledgeSource),
}

/// Outcome of polling for command completion.
#[derive(Clone, Copy, Debug, PartialEq, Eq, Structural)]
pub enum AckPoll {
    /// The command completed.
    Ready,
    /// A transfer is still in progress; the caller should retry.
    WouldBlock,
    /// Arbitration was lost; a stop condition was issued.
    ArbitrationLoss,
}

/// One operation of a transaction.
#[derive(Clone, Debug, PartialEq, Eq)]
pub enum I2cOp {
    /// Write these bytes to the target.
    Write(Vec<u8>),
    /// Read this many bytes from the target.
    Read(usize),
}

/// I2C master abstraction.
pub struct I2c<PINS> {
    /// Control register: enable bit 7, interrupt enable bit 6.
    pub ctr: u32,
    /// Clock prescaler.
    pub prer: u16,
    /// Transmit register.
    pub txr: u8,
    /// Receive register.
    pub rxr: u8,
    /// Status register: interrupt flag bit 0, transfer-in-progress bit 1,
    /// arbitration-lost bit 5, busy bit 6, no-acknowledge-received bit 7.
    pub sr: u32,
    /// The pins given to the interface at construction.
    pub pins: PINS,
    /// Scripted acknowledge per wire byte, front first; exhausted entries
    /// acknowledge.
    pub target_acks: Vec<bool>,
    /// Scripted bytes answered to reads, front first; exhausted entries read
    /// as 0xFF.
    pub target_data: Vec<u8>,
    /// Log of every byte the master put on the wire, oldest first.
    pub wire: Vec<u8>,
}

/// Whether the target acknowledges the `k`-th wire byte: the scripted answer,
/// or an acknowledge once the script is exhausted.
pub open spec fn ack_at(acks: Seq<bool>, k: int) -> bool {
    if 0 <= k < acks.len() {
        acks[k]
    } else {
        true
    }
}

/// The byte a read receives at script position `k`: the scripted byte, or
/// 0xFF once the script is exhausted.
pub open spec fn data_at(data: Seq<u8>, k: int) -> u8 {
    if 0 <= k < data.len() {
        data[k]
    } else {
        0xFF
    }
}

/// The wire bytes of one operation, each marked whether it is an address
/// byte: a write sends the address with the write flag then its payload; a
/// read sends only the address with the read flag.
pub open spec fn op_cmds(address: u8, op: I2cOp) -> Seq<(u8, bool)> {
    match op {
        I2cOp::Write(bytes) => seq![(((2 * address) as u8, true))] + bytes@.map_values(
            |b: u8| (b, false),
        ),
        I2cOp::Read(_) => seq![(((2 * address + 1) as u8, true))],
    }
}

/// The wire bytes of a whole transaction, in order.
pub open spec fn wire_cmds(address: u8, ops: Seq<I2cOp>) -> Seq<(u8, bool)>
    decreases ops.len(),
{
    if ops.len() == 0 {
        Seq::empty()
    } else {
        wire_cmds(address, ops.drop_last()) + op_cmds(address, ops.last())
    }
}

/// The number of bytes read by the operations before index `j`.
pub open spec fn reads_before(ops: Seq<I2cOp>, j: int) -> int
    decreases j,
{
    if j <= 0 {
        0
    } else {
        reads_before(ops, j - 1) + (match ops[j - 1] {
            I2cOp::Write(_) => 0,
            I2cOp::Read(n) => n as int,
        })
    }
}

/// A transaction never reads a negative number of bytes.
pub proof fn lemma_reads_before_nonneg(ops: Seq<I2cOp>, j: int)
    ensures
        reads_before(ops, j) >= 0,
    decreases j,
{
    if j > 0 {
        lemma_reads_before_nonneg(ops, j - 1);
    }
}

/// The position of the first unacknowledged wire byte among the first `n`,
/// scanning from `k`; `n` when every one is acknowledged.
pub open spec fn first_nack_from(acks: Seq<bool>, k: int, n: int) -> int
    decreases n - k,
{
    if k >= n {
        n
    } else if !ack_at(acks, k) {
        k
    } else {
        first_nack_from(acks, k + 1, n)
    }
}

/// Scanning for the first refusal: if every byte up to `c` is acknowledged
/// and byte `c` is refused, the scan finds `c`; if all `n` are acknowledged,
/// the scan runs to `n`.
pub proof fn lemma_first_nack(acks: Seq<bool>, k: int, c: int, n: int)
    requires
        0 <= k <= c <= n,
        forall|i: int| k <= i < c ==> ack_at(acks, i),
    ensures
        c < n && !ack_at(acks, c) ==> first_nack_from(acks, k, n) == c,
        c == n ==> first_nack_from(acks, k, n) == n,
    decreases c - k,
{
    if k < c {
        lemma_first_nack(acks, k + 1, c, n);
    }
}

/// The acknowledge script once `c` answers have been consumed.
pub open spec fn script_rest_acks(acks: Seq<bool>, c: int) -> Seq<bool> {
    if c <= acks.len() {
        acks.subrange(c, acks.len() as int)
    } else {
        Seq::empty()
    }
}

/// The read-data script once `c` bytes have been consumed.
pub open spec fn script_rest_data(data: Seq<u8>, c: int) -> Seq<u8> {
    if c <= data.len() {
        data.subrange(c, data.len() as int)
    } else {
        Seq::empty()
    }
}

/// What operation `j` of a transaction yields: nothing for a write, the
/// target's scripted bytes (in script order, 0xFF once exhausted) for a read.
pub open spec fn read_result(ops: Seq<I2cOp>, data: Seq<u8>, j: int) -> Seq<u8> {
    match ops[j] {
        I2cOp::Write(_) => Seq::empty(),
        I2cOp::Read(n) => Seq::new(n as nat, |k: int| data_at(data, reads_before(ops, j) + k)),
    }
}

/// Taking one more operation appends exactly that operation's wire bytes.
pub proof fn lemma_wire_cmds_take(address: u8, ops: Seq<I2cOp>, j: int)
    requires
        0 <= j < ops.len(),
    ensures
        wire_cmds(address, ops.subrange(0, j + 1)) == wire_cmds(address, ops.subrange(0, j))
            + op_cmds(address, ops[j]),
{
    assert(ops.subrange(0, j + 1).drop_last() =~= ops.subrange(0, j));
    assert(ops.subrange(0, j + 1).last() == ops[j]);
}

/// The wire bytes of a prefix of the operations are a prefix of the whole
/// transaction's wire bytes.
pub proof fn lemma_wire_cmds_prefix(address: u8, ops: Seq<I2cOp>, j: int)
    requires
        0 <= j <= ops.len(),
    ensures
        wire_cmds(address, ops.subrange(0, j)).len() <= wire_cmds(address, ops).len(),
        forall|t: int|
            0 <= t < wire_cmds(address, ops.subrange(0, j)).len() ==> wire_cmds(address, ops)[t]
                == wire_cmds(address, ops.subrange(0, j))[t],
    decreases ops.len() - j,
{
    if j == ops.len() {
        assert(ops.subrange(0, j) =~= ops);
    } else {
        lemma_wire_cmds_take(address, ops, j);
        lemma_wire_cmds_prefix(address, ops, j + 1);
    }
}

impl<PINS> I2c<PINS> {
    /// Configures an I2C master for the requested speed on a clock of
    /// `tlclk` Hz, scripted against the given target answers. The prescaler
    /// must fit its sixteen-bit register, which bounds how slow the clock
    /// may be relative to the bus speed.
    pub fn new(
        pins: PINS,
        speed: Speed,
        tlclk: u32,
        target_acks: Vec<bool>,
        target_data: Vec<u8>,
    ) -> (r: I2c<PINS>)
        requires
            speed.spec_bps() > 0,
            speed.spec_bps() * 5 <= tlclk,
            tlclk as int / (speed.spec_bps() as int * 5) - 1 < 65536,
        ensures
            bit_is(r.ctr, 7),
            !bit_is(r.ctr, 6),
            r.prer == tlclk as int / (speed.spec_bps() as int * 5) - 1,
            r.sr == 0u32,
            r.target_acks@ == target_acks@,
            r.target_data@ == target_data@,
            r.wire@.len() == 0,
    {
        let desired_speed = speed.bps();
        proof {
            assert(desired_speed * 5 <= u32::MAX) by (nonlinear_arith)
                requires
                    desired_speed * 5 <= tlclk && tlclk <= u32::MAX,
            ;
            assert(tlclk as int / (desired_speed as int * 5) >= 1) by (nonlinear_arith)
                requires
                    desired_speed > 0 && desired_speed * 5 <= tlclk,
            ;
        }
        let prescaler = tlclk / (desired_speed * 5) - 1;
        let mut ctr: u32 = 0;
        ctr = set_bit(ctr, 7, true);
        proof {
            crate::bitfield::lemma_set_bit(0, 7, true, 7);
            crate::bitfield::lemma_set_bit(0, 7, true, 6);
            assert(!bit_is(0u32, 6)) by (bit_vector);
        }
        I2c {
            ctr,
            prer: prescaler as u16,
            txr: 0,
            rxr: 0,
            sr: 0,
            pins,
            target_acks,
            target_data,
            wire: Vec::new(),
        }
    }

    /// Everything but the named registers -- the scripts, the wire log and
    /// the data registers -- is unchanged.
    pub open spec fn state_unchanged(self, other: I2c<PINS>) -> bool {
        self.prer == other.prer && self.txr == other.txr && self.rxr == other.rxr
            && self.target_acks@ == other.target_acks@ && self.target_data@
            == other.target_data@ && self.wire@ == other.wire@
    }

    /// Releases the peripheral state and associated pins, both unchanged.
    pub fn free(self) -> (r: (u32, PINS))
        ensures
            r.0 == self.ctr,
            r.1 == self.pins,
    {
        (self.ctr, self.pins)
    }

    /// Enable the interrupt bit in the control register, preserving the
    /// enable bit: both live in the same register and must be written
    /// together.
    pub fn enable_interrupt(&mut self)
        ensures
            final(self).ctr == spec_set_bit(old(self).ctr, 6, true),
            final(self).sr == old(self).sr,
            final(self).state_unchanged(*old(self)),
    {
        self.ctr = set_bit(self.ctr, 6, true);
    }

    /// Disable the interrupt bit in the control register, preserving the
    /// enable bit.
    pub fn disable_interrupt(&mut self)
        ensures
            final(self).ctr == spec_set_bit(old(self).ctr, 6, false),
            final(self).sr == old(self).sr,
            final(self).state_unchanged(*old(self)),
    {
        self.ctr = set_bit(self.ctr, 6, false);
    }

    /// Clear the pending-interrupt flag.
    pub fn clear_interrupt(&mut self)
        ensures
            final(self).sr == spec_set_bit(old(self).sr, 0, false),
            final(self).ctr == old(self).ctr,
            final(self).state_unchanged(*old(self)),
    {
        self.sr = set_bit(self.sr, 0, false);
    }

    /// Check if the I2C interrupt is enabled.
    pub fn is_interrupt_enabled(&self) -> (r: bool)
        ensures
            r == bit_is(self.ctr, 6),
    {
        get_bit(self.ctr, 6)
    }

    /// Enables this interface's external interrupt source.
    pub fn enable_exti(&self, plic: &mut Plic)
        ensures
            bit_is(final(plic).enables, ExternalInterrupt::I2c0.spec_index()),
            final(plic).priorities@ == old(plic).priorities@,
    {
        plic.enable(ExternalInterrupt::I2c0);
    }

    /// Disables this interface's external interrupt source.
    pub fn disable_exti(&self, plic: &mut Plic)
        ensures
            !bit_is(final(plic).enables, ExternalInterrupt::I2c0.spec_index()),
            final(plic).priorities@ == old(plic).priorities@,
    {
        plic.disable(ExternalInterrupt::I2c0);
    }

    /// Reports whether this interface's external interrupt source is enabled.
    pub fn is_exti_enabled(&self, plic: &Plic) -> (r: bool)
        ensures
            r == bit_is(plic.enables, ExternalInterrupt::I2c0.spec_index()),
    {
        plic.is_enabled(ExternalInterrupt::I2c0)
    }

    /// Sets this interface's external interrupt source priority.
    pub fn set_exti_priority(&self, plic: &mut Plic, priority: u8)
        requires
            old(plic).wf(),
            priority <= 7,
        ensures
            final(plic).wf(),
            final(plic).priorities@ == old(plic).priorities@.update(
                ExternalInterrupt::I2c0.spec_index() as int,
                priority,
            ),
            final(plic).enables == old(plic).enables,
    {
        plic.set_priority(ExternalInterrupt::I2c0, priority);
    }

    /// Reports this interface's external interrupt source priority.
    pub fn get_exti_priority(&self, plic: &Plic) -> (r: u8)
        requires
            plic.wf(),
        ensures
            r == plic.priorities@[ExternalInterrupt::I2c0.spec_index() as int],
    {
        plic.get_priority(ExternalInterrupt::I2c0)
    }

    /// Read the status register.
    pub fn read_sr(&self) -> (r: crate::i2c0::sr::R)
        ensures
            r.bits == self.sr,
    {
        crate::i2c0::sr::R { bits: self.sr }
    }

    /// Reset the peripheral by acknowledging any pending interrupt.
    pub fn reset(&mut self)
        ensures
            final(self).sr == spec_set_bit(old(self).sr, 0, false),
            final(self).ctr == old(self).ctr,
            final(self).state_unchanged(*old(self)),
    {
        self.clear_interrupt();
    }

    /// Issue a stop condition on the bus: the bus goes idle.
    pub fn set_stop(&mut self)
        ensures
            final(self).sr == spec_set_bit(old(self).sr, 6, false),
            final(self).ctr == old(self).ctr,
            final(self).state_unchanged(*old(self)),
    {
        self.sr = set_bit(self.sr, 6, false);
    }

    /// Set the next byte to be transmitted to the target.
    pub fn write_txr(&mut self, byte: u8)
        ensures
            final(self).txr == byte,
            final(self).sr == old(self).sr,
            final(self).ctr == old(self).ctr,
            final(self).rxr == old(self).rxr,
            final(self).prer == old(self).prer,
            final(self).target_acks@ == old(self).target_acks@,
            final(self).target_data@ == old(self).target_data@,
            final(self).wire@ == old(self).wire@,
    {
        self.txr = byte;
    }

    /// Read the last byte received from the target.
    pub fn read_rxr(&self) -> (r: u8)
        ensures
            r == self.rxr,
    {
        self.rxr
    }

    /// Send the transmit register to the target. The byte goes on the wire;
    /// the target's scripted acknowledge lands in the no-acknowledge flag
    /// (set means refused); the bus stays busy unless a stop was requested.
    pub fn trigger_write(&mut self, start: bool, stop: bool)
        ensures
            final(self).wire@ == old(self).wire@.push(old(self).txr),
            final(self).sr == spec_set_bit(
                spec_set_bit(old(self).sr, 7, !ack_at(old(self).target_acks@, 0)),
                6,
                !stop,
            ),
            old(self).target_acks@.len() > 0 ==> final(self).target_acks@ == old(self).target_acks@.subrange(1, old(self).target_acks@.len() as int),
            old(self).target_acks@.len() == 0 ==> final(self).target_acks@ == old(self).target_acks@,
            final(self).ctr == old(self).ctr,
            final(self).txr == old(self).txr,
            final(self).rxr == old(self).rxr,
            final(self).prer == old(self).prer,
            final(self).target_data@ == old(self).target_data@,
    {
        self.wire.push(self.txr);
        let ack: bool = if self.target_acks.len() > 0 {
            self.target_acks.remove(0)
        } else {
            true
        };
        let mut sr = self.sr;
        sr = set_bit(sr, 7, !ack);
        sr = set_bit(sr, 6, !stop);
        self.sr = sr;
    }

    /// Receive one byte from the target into the receive register: the next
    /// scripted byte, or 0xFF once the script is exhausted. The bus stays
    /// busy unless a stop was requested.
    pub fn trigger_read(&mut self, ack: bool, stop: bool)
        ensures
            final(self).rxr == data_at(old(self).target_data@, 0),
            final(self).sr == spec_set_bit(old(self).sr, 6, !stop),
            old(self).target_data@.len() > 0 ==> final(self).target_data@ == old(self).target_data@.subrange(1, old(self).target_data@.len() as int),
            old(self).target_data@.len() == 0 ==> final(self).target_data@ == old(self).target_data@,
            final(self).ctr == old(self).ctr,
            final(self).txr == old(self).txr,
            final(self).prer == old(self).prer,
            final(self).target_acks@ == old(self).target_acks@,
            final(self).wire@ == old(self).wire@,
    {
        self.rxr = if self.target_data.len() > 0 {
            self.target_data.remove(0)
        } else {
            0xFF
        };
        self.sr = set_bit(self.sr, 6, !stop);
    }

    /// Check if the bus is idle.
    pub fn is_idle(&self) -> (r: bool)
        ensures
            r == !bit_is(self.sr, 6),
    {
        !get_bit(self.sr, 6)
    }

    /// Acknowledge a command's completion. While a transfer is in progress
    /// the caller would block; on arbitration loss a stop condition is
    /// issued and the loss is reported.
    pub fn ack_interrupt(&mut self) -> (r: AckPoll)
        ensures
            r is WouldBlock <==> bit_is(old(self).sr, 1),
            r is WouldBlock ==> *final(self) == *old(self),
            r is ArbitrationLoss <==> !bit_is(old(self).sr, 1) && bit_is(old(self).sr, 5),
            r is ArbitrationLoss ==> final(self).sr == spec_set_bit(old(self).sr, 6, false)
                && final(self).ctr == old(self).ctr && final(self).state_unchanged(*old(self)),
            r is Ready <==> !bit_is(old(self).sr, 1) && !bit_is(old(self).sr, 5),
            r is Ready ==> *final(self) == *old(self),
    {
        if get_bit(self.sr, 1) {
            AckPoll::WouldBlock
        } else if get_bit(self.sr, 5) {
            self.set_stop();
            AckPoll::ArbitrationLoss
        } else {
            AckPoll::Ready
        }
    }

    /// Wait for a write command to complete. On arbitration loss, or when
    /// the target refused the byte, a stop condition is issued and the
    /// matching error is returned.
    pub fn wait_for_write(&mut self, source: NoAcknowledgeSource) -> (r: Result<(), I2cError>)
        requires
            !bit_is(old(self).sr, 1),
        ensures
            bit_is(old(self).sr, 5) ==> r == Result::<(), I2cError>::Err(
                I2cError::ArbitrationLoss,
            ) && final(self).sr == spec_set_bit(old(self).sr, 6, false) && final(self).state_unchanged(*old(self)),
            !bit_is(old(self).sr, 5) && bit_is(old(self).sr, 7) ==> r == Result::<
                (),
                I2cError,
            >::Err(I2cError::NoAcknowledge(source)) && final(self).sr == spec_set_bit(
                old(self).sr,
                6,
                false,
            ) && final(self).state_unchanged(*old(self)),
            !bit_is(old(self).sr, 5) && !bit_is(old(self).sr, 7) ==> r is Ok && *final(self)
                == *old(self),
            final(self).ctr == old(self).ctr,
    {
        match self.ack_interrupt() {
            AckPoll::ArbitrationLoss => Err(I2cError::ArbitrationLoss),
            AckPoll::WouldBlock => {
                // A transfer cannot be in progress here.
                proof {
                    assert(false);
                }
                Err(I2cError::ArbitrationLoss)
            },
            AckPoll::Ready => {
                if get_bit(self.sr, 7) {
                    self.set_stop();
                    Err(I2cError::NoAcknowledge(source))
                } else {
                    Ok(())
                }
            },
        }
    }

    /// Executes a sequence of write and read operations as one transaction:
    /// each operation sends the address byte (with a start or repeated-start
    /// condition when the direction changes), a stop condition ends the last
    /// data byte, and the first refusal aborts the whole transaction with a
    /// stop.
    ///
    /// The transaction succeeds exactly when the target acknowledges every
    /// wire byte. On success the wire log extends by precisely the
    /// transaction's bytes, and each read operation yields the target's
    /// scripted bytes in order; the result holds one byte vector per
    /// operation, empty for writes. On refusal the error names whether an
    /// address or a data byte went unacknowledged -- whichever came first.
    #[verifier::loop_isolation(false)]
    pub fn transaction(&mut self, address: u8, operations: &Vec<I2cOp>) -> (r: Result<
        Vec<Vec<u8>>,
        I2cError,
    >)
        requires
            address < 128,
            !bit_is(old(self).sr, 1),
            !bit_is(old(self).sr, 5),
        ensures
            final(self).ctr == old(self).ctr,
            operations@.len() == 0 ==> *final(self) == *old(self),
            ({
                let cmds = wire_cmds(address, operations@);
                let fk = first_nack_from(old(self).target_acks@, 0, cmds.len() as int);
                &&& (r is Ok <==> fk == cmds.len())
                &&& (r matches Err(e) ==> fk < cmds.len() && e == I2cError::NoAcknowledge(
                    if cmds[fk].1 {
                        NoAcknowledgeSource::Address
                    } else {
                        NoAcknowledgeSource::Data
                    },
                ) && !bit_is(final(self).sr, 6))
                &&& (r matches Ok(v) ==> final(self).wire@ == old(self).wire@
                    + cmds.map_values(|x: (u8, bool)| x.0) && v@.len() == operations@.len()
                    && (forall|j: int|
                    0 <= j < operations@.len() ==> v@[j]@ == read_result(
                        operations@,
                        old(self).target_data@,
                        j,
                    )))
            }),
    {
        let ghost acks0 = self.target_acks@;
        let ghost data0 = self.target_data@;
        let ghost wire0 = self.wire@;
        let ghost cmds = wire_cmds(address, operations@);
        let n_ops = operations.len();
        let mut results: Vec<Vec<u8>> = Vec::new();
        if n_ops == 0 {
            return Ok(results);
        }
        let ghost sr_entry = self.sr;
        self.reset();
        proof {
            crate::bitfield::lemma_set_bit(sr_entry, 0, false, 1);
            crate::bitfield::lemma_set_bit(sr_entry, 0, false, 5);
        }
        let mut last_op_was_read: bool = match &operations[0] {
            I2cOp::Read(_) => false,
            I2cOp::Write(_) => true,
        };
        let ghost mut c: int = 0;
        let mut i: usize = 0;
        while i < n_ops
            invariant
                n_ops == operations@.len(),
                0 <= i <= n_ops,
                address < 128,
                cmds == wire_cmds(address, operations@),
                c == wire_cmds(address, operations@.subrange(0, i as int)).len(),
                c <= cmds.len(),
                forall|k: int| 0 <= k < c ==> ack_at(acks0, k),
                self.target_acks@ == script_rest_acks(acks0, c),
                self.target_data@ == script_rest_data(data0, reads_before(operations@, i as int)),
                self.wire@ == wire0 + cmds.subrange(0, c).map_values(|x: (u8, bool)| x.0),
                self.ctr == old(self).ctr,
                !bit_is(self.sr, 1),
                !bit_is(self.sr, 5),
                results@.len() == i,
                forall|j: int|
                    0 <= j < i ==> results@[j]@ == read_result(operations@, data0, j),
            decreases n_ops - i,
        {
            let ghost c_at_op = c;
            proof {
                lemma_reads_before_nonneg(operations@, i as int);
                lemma_wire_cmds_take(address, operations@, i as int);
                lemma_wire_cmds_prefix(address, operations@, i + 1);
                assert forall|k: int|
                    0 <= k < op_cmds(address, operations@[i as int]).len() implies cmds[c_at_op
                    + k] == op_cmds(address, operations@[i as int])[k] by {
                    assert(wire_cmds(address, operations@.subrange(0, i + 1))[c_at_op + k]
                        == op_cmds(address, operations@[i as int])[k]);
                }
            }
            let is_last_op = i == n_ops - 1;
            let op_is_read: bool;
            match &operations[i] {
                I2cOp::Write(bytes) => {
                    op_is_read = false;
                    proof {
                        assert(operations@[i as int] == I2cOp::Write(*bytes));
                    }
                    match self.do_write_op(
                        address,
                        bytes,
                        last_op_was_read,
                        is_last_op,
                        Ghost(acks0),
                        Ghost(cmds),
                        Ghost(c),
                        Ghost(wire0),
                    ) {
                        Ok(()) => {},
                        Err(e) => {
                            return Err(e);
                        },
                    }
                    proof {
                        c = c + 1 + bytes@.len();
                    }
                    results.push(Vec::new());
                },
                I2cOp::Read(n) => {
                    op_is_read = true;
                    let n_bytes = *n;
                    proof {
                        assert(operations@[i as int] == I2cOp::Read(n_bytes));
                    }
                    let buf = match self.do_read_op(
                        address,
                        n_bytes,
                        !last_op_was_read,
                        is_last_op,
                        Ghost(acks0),
                        Ghost(cmds),
                        Ghost(c),
                        Ghost(wire0),
                        Ghost(data0),
                        Ghost(reads_before(operations@, i as int)),
                    ) {
                        Ok(buf) => buf,
                        Err(e) => {
                            return Err(e);
                        },
                    };
                    proof {
                        c = c + 1;
                    }
                    results.push(buf);
                },
            }
            last_op_was_read = op_is_read;
            proof {
                assert(cmds.subrange(0, c) =~= wire_cmds(
                    address,
                    operations@.subrange(0, i + 1),
                ));
                assert(reads_before(operations@, i + 1) == reads_before(
                    operations@,
                    i as int,
                ) + (match operations@[i as int] {
                    I2cOp::Write(b) => 0int,
                    I2cOp::Read(nn) => nn as int,
                }));
                assert(results@[i as int]@ =~= read_result(operations@, data0, i as int));
            }
            i = i + 1;
        }
        proof {
            assert(operations@.subrange(0, n_ops as int) =~= operations@);
            lemma_first_nack(acks0, 0, cmds.len() as int, cmds.len() as int);
            assert(cmds.subrange(0, cmds.len() as int) =~= cmds);
        }
        Ok(results)
    }

    /// One write operation of a transaction: the address byte with the write
    /// flag, then the payload, each byte checked for the target's
    /// acknowledge.
    fn do_write_op(
        &mut self,
        address: u8,
        bytes: &Vec<u8>,
        start: bool,
        is_last_op: bool,
        Ghost(acks0): Ghost<Seq<bool>>,
        Ghost(cmds): Ghost<Seq<(u8, bool)>>,
        Ghost(c0): Ghost<int>,
        Ghost(wire0): Ghost<Seq<u8>>,
    ) -> (r: Result<(), I2cError>)
        requires
            address < 128,
            !bit_is(old(self).sr, 1),
            !bit_is(old(self).sr, 5),
            old(self).target_acks@ == script_rest_acks(acks0, c0),
            old(self).wire@ == wire0 + cmds.subrange(0, c0).map_values(|x: (u8, bool)| x.0),
            forall|k: int| 0 <= k < c0 ==> ack_at(acks0, k),
            0 <= c0,
            c0 + 1 + bytes@.len() <= cmds.len(),
            forall|k: int|
                0 <= k < 1 + bytes@.len() ==> cmds[c0 + k] == op_cmds(
                    address,
                    I2cOp::Write(*bytes),
                )[k],
        ensures
            final(self).ctr == old(self).ctr,
            final(self).target_data@ == old(self).target_data@,
            !bit_is(final(self).sr, 1),
            !bit_is(final(self).sr, 5),
            r is Ok <==> (forall|k: int| 0 <= k < c0 + 1 + bytes@.len() ==> ack_at(acks0, k)),
            r is Ok ==> final(self).target_acks@ == script_rest_acks(acks0, c0 + 1
                + bytes@.len()) && final(self).wire@ == wire0 + cmds.subrange(
                0,
                c0 + 1 + bytes@.len(),
            ).map_values(|x: (u8, bool)| x.0),
            r matches Err(e) ==> ({
                let fk = first_nack_from(acks0, 0, cmds.len() as int);
                fk < cmds.len() && e == I2cError::NoAcknowledge(
                    if cmds[fk].1 {
                        NoAcknowledgeSource::Address
                    } else {
                        NoAcknowledgeSource::Data
                    },
                ) && !bit_is(final(self).sr, 6)
            }),
    {
        let write_cmd: u8 = address << 1;
        proof {
            assert(address < 128 ==> (address << 1u8) == (2 * address) as u8) by (bit_vector);
            assert(op_cmds(address, I2cOp::Write(*bytes))[0] == (((2 * address) as u8, true)));
        }
        self.write_txr(write_cmd);
        match self.send_byte(
            Ghost(acks0),
            Ghost(cmds),
            Ghost(c0),
            Ghost(wire0),
            start,
            false,
            NoAcknowledgeSource::Address,
        ) {
            Ok(()) => {},
            Err(e) => {
                return Err(e);
            },
        }
        let n_bytes = bytes.len();
        let mut j: usize = 0;
        while j < n_bytes
            invariant
                n_bytes == bytes@.len(),
                0 <= j <= n_bytes,
                address < 128,
                0 <= c0,
                c0 + 1 + bytes@.len() <= cmds.len(),
                forall|k: int|
                    0 <= k < 1 + bytes@.len() ==> cmds[c0 + k] == op_cmds(
                        address,
                        I2cOp::Write(*bytes),
                    )[k],
                forall|k: int| 0 <= k < c0 + 1 + j ==> ack_at(acks0, k),
                self.target_acks@ == script_rest_acks(acks0, c0 + 1 + j),
                self.target_data@ == old(self).target_data@,
                self.wire@ == wire0 + cmds.subrange(0, c0 + 1 + j).map_values(
                    |x: (u8, bool)| x.0,
                ),
                self.ctr == old(self).ctr,
                !bit_is(self.sr, 1),
                !bit_is(self.sr, 5),
            decreases n_bytes - j,
        {
            proof {
                assert(op_cmds(address, I2cOp::Write(*bytes))[1 + j] == ((bytes@[j as int],
                    false)));
            }
            self.write_txr(bytes[j]);
            match self.send_byte(
                Ghost(acks0),
                Ghost(cmds),
                Ghost(c0 + 1 + j),
                Ghost(wire0),
                false,
                is_last_op && j == n_bytes - 1,
                NoAcknowledgeSource::Data,
            ) {
                Ok(()) => {},
                Err(e) => {
                    return Err(e);
                },
            }
            j = j + 1;
        }
        Ok(())
    }

    /// One read operation of a transaction: the address byte with the read
    /// flag, then the requested number of bytes received from the target.
    fn do_read_op(
        &mut self,
        address: u8,
        n_bytes: usize,
        start: bool,
        is_last_op: bool,
        Ghost(acks0): Ghost<Seq<bool>>,
        Ghost(cmds): Ghost<Seq<(u8, bool)>>,
        Ghost(c0): Ghost<int>,
        Ghost(wire0): Ghost<Seq<u8>>,
        Ghost(data0): Ghost<Seq<u8>>,
        Ghost(d0): Ghost<int>,
    ) -> (r: Result<Vec<u8>, I2cError>)
        requires
            address < 128,
            !bit_is(old(self).sr, 1),
            !bit_is(old(self).sr, 5),
            old(self).target_acks@ == script_rest_acks(acks0, c0),
            old(self).target_data@ == script_rest_data(data0, d0),
            old(self).wire@ == wire0 + cmds.subrange(0, c0).map_values(|x: (u8, bool)| x.0),
            forall|k: int| 0 <= k < c0 ==> ack_at(acks0, k),
            0 <= c0,
            0 <= d0,
            c0 + 1 <= cmds.len(),
            cmds[c0] == op_cmds(address, I2cOp::Read(n_bytes))[0],
        ensures
            final(self).ctr == old(self).ctr,
            !bit_is(final(self).sr, 1),
            !bit_is(final(self).sr, 5),
            r is Ok <==> (forall|k: int| 0 <= k < c0 + 1 ==> ack_at(acks0, k)),
            r matches Ok(buf) ==> final(self).target_acks@ == script_rest_acks(acks0, c0 + 1)
                && final(self).target_data@ == script_rest_data(data0, d0 + n_bytes)
                && final(self).wire@ == wire0 + cmds.subrange(0, c0 + 1).map_values(
                |x: (u8, bool)| x.0,
            ) && buf@ == Seq::new(n_bytes as nat, |k: int| data_at(data0, d0 + k)),
            r matches Err(e) ==> ({
                let fk = first_nack_from(acks0, 0, cmds.len() as int);
                fk < cmds.len() && e == I2cError::NoAcknowledge(
                    if cmds[fk].1 {
                        NoAcknowledgeSource::Address
                    } else {
                        NoAcknowledgeSource::Data
                    },
                ) && !bit_is(final(self).sr, 6)
            }),
    {
        let read_cmd: u8 = {
            proof {
                assert(address < 128 ==> (address << 1u8) < 255) by (bit_vector);
            }
            (address << 1) + 1
        };
        proof {
            assert(address < 128 ==> (address << 1u8) == (2 * address) as u8) by (bit_vector);
            assert(op_cmds(address, I2cOp::Read(n_bytes))[0] == (((2 * address + 1) as u8,
                true)));
        }
        self.write_txr(read_cmd);
        match self.send_byte(
            Ghost(acks0),
            Ghost(cmds),
            Ghost(c0),
            Ghost(wire0),
            start,
            false,
            NoAcknowledgeSource::Address,
        ) {
            Ok(()) => {},
            Err(e) => {
                return Err(e);
            },
        }
        let mut buf: Vec<u8> = Vec::new();
        let mut j: usize = 0;
        while j < n_bytes
            invariant
                0 <= j <= n_bytes,
                0 <= d0,
                buf@ == Seq::new(j as nat, |k: int| data_at(data0, d0 + k)),
                self.target_acks@ == script_rest_acks(acks0, c0 + 1),
                self.target_data@ == script_rest_data(data0, d0 + j),
                self.wire@ == wire0 + cmds.subrange(0, c0 + 1).map_values(
                    |x: (u8, bool)| x.0,
                ),
                self.ctr == old(self).ctr,
                !bit_is(self.sr, 1),
                !bit_is(self.sr, 5),
            decreases n_bytes - j,
        {
            let ghost dpos = d0 + j;
            let ghost sr_before = self.sr;
            self.trigger_read(j == n_bytes - 1, is_last_op && j == n_bytes - 1);
            proof {
                crate::bitfield::lemma_set_bit(sr_before, 6, !(is_last_op && j == n_bytes
                    - 1), 1);
                crate::bitfield::lemma_set_bit(sr_before, 6, !(is_last_op && j == n_bytes
                    - 1), 5);
            }
            match self.wait_for_read() {
                Ok(()) => {},
                Err(e) => {
                    // Arbitration is never lost in this model.
                    proof {
                        assert(false);
                    }
                    return Err(e);
                },
            }
            let b = self.read_rxr();
            buf.push(b);
            proof {
                assert(data_at(script_rest_data(data0, dpos), 0) == data_at(data0, dpos));
                assert(buf@ =~= Seq::new((j + 1) as nat, |k: int| data_at(data0, d0 + k)));
                if script_rest_data(data0, dpos).len() > 0 {
                    assert(script_rest_data(data0, dpos).subrange(
                        1,
                        script_rest_data(data0, dpos).len() as int,
                    ) =~= script_rest_data(data0, dpos + 1));
                } else {
                    assert(script_rest_data(data0, dpos) =~= script_rest_data(data0, dpos + 1));
                }
            }
            j = j + 1;
        }
        Ok(buf)
    }

    /// Sends the transmit register as wire byte `c` of a transaction and
    /// checks the target's acknowledge, turning a refusal into the
    /// transaction's error with a stop condition on the bus.
    fn send_byte(
        &mut self,
        Ghost(acks0): Ghost<Seq<bool>>,
        Ghost(cmds): Ghost<Seq<(u8, bool)>>,
        Ghost(c): Ghost<int>,
        Ghost(wire0): Ghost<Seq<u8>>,
        start: bool,
        stop: bool,
        source: NoAcknowledgeSource,
    ) -> (r: Result<(), I2cError>)
        requires
            !bit_is(old(self).sr, 1),
            !bit_is(old(self).sr, 5),
            old(self).target_acks@ == script_rest_acks(acks0, c),
            0 <= c < cmds.len(),
            forall|j: int| 0 <= j < c ==> ack_at(acks0, j),
            cmds[c] == (old(self).txr, (source is Address)),
            old(self).wire@ == wire0 + cmds.subrange(0, c).map_values(|x: (u8, bool)| x.0),
        ensures
            final(self).ctr == old(self).ctr,
            final(self).target_acks@ == script_rest_acks(acks0, c + 1),
            final(self).target_data@ == old(self).target_data@,
            final(self).wire@ == wire0 + cmds.subrange(0, c + 1).map_values(
                |x: (u8, bool)| x.0,
            ),
            !bit_is(final(self).sr, 1),
            !bit_is(final(self).sr, 5),
            r is Ok <==> ack_at(acks0, c),
            r is Ok ==> forall|j: int| 0 <= j < c + 1 ==> ack_at(acks0, j),
            r matches Err(e) ==> e == I2cError::NoAcknowledge(
                if cmds[first_nack_from(acks0, 0, cmds.len() as int)].1 {
                    NoAcknowledgeSource::Address
                } else {
                    NoAcknowledgeSource::Data
                },
            ) && first_nack_from(acks0, 0, cmds.len() as int) == c && !bit_is(final(self).sr, 6),
    {
        proof {
            assert(ack_at(script_rest_acks(acks0, c), 0) == ack_at(acks0, c));
        }
        let ghost sr0 = self.sr;
        self.trigger_write(start, stop);
        proof {
            let s1 = crate::bitfield::spec_set_bit(sr0, 7, !ack_at(acks0, c));
            crate::bitfield::lemma_set_bit(sr0, 7, !ack_at(acks0, c), 1);
            crate::bitfield::lemma_set_bit(sr0, 7, !ack_at(acks0, c), 5);
            crate::bitfield::lemma_set_bit(sr0, 7, !ack_at(acks0, c), 7);
            crate::bitfield::lemma_set_bit(s1, 6, !stop, 1);
            crate::bitfield::lemma_set_bit(s1, 6, !stop, 5);
            crate::bitfield::lemma_set_bit(s1, 6, !stop, 7);
            if script_rest_acks(acks0, c).len() > 0 {
                assert(script_rest_acks(acks0, c).subrange(
                    1,
                    script_rest_acks(acks0, c).len() as int,
                ) =~= script_rest_acks(acks0, c + 1));
            } else {
                assert(script_rest_acks(acks0, c) =~= script_rest_acks(acks0, c + 1));
            }
            assert(cmds.subrange(0, c + 1).map_values(|x: (u8, bool)| x.0) =~= cmds.subrange(
                0,
                c,
            ).map_values(|x: (u8, bool)| x.0).push(cmds[c].0));
        }
        let ghost sr1 = self.sr;
        match self.wait_for_write(source) {
            Ok(()) => Ok(()),
            Err(e) => {
                proof {
                    crate::bitfield::lemma_set_bit(sr1, 6, false, 1);
                    crate::bitfield::lemma_set_bit(sr1, 6, false, 5);
                    crate::bitfield::lemma_set_bit(sr1, 6, false, 6);
                    lemma_first_nack(acks0, 0, c, cmds.len() as int);
                }
                Err(e)
            },
        }
    }

    /// Wait for a read command to complete. On arbitration loss a stop
    /// condition is issued and the loss is reported.
    pub fn wait_for_read(&mut self) -> (r: Result<(), I2cError>)
        requires
            !bit_is(old(self).sr, 1),
        ensures
            bit_is(old(self).sr, 5) ==> r == Result::<(), I2cError>::Err(
                I2cError::ArbitrationLoss,
            ) && final(self).sr == spec_set_bit(old(self).sr, 6, false) && final(self).state_unchanged(*old(self)),
            !bit_is(old(self).sr, 5) ==> r is Ok && *final(self) == *old(self),
            final(self).ctr == old(self).ctr,
    {
        match self.ack_interrupt() {
            AckPoll::ArbitrationLoss => Err(I2cError::ArbitrationLoss),
            AckPoll::WouldBlock => {
                // A transfer cannot be in progress here.
                proof {
                    assert(false);
                }
                Err(I2cError::ArbitrationLoss)
            },
            AckPoll::Ready => Ok(()),
        }
    }
}

impl<PINS> I2c<PINS> {
    /// One poll of a wait for bus idle, driven by the I2C interrupt: each
    /// pending poll stores the task's handle in the shared slot (overwriting
    /// any stale one) and turns the interrupt on; the wait completes once
    /// the bus is idle.
    pub fn poll_idle(
        &mut self,
        handle: u64,
        slot: &mut crate::waker::WakerSlot,
    ) -> (ready: bool)
        ensures
            ready <==> !bit_is(old(self).sr, 6),
            ready ==> *final(self) == *old(self) && *final(slot) == *old(slot),
            !ready ==> final(slot).handle == Some(handle) && final(self).ctr == spec_set_bit(
                old(self).ctr,
                6,
                true,
            ) && final(self).sr == old(self).sr && final(self).state_unchanged(*old(self)),
    {
        if self.is_idle() {
            true
        } else {
            slot.register(handle);
            self.enable_interrupt();
            false
        }
    }

    /// One poll of a wait for command completion. While a transfer is in
    /// progress it registers the handle and enables the interrupt; once the
    /// transfer ends it reports completion or the arbitration loss.
    pub fn poll_ack(
        &mut self,
        handle: u64,
        slot: &mut crate::waker::WakerSlot,
    ) -> (r: Option<AckPoll>)
        ensures
            r is None <==> bit_is(old(self).sr, 1),
            r is None ==> final(slot).handle == Some(handle) && final(self).ctr == spec_set_bit(
                old(self).ctr,
                6,
                true,
            ) && final(self).sr == old(self).sr && final(self).state_unchanged(*old(self)),
            r == Some(AckPoll::ArbitrationLoss) <==> !bit_is(old(self).sr, 1) && bit_is(
                old(self).sr,
                5,
            ),
            r == Some(AckPoll::ArbitrationLoss) ==> final(self).sr == spec_set_bit(
                old(self).sr,
                6,
                false,
            ) && final(self).ctr == old(self).ctr && final(self).state_unchanged(*old(self))
                && *final(slot) == *old(slot),
            r == Some(AckPoll::Ready) <==> !bit_is(old(self).sr, 1) && !bit_is(old(self).sr, 5),
            r == Some(AckPoll::Ready) ==> *final(self) == *old(self) && *final(slot) == *old(slot),
    {
        match self.ack_interrupt() {
            AckPoll::WouldBlock => {
                slot.register(handle);
                self.enable_interrupt();
                None
            },
            AckPoll::ArbitrationLoss => Some(AckPoll::ArbitrationLoss),
            AckPoll::Ready => Some(AckPoll::Ready),
        }
    }
}

/// Services the I2C interrupt: takes the waiter out of its slot for the
/// caller to resume, masks the interrupt while preserving the peripheral
/// enable, and acknowledges the pending flag.
pub fn on_irq<PINS>(i2c: &mut I2c<PINS>, slot: &mut crate::waker::WakerSlot) -> (r: Option<
    u64,
>)
    ensures
        r == old(slot).handle,
        final(slot).handle is None,
        final(i2c).ctr == spec_set_bit(old(i2c).ctr, 6, false),
        final(i2c).sr == spec_set_bit(old(i2c).sr, 0, false),
        final(i2c).state_unchanged(*old(i2c)),
{
    let handle = slot.take();
    i2c.disable_interrupt();
    i2c.clear_interrupt();
    handle
}

} // verus!
