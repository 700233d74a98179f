//! Machine-timer based delays: the bounded timer queue, the compare-register
//! scheduler, and the suspend-until-deadline state machine.
//!
//! The queue of pending expirations is a fixed-capacity min-heap keyed by
//! absolute tick. The machine timer itself is modelled as an owned register
//! file (`Mtimer`); the unverified embedding maps it onto the real
//! memory-mapped counter and runs `schedule_machine_timer` from the
//! machine-timer interrupt handler, resuming every handle that a drain hands
//! back.

use vstd::multiset::Multiset;
use vstd::prelude::*;

verus! {

broadcast use vstd::multiset::group_multiset_axioms;

/// Capacity of the timer queue: at most this many waits may be pending.
pub const N_TIMERS: usize = 16;

/// Timer queue entry: an absolute expiration tick and the resumption handle
/// to invoke once that tick has been reached.
///
/// A resumption handle is an opaque token; the embedding maps each token to
/// the waker of the suspended task it stands for.
#[derive(Clone, Copy, Debug, PartialEq, Eq, Structural)]
pub struct Timer {
    /// Absolute tick at which the wait expires.
    pub expires: u64,
    /// Resumption handle to invoke at expiry.
    pub waker: u64,
}

impl Timer {
    /// The entry as a (deadline, handle) pair, the shape the queue stores.
    pub open spec fn pair(self) -> (u64, u64) {
        (self.expires, self.waker)
    }

    /// Creates a new timer queue entry.
    pub fn new(expires: u64, waker: u64) -> (t: Timer)
        ensures
            t == (Timer { expires, waker }),
            t.expires == expires,
            t.waker == waker,
    {
        Timer { expires, waker }
    }

    /// Returns the expiration tick of the timer.
    pub fn expires(&self) -> (r: u64)
        ensures
            r == self.expires,
    {
        self.expires
    }

    /// Consumes the timer and yields the handle that must now be resumed.
    pub fn wake(self) -> (r: u64)
        ensures
            r == self.waker,
    {
        self.waker
    }
}

/// The multiset of (deadline, handle) pairs held by a sequence of timers.
pub open spec fn pairs_ms(s: Seq<Timer>) -> Multiset<(u64, u64)>
    decreases s.len(),
{
    if s.len() == 0 {
        Multiset::empty()
    } else {
        pairs_ms(s.drop_last()).insert(s.last().pair())
    }
}

/// Appending a timer to a sequence inserts its pair into the multiset.
pub proof fn lemma_pairs_ms_push(s: Seq<Timer>, t: Timer)
    ensures
        pairs_ms(s.push(t)) == pairs_ms(s).insert(t.pair()),
{
    assert(s.push(t).drop_last() =~= s);
    assert(s.push(t).last() == t);
}

/// Backing store of the timer queue: a bounded min-heap of (deadline, handle)
/// pairs, ordered by deadline first. The heap itself comes from an outside
/// crate and is held opaquely; its observable contents are named by
/// `timer_heap_entries` and every operation is specified over that name.
#[verifier::external_body]
pub struct TimerHeap {
    heap: heapless::binary_heap::BinaryHeap<(u64, u64), heapless::binary_heap::Min, 16>,
}

/// The multiset of pairs currently stored in the heap.
pub uninterp spec fn timer_heap_entries(h: TimerHeap) -> Multiset<(u64, u64)>;

/// Relies on heapless::binary_heap::BinaryHeap::new: creates an empty heap.
#[verifier::external_body]
fn timer_heap_new() -> (h: TimerHeap)
    ensures
        timer_heap_entries(h) == Multiset::<(u64, u64)>::empty(),
{
    TimerHeap { heap: heapless::binary_heap::BinaryHeap::new() }
}

/// Relies on heapless::binary_heap::BinaryHeap::len: the number of stored items.
#[verifier::external_body]
fn timer_heap_len(h: &TimerHeap) -> (n: usize)
    ensures
        n == timer_heap_entries(*h).len(),
{
    h.heap.len()
}

/// Relies on heapless::binary_heap::BinaryHeap::push: stores the item, or
/// hands it back unchanged when the heap already holds its capacity of 16.
#[verifier::external_body]
fn timer_heap_push(h: &mut TimerHeap, e: (u64, u64)) -> (r: Result<(), (u64, u64)>)
    ensures
        r is Ok <==> timer_heap_entries(*old(h)).len() < 16,
        r is Ok ==> timer_heap_entries(*final(h)) == timer_heap_entries(*old(h)).insert(e),
        r matches Err(back) ==> back == e
            && timer_heap_entries(*final(h)) == timer_heap_entries(*old(h)),
{
    h.heap.push(e)
}

/// Relies on heapless::binary_heap::BinaryHeap::pop with the Min kind: removes
/// and returns an item no greater than any other (so its deadline is minimal),
/// or None when the heap is empty.
#[verifier::external_body]
fn timer_heap_pop(h: &mut TimerHeap) -> (r: Option<(u64, u64)>)
    ensures
        r is None <==> timer_heap_entries(*old(h)).len() == 0,
        r is None ==> timer_heap_entries(*final(h)) == timer_heap_entries(*old(h)),
        r matches Some(m) ==> timer_heap_entries(*old(h)).count(m) > 0
            && timer_heap_entries(*final(h)) == timer_heap_entries(*old(h)).remove(m)
            && (forall|e: (u64, u64)| timer_heap_entries(*old(h)).count(e) > 0 ==> m.0 <= e.0),
{
    h.heap.pop()
}

/// Relies on heapless::binary_heap::BinaryHeap::peek with the Min kind:
/// a copy of an item with minimal deadline, or None when empty; the heap is
/// not changed.
#[verifier::external_body]
fn timer_heap_peek(h: &TimerHeap) -> (r: Option<(u64, u64)>)
    ensures
        r is None <==> timer_heap_entries(*h).len() == 0,
        r matches Some(m) ==> timer_heap_entries(*h).count(m) > 0
            && (forall|e: (u64, u64)| timer_heap_entries(*h).count(e) > 0 ==> m.0 <= e.0),
{
    h.heap.peek().copied()
}

/// Bounded-capacity queue of pending expirations, ordered by deadline.
///
/// Owned state: the embedding keeps one queue per hart and brackets every
/// access in a critical section against the machine-timer interrupt handler.
pub struct TimerQueue {
    heap: TimerHeap,
}

impl TimerQueue {
    /// The multiset of (deadline, handle) pairs currently queued.
    pub closed spec fn entries(self) -> Multiset<(u64, u64)> {
        timer_heap_entries(self.heap)
    }

    /// Creates an empty queue.
    pub fn new() -> (q: TimerQueue)
        ensures
            q.entries() == Multiset::<(u64, u64)>::empty(),
    {
        TimerQueue { heap: timer_heap_new() }
    }

    /// The number of pending entries.
    pub fn len(&self) -> (n: usize)
        ensures
            n == self.entries().len(),
    {
        timer_heap_len(&self.heap)
    }

    /// Tries to queue a new expiration. When the queue already holds
    /// `N_TIMERS` entries the entry is handed back to the caller unconsumed;
    /// it is never silently dropped.
    pub fn push_timer(&mut self, t: Timer) -> (r: Result<(), Timer>)
        ensures
            old(self).entries().len() < N_TIMERS ==> {
                &&& r is Ok
                &&& final(self).entries() == old(self).entries().insert(t.pair())
            },
            old(self).entries().len() >= N_TIMERS ==> {
                &&& r == Result::<(), Timer>::Err(t)
                &&& final(self).entries() == old(self).entries()
            },
    {
        match timer_heap_push(&mut self.heap, (t.expires, t.waker)) {
            Ok(()) => Ok(()),
            Err(e) => Err(Timer { expires: e.0, waker: e.1 }),
        }
    }

    /// Removes every entry whose deadline has been reached, in non-decreasing
    /// deadline order, and returns them together with the earliest remaining
    /// deadline (None when the queue is now empty).
    ///
    /// Each queued entry is fired at most once: the returned timers and the
    /// remaining entries partition the old contents. Nothing fires before its
    /// deadline, and nothing expired stays behind.
    pub fn wake_timers(&mut self, current_tick: u64) -> (r: (Vec<Timer>, Option<u64>))
        ensures
            old(self).entries() == final(self).entries().add(pairs_ms(r.0@)),
            forall|i: int| 0 <= i < r.0@.len() ==> r.0@[i].expires <= current_tick,
            forall|i: int, j: int|
                0 <= i <= j < r.0@.len() ==> r.0@[i].expires <= r.0@[j].expires,
            forall|e: (u64, u64)| final(self).entries().count(e) > 0 ==> e.0 > current_tick,
            r.1 is None <==> final(self).entries().len() == 0,
            r.1 matches Some(d) ==> {
                &&& d > current_tick
                &&& exists|e: (u64, u64)| final(self).entries().count(e) > 0 && e.0 == d
                &&& forall|e: (u64, u64)| final(self).entries().count(e) > 0 ==> d <= e.0
            },
    {
        let mut fired: Vec<Timer> = Vec::new();
        let mut next: Option<u64> = None;
        loop
            invariant_except_break
                next is None,
            invariant
                old(self).entries() == self.entries().add(pairs_ms(fired@)),
                forall|i: int| 0 <= i < fired@.len() ==> fired@[i].expires <= current_tick,
                forall|i: int, j: int|
                    0 <= i <= j < fired@.len() ==> fired@[i].expires <= fired@[j].expires,
                forall|i: int, e: (u64, u64)|
                    0 <= i < fired@.len() && self.entries().count(e) > 0
                        ==> fired@[i].expires <= e.0,
            ensures
                next is None ==> self.entries().len() == 0,
                next matches Some(d) ==> d > current_tick
                    && (exists|e: (u64, u64)| self.entries().count(e) > 0 && e.0 == d)
                    && (forall|e: (u64, u64)| self.entries().count(e) > 0 ==> d <= e.0),
            decreases self.entries().len(),
        {
            match timer_heap_peek(&self.heap) {
                None => {
                    break;
                },
                Some(top) => {
                    if top.0 > current_tick {
                        next = Some(top.0);
                        proof {
                            assert(self.entries().count(top) > 0 && top.0 == top.0);
                        }
                        break;
                    }
                    let ghost before = self.entries();
                    let ghost fired_before = fired@;
                    let m = timer_heap_pop(&mut self.heap).unwrap();
                    let t = Timer { expires: m.0, waker: m.1 };
                    proof {
                        lemma_pairs_ms_push(fired_before, t);
                        assert(t.pair() == m);
                        // Re-inserting the popped minimum restores the old contents,
                        // so the partition of the entries is preserved.
                        assert(before =~= self.entries().insert(m));
                        assert(self.entries().add(pairs_ms(fired_before).insert(m))
                            =~= before.add(pairs_ms(fired_before)));
                    }
                    fired.push(t);
                },
            }
        }
        (fired, next)
    }
}

/// A pair held by a timer sequence always comes from some element of it.
pub proof fn lemma_pairs_ms_count(s: Seq<Timer>, p: (u64, u64))
    ensures
        pairs_ms(s).count(p) > 0 ==> exists|i: int| 0 <= i < s.len() && s[i].pair() == p,
    decreases s.len(),
{
    if s.len() > 0 {
        lemma_pairs_ms_count(s.drop_last(), p);
        if pairs_ms(s).count(p) > 0 {
            if s.last().pair() == p {
                assert(s[s.len() - 1].pair() == p);
            } else {
                let i = choose|i: int| 0 <= i < s.drop_last().len() && s.drop_last()[i].pair()
                    == p;
                assert(s[i].pair() == p);
            }
        }
    }
}

/// Once the queue has been drained at tick `now`, every entry whose deadline
/// had been reached was handed out, as many times as it was queued: nothing
/// expired is ever left behind, so every registered handle fires once its
/// deadline is reached and the handler runs.
pub proof fn lemma_drain_fires_all_expired(
    before: Multiset<(u64, u64)>,
    after: Multiset<(u64, u64)>,
    fired: Seq<Timer>,
    now: u64,
)
    requires
        before == after.add(pairs_ms(fired)),
        forall|e: (u64, u64)| after.count(e) > 0 ==> e.0 > now,
    ensures
        forall|e: (u64, u64)|
            e.0 <= now ==> pairs_ms(fired).count(e) == before.count(e),
{
    assert forall|e: (u64, u64)| e.0 <= now implies pairs_ms(fired).count(e) == before.count(
        e,
    ) by {
        assert(after.count(e) == 0);
    }
}

/// The machine timer register file: a monotonic counter, one compare value,
/// the compare-interrupt enable, and the counter frequency in Hz.
///
/// The embedding maps this onto the hardware counter; tests drive `advance`.
pub struct Mtimer {
    /// Current tick of the monotonic counter.
    pub mtime: u64,
    /// Compare value: the interrupt fires when `mtime` reaches it.
    pub mtimecmp: u64,
    /// Whether the compare interrupt is enabled.
    pub cmp_enabled: bool,
    /// Counter frequency in Hz.
    pub freq: u32,
}

impl Mtimer {
    /// True when the compare interrupt is being requested.
    pub open spec fn interrupt_pending(self) -> bool {
        self.cmp_enabled && self.mtime >= self.mtimecmp
    }

    /// A timer at tick zero, compare interrupt masked.
    pub fn new(freq: u32) -> (m: Mtimer)
        ensures
            m.mtime == 0,
            m.mtimecmp == 0,
            !m.cmp_enabled,
            m.freq == freq,
    {
        Mtimer { mtime: 0, mtimecmp: 0, cmp_enabled: false, freq }
    }

    /// Reads the current tick.
    pub fn read_mtime(&self) -> (r: u64)
        ensures
            r == self.mtime,
    {
        self.mtime
    }

    /// Reports the counter frequency in Hz.
    pub fn mtime_freq(&self) -> (r: u32)
        ensures
            r == self.freq,
    {
        self.freq
    }

    /// Sets the compare value.
    pub fn write_mtimecmp(&mut self, value: u64)
        ensures
            final(self).mtimecmp == value,
            final(self).mtime == old(self).mtime,
            final(self).cmp_enabled == old(self).cmp_enabled,
            final(self).freq == old(self).freq,
    {
        self.mtimecmp = value;
    }

    /// Enables the compare interrupt.
    pub fn enable(&mut self)
        ensures
            final(self).cmp_enabled,
            final(self).mtime == old(self).mtime,
            final(self).mtimecmp == old(self).mtimecmp,
            final(self).freq == old(self).freq,
    {
        self.cmp_enabled = true;
    }

    /// Masks the compare interrupt.
    pub fn disable(&mut self)
        ensures
            !final(self).cmp_enabled,
            final(self).mtime == old(self).mtime,
            final(self).mtimecmp == old(self).mtimecmp,
            final(self).freq == old(self).freq,
    {
        self.cmp_enabled = false;
    }

    /// Moves the counter forward; the counter is monotonic and never steps back.
    pub fn advance(&mut self, ticks: u64)
        requires
            old(self).mtime + ticks <= u64::MAX,
        ensures
            final(self).mtime == old(self).mtime + ticks,
            final(self).mtimecmp == old(self).mtimecmp,
            final(self).cmp_enabled == old(self).cmp_enabled,
            final(self).freq == old(self).freq,
    {
        self.mtime = self.mtime + ticks;
    }
}

/// Services the machine-timer interrupt: masks the compare interrupt, drains
/// every expired entry at the current tick, then re-arms the compare register
/// with the earliest remaining deadline -- which is proved to lie strictly in
/// the future -- or stays masked when nothing is pending.
///
/// The returned timers are the waits to resume, in non-decreasing deadline
/// order; none of them fires before its deadline.
pub fn schedule_machine_timer(mtimer: &mut Mtimer, queue: &mut TimerQueue) -> (fired: Vec<
    Timer,
>)
    ensures
        final(mtimer).mtime == old(mtimer).mtime,
        final(mtimer).freq == old(mtimer).freq,
        old(queue).entries() == final(queue).entries().add(pairs_ms(fired@)),
        forall|i: int| 0 <= i < fired@.len() ==> fired@[i].expires <= old(mtimer).mtime,
        forall|i: int, j: int|
            0 <= i <= j < fired@.len() ==> fired@[i].expires <= fired@[j].expires,
        forall|e: (u64, u64)|
            final(queue).entries().count(e) > 0 ==> e.0 > old(mtimer).mtime,
        final(queue).entries().len() == 0 ==> !final(mtimer).cmp_enabled,
        final(queue).entries().len() > 0 ==> final(mtimer).cmp_enabled
            && final(mtimer).mtimecmp > old(mtimer).mtime
            && (forall|e: (u64, u64)|
                final(queue).entries().count(e) > 0 ==> final(mtimer).mtimecmp <= e.0)
            && (exists|e: (u64, u64)|
                final(queue).entries().count(e) > 0 && e.0 == final(mtimer).mtimecmp),
{
    let current_tick = mtimer.read_mtime();
    mtimer.disable();
    let (fired, next) = queue.wake_timers(current_tick);
    match next {
        Some(n) => {
            mtimer.write_mtimecmp(n);
            mtimer.enable();
        },
        None => {},
    }
    fired
}

/// Outcome of polling a pending delay.
#[derive(Clone, Copy, Debug, PartialEq, Eq, Structural)]
pub enum DelayPoll {
    /// The deadline has been reached; the wait is over.
    Ready,
    /// The deadline lies ahead; the caller should suspend until resumed.
    Pending,
    /// The timer queue was full: the entry is handed back unconsumed and the
    /// wait was not registered. The calling layer decides what happens next.
    Rejected(Timer),
}

/// A suspend-until-deadline wait in progress.
///
/// Suspension is a poll-driven state machine: the first poll that finds the
/// deadline unmet registers exactly one queue entry and arms the scheduler;
/// later polls of the same wait never push a second entry.
pub struct DelayWait {
    /// Absolute tick at which the wait completes.
    pub expires: u64,
    /// Whether this wait has already registered its queue entry.
    pub pushed: bool,
}

impl DelayWait {
    /// Polls the wait at the current tick.
    ///
    /// The wait completes exactly when the tick has reached the deadline, so a
    /// delay of `n` ticks resumes only at a tick at least `n` past its start.
    /// A deadline that has already passed completes immediately without ever
    /// registering a queue entry.
    pub fn poll(&mut self, handle: u64, mtimer: &mut Mtimer, queue: &mut TimerQueue) -> (r: (
        DelayPoll,
        Vec<Timer>,
    ))
        ensures
            final(self).expires == old(self).expires,
            final(mtimer).mtime == old(mtimer).mtime,
            final(mtimer).freq == old(mtimer).freq,
            r.0 is Ready <==> old(mtimer).mtime >= old(self).expires,
            r.0 is Ready ==> *final(self) == *old(self) && *final(queue) == *old(queue)
                && *final(mtimer) == *old(mtimer) && r.1@.len() == 0,
            old(self).pushed && old(mtimer).mtime < old(self).expires ==> r.0 is Pending
                && *final(self) == *old(self) && *final(queue) == *old(queue)
                && *final(mtimer) == *old(mtimer) && r.1@.len() == 0,
            !old(self).pushed && old(mtimer).mtime < old(self).expires
                && old(queue).entries().len() < N_TIMERS ==> r.0 is Pending
                && final(self).pushed
                && final(queue).entries().count((old(self).expires, handle)) > 0
                && final(queue).entries().add(pairs_ms(r.1@))
                    == old(queue).entries().insert((old(self).expires, handle))
                && (forall|i: int| 0 <= i < r.1@.len() ==> r.1@[i].expires <= old(mtimer).mtime)
                && (forall|e: (u64, u64)|
                    final(queue).entries().count(e) > 0 ==> e.0 > old(mtimer).mtime)
                && final(mtimer).cmp_enabled
                && final(mtimer).mtimecmp > old(mtimer).mtime
                && final(mtimer).mtimecmp <= old(self).expires
                && (forall|e: (u64, u64)|
                    final(queue).entries().count(e) > 0 ==> final(mtimer).mtimecmp <= e.0)
                && (exists|e: (u64, u64)|
                    final(queue).entries().count(e) > 0 && e.0 == final(mtimer).mtimecmp),
            !old(self).pushed && old(mtimer).mtime < old(self).expires
                && old(queue).entries().len() >= N_TIMERS
                ==> r.0 == DelayPoll::Rejected((Timer { expires: old(self).expires, waker: handle }))
                && !final(self).pushed && final(queue).entries() == old(queue).entries()
                && *final(mtimer) == *old(mtimer) && r.1@.len() == 0,
    {
        if mtimer.read_mtime() < self.expires {
            if !self.pushed {
                let t = Timer::new(self.expires, handle);
                match queue.push_timer(t) {
                    Ok(()) => {
                        self.pushed = true;
                        let ghost inserted = queue.entries();
                        let fired = schedule_machine_timer(mtimer, queue);
                        proof {
                            lemma_pairs_ms_count(fired@, (self.expires, handle));
                            assert(inserted.count((self.expires, handle)) > 0);
                            assert(pairs_ms(fired@).count((self.expires, handle)) == 0) by {
                                if pairs_ms(fired@).count((self.expires, handle)) > 0 {
                                    let i = choose|i: int|
                                        0 <= i < fired@.len() && fired@[i].pair() == (
                                        self.expires,
                                        handle,
                                        );
                                    assert(fired@[i].expires <= mtimer.mtime);
                                }
                            }
                            assert(queue.entries().count((self.expires, handle)) > 0);
                        }
                        (DelayPoll::Pending, fired)
                    },
                    Err(back) => (DelayPoll::Rejected(back), Vec::new()),
                }
            } else {
                (DelayPoll::Pending, Vec::new())
            }
        } else {
            (DelayPoll::Ready, Vec::new())
        }
    }
}

/// Ticks that elapse in `amount` units of `1 / unit_div` seconds at `freq` Hz,
/// truncated toward zero: the computed delay is a lower bound, never longer
/// than requested.
pub open spec fn ticks_for(freq: u32, amount: u32, unit_div: u64) -> u64 {
    (((amount as int) * (freq as int)) / (unit_div as int)) as u64
}

/// Asynchronous delay source backed by the machine timer.
pub struct Delay {
    /// The machine timer this delay instance schedules against.
    pub mtimer: Mtimer,
}

impl Delay {
    /// Creates a new delay instance.
    pub fn new(mtimer: Mtimer) -> (d: Delay)
        ensures
            d.mtimer == mtimer,
    {
        Delay { mtimer }
    }

    /// Begins a wait for the given number of ticks from the current tick.
    pub fn delay_ticks(&self, n_ticks: u64) -> (w: DelayWait)
        requires
            self.mtimer.mtime + n_ticks <= u64::MAX,
        ensures
            w.expires == self.mtimer.mtime + n_ticks,
            !w.pushed,
    {
        let expires = self.mtimer.read_mtime() + n_ticks;
        DelayWait { expires, pushed: false }
    }

    /// Begins a wait for the given number of nanoseconds, truncated to ticks.
    pub fn delay_ns(&self, ns: u32) -> (w: DelayWait)
        requires
            self.mtimer.mtime + ticks_for(self.mtimer.freq, ns, 1_000_000_000) <= u64::MAX,
        ensures
            w.expires == self.mtimer.mtime + ticks_for(self.mtimer.freq, ns, 1_000_000_000),
            !w.pushed,
    {
        proof {
            lemma_u32_product_fits(ns, self.mtimer.freq);
        }
        let n_ticks = ns as u64 * self.mtimer.mtime_freq() as u64 / 1_000_000_000;
        self.delay_ticks(n_ticks)
    }

    /// Begins a wait for the given number of microseconds, truncated to ticks.
    pub fn delay_us(&self, us: u32) -> (w: DelayWait)
        requires
            self.mtimer.mtime + ticks_for(self.mtimer.freq, us, 1_000_000) <= u64::MAX,
        ensures
            w.expires == self.mtimer.mtime + ticks_for(self.mtimer.freq, us, 1_000_000),
            !w.pushed,
    {
        proof {
            lemma_u32_product_fits(us, self.mtimer.freq);
        }
        let n_ticks = us as u64 * self.mtimer.mtime_freq() as u64 / 1_000_000;
        self.delay_ticks(n_ticks)
    }

    /// Begins a wait for the given number of milliseconds, truncated to ticks.
    pub fn delay_ms(&self, ms: u32) -> (w: DelayWait)
        requires
            self.mtimer.mtime + ticks_for(self.mtimer.freq, ms, 1_000) <= u64::MAX,
        ensures
            w.expires == self.mtimer.mtime + ticks_for(self.mtimer.freq, ms, 1_000),
            !w.pushed,
    {
        proof {
            lemma_u32_product_fits(ms, self.mtimer.freq);
        }
        let n_ticks = ms as u64 * self.mtimer.mtime_freq() as u64 / 1_000;
        self.delay_ticks(n_ticks)
    }
}

/// The product of two 32-bit values always fits in 64 bits.
proof fn lemma_u32_product_fits(a: u32, b: u32)
    by (nonlinear_arith)
    ensures
        (a as int) * (b as int) <= u64::MAX,
{
}

/// Reports the current tick, for an external cooperative scheduler.
pub fn now(mtimer: &Mtimer) -> (r: u64)
    ensures
        r == mtimer.mtime,
{
    mtimer.read_mtime()
}

/// Schedules a resumption at an absolute tick for an external cooperative
/// scheduler: pushes to the same timer queue and triggers the same re-arm
/// logic as the interrupt handler. A full queue hands the entry back.
pub fn schedule_wake(at: u64, handle: u64, mtimer: &mut Mtimer, queue: &mut TimerQueue) -> (r: (
    Result<(), Timer>,
    Vec<Timer>,
))
    ensures
        final(mtimer).mtime == old(mtimer).mtime,
        final(mtimer).freq == old(mtimer).freq,
        r.0 is Ok <==> old(queue).entries().len() < N_TIMERS,
        r.0 is Ok ==> final(queue).entries().add(pairs_ms(r.1@))
                == old(queue).entries().insert((at, handle))
            && (forall|e: (u64, u64)|
                final(queue).entries().count(e) > 0 ==> e.0 > old(mtimer).mtime)
            && (forall|i: int| 0 <= i < r.1@.len() ==> r.1@[i].expires <= old(mtimer).mtime)
            && (final(queue).entries().len() > 0 ==> final(mtimer).cmp_enabled
                && final(mtimer).mtimecmp > old(mtimer).mtime
                && (forall|e: (u64, u64)|
                    final(queue).entries().count(e) > 0 ==> final(mtimer).mtimecmp <= e.0)
                && (exists|e: (u64, u64)|
                    final(queue).entries().count(e) > 0 && e.0 == final(mtimer).mtimecmp)),
        r.0 matches Err(back) ==> back == (Timer { expires: at, waker: handle })
            && final(queue).entries() == old(queue).entries() && *final(mtimer) == *old(mtimer)
            && r.1@.len() == 0,
{
    let t = Timer::new(at, handle);
    match queue.push_timer(t) {
        Ok(()) => {
            let fired = schedule_machine_timer(mtimer, queue);
            (Ok(()), fired)
        },
        Err(back) => (Err(back), Vec::new()),
    }
}

} // verus!
