use e310x_hal::delay::now;
use e310x_hal::delay::schedule_machine_timer;
use e310x_hal::delay::schedule_wake;
use e310x_hal::delay::Delay;
use e310x_hal::delay::DelayPoll;
use e310x_hal::delay::Mtimer;
use e310x_hal::delay::Timer;
use e310x_hal::delay::TimerQueue;
use e310x_hal::delay::N_TIMERS;

#[test]
fn timer_entry_accessors() {
    let t = Timer::new(500, 42);
    assert_eq!(t.expires(), 500);
    assert_eq!(t.wake(), 42);
}

#[test]
fn empty_queue_drains_nothing() {
    let mut q = TimerQueue::new();
    assert_eq!(q.len(), 0);
    let (fired, next) = q.wake_timers(1000);
    assert!(fired.is_empty());
    assert_eq!(next, None);
}

#[test]
fn drain_yields_expired_in_deadline_order_each_once() {
    let mut q = TimerQueue::new();
    for (deadline, handle) in [(30u64, 3u64), (10, 1), (20, 2), (40, 4), (10, 5)] {
        assert!(q.push_timer(Timer::new(deadline, handle)).is_ok());
    }
    let (fired, next) = q.wake_timers(25);
    let deadlines: Vec<u64> = fired.iter().map(|t| t.expires()).collect();
    assert_eq!(deadlines, vec![10, 10, 20]);
    let mut handles: Vec<u64> = fired.iter().map(|t| t.waker).collect();
    handles.sort_unstable();
    assert_eq!(handles, vec![1, 2, 5]);
    assert_eq!(next, Some(30));
    assert_eq!(q.len(), 2);
    // Nothing expired is left behind: a second drain at the same tick is empty.
    let (fired2, next2) = q.wake_timers(25);
    assert!(fired2.is_empty());
    assert_eq!(next2, Some(30));
}

#[test]
fn nothing_fires_before_its_deadline() {
    let mut q = TimerQueue::new();
    assert!(q.push_timer(Timer::new(100, 7)).is_ok());
    let (fired, next) = q.wake_timers(99);
    assert!(fired.is_empty());
    assert_eq!(next, Some(100));
    let (fired, next) = q.wake_timers(100);
    assert_eq!(fired.len(), 1);
    assert_eq!(fired[0], Timer::new(100, 7));
    assert_eq!(next, None);
}

#[test]
fn queue_at_capacity_hands_seventeenth_push_back() {
    let mut q = TimerQueue::new();
    for i in 0..16u64 {
        assert!(q.push_timer(Timer::new(i, i)).is_ok());
    }
    assert_eq!(q.len(), N_TIMERS);
    let extra = Timer::new(99, 77);
    match q.push_timer(extra) {
        Err(back) => assert_eq!(back, extra),
        Ok(()) => panic!("a full queue must reject the push"),
    }
    assert_eq!(q.len(), 16);
}

#[test]
fn scheduler_arms_with_min_deadline_and_disarms_when_empty() {
    let mut q = TimerQueue::new();
    let mut mtimer = Mtimer::new(1_000_000);
    assert!(q.push_timer(Timer::new(50, 1)).is_ok());
    assert!(q.push_timer(Timer::new(30, 2)).is_ok());
    let fired = schedule_machine_timer(&mut mtimer, &mut q);
    assert!(fired.is_empty());
    assert!(mtimer.cmp_enabled);
    assert_eq!(mtimer.mtimecmp, 30);
    mtimer.advance(60);
    let fired = schedule_machine_timer(&mut mtimer, &mut q);
    assert_eq!(fired.len(), 2);
    assert_eq!(fired[0].waker, 2);
    assert_eq!(fired[1].waker, 1);
    assert!(!mtimer.cmp_enabled);
    assert_eq!(q.len(), 0);
}

#[test]
fn delay_ms_scenario_from_cold_start() {
    // Tick source at 0, frequency 1_000_000 Hz: a five-millisecond delay is
    // 5000 ticks.
    let mut mtimer = Mtimer::new(1_000_000);
    let mut q = TimerQueue::new();
    let delay = Delay::new(Mtimer::new(1_000_000));
    let mut wait = delay.delay_ms(5);
    assert_eq!(wait.expires, 5000);
    assert!(!wait.pushed);
    let (poll, fired) = wait.poll(9, &mut mtimer, &mut q);
    assert_eq!(poll, DelayPoll::Pending);
    assert!(fired.is_empty());
    assert!(wait.pushed);
    assert_eq!(q.len(), 1);
    assert!(mtimer.cmp_enabled);
    assert_eq!(mtimer.mtimecmp, 5000);
    // A repeated poll of the same pending wait never pushes a second entry.
    let (poll, fired) = wait.poll(9, &mut mtimer, &mut q);
    assert_eq!(poll, DelayPoll::Pending);
    assert!(fired.is_empty());
    assert_eq!(q.len(), 1);
    // The tick source reaches the deadline and the interrupt fires.
    mtimer.advance(5000);
    let fired = schedule_machine_timer(&mut mtimer, &mut q);
    assert_eq!(fired.len(), 1);
    assert_eq!(fired[0], Timer::new(5000, 9));
    assert_eq!(q.len(), 0);
    assert!(!mtimer.cmp_enabled);
    // The resumed task observes the deadline met.
    let (poll, fired) = wait.poll(9, &mut mtimer, &mut q);
    assert_eq!(poll, DelayPoll::Ready);
    assert!(fired.is_empty());
}

#[test]
fn delay_of_zero_on_passed_deadline_registers_nothing() {
    let mut mtimer = Mtimer::new(1_000_000);
    mtimer.advance(777);
    let mut q = TimerQueue::new();
    let delay = Delay::new(Mtimer::new(1_000_000));
    // The delay instance's own timer also stands at 777.
    let mut delay = delay;
    delay.mtimer.advance(777);
    let mut wait = delay.delay_ticks(0);
    assert_eq!(wait.expires, 777);
    let (poll, fired) = wait.poll(3, &mut mtimer, &mut q);
    assert_eq!(poll, DelayPoll::Ready);
    assert!(fired.is_empty());
    assert_eq!(q.len(), 0);
    assert!(!wait.pushed);
}

#[test]
fn delay_resumes_only_at_or_after_deadline() {
    let mut mtimer = Mtimer::new(1_000);
    let mut q = TimerQueue::new();
    let delay = Delay::new(Mtimer::new(1_000));
    let mut wait = delay.delay_ticks(10);
    for tick in [3u64, 6, 9] {
        while mtimer.mtime < tick {
            mtimer.advance(1);
        }
        let (poll, _) = wait.poll(4, &mut mtimer, &mut q);
        assert_eq!(poll, DelayPoll::Pending);
    }
    mtimer.advance(1);
    assert_eq!(mtimer.mtime, 10);
    let (poll, _) = wait.poll(4, &mut mtimer, &mut q);
    assert_eq!(poll, DelayPoll::Ready);
}

#[test]
fn delay_poll_hands_back_rejected_entry_when_queue_full() {
    let mut mtimer = Mtimer::new(1_000);
    let mut q = TimerQueue::new();
    for i in 0..16u64 {
        assert!(q.push_timer(Timer::new(1000 + i, i)).is_ok());
    }
    let delay = Delay::new(Mtimer::new(1_000));
    let mut wait = delay.delay_ticks(50);
    let (poll, fired) = wait.poll(40, &mut mtimer, &mut q);
    assert_eq!(poll, DelayPoll::Rejected(Timer::new(50, 40)));
    assert!(fired.is_empty());
    assert!(!wait.pushed);
    assert_eq!(q.len(), 16);
}

#[test]
fn tick_conversions_truncate_toward_zero() {
    let delay = Delay::new(Mtimer::new(32_768));
    assert_eq!(delay.delay_ms(1000).expires, 32_768);
    assert_eq!(delay.delay_us(1_000_000).expires, 32_768);
    // 1 ms at 32768 Hz is 32.768 ticks: truncated to 32, never rounded up.
    assert_eq!(delay.delay_ms(1).expires, 32);
    assert_eq!(delay.delay_ns(1).expires, 0);
}

#[test]
fn time_driver_reports_ticks_and_schedules() {
    let mut mtimer = Mtimer::new(32_768);
    mtimer.advance(123);
    assert_eq!(now(&mtimer), 123);
    let mut q = TimerQueue::new();
    let (res, fired) = schedule_wake(200, 5, &mut mtimer, &mut q);
    assert!(res.is_ok());
    assert!(fired.is_empty());
    assert!(mtimer.cmp_enabled);
    assert_eq!(mtimer.mtimecmp, 200);
    assert_eq!(q.len(), 1);
    // A wake scheduled in the past fires on the next drain.
    let (res, fired) = schedule_wake(50, 6, &mut mtimer, &mut q);
    assert!(res.is_ok());
    assert_eq!(fired.len(), 1);
    assert_eq!(fired[0], Timer::new(50, 6));
}

#[test]
fn schedule_wake_hands_back_rejected_entry() {
    let mut mtimer = Mtimer::new(32_768);
    let mut q = TimerQueue::new();
    for i in 0..16u64 {
        assert!(q.push_timer(Timer::new(i + 1, i)).is_ok());
    }
    let (res, fired) = schedule_wake(900, 17, &mut mtimer, &mut q);
    assert_eq!(res, Err(Timer::new(900, 17)));
    assert!(fired.is_empty());
}
