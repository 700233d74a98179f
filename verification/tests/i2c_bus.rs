use e310x_hal::i2c::AckPoll;
use e310x_hal::i2c::I2c;
use e310x_hal::i2c::I2cError;
use e310x_hal::i2c::I2cOp;
use e310x_hal::i2c::NoAcknowledgeSource;
use e310x_hal::i2c::Speed;
use e310x_hal::plic::Plic;

fn fresh(acks: Vec<bool>, data: Vec<u8>) -> I2c<()> {
    I2c::new((), Speed::Normal, 32_000_000, acks, data)
}

#[test]
fn speed_values() {
    assert_eq!(Speed::Normal.bps(), 100_000);
    assert_eq!(Speed::Fast.bps(), 400_000);
    assert_eq!(Speed::Custom(123_456).bps(), 123_456);
}

#[test]
fn new_computes_prescaler() {
    let i2c = fresh(Vec::new(), Vec::new());
    // 32 MHz clock at 100 kbps: 32_000_000 / 500_000 - 1.
    assert_eq!(i2c.prer, 63);
    assert_eq!(i2c.ctr, 1 << 7);
    let fast = I2c::new((), Speed::Fast, 32_000_000, Vec::new(), Vec::new());
    assert_eq!(fast.prer, 15);
}

#[test]
fn interrupt_enable_preserves_peripheral_enable() {
    let mut i2c = fresh(Vec::new(), Vec::new());
    i2c.enable_interrupt();
    assert!(i2c.is_interrupt_enabled());
    assert_eq!(i2c.ctr, (1 << 7) | (1 << 6));
    i2c.disable_interrupt();
    assert!(!i2c.is_interrupt_enabled());
    assert_eq!(i2c.ctr, 1 << 7);
}

#[test]
fn status_register_view() {
    let mut i2c = fresh(Vec::new(), Vec::new());
    i2c.sr = (1 << 6) | 1;
    let sr = i2c.read_sr();
    assert!(sr.if_());
    assert!(sr.busy());
    assert!(!sr.tip());
    assert!(!sr.al());
    assert!(!sr.rx_ack());
    assert!(!i2c.is_idle());
    i2c.clear_interrupt();
    assert!(!i2c.read_sr().if_());
    i2c.set_stop();
    assert!(i2c.is_idle());
}

#[test]
fn command_primitives_follow_the_script() {
    let mut i2c = fresh(vec![true, false], vec![0x5A]);
    i2c.write_txr(0x21);
    i2c.trigger_write(true, false);
    assert_eq!(i2c.wire, vec![0x21]);
    assert!(!i2c.read_sr().rx_ack());
    assert!(!i2c.is_idle());
    i2c.write_txr(0x22);
    i2c.trigger_write(false, true);
    assert_eq!(i2c.wire, vec![0x21, 0x22]);
    // The second scripted answer refuses.
    assert!(i2c.read_sr().rx_ack());
    assert!(i2c.is_idle());
    i2c.trigger_read(true, true);
    assert_eq!(i2c.read_rxr(), 0x5A);
    // The script is exhausted: further reads see the idle-line value.
    i2c.trigger_read(true, true);
    assert_eq!(i2c.read_rxr(), 0xFF);
}

#[test]
fn ack_interrupt_reports_arbitration_loss_with_stop() {
    let mut i2c = fresh(Vec::new(), Vec::new());
    assert_eq!(i2c.ack_interrupt(), AckPoll::Ready);
    i2c.sr = (1 << 5) | (1 << 6);
    assert_eq!(i2c.ack_interrupt(), AckPoll::ArbitrationLoss);
    // The stop condition was issued.
    assert!(i2c.is_idle());
    i2c.sr = 1 << 1;
    assert_eq!(i2c.ack_interrupt(), AckPoll::WouldBlock);
}

#[test]
fn transaction_write_then_read() {
    let mut i2c = fresh(vec![true; 5], vec![0xDE, 0xAD]);
    let ops = vec![I2cOp::Write(vec![0xF4, 0x2E]), I2cOp::Read(2)];
    let results = i2c.transaction(0x76, &ops).unwrap();
    // Address with write flag, payload, then address with read flag.
    assert_eq!(i2c.wire, vec![0xEC, 0xF4, 0x2E, 0xED]);
    assert_eq!(results.len(), 2);
    assert!(results[0].is_empty());
    assert_eq!(results[1], vec![0xDE, 0xAD]);
}

#[test]
fn transaction_empty_is_a_no_op() {
    let mut i2c = fresh(Vec::new(), Vec::new());
    let results = i2c.transaction(0x10, &Vec::new()).unwrap();
    assert!(results.is_empty());
    assert!(i2c.wire.is_empty());
}

#[test]
fn transaction_read_pads_when_target_runs_dry() {
    let mut i2c = fresh(Vec::new(), vec![0x01]);
    let ops = vec![I2cOp::Read(3)];
    let results = i2c.transaction(0x40, &ops).unwrap();
    assert_eq!(results[0], vec![0x01, 0xFF, 0xFF]);
}

#[test]
fn transaction_unacknowledged_address_aborts() {
    let mut i2c = fresh(vec![false], Vec::new());
    let ops = vec![I2cOp::Write(vec![0x11])];
    let err = i2c.transaction(0x30, &ops).unwrap_err();
    assert_eq!(err, I2cError::NoAcknowledge(NoAcknowledgeSource::Address));
    // Only the address byte went on the wire, and a stop was issued.
    assert_eq!(i2c.wire, vec![0x60]);
    assert!(i2c.is_idle());
}

#[test]
fn transaction_unacknowledged_data_aborts() {
    let mut i2c = fresh(vec![true, true, false], Vec::new());
    let ops = vec![I2cOp::Write(vec![0x11, 0x12, 0x13])];
    let err = i2c.transaction(0x30, &ops).unwrap_err();
    assert_eq!(err, I2cError::NoAcknowledge(NoAcknowledgeSource::Data));
    assert_eq!(i2c.wire, vec![0x60, 0x11, 0x12]);
    assert!(i2c.is_idle());
}

#[test]
fn transaction_repeated_start_direction_changes() {
    let mut i2c = fresh(vec![true; 6], vec![0xAA, 0xBB, 0xCC]);
    let ops = vec![I2cOp::Read(1), I2cOp::Read(2), I2cOp::Write(vec![0x77])];
    let results = i2c.transaction(0x50, &ops).unwrap();
    assert_eq!(i2c.wire, vec![0xA1, 0xA1, 0xA0, 0x77]);
    assert_eq!(results[0], vec![0xAA]);
    assert_eq!(results[1], vec![0xBB, 0xCC]);
    assert!(results[2].is_empty());
}

#[test]
fn i2c_exti_controls_the_interrupt_controller() {
    let i2c = fresh(Vec::new(), Vec::new());
    let mut plic = Plic::new();
    assert!(!i2c.is_exti_enabled(&plic));
    i2c.enable_exti(&mut plic);
    assert!(i2c.is_exti_enabled(&plic));
    i2c.set_exti_priority(&mut plic, 6);
    assert_eq!(i2c.get_exti_priority(&plic), 6);
    i2c.disable_exti(&mut plic);
    assert!(!i2c.is_exti_enabled(&plic));
    let (_ctr, _pins) = i2c.free();
}

#[test]
fn poll_idle_registers_until_bus_free() {
    let mut i2c = fresh(Vec::new(), Vec::new());
    let mut slot = e310x_hal::waker::WakerSlot::new();
    i2c.sr = 1 << 6;
    assert!(!i2c.poll_idle(8, &mut slot));
    assert_eq!(slot.handle, Some(8));
    assert!(i2c.is_interrupt_enabled());
    // The interrupt fires: the handle comes back, the source is masked and
    // the flag acknowledged.
    i2c.sr |= 1;
    let handle = e310x_hal::i2c::on_irq(&mut i2c, &mut slot);
    assert_eq!(handle, Some(8));
    assert!(!i2c.is_interrupt_enabled());
    assert!(!i2c.read_sr().if_());
    i2c.set_stop();
    assert!(i2c.poll_idle(8, &mut slot));
}

#[test]
fn poll_ack_suspends_while_transfer_in_progress() {
    let mut i2c = fresh(Vec::new(), Vec::new());
    let mut slot = e310x_hal::waker::WakerSlot::new();
    i2c.sr = 1 << 1;
    assert_eq!(i2c.poll_ack(9, &mut slot), None);
    assert_eq!(slot.handle, Some(9));
    i2c.sr = 0;
    assert_eq!(i2c.poll_ack(9, &mut slot), Some(AckPoll::Ready));
    i2c.sr = 1 << 5;
    assert_eq!(i2c.poll_ack(9, &mut slot), Some(AckPoll::ArbitrationLoss));
    assert!(i2c.is_idle());
}
