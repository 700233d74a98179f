use e310x_hal::plic::ExternalInterrupt;
use e310x_hal::plic::Plic;
use e310x_hal::serial::on_irq;
use e310x_hal::serial::Rx;
use e310x_hal::serial::Serial;
use e310x_hal::serial::SerialPoll;
use e310x_hal::serial::Tx;
use e310x_hal::serial::TxFlush;
use e310x_hal::serial::Uart;
use e310x_hal::spi::CommType;
use e310x_hal::spi::WatermarkValue;
use e310x_hal::waker::WakerPair;
use e310x_hal::waker::WakerSlot;

fn fresh_rx() -> Rx<()> {
    Rx { uart: Uart::new(), pin: (), source: ExternalInterrupt::Uart0 }
}

fn fresh_tx() -> Tx<()> {
    Tx { uart: Uart::new(), pin: (), source: ExternalInterrupt::Uart0 }
}

#[test]
fn slot_overwrite_only_newest_fires() {
    let mut slot = WakerSlot::new();
    slot.register(1);
    // A new wait overwrites the old, unfired handle.
    slot.register(2);
    assert_eq!(slot.take(), Some(2));
    // The overwritten handle is never yielded afterward.
    assert_eq!(slot.take(), None);
}

#[test]
fn slot_fires_at_most_once_per_registration() {
    let mut slot = WakerSlot::new();
    slot.register(9);
    assert_eq!(slot.take(), Some(9));
    assert_eq!(slot.take(), None);
    assert_eq!(slot.take(), None);
}

#[test]
fn waker_pair_starts_empty() {
    let p = WakerPair::new();
    assert_eq!(p.rx.handle, None);
    assert_eq!(p.tx.handle, None);
}

#[test]
fn uart_line_side_moves_bytes() {
    let mut u = Uart::new();
    assert!(u.device_put_rx(0xAB));
    assert_eq!(u.rxq, vec![0xAB]);
    assert_eq!(u.device_take_tx(), None);
    u.txq.push(0x55);
    assert_eq!(u.device_take_tx(), Some(0x55));
}

#[test]
fn rx_interrupt_bits_preserve_the_other_half() {
    let mut rx = fresh_rx();
    rx.uart.ie = 0b01;  // transmit enable already set
    rx.enable_interrupt();
    assert_eq!(rx.uart.ie, 0b11);
    assert!(rx.is_interrupt_enabled());
    rx.disable_interrupt();
    assert_eq!(rx.uart.ie, 0b01);
}

#[test]
fn tx_interrupt_bits_preserve_the_other_half() {
    let mut tx = fresh_tx();
    tx.uart.ie = 0b10;  // receive enable already set
    tx.enable_interrupt();
    assert_eq!(tx.uart.ie, 0b11);
    tx.disable_interrupt();
    assert_eq!(tx.uart.ie, 0b10);
}

#[test]
fn watermarks_round_trip() {
    let mut rx = fresh_rx();
    rx.uart.rxctrl = 1;  // enabled
    rx.set_watermark(WatermarkValue::W5);
    assert_eq!(rx.get_watermark(), 5);
    assert_eq!(rx.uart.rxctrl & 1, 1);
    let mut tx = fresh_tx();
    tx.uart.txctrl = 0b11;  // enabled, two stop bits
    tx.set_watermark(WatermarkValue::W3);
    assert_eq!(tx.get_watermark(), 3);
    assert_eq!(tx.uart.txctrl & 0b11, 0b11);
}

#[test]
fn pending_conditions_follow_fifo_levels() {
    let mut rx = fresh_rx();
    rx.set_watermark(WatermarkValue::W0);
    assert!(!rx.is_interrupt_pending());
    assert!(rx.uart.device_put_rx(1));
    assert!(rx.is_interrupt_pending());
    let mut tx = fresh_tx();
    tx.set_watermark(WatermarkValue::W1);
    // Empty transmit FIFO is below the watermark of one: pending.
    assert!(tx.is_interrupt_pending());
    assert!(tx.write(0x01));
    assert!(!tx.is_interrupt_pending());
}

#[test]
fn rx_read_pops_front() {
    let mut rx = fresh_rx();
    assert_eq!(rx.read(), None);
    assert!(rx.uart.device_put_rx(1));
    assert!(rx.uart.device_put_rx(2));
    assert_eq!(rx.read(), Some(1));
    assert_eq!(rx.read(), Some(2));
    assert_eq!(rx.read(), None);
}

#[test]
fn poll_read_empty_buffer_is_immediate() {
    let mut rx = fresh_rx();
    let mut wakers = WakerPair::new();
    let mut buf: Vec<u8> = Vec::new();
    assert_eq!(rx.poll_read(&mut buf, 1, &mut wakers), SerialPoll::Ready(0));
}

#[test]
fn poll_read_suspends_then_fills_partial() {
    let mut rx = fresh_rx();
    let mut wakers = WakerPair::new();
    let mut buf: Vec<u8> = vec![0; 4];
    // Nothing received yet: register, arm the watermark, suspend.
    assert_eq!(rx.poll_read(&mut buf, 11, &mut wakers), SerialPoll::Pending);
    assert_eq!(wakers.rx.handle, Some(11));
    assert_eq!(rx.get_watermark(), 0);
    assert!(rx.is_interrupt_enabled());
    // Two bytes arrive; the interrupt fires and hands back the handle.
    assert!(rx.uart.device_put_rx(0xA0));
    assert!(rx.uart.device_put_rx(0xA1));
    let (rx_handle, tx_handle) = on_irq(&mut rx.uart, &mut wakers);
    assert_eq!(rx_handle, Some(11));
    assert_eq!(tx_handle, None);
    assert!(!rx.is_interrupt_enabled());
    // The resumed poll moves what is available: a partial transfer.
    assert_eq!(rx.poll_read(&mut buf, 11, &mut wakers), SerialPoll::Ready(2));
    assert_eq!(&buf[..2], &[0xA0, 0xA1]);
}

#[test]
fn serial_tx_write_five_bytes_through_one_suspension() {
    // Transmit FIFO full at first: the first byte suspends and resumes via
    // the watermark interrupt; the remaining bytes complete in the
    // non-suspending tail loop and the call reports five bytes moved.
    let mut tx = fresh_tx();
    let mut wakers = WakerPair::new();
    for b in 0..8u8 {
        assert!(tx.write(b));
    }
    assert!(tx.is_buffer_full());
    let buf = vec![0x10, 0x11, 0x12, 0x13, 0x14];
    assert_eq!(tx.poll_write(&buf, 21, &mut wakers), SerialPoll::Pending);
    assert_eq!(wakers.tx.handle, Some(21));
    assert_eq!(tx.get_watermark(), 7);
    assert!(tx.is_interrupt_enabled());
    // The line drains the FIFO fast enough.
    for _ in 0..8 {
        assert!(tx.uart.device_take_tx().is_some());
    }
    let (rx_handle, tx_handle) = on_irq(&mut tx.uart, &mut wakers);
    assert_eq!(rx_handle, None);
    assert_eq!(tx_handle, Some(21));
    assert_eq!(tx.poll_write(&buf, 21, &mut wakers), SerialPoll::Ready(5));
    assert_eq!(tx.uart.txq, buf);
}

#[test]
fn poll_write_partial_when_fifo_fills() {
    let mut tx = fresh_tx();
    let mut wakers = WakerPair::new();
    for b in 0..6u8 {
        assert!(tx.write(b));
    }
    let buf = vec![0xE0, 0xE1, 0xE2, 0xE3];
    // Two slots free: only two bytes fit; a partial transfer is no error.
    assert_eq!(tx.poll_write(&buf, 5, &mut wakers), SerialPoll::Ready(2));
    assert_eq!(tx.uart.txq.len(), 8);
}

#[test]
fn tx_flush_registers_once_then_completes() {
    let mut tx = fresh_tx();
    let mut wakers = WakerPair::new();
    let mut flush = TxFlush::new();
    assert!(!flush.poll(&mut tx, 31, &mut wakers));
    assert_eq!(wakers.tx.handle, Some(31));
    assert_eq!(tx.get_watermark(), 1);
    assert!(tx.is_interrupt_enabled());
    assert!(flush.poll(&mut tx, 31, &mut wakers));
}

#[test]
fn try_flush_tracks_watermark() {
    let mut tx = fresh_tx();
    tx.set_watermark(WatermarkValue::W1);
    assert!(tx.try_flush());
    assert!(tx.write(9));
    assert!(!tx.try_flush());
}

#[test]
fn serial_new_configures_and_split_carries_state() {
    let serial = Serial::new(Uart::new(), ((), ()), 115_200, 16_000_000, ExternalInterrupt::Uart0);
    assert_eq!(serial.uart.div, 16_000_000 / 115_200 - 1);
    assert_eq!(serial.uart.ie, 0);
    assert_eq!(serial.uart.txctrl, 0x10001);
    assert_eq!(serial.uart.rxctrl, 1);
    // Every carried copy of the shared register file changes together.
    let serial = serial.listen();
    assert_eq!(serial.uart.ie, 2);
    assert_eq!(serial.tx.uart.ie, 2);
    assert_eq!(serial.rx.uart.ie, 2);
    assert!(serial.is_interrupt_enabled(CommType::Rx));
    let serial = serial.unlisten();
    assert_eq!(serial.uart.ie, 0);
    assert_eq!(serial.tx.uart.ie, 0);
    assert_eq!(serial.rx.uart.ie, 0);
    let (tx, rx) = serial.split();
    assert_eq!(tx.uart.txctrl, 0x10001);
    assert_eq!(rx.uart.rxctrl, 1);
    let (_uart, _pin) = tx.free();
    let (_uart, _pin) = rx.free();
}

#[test]
fn serial_dispatches_by_comm_type() {
    let mut serial = Serial::new(Uart::new(), ((), ()), 9600, 16_000_000, ExternalInterrupt::Uart1);
    serial.enable_interrupt(CommType::TxRx);
    assert!(serial.is_interrupt_enabled(CommType::Tx));
    assert!(serial.is_interrupt_enabled(CommType::Rx));
    assert!(serial.is_interrupt_enabled(CommType::TxRx));
    serial.disable_interrupt(CommType::Tx);
    assert!(!serial.is_interrupt_enabled(CommType::Tx));
    assert!(serial.is_interrupt_enabled(CommType::Rx));
    serial.set_watermark(CommType::TxRx, WatermarkValue::W4);
    assert_eq!(serial.get_watermarks(), (4, 4));
    // The port's own copy of the control registers is kept in step too.
    assert_eq!(serial.uart.txctrl >> 16 & 7, 4);
    assert_eq!(serial.uart.rxctrl >> 16 & 7, 4);
    assert_eq!(serial.uart.ie & 1, 0);
    assert_eq!(serial.uart.ie >> 1 & 1, 1);
    // Transmit FIFO empty and below its watermark: pending.
    assert!(serial.is_interrupt_pending(CommType::Tx));
    assert!(!serial.is_interrupt_pending(CommType::Rx));
}

#[test]
fn serial_exti_controls_the_interrupt_controller() {
    let serial = Serial::new(Uart::new(), ((), ()), 9600, 16_000_000, ExternalInterrupt::Uart0);
    let mut plic = Plic::new();
    assert!(!serial.is_exti_enabled(&plic));
    serial.enable_exti(&mut plic);
    assert!(serial.is_exti_enabled(&plic));
    serial.disable_exti(&mut plic);
    assert!(!serial.is_exti_enabled(&plic));
    serial.set_exti_priority(&mut plic, 5);
    assert_eq!(serial.get_exti_priority(&plic), 5);
}

#[test]
fn on_irq_takes_only_enabled_directions() {
    let mut uart = Uart::new();
    let mut wakers = WakerPair::new();
    wakers.rx.register(1);
    wakers.tx.register(2);
    uart.ie = 0b10;  // only receive enabled
    let (rx_handle, tx_handle) = on_irq(&mut uart, &mut wakers);
    assert_eq!(rx_handle, Some(1));
    assert_eq!(tx_handle, None);
    assert_eq!(uart.ie & 0b11, 0);
    // The transmit waiter is still parked for a later interrupt.
    assert_eq!(wakers.tx.handle, Some(2));
}
