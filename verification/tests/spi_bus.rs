use e310x_hal::plic::ExternalInterrupt;
use e310x_hal::plic::Plic;
use e310x_hal::spi::on_irq;
use e310x_hal::spi::CommType;
use e310x_hal::spi::Qspi;
use e310x_hal::spi::SharedBus;
use e310x_hal::spi::SpiBus;
use e310x_hal::spi::SpiConfig;
use e310x_hal::spi::WatermarkValue;
use e310x_hal::spi::CSMODE_AUTO;
use e310x_hal::spi::CSMODE_HOLD;
use e310x_hal::spi::CSMODE_OFF;
use e310x_hal::spi_device::SpiExclusiveDeviceAsync;
use e310x_hal::spi_device::SpiOperation;
use e310x_hal::waker::WakerPair;

fn config() -> SpiConfig {
    SpiConfig {
        clock_divisor: 8,
        cs_mode: CSMODE_AUTO,
        phase: false,
        polarity: false,
        txmark: 1,
        rxmark: 0,
        cssck: 1,
        sckcs: 1,
        intercs: 1,
        interxfr: 0,
    }
}

#[test]
fn watermark_value_round_trip() {
    for level in 0u8..=7 {
        let w = WatermarkValue::try_from(level).unwrap();
        assert_eq!(w.value(), level);
    }
    assert!(WatermarkValue::try_from(8).is_err());
}

#[test]
fn interrupt_enables_preserve_the_other_direction() {
    let mut bus = SpiBus::new(Qspi::new(Vec::new()), ());
    bus.enable_interrupt(CommType::Tx);
    assert!(bus.is_interrupt_enabled(CommType::Tx));
    assert!(!bus.is_interrupt_enabled(CommType::Rx));
    bus.enable_interrupt(CommType::Rx);
    assert!(bus.is_interrupt_enabled(CommType::TxRx));
    bus.disable_interrupt(CommType::Tx);
    assert!(!bus.is_interrupt_enabled(CommType::Tx));
    assert!(bus.is_interrupt_enabled(CommType::Rx));
    bus.disable_interrupt(CommType::TxRx);
    assert!(!bus.is_interrupt_enabled(CommType::TxRx));
}

#[test]
fn watermarks_and_pending_levels() {
    let mut bus = SpiBus::new(Qspi::new(Vec::new()), ());
    bus.set_watermark(CommType::Tx, WatermarkValue::W2);
    bus.set_watermark(CommType::Rx, WatermarkValue::W0);
    assert_eq!(bus.get_watermarks(), (2, 0));
    // Empty transmit FIFO below its mark: pending; empty receive FIFO: not.
    assert!(bus.is_interrupt_pending(CommType::Tx));
    assert!(!bus.is_interrupt_pending(CommType::Rx));
    assert!(bus.write_output(0x7E));
    assert!(bus.write_output(0x7F));
    assert!(!bus.is_interrupt_pending(CommType::Tx));
}

#[test]
fn frames_hold_and_release_chip_select() {
    let mut bus = SpiBus::new(Qspi::new(Vec::new()), ());
    bus.start_frame();
    assert_eq!(bus.spi.csmode, CSMODE_HOLD);
    bus.end_frame();
    assert_eq!(bus.spi.csmode, CSMODE_AUTO);
    bus.spi.csmode = CSMODE_OFF;
    bus.start_frame();
    assert_eq!(bus.spi.csmode, CSMODE_OFF);
}

#[test]
fn byte_level_fifo_semantics() {
    let mut bus = SpiBus::new(Qspi::new(vec![0xC1, 0xC2]), ());
    assert_eq!(bus.read_input(), None);
    for i in 0..8u8 {
        assert!(bus.write_output(i));
    }
    // A ninth byte would overflow the transmit FIFO: the caller must block.
    assert!(!bus.write_output(8));
    bus.spi.shift();
    assert_eq!(bus.spi.mosi, vec![0]);
    assert_eq!(bus.read_input(), Some(0xC1));
    assert!(bus.write_output(8));
}

#[test]
fn wait_for_rxfifo_discards_stale_data() {
    let mut bus = SpiBus::new(Qspi::new(Vec::new()), ());
    bus.spi.rxq = vec![1, 2, 3];
    bus.wait_for_rxfifo();
    assert!(bus.spi.rxq.is_empty());
}

#[test]
fn read_returns_device_answers_padded() {
    let mut bus = SpiBus::new(Qspi::new(vec![0xD0, 0xD1]), ());
    let r = bus.read(4);
    assert_eq!(r, vec![0xD0, 0xD1, 0, 0]);
    // Each read byte transmitted the zero pad.
    assert_eq!(bus.spi.mosi, vec![0, 0, 0, 0]);
}

#[test]
fn write_puts_every_byte_on_the_line_in_order() {
    let mut bus = SpiBus::new(Qspi::new(vec![9, 9, 9]), ());
    let count = bus.write(&vec![0x31, 0x32, 0x33]);
    assert_eq!(count, 3);
    assert_eq!(bus.spi.mosi, vec![0x31, 0x32, 0x33]);
    assert!(bus.spi.rxq.is_empty());
    assert!(bus.spi.txq.is_empty());
}

#[test]
fn transfer_pads_and_truncates() {
    let mut bus = SpiBus::new(Qspi::new(vec![0xA0, 0xA1, 0xA2, 0xA3, 0xA4]), ());
    let r = bus.transfer(2, &vec![0x51, 0x52, 0x53, 0x54]);
    assert_eq!(r, vec![0xA0, 0xA1]);
    assert_eq!(bus.spi.mosi, vec![0x51, 0x52, 0x53, 0x54]);
    let r = bus.transfer(3, &vec![0x61]);
    assert_eq!(r, vec![0xA4, 0, 0]);
    assert_eq!(bus.spi.mosi, vec![0x51, 0x52, 0x53, 0x54, 0x61, 0, 0]);
}

#[test]
fn transfer_in_place_swaps_buffers() {
    let mut bus = SpiBus::new(Qspi::new(vec![0xB0, 0xB1]), ());
    let mut words = vec![0x71, 0x72, 0x73];
    bus.transfer_in_place(&mut words);
    assert_eq!(words, vec![0xB0, 0xB1, 0]);
    assert_eq!(bus.spi.mosi, vec![0x71, 0x72, 0x73]);
}

#[test]
fn configure_writes_every_register() {
    let mut bus = SpiBus::new(Qspi::new(Vec::new()), ());
    let cfg = config();
    bus.configure(&cfg, Some(2));
    assert_eq!(bus.spi.sckdiv, 8);
    assert_eq!(bus.spi.csid, 2);
    assert_eq!(bus.spi.csdef, 1);
    assert_eq!(bus.spi.sckmode, 0);
    assert_eq!(bus.spi.fmt, 8 << 16);
    assert_eq!(bus.spi.txmark, 1);
    assert_eq!(bus.spi.rxmark, 0);
    assert_eq!(bus.spi.delay0, 1 | (1 << 16));
    assert_eq!(bus.spi.delay1, 1);
    assert_eq!(bus.spi.csmode, CSMODE_AUTO);
}

#[test]
fn shared_bus_frames_and_release() {
    let bus = SpiBus::new(Qspi::new(Vec::new()), ());
    let mut shared = SharedBus::new(bus);
    shared.start_frame();
    assert_eq!(shared.bus.spi.csmode, CSMODE_HOLD);
    shared.end_frame();
    assert_eq!(shared.bus.spi.csmode, CSMODE_AUTO);
    let (_qspi, _pins) = shared.release();
}

#[test]
fn exclusive_device_transaction_brackets_and_orders() {
    let bus = SpiBus::new(Qspi::new(vec![0x90, 0x91, 0x92, 0x93, 0x94, 0x95]), ());
    let mut device = SpiExclusiveDeviceAsync::new(bus, &config(), None);
    let ops = vec![
        SpiOperation::Write(vec![0x41, 0x42]),
        SpiOperation::DelayNs(500),
        SpiOperation::Read(2),
        SpiOperation::TransferInPlace(vec![0x43, 0x44]),
    ];
    let results = device.transaction(&ops);
    assert_eq!(results.len(), 4);
    assert!(results[0].is_empty());
    assert!(results[1].is_empty());
    assert_eq!(results[2], vec![0x92, 0x93]);
    assert_eq!(results[3], vec![0x94, 0x95]);
    assert_eq!(device.bus.spi.mosi, vec![0x41, 0x42, 0, 0, 0x43, 0x44]);
    // Chip-select released on the way out.
    assert_eq!(device.bus.spi.csmode, CSMODE_AUTO);
    let _bus = device.release();
}

#[test]
fn spi_on_irq_requires_enabled_and_pending() {
    let mut bus = SpiBus::new(Qspi::new(Vec::new()), ());
    let mut wakers = WakerPair::new();
    wakers.tx.register(5);
    // Enabled but the transmit FIFO is above the zero watermark... an empty
    // FIFO below a watermark of one is pending.
    bus.set_watermark(CommType::Tx, WatermarkValue::W0);
    bus.enable_interrupt(CommType::Tx);
    let (rxh, txh) = on_irq(&mut bus, &mut wakers);
    assert_eq!((rxh, txh), (None, None));
    assert_eq!(wakers.tx.handle, Some(5));
    bus.set_watermark(CommType::Tx, WatermarkValue::W1);
    let (rxh, txh) = on_irq(&mut bus, &mut wakers);
    assert_eq!((rxh, txh), (None, Some(5)));
    assert!(!bus.is_interrupt_enabled(CommType::Tx));
}

#[test]
fn spi_exti_controls_the_interrupt_controller() {
    let bus = SpiBus::new(Qspi::new(Vec::new()), ());
    let mut plic = Plic::new();
    bus.enable_exti(&mut plic, ExternalInterrupt::Qspi1);
    assert!(bus.is_exti_enabled(&plic, ExternalInterrupt::Qspi1));
    assert!(!bus.is_exti_enabled(&plic, ExternalInterrupt::Qspi2));
    bus.set_exti_priority(&mut plic, ExternalInterrupt::Qspi1, 3);
    assert_eq!(bus.get_exti_priority(&plic, ExternalInterrupt::Qspi1), 3);
    bus.disable_exti(&mut plic, ExternalInterrupt::Qspi1);
    assert!(!bus.is_exti_enabled(&plic, ExternalInterrupt::Qspi1));
    let (_qspi, _pins) = bus.release();
}

#[test]
fn spi_flush_registers_once_then_completes() {
    let mut bus = SpiBus::new(Qspi::new(Vec::new()), ());
    bus.spi.rxq = vec![9, 9];
    let mut wakers = WakerPair::new();
    let mut flush = e310x_hal::spi::SpiFlush::new();
    assert!(!flush.poll(&mut bus, 12, &mut wakers));
    assert!(bus.spi.rxq.is_empty());
    assert_eq!(wakers.tx.handle, Some(12));
    assert_eq!(bus.get_watermarks().0, 1);
    assert!(bus.is_interrupt_enabled(CommType::Tx));
    assert!(flush.poll(&mut bus, 12, &mut wakers));
}
