use e310x_hal::spi::on_irq;
use e310x_hal::spi::Qspi;
use e310x_hal::spi::SpiBus;
use e310x_hal::spi_duplex::DuplexPump;
use e310x_hal::spi_duplex::PumpTask;
use e310x_hal::waker::WakerPair;

const FEEDER: u64 = 1;
const DRAINER: u64 = 2;

fn deliver_interrupts(pump: &mut DuplexPump, bus: &mut SpiBus<()>, hw: &mut WakerPair) {
    let (rx_handle, tx_handle) = on_irq(bus, hw);
    if rx_handle == Some(DRAINER) {
        pump.wake_rx();
    }
    if tx_handle == Some(FEEDER) {
        pump.wake_tx();
    }
}

fn run_pump(len: usize, out: Vec<u8>, script: Vec<u8>) -> (DuplexPump, SpiBus<()>) {
    let mut bus = SpiBus::new(Qspi::new(script), ());
    let mut hw = WakerPair::new();
    let mut pump = DuplexPump::begin(&bus, len, out, FEEDER, DRAINER);
    let mut steps = 0usize;
    while !pump.is_complete(&bus) && steps < 10_000 {
        pump.feeder_step(&mut bus, &mut hw);
        if !bus.spi.txq.is_empty() {
            pump.clock(&mut bus);
        }
        deliver_interrupts(&mut pump, &mut bus, &mut hw);
        pump.drainer_step(&mut bus, &mut hw);
        deliver_interrupts(&mut pump, &mut bus, &mut hw);
        // The bounded in-flight window holds at every step.
        assert!(pump.read_count <= pump.write_count);
        assert!(pump.write_count - pump.read_count <= 8);
        assert!(!bus.spi.overrun);
        steps += 1;
    }
    assert!(pump.is_complete(&bus), "pump did not complete");
    (pump, bus)
}

#[test]
fn duplex_pump_completes_with_exact_counts() {
    let out: Vec<u8> = (0..20u8).collect();
    let script: Vec<u8> = (100..120u8).collect();
    let (pump, bus) = run_pump(20, out.clone(), script.clone());
    assert_eq!(pump.write_count, 20);
    assert_eq!(pump.read_count, 20);
    assert_eq!(pump.received, script);
    assert_eq!(bus.spi.mosi, out);
    assert!(bus.spi.txq.is_empty());
    assert!(bus.spi.rxq.is_empty());
}

#[test]
fn duplex_pump_zero_length_finishes_without_traffic() {
    let (pump, bus) = run_pump(0, Vec::new(), Vec::new());
    assert_eq!(pump.write_count, 0);
    assert_eq!(pump.read_count, 0);
    assert!(bus.spi.mosi.is_empty());
}

#[test]
fn duplex_pump_pads_past_outgoing_buffer() {
    // Reading more than it writes: the pad byte goes out for the tail.
    let (pump, bus) = run_pump(5, vec![0xAA, 0xBB], vec![1, 2, 3, 4, 5]);
    assert_eq!(bus.spi.mosi, vec![0xAA, 0xBB, 0, 0, 0]);
    assert_eq!(pump.received, vec![1, 2, 3, 4, 5]);
}

#[test]
fn feeder_parks_when_window_reaches_depth() {
    // Without any clocking or draining, the feeder fills the window and
    // parks itself waiting for the drainer.
    let mut bus = SpiBus::new(Qspi::new(vec![0; 16]), ());
    let mut hw = WakerPair::new();
    let mut pump = DuplexPump::begin(&bus, 16, vec![0x55; 16], FEEDER, DRAINER);
    for _ in 0..12 {
        pump.feeder_step(&mut bus, &mut hw);
    }
    assert_eq!(pump.write_count, 8);
    assert_eq!(pump.feeder, PumpTask::WaitingForPeer);
    // The drainer pulls one byte and signals the feeder back to work.
    pump.clock(&mut bus);
    pump.drainer_step(&mut bus, &mut hw);
    assert_eq!(pump.read_count, 1);
    assert_eq!(pump.feeder, PumpTask::Running);
}

#[test]
fn drainer_parks_until_feeder_produces() {
    let mut bus = SpiBus::new(Qspi::new(vec![7; 4]), ());
    let mut hw = WakerPair::new();
    let mut pump = DuplexPump::begin(&bus, 4, vec![1, 2, 3, 4], FEEDER, DRAINER);
    pump.drainer_step(&mut bus, &mut hw);
    assert_eq!(pump.drainer, PumpTask::WaitingForPeer);
    // The feeder writes one byte and releases the drainer.
    pump.feeder_step(&mut bus, &mut hw);
    assert_eq!(pump.drainer, PumpTask::Running);
    // Nothing shifted yet: the drainer arms the receive watermark interrupt
    // and waits for hardware.
    pump.drainer_step(&mut bus, &mut hw);
    assert_eq!(pump.drainer, PumpTask::WaitingForHw);
    pump.clock(&mut bus);
    deliver_interrupts(&mut pump, &mut bus, &mut hw);
    assert_eq!(pump.drainer, PumpTask::Running);
    pump.drainer_step(&mut bus, &mut hw);
    assert_eq!(pump.read_count, 1);
    assert_eq!(pump.received, vec![7]);
}
