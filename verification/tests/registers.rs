use e310x_hal::bitfield::get_bit;
use e310x_hal::bitfield::get_field;
use e310x_hal::bitfield::set_bit;
use e310x_hal::bitfield::set_field;
use e310x_hal::plic::ExternalInterrupt;
use e310x_hal::plic::Plic;

#[test]
fn bit_helpers() {
    assert!(!get_bit(0, 3));
    let v = set_bit(0, 3, true);
    assert_eq!(v, 8);
    assert!(get_bit(v, 3));
    assert_eq!(set_bit(v, 3, false), 0);
}

#[test]
fn field_helpers() {
    let v = set_field(0xFFFF_FFFF, 16, 7, 5);
    assert_eq!(get_field(v, 16, 7), 5);
    // Bits outside the field survive.
    assert_eq!(v & 0xFFFF, 0xFFFF);
}

#[test]
fn uart_ie_fields() {
    let r = e310x_hal::uart0::ie::R { bits: 0b10 };
    assert!(!r.txwm());
    assert!(r.rxwm());
    let mut w = e310x_hal::uart0::ie::W { bits: 0 };
    w.txwm(true);
    w.rxwm(true);
    assert_eq!(w.bits, 0b11);
    w.rxwm(false);
    assert_eq!(w.bits, 0b01);
}

#[test]
fn uart_rxctrl_fields() {
    let mut w = e310x_hal::uart0::rxctrl::W { bits: 0 };
    w.enable(true);
    w.counter(6);
    assert_eq!(w.bits, 1 | (6 << 16));
    let r = e310x_hal::uart0::rxctrl::R { bits: w.bits };
    assert!(r.enable());
    assert_eq!(r.counter(), 6);
}

#[test]
fn qspi_ip_fields() {
    let r = e310x_hal::qspi0::ip::R { bits: 0b01 };
    assert!(r.txwm());
    assert!(!r.rxwm());
    let mut w = e310x_hal::qspi0::ip::W { bits: 0 };
    w.rxwm(true);
    assert_eq!(w.bits, 0b10);
}

#[test]
fn qspi_txdata_fields() {
    let r = e310x_hal::qspi0::txdata::R { bits: (1u32 << 31) | 0x5A };
    assert_eq!(r.data(), 0x5A);
    assert!(r.full());
    let mut w = e310x_hal::qspi0::txdata::W { bits: 0 };
    w.data(0xC3);
    assert_eq!(w.bits, 0xC3);
}

#[test]
fn qspi_sckdiv_fields() {
    let mut w = e310x_hal::qspi0::sckdiv::W { bits: 0 };
    w.div(0x123);
    assert_eq!(w.bits, 0x123);
    let r = e310x_hal::qspi0::sckdiv::R { bits: 0xF123 };
    // Only the twelve divisor bits are read.
    assert_eq!(r.div(), 0x123);
}

#[test]
fn i2c_data_and_status_fields() {
    let mut w = e310x_hal::i2c0::txr_rxr::W { bits: 0 };
    w.data(0x9C);
    assert_eq!(w.bits, 0x9C);
    let r = e310x_hal::i2c0::txr_rxr::R { bits: 0x9C };
    assert_eq!(r.data(), 0x9C);
    let sr = e310x_hal::i2c0::sr::R { bits: (1 << 7) | (1 << 5) | (1 << 1) };
    assert!(!sr.if_());
    assert!(sr.tip());
    assert!(sr.al());
    assert!(!sr.busy());
    assert!(sr.rx_ack());
}

#[test]
fn pwm_compare_fields() {
    let mut w = e310x_hal::pwm0::cmp2::W { bits: 0 };
    w.value(0xBEEF);
    assert_eq!(w.bits, 0xBEEF);
    let r = e310x_hal::pwm0::cmp2::R { bits: 0x1BEEF };
    assert_eq!(r.value(), 0xBEEF);
}

#[test]
fn register_blocks_hold_plain_words() {
    let prci = e310x_hal::prci::RegisterBlock {
        hfrosccfg: 1,
        hfxosccfg: 2,
        pllcfg: 3,
        plloutdiv: 4,
        coreclkcfg: 5,
    };
    assert_eq!(prci.pllcfg, 3);
    let pwm = e310x_hal::pwm0::RegisterBlock {
        cfg: 1,
        count: 2,
        pwms: 3,
        cmp0: 4,
        cmp1: 5,
        cmp2: 6,
        cmp3: 7,
    };
    assert_eq!(pwm.cmp2, 6);
}

#[test]
fn plic_enable_bits_are_independent() {
    let mut plic = Plic::new();
    plic.enable(ExternalInterrupt::Uart0);
    plic.enable(ExternalInterrupt::I2c0);
    assert!(plic.is_enabled(ExternalInterrupt::Uart0));
    assert!(plic.is_enabled(ExternalInterrupt::I2c0));
    assert!(!plic.is_enabled(ExternalInterrupt::Qspi0));
    plic.disable(ExternalInterrupt::Uart0);
    assert!(!plic.is_enabled(ExternalInterrupt::Uart0));
    assert!(plic.is_enabled(ExternalInterrupt::I2c0));
    plic.set_priority(ExternalInterrupt::Qspi2, 7);
    assert_eq!(plic.get_priority(ExternalInterrupt::Qspi2), 7);
    assert_eq!(plic.get_priority(ExternalInterrupt::Uart1), 0);
}
