//! SPI register layouts.

pub mod ip;
pub mod sckdiv;
pub mod txdata;
