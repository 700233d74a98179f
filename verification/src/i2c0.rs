//! I2C register layouts.

pub mod cr_sr;
pub mod sr;
pub mod txr_rxr;
