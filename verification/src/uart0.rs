//! UART register layouts.

pub mod ie;
pub mod rxctrl;
