//! Driver core for the FE310 microcontroller family.
//!
//! The peripherals are modelled as explicitly owned register files and FIFOs
//! holding plain values. Every driver decision -- bit manipulation, watermark
//! logic, the timer queue, the suspend/resume protocols of the serial, I2C and
//! SPI engines -- is verified against that model. The thin unverified glue
//! that binds the model to memory-mapped hardware, interrupt vectors and an
//! asynchronous executor lives outside this library.

pub mod bitfield;
pub mod delay;
pub mod i2c;
pub mod i2c0;
pub mod plic;
pub mod prci;
pub mod pwm0;
pub mod qspi0;
pub mod serial;
pub mod spi;
pub mod spi_device;
pub mod spi_duplex;
pub mod uart0;
pub mod waker;
