//! Host-side protocol core for TMC2209 stepper-motor drivers sharing one
//! single-wire UART: CRC, register catalog, datagram codec, bus arbitration
//! and the per-axis session decisions.
pub mod bus;
pub mod crc;
pub mod datagram;
pub mod error;
pub mod peripherals;
pub mod registers;
pub mod session;
