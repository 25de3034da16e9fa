//! Access to the serial bus, the pins and the board description of a Raspberry Pi.
//!
//! The library holds the logic: the buffered duplex transport of the serial bus,
//! the pin state, and the decoding of the board's revision code. Opening devices
//! and reading or writing files is left to the caller, who hands the results in.

pub mod gpio;
pub mod pi;
pub mod serial;
