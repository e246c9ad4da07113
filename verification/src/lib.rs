//! Protocol and decoding core for a 3-axis gyroscope sensor polled over a
//! synchronous serial bus, together with the state and formatting logic of a
//! console logger bound to a character-output device.
//!
//! Everything that touches hardware (bus exchanges, chip-select pins, UART
//! transmission) lives outside this crate; this library states and proves the
//! register protocol, the sample decoding rules and the logger's one-time
//! binding discipline on plain values.

pub mod bus;
pub mod logger;
pub mod sensor;

use vstd::prelude::*;

verus! {

/// Leaves the clock tree in its reset configuration: the internal 16 MHz
/// oscillator drives the system, so there is nothing to program.
pub fn init_system_clocks() {
}

} // verus!
