//! Control logic for a small heating-plant controller.
//!
//! The crate is organised leaf-first: [`onewire`] implements the bit-banged
//! single-wire bus protocol (reset/presence, bit and byte transfer, ROM
//! search with CRC validation) over a caller-supplied bus line, [`ds18b20`]
//! the command and readout layer for the DS18B20 temperature-sensor family,
//! [`temperature`] the fixed set of plant sensors and the per-cycle sampling
//! pass, [`statemachine`] the supervisory state machine that turns readings
//! and digital inputs into actuator commands, [`io`] the latched digital
//! input/output state, and [`display`] the fixed-width text rendering of
//! readings for a character display.

pub mod display;
pub mod ds18b20;
pub mod io;
pub mod onewire;
pub mod statemachine;
pub mod temperature;
