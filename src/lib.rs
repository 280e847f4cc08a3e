//! Driver for the MH-Z19B infrared CO2 sensor and its 9-byte serial protocol.

pub mod mhz19b;
