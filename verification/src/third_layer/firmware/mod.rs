//! Firmware update sessions of the hubs.

pub mod logic;
