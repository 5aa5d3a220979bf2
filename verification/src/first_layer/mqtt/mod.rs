//! MQTT payloads, service commands and subscription bookkeeping.

pub mod domain;
pub mod logic;
