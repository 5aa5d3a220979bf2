//! Boundary layer: the MQTT transport model and its subscription bookkeeping.

pub mod mqtt;
