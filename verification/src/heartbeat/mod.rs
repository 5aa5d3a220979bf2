//! Server heartbeat monitor.

pub mod domain;
