//! Business layer: topology, firmware sessions, operating-mode runtime
//! decisions, metrics and protocol settings.

pub mod firmware;
pub mod fsm;
pub mod metrics;
pub mod network;
pub mod quorum;
