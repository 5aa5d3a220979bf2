//! Health readings of the gateway itself.

pub mod domain;
