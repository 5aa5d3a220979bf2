//! Network topology cache and the decisions taken on network messages.

pub mod domain;
pub mod logic;
