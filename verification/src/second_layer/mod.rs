//! Routing and persistence layer.

pub mod database;
pub mod message;
