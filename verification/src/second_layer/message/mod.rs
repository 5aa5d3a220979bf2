//! Messages exchanged with the hubs and the server, and the routing decisions
//! taken on them.

pub mod domain;
pub mod logic;
