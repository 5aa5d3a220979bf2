//! Global operating-mode state machine of the edge gateway.

pub mod domain;
