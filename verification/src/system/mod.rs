//! Static identity and configuration of the gateway, and the clock and random
//! sources the library reads.

pub mod clock;
pub mod domain;
pub mod random;
pub mod records;
pub mod text;
pub mod timer;
