//! Settings of the post-failure control and balancing protocol.

pub mod domain;
