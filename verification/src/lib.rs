//! Verified core of an IoT edge gateway: the operating-mode state machine,
//! the server heartbeat monitor, the in-memory network topology, the MQTT
//! subscription bookkeeping, message routing decisions and the hub firmware
//! update session.

pub mod first_layer;
pub mod fsm;
pub mod heartbeat;
pub mod message;
pub mod second_layer;
pub mod system;
pub mod third_layer;
