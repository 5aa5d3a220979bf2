//! Payloads of the message service. Most are those of
//! `crate::second_layer::message::domain`; the ones below are specific to the
//! exchanges of this service.

pub use crate::second_layer::message::domain::{
    EdgeState, EmptyQueue, EmptyQueueSafeMode, HandshakeFromHub, HandshakeToHub, Heartbeat, HubState, LinkageAck,
    LinkageRequest, Metadata, Monitor, Network, NetworkAck, PhaseNotification, SerializedMessage, Settings,
    StateToHub, UpdateFirmwareRequestHub,
};
use vstd::prelude::*;

verus! {

/// Greeting exchanged with the server when the gateway starts.
#[derive(Debug, Clone, PartialEq, Eq)]
pub struct HelloWorld {
    pub metadata: Metadata,
    pub hello: bool,
}

/// Order to remove a hub from the registry; the destination is the hub.
#[derive(Debug, Clone, PartialEq, Eq)]
pub struct DeleteHub {
    pub metadata: Metadata,
    pub network: String,
}

/// Order to (de)activate a hub; the destination is the hub.
#[derive(Debug, Clone, PartialEq, Eq)]
pub struct ActiveHub {
    pub metadata: Metadata,
    pub network: String,
    pub active: bool,
}

/// Acknowledgement of a configuration.
#[derive(Debug, Clone, PartialEq, Eq)]
pub struct SettingOk {
    pub metadata: Metadata,
    pub message_id: u32,
    pub network: String,
    pub handshake: bool,
}

/// Server request to update the firmware of the hubs of a network.
#[derive(Debug, Clone, PartialEq, Eq)]
pub struct UpdateFirmware {
    pub metadata: Metadata,
    pub network: String,
}

/// Result of a hub's firmware update.
#[derive(Debug, Clone, PartialEq, Eq, Hash)]
pub struct FirmwareOk {
    pub metadata: Metadata,
    pub is_updated: bool,
    pub success: bool,
}

/// Report that a firmware session of a network could not run.
#[derive(Debug, Clone, PartialEq, Eq)]
pub struct FirmwareOutcomeError {
    pub metadata: Metadata,
    pub network: String,
    pub error: String,
}

/// Connection state of the remote server.
#[derive(Debug, Clone, Copy, PartialEq, Eq, Structural)]
pub enum ServerStatus {
    Connected,
    Disconnected,
}

/// Connection state of the local MQTT broker.
#[derive(Debug, Clone, Copy, PartialEq, Eq, Structural)]
pub enum LocalStatus {
    Connected,
    Disconnected,
}

} // verus!
