//! Identity and connection settings of the gateway, read once at start-up.

use crate::first_layer::mqtt::domain::PayloadTopic;
use vstd::prelude::*;

verus! {

/// Static configuration of the gateway.
#[derive(Debug, Clone)]
pub struct System {
    /// Identifier of this edge gateway; it names the global MQTT topics.
    pub id_edge: String,
    /// Host of the local MQTT broker.
    pub host_local: String,
    /// Host of the central server.
    pub host_server: String,
    /// Port of the central server.
    pub host_port: u16,
    /// Common name expected in the server certificate.
    pub cn: String,
    /// Path of the local database.
    pub db_path: String,
    /// Log filter.
    pub rust_log: String,
    /// Capacity of the internal channels.
    pub buffer_size: usize,
}

/// Connection changes and incoming MQTT messages reported by the transport
/// tasks.
#[derive(Debug, Clone)]
pub enum InternalEvent {
    ServerConnected,
    ServerDisconnected,
    LocalConnected,
    LocalDisconnected,
    /// A message received from the local broker.
    IncomingMessage(PayloadTopic),
}

impl InternalEvent {
    /// Whether this event reports the server as connected.
    pub fn server_connected(&self) -> (r: bool)
        ensures
            r == (*self is ServerConnected),
    {
        match self {
            InternalEvent::ServerConnected => true,
            _ => false,
        }
    }

    /// Whether this event reports the local broker as connected.
    pub fn local_connected(&self) -> (r: bool)
        ensures
            r == (*self is LocalConnected),
    {
        match self {
            InternalEvent::LocalConnected => true,
            _ => false,
        }
    }
}

} // verus!
