//! Message model shared by the hubs, the gateway and the server.
//!
//! Payloads that carry floating point readings (measurements, alerts, system
//! metrics, firmware percentages) are kept outside the verified library.

use crate::second_layer::database::domain::HubRow;
use vstd::prelude::*;
use vstd::string::*;

verus! {

/// Standard metadata of every message.
#[derive(Default, Debug, Clone, PartialEq, Eq, Hash)]
pub struct Metadata {
    pub sender_user_id: String,
    pub destination_id: String,
    pub timestamp: i64,
}

/// Health telemetry of a hub.
#[derive(Default, Debug, Clone, PartialEq, Eq)]
pub struct Monitor {
    pub metadata: Metadata,
    pub network: String,
    pub heap_free: u32,
    pub heap_min_free: u32,
    pub heap_largest_block: u32,
    pub uptime_sec: i64,
}

/// Server instruction about a network (create, (de)activate, delete).
#[derive(Debug, Clone, PartialEq, Eq)]
pub struct Network {
    pub metadata: Metadata,
    pub id_network: String,
    pub name_network: String,
    pub active: bool,
    pub delete_network: bool,
}

/// Answer to a `Network` message. Codes:
/// 100/101 creation succeeded/failed, 200/201 deletion succeeded/failed,
/// 300/301 activation succeeded/failed, 400/401 deactivation succeeded/failed.
#[derive(Debug, Clone, PartialEq, Eq)]
pub struct NetworkAck {
    pub metadata: Metadata,
    pub id_network: String,
    pub code_of_ack: u32,
}

/// Configuration of a hub, in every direction.
#[derive(Debug, Clone, PartialEq, Eq)]
pub struct Settings {
    pub metadata: Metadata,
    pub message_id: u32,
    pub network: String,
    pub wifi_ssid: String,
    pub wifi_password: String,
    pub mqtt_uri: String,
    pub device_name: String,
    pub sample: u16,
    pub energy_mode: u32,
}

impl Settings {
    /// Hub row to persist for this configuration, attached to `network`.
    pub fn cast_settings_to_hub_row(self, network: String) -> (r: HubRow)
        ensures
            r.id@ == Seq::<char>::empty(),
            r.network_id@ == network@,
            r.device_name@ == self.device_name@,
    {
        HubRow { id: String::new(), device_name: self.device_name, network_id: network }
    }
}

/// Acknowledgement of a configuration.
#[derive(Debug, Clone, PartialEq, Eq)]
pub struct SettingsAck {
    pub metadata: Metadata,
    pub message_id: u32,
    pub network: String,
    pub handshake: bool,
}

/// Handshake sent to the hubs.
#[derive(Debug, Clone, PartialEq, Eq)]
pub struct HandshakeToHub {
    pub metadata: Metadata,
    pub flag: String,
    pub balance_epoch: u32,
}

/// Handshake answered by a hub.
#[derive(Debug, Clone, PartialEq, Eq)]
pub struct HandshakeFromHub {
    pub metadata: Metadata,
    pub flag: String,
    pub balance_epoch: u32,
}

/// Notification of a phase change inside the balance mode.
#[derive(Debug, Clone, PartialEq, Eq)]
pub struct PhaseNotification {
    pub metadata: Metadata,
    pub state: String,
    pub epoch: u32,
    pub phase: String,
    pub frequency: u32,
    pub jitter: u32,
}

/// A hub reports whether its queue is empty.
#[derive(Debug, Clone, PartialEq)]
pub struct EmptyQueue {
    pub metadata: Metadata,
    pub state: String,
    pub phase: String,
    pub queue_empty: bool,
}

/// A hub reports whether its queue is empty, in safe mode.
#[derive(Debug, Clone, PartialEq)]
pub struct EmptyQueueSafeMode {
    pub metadata: Metadata,
    pub state: String,
    pub queue_empty: bool,
}

/// Periodic state of the gateway for the hubs.
#[derive(Debug, Clone, PartialEq, Eq)]
pub struct StateToHub {
    pub metadata: Metadata,
    pub state: String,
    pub balance_epoch: u32,
    pub duration: u32,
    pub frequency: u32,
    pub jitter: u32,
}

/// Heartbeat (server to gateway, gateway to hubs).
#[derive(Debug, Clone, PartialEq, Eq)]
pub struct Heartbeat {
    pub metadata: Metadata,
    pub beat: bool,
}

/// Periodic state of the gateway for the server.
#[derive(Debug, Clone, PartialEq, Eq)]
pub struct EdgeState {
    pub metadata: Metadata,
    pub state: String,
}

/// Periodic state of a hub, forwarded to the server.
#[derive(Debug, Clone, PartialEq, Eq)]
pub struct HubState {
    pub metadata: Metadata,
    pub network: String,
    pub state: String,
}

/// Server request to update the firmware of a network's hubs.
#[derive(Debug, Clone, PartialEq, Eq)]
pub struct UpdateHubFirmware {
    pub metadata: Metadata,
    pub network: String,
}

/// Server request to update the gateway itself.
#[derive(Debug, Clone, PartialEq, Eq)]
pub struct UpdateEdgeFirmware {
    pub metadata: Metadata,
    pub version: String,
}

/// Firmware update request for one hub.
#[derive(Debug, Clone, PartialEq, Eq)]
pub struct UpdateFirmwareRequestHub {
    pub metadata: Metadata,
    pub network: String,
    pub version: String,
}

/// Result of a hub firmware update.
#[derive(Debug, Clone, PartialEq, Eq, Hash)]
pub struct FirmwareHubAck {
    pub metadata: Metadata,
    pub is_updated: bool,
    pub success: bool,
}

/// Result of the gateway self-update.
#[derive(Debug, Clone, PartialEq)]
pub struct FirmwareEdgeResult {
    pub metadata: Metadata,
    pub error: bool,
}

/// A hub asks to join a network.
#[derive(Debug, Clone, PartialEq)]
pub struct LinkageRequest {
    pub metadata: Metadata,
    pub device_name: String,
    pub network: String,
    pub linkage_request: bool,
}

impl LinkageRequest {
    /// Hub row to persist for this request.
    pub fn cast_to_hub_row(self) -> (r: HubRow)
        ensures
            r.id@ == self.metadata.sender_user_id@,
            r.device_name@ == self.device_name@,
            r.network_id@ == self.network@,
    {
        HubRow { id: self.metadata.sender_user_id, device_name: self.device_name, network_id: self.network }
    }
}

/// Answer to a linkage request.
#[derive(Debug, Clone, PartialEq)]
pub struct LinkageAck {
    pub metadata: Metadata,
    pub linkage_ack: bool,
}

/// Greeting sent to the server when the gateway starts.
#[derive(Debug, Clone, PartialEq, Eq)]
pub struct HelloServer {
    pub metadata: Metadata,
    pub hello: bool,
}

/// A message ready to be published over MQTT.
#[derive(Debug)]
pub struct SerializedMessage {
    topic: String,
    payload: Vec<u8>,
    qos: u8,
    retain: bool,
}

impl SerializedMessage {
    pub closed spec fn spec_topic(&self) -> Seq<char> {
        self.topic@
    }

    pub closed spec fn spec_payload(&self) -> Seq<u8> {
        self.payload@
    }

    pub closed spec fn spec_qos(&self) -> u8 {
        self.qos
    }

    pub closed spec fn spec_retain(&self) -> bool {
        self.retain
    }

    pub fn new(topic: String, payload: Vec<u8>, qos: u8, retain: bool) -> (r: Self)
        ensures
            r.spec_topic() == topic@,
            r.spec_payload() == payload@,
            r.spec_qos() == qos,
            r.spec_retain() == retain,
    {
        Self { topic, payload, qos, retain }
    }

    pub fn get_topic(&self) -> (r: &str)
        ensures
            r@ == self.spec_topic(),
    {
        self.topic.as_str()
    }

    pub fn get_payload(&self) -> (r: &[u8])
        ensures
            r@ == self.spec_payload(),
    {
        self.payload.as_slice()
    }

    pub fn get_qos(&self) -> (r: u8)
        ensures
            r == self.spec_qos(),
    {
        self.qos
    }

    pub fn get_retain(&self) -> (r: bool)
        ensures
            r == self.spec_retain(),
    {
        self.retain
    }
}

} // verus!
