//! Routing decisions of the message service and of the second layer
//! middleware: which decoder an incoming MQTT topic selects, where each
//! incoming hub message goes, where the middleware hands it, and on which MQTT
//! topic an outgoing message is published.

use crate::second_layer::message::domain::Metadata;
use crate::third_layer::network::domain::NetworkManager;
use vstd::prelude::*;
use vstd::string::*;

verus! {

/// Kind of message a hub publishes, as selected by the topic suffix.
#[derive(Debug, Clone, Copy, PartialEq, Eq, Structural)]
pub enum HubTopicKind {
    Report,
    HubState,
    Monitor,
    AlertAir,
    AlertTem,
    HandshakeFromHub,
    FirmwareOk,
    FromHubSettingsAck,
    FromHubSettings,
    LinkageRequest,
    EmptyQueueSafe,
    EmptyQueue,
}

/// Where the message service sends a decoded hub message.
#[derive(Debug, Clone, Copy, PartialEq, Eq, Structural)]
pub enum HubRoute {
    /// Serialize it for the server.
    ToServer,
    /// Hand it to the second layer middleware (state machines, firmware,
    /// network service, or local storage for telemetry).
    ToMiddleware,
    /// Publish the configuration acknowledgement back to the hubs.
    AckToHubs,
    /// Discard it.
    Drop,
}

/// Service that receives a hub message from the middleware.
#[derive(Debug, Clone, Copy, PartialEq, Eq, Structural)]
pub enum MiddlewareDestination {
    /// Buffered and stored in the local database.
    DataService,
    /// Handshake for the operating-mode machine.
    FsmHandshake,
    /// Empty-queue report for the operating-mode machine.
    FsmQueue,
    /// Safe-mode empty-queue report for the operating-mode machine.
    FsmQueueSafe,
    /// Firmware acknowledgement for the firmware service.
    FirmwareAck,
    /// Linkage request for the network service.
    NetworkLinkage,
    /// Not handled by the middleware.
    Ignored,
}

/// Kinds of messages the gateway publishes to the hubs.
#[derive(Debug, Clone, Copy, PartialEq, Eq, Structural)]
pub enum OutgoingKind {
    UpdateHubFirmware,
    NewConfigHub,
    AckConfigHub,
    HeartbeatHub,
    HandshakeHub,
    PhaseHub,
    StateHub,
    LinkageHub,
}

/// `s` ends with `suffix`.
pub open spec fn spec_ends_with(s: Seq<char>, suffix: Seq<char>) -> bool {
    suffix.len() <= s.len() && s.subrange(s.len() - suffix.len(), s.len() as int) == suffix
}

/// The decoder selected by a topic: the first suffix that matches, in the
/// order `data`, `hub_state`, `monitor`, `alert_air`, `alert_temp`,
/// `balance_mode_handshake`, `hub_firmware_ok`, `hub_setting_ok`, `setting`,
/// `linkage_request`, `empty_queue_safe`, `empty_queue`.
pub open spec fn spec_classify_hub_topic(t: Seq<char>) -> Option<HubTopicKind> {
    if spec_ends_with(t, "data"@) {
        Some(HubTopicKind::Report)
    } else if spec_ends_with(t, "hub_state"@) {
        Some(HubTopicKind::HubState)
    } else if spec_ends_with(t, "monitor"@) {
        Some(HubTopicKind::Monitor)
    } else if spec_ends_with(t, "alert_air"@) {
        Some(HubTopicKind::AlertAir)
    } else if spec_ends_with(t, "alert_temp"@) {
        Some(HubTopicKind::AlertTem)
    } else if spec_ends_with(t, "balance_mode_handshake"@) {
        Some(HubTopicKind::HandshakeFromHub)
    } else if spec_ends_with(t, "hub_firmware_ok"@) {
        Some(HubTopicKind::FirmwareOk)
    } else if spec_ends_with(t, "hub_setting_ok"@) {
        Some(HubTopicKind::FromHubSettingsAck)
    } else if spec_ends_with(t, "setting"@) {
        Some(HubTopicKind::FromHubSettings)
    } else if spec_ends_with(t, "linkage_request"@) {
        Some(HubTopicKind::LinkageRequest)
    } else if spec_ends_with(t, "empty_queue_safe"@) {
        Some(HubTopicKind::EmptyQueueSafe)
    } else if spec_ends_with(t, "empty_queue"@) {
        Some(HubTopicKind::EmptyQueue)
    } else {
        None
    }
}

/// Telemetry kinds: stored locally while the server is unreachable.
pub open spec fn is_telemetry(kind: HubTopicKind) -> bool {
    kind == HubTopicKind::Report || kind == HubTopicKind::Monitor || kind == HubTopicKind::AlertAir
        || kind == HubTopicKind::AlertTem
}

/// Route of a decoded hub message, given whether its network is active and
/// whether the server is connected.
pub open spec fn spec_route_hub_message(kind: HubTopicKind, network_active: bool, server_connected: bool) -> HubRoute {
    match kind {
        HubTopicKind::HubState | HubTopicKind::FromHubSettings => if network_active && server_connected {
            HubRoute::ToServer
        } else {
            HubRoute::Drop
        },
        HubTopicKind::Report | HubTopicKind::Monitor | HubTopicKind::AlertAir | HubTopicKind::AlertTem =>
            if !network_active {
                HubRoute::Drop
            } else if server_connected {
                HubRoute::ToServer
            } else {
                HubRoute::ToMiddleware
            },
        HubTopicKind::FromHubSettingsAck => if server_connected { HubRoute::AckToHubs } else { HubRoute::Drop },
        HubTopicKind::HandshakeFromHub | HubTopicKind::FirmwareOk | HubTopicKind::EmptyQueue
        | HubTopicKind::EmptyQueueSafe | HubTopicKind::LinkageRequest => HubRoute::ToMiddleware,
    }
}

/// Service that the middleware hands a hub message to.
pub open spec fn spec_middleware_destination(kind: HubTopicKind) -> MiddlewareDestination {
    match kind {
        HubTopicKind::Report | HubTopicKind::Monitor | HubTopicKind::AlertAir | HubTopicKind::AlertTem =>
            MiddlewareDestination::DataService,
        HubTopicKind::HandshakeFromHub => MiddlewareDestination::FsmHandshake,
        HubTopicKind::FirmwareOk => MiddlewareDestination::FirmwareAck,
        HubTopicKind::EmptyQueue => MiddlewareDestination::FsmQueue,
        HubTopicKind::EmptyQueueSafe => MiddlewareDestination::FsmQueueSafe,
        HubTopicKind::LinkageRequest => MiddlewareDestination::NetworkLinkage,
        _ => MiddlewareDestination::Ignored,
    }
}

/// Whether `s` ends with `suffix` (compared character by character).
pub fn ends_with(s: &str, suffix: &str) -> (r: bool)
    ensures
        r == spec_ends_with(s@, suffix@),
{
    let n = s.unicode_len();
    let m = suffix.unicode_len();
    if m > n {
        return false;
    }
    let offset = n - m;
    let mut j: usize = 0;
    while j < m
        invariant
            n == s@.len(),
            m == suffix@.len(),
            m <= n,
            offset == n - m,
            j <= m,
            forall|k: int| 0 <= k < j ==> s@[offset + k] == suffix@[k],
        decreases m - j,
    {
        if s.get_char(offset + j) != suffix.get_char(j) {
            proof {
                assert(s@.subrange(s@.len() - suffix@.len(), s@.len() as int)[j as int] != suffix@[j as int]);
            }
            return false;
        }
        j = j + 1;
    }
    proof {
        assert(s@.subrange(s@.len() - suffix@.len(), s@.len() as int) =~= suffix@);
    }
    true
}

/// Decoder selected by the suffix of an incoming MQTT topic.
pub fn classify_hub_topic(topic: &str) -> (r: Option<HubTopicKind>)
    ensures
        r == spec_classify_hub_topic(topic@),
{
    if ends_with(topic, "data") {
        Some(HubTopicKind::Report)
    } else if ends_with(topic, "hub_state") {
        Some(HubTopicKind::HubState)
    } else if ends_with(topic, "monitor") {
        Some(HubTopicKind::Monitor)
    } else if ends_with(topic, "alert_air") {
        Some(HubTopicKind::AlertAir)
    } else if ends_with(topic, "alert_temp") {
        Some(HubTopicKind::AlertTem)
    } else if ends_with(topic, "balance_mode_handshake") {
        Some(HubTopicKind::HandshakeFromHub)
    } else if ends_with(topic, "hub_firmware_ok") {
        Some(HubTopicKind::FirmwareOk)
    } else if ends_with(topic, "hub_setting_ok") {
        Some(HubTopicKind::FromHubSettingsAck)
    } else if ends_with(topic, "setting") {
        Some(HubTopicKind::FromHubSettings)
    } else if ends_with(topic, "linkage_request") {
        Some(HubTopicKind::LinkageRequest)
    } else if ends_with(topic, "empty_queue_safe") {
        Some(HubTopicKind::EmptyQueueSafe)
    } else if ends_with(topic, "empty_queue") {
        Some(HubTopicKind::EmptyQueue)
    } else {
        None
    }
}

/// Route of a decoded hub message: telemetry of an active network goes to
/// the server when it is connected and to the middleware (local storage)
/// otherwise; hub states and hub settings of an active network go to the
/// server only when it is connected; a settings acknowledgement is echoed to
/// the hubs when the server is connected; protocol messages (handshakes,
/// firmware acknowledgements, empty-queue reports, linkage requests) always go
/// to the middleware.
pub fn route_hub_message(kind: HubTopicKind, network_active: bool, server_connected: bool) -> (r: HubRoute)
    ensures
        r == spec_route_hub_message(kind, network_active, server_connected),
{
    match kind {
        HubTopicKind::HubState | HubTopicKind::FromHubSettings => {
            if network_active && server_connected {
                HubRoute::ToServer
            } else {
                HubRoute::Drop
            }
        },
        HubTopicKind::Report | HubTopicKind::Monitor | HubTopicKind::AlertAir | HubTopicKind::AlertTem => {
            if !network_active {
                HubRoute::Drop
            } else if server_connected {
                HubRoute::ToServer
            } else {
                HubRoute::ToMiddleware
            }
        },
        HubTopicKind::FromHubSettingsAck => {
            if server_connected {
                HubRoute::AckToHubs
            } else {
                HubRoute::Drop
            }
        },
        _ => HubRoute::ToMiddleware,
    }
}

/// Service the middleware hands a hub message to.
pub fn middleware_destination(kind: HubTopicKind) -> (r: MiddlewareDestination)
    ensures
        r == spec_middleware_destination(kind),
{
    match kind {
        HubTopicKind::Report | HubTopicKind::Monitor | HubTopicKind::AlertAir | HubTopicKind::AlertTem =>
            MiddlewareDestination::DataService,
        HubTopicKind::HandshakeFromHub => MiddlewareDestination::FsmHandshake,
        HubTopicKind::FirmwareOk => MiddlewareDestination::FirmwareAck,
        HubTopicKind::EmptyQueue => MiddlewareDestination::FsmQueue,
        HubTopicKind::EmptyQueueSafe => MiddlewareDestination::FsmQueueSafe,
        HubTopicKind::LinkageRequest => MiddlewareDestination::NetworkLinkage,
        _ => MiddlewareDestination::Ignored,
    }
}

/// Topic, QoS and retain flag on which an outgoing message is published.
/// Network-scoped messages use the topics of network `network` and get no
/// topic when that network is not registered; the others use the gateway's
/// global topics (`<state>/phase` and `<state>/edge_state` for phase and
/// state notifications). Nothing is retained.
pub fn resolve_topic(manager: &NetworkManager, kind: OutgoingKind, network: &String) -> (r: Option<(String, u8, bool)>)
    requires
        manager.well_formed(),
    ensures
        match kind {
            OutgoingKind::UpdateHubFirmware | OutgoingKind::NewConfigHub | OutgoingKind::AckConfigHub => {
                if manager.networks_view().contains_key(network@) {
                    let n = manager.networks_view()[network@];
                    let t = match kind {
                        OutgoingKind::UpdateHubFirmware => n.topic_new_firmware,
                        OutgoingKind::NewConfigHub => n.topic_new_setting,
                        _ => n.topic_setting_ok,
                    };
                    r matches Some((topic, qos, retain)) && topic@ == t.topic@ && qos == t.qos && !retain
                } else {
                    r is None
                }
            },
            OutgoingKind::HeartbeatHub => r matches Some((topic, qos, retain))
                && topic@ == manager.topic_heartbeat.topic@ && qos == manager.topic_heartbeat.qos && !retain,
            OutgoingKind::HandshakeHub => r matches Some((topic, qos, retain))
                && topic@ == manager.topic_handshake.topic@ && qos == manager.topic_handshake.qos && !retain,
            OutgoingKind::PhaseHub => r matches Some((topic, qos, retain))
                && topic@ == manager.topic_state.topic@ + "/phase"@ && qos == manager.topic_state.qos && !retain,
            OutgoingKind::StateHub => r matches Some((topic, qos, retain))
                && topic@ == manager.topic_state.topic@ + "/edge_state"@ && qos == manager.topic_state.qos && !retain,
            OutgoingKind::LinkageHub => r matches Some((topic, qos, retain))
                && topic@ == manager.topic_linkage_ack.topic@ && qos == manager.topic_linkage_ack.qos && !retain,
        },
{
    match kind {
        OutgoingKind::UpdateHubFirmware | OutgoingKind::NewConfigHub | OutgoingKind::AckConfigHub => {
            match manager.get_network(network) {
                Some(n) => {
                    let t = match kind {
                        OutgoingKind::UpdateHubFirmware => &n.topic_new_firmware,
                        OutgoingKind::NewConfigHub => &n.topic_new_setting,
                        _ => &n.topic_setting_ok,
                    };
                    Some((t.topic.clone(), t.qos, false))
                },
                None => None,
            }
        },
        OutgoingKind::HeartbeatHub => Some((manager.topic_heartbeat.topic.clone(), manager.topic_heartbeat.qos, false)),
        OutgoingKind::HandshakeHub => Some((manager.topic_handshake.topic.clone(), manager.topic_handshake.qos, false)),
        OutgoingKind::PhaseHub => {
            let mut t = manager.topic_state.topic.clone();
            t.append("/phase");
            Some((t, manager.topic_state.qos, false))
        },
        OutgoingKind::StateHub => {
            let mut t = manager.topic_state.topic.clone();
            t.append("/edge_state");
            Some((t, manager.topic_state.qos, false))
        },
        OutgoingKind::LinkageHub => Some((manager.topic_linkage_ack.topic.clone(), manager.topic_linkage_ack.qos, false)),
    }
}

// ---------------------------------------------------------------------------
// Laws
// ---------------------------------------------------------------------------

/// Store and forward: telemetry (measurements, monitors, alerts) of an active
/// network is never dropped. It goes to the server while the server is
/// connected; otherwise the middleware hands it to the data service, which
/// stores it locally.
pub proof fn law_store_and_forward(kind: HubTopicKind, server_connected: bool)
    requires
        is_telemetry(kind),
    ensures
        server_connected ==> spec_route_hub_message(kind, true, server_connected) == HubRoute::ToServer,
        !server_connected ==> spec_route_hub_message(kind, true, server_connected) == HubRoute::ToMiddleware
            && spec_middleware_destination(kind) == MiddlewareDestination::DataService,
{
}

/// Messages of an inactive network never reach the server.
pub proof fn law_inactive_network_not_forwarded(kind: HubTopicKind, server_connected: bool)
    ensures
        spec_route_hub_message(kind, false, server_connected) != HubRoute::ToServer,
{
}

/// Protocol messages (handshakes, firmware acknowledgements, empty-queue
/// reports, linkage requests) reach their service whatever the connection
/// state or the network.
pub proof fn law_protocol_messages_always_delivered(kind: HubTopicKind, network_active: bool, server_connected: bool)
    requires
        kind == HubTopicKind::HandshakeFromHub || kind == HubTopicKind::FirmwareOk || kind == HubTopicKind::EmptyQueue
            || kind == HubTopicKind::EmptyQueueSafe || kind == HubTopicKind::LinkageRequest,
    ensures
        spec_route_hub_message(kind, network_active, server_connected) == HubRoute::ToMiddleware,
        spec_middleware_destination(kind) != MiddlewareDestination::Ignored,
{
}


// ---------------------------------------------------------------------------
// Messages from the server
// ---------------------------------------------------------------------------

/// Kind of a message received from the server.
#[derive(Debug, Clone, Copy, PartialEq, Eq, Structural)]
pub enum ServerMessageKind {
    UpdateFirmware,
    Network,
    FromServerSettings,
    FromServerSettingsAck,
    Heartbeat,
    UpdateEdgeFirmware,
}

/// Service that receives a server message from the middleware.
#[derive(Debug, Clone, Copy, PartialEq, Eq, Structural)]
pub enum ServerDestination {
    /// Hub firmware update request, for the firmware service.
    FirmwareHubs,
    /// Network instruction, for the network service.
    NetworkService,
    /// Hub configuration, for the network service.
    NetworkSettings,
    /// Server heartbeat, for the heartbeat monitor.
    HeartbeatService,
    /// Gateway self-update request, for the firmware service.
    FirmwareEdge,
    /// Not handled by the middleware.
    Ignored,
}

/// Service that the middleware hands a server message to.
pub open spec fn spec_server_destination(kind: ServerMessageKind) -> ServerDestination {
    match kind {
        ServerMessageKind::UpdateFirmware => ServerDestination::FirmwareHubs,
        ServerMessageKind::Network => ServerDestination::NetworkService,
        ServerMessageKind::FromServerSettings => ServerDestination::NetworkSettings,
        ServerMessageKind::Heartbeat => ServerDestination::HeartbeatService,
        ServerMessageKind::UpdateEdgeFirmware => ServerDestination::FirmwareEdge,
        ServerMessageKind::FromServerSettingsAck => ServerDestination::Ignored,
    }
}

/// Service the middleware hands a server message to.
pub fn server_destination(kind: ServerMessageKind) -> (r: ServerDestination)
    ensures
        r == spec_server_destination(kind),
{
    match kind {
        ServerMessageKind::UpdateFirmware => ServerDestination::FirmwareHubs,
        ServerMessageKind::Network => ServerDestination::NetworkService,
        ServerMessageKind::FromServerSettings => ServerDestination::NetworkSettings,
        ServerMessageKind::Heartbeat => ServerDestination::HeartbeatService,
        ServerMessageKind::UpdateEdgeFirmware => ServerDestination::FirmwareEdge,
        ServerMessageKind::FromServerSettingsAck => ServerDestination::Ignored,
    }
}

/// What the message service does with a server message: a configuration is
/// published to the hubs and handed to the middleware; a configuration
/// acknowledgement is uploaded back to the server, only while the local
/// broker is connected; everything else is handed to the middleware.
#[derive(Debug, Clone, Copy, PartialEq, Eq, Structural)]
pub struct ServerRoute {
    /// Publish it to the hubs.
    pub to_hubs: bool,
    /// Upload it to the server.
    pub to_server: bool,
    /// Hand it to the middleware.
    pub to_middleware: bool,
}

pub open spec fn spec_route_server_message(kind: ServerMessageKind, local_connected: bool) -> ServerRoute {
    match kind {
        ServerMessageKind::FromServerSettings => ServerRoute { to_hubs: true, to_server: false, to_middleware: true },
        ServerMessageKind::FromServerSettingsAck => ServerRoute { to_hubs: false, to_server: local_connected, to_middleware: false },
        _ => ServerRoute { to_hubs: false, to_server: false, to_middleware: true },
    }
}

/// Route of a server message.
pub fn route_server_message(kind: ServerMessageKind, local_connected: bool) -> (r: ServerRoute)
    ensures
        r == spec_route_server_message(kind, local_connected),
{
    match kind {
        ServerMessageKind::FromServerSettings => ServerRoute { to_hubs: true, to_server: false, to_middleware: true },
        ServerMessageKind::FromServerSettingsAck => ServerRoute { to_hubs: false, to_server: local_connected, to_middleware: false },
        _ => ServerRoute { to_hubs: false, to_server: false, to_middleware: true },
    }
}

/// Metadata carried by a server message; a message without metadata reads as
/// empty identifiers and timestamp 0.
pub fn extract_metadata(proto_meta: Option<Metadata>) -> (r: Metadata)
    ensures
        match proto_meta {
            Some(m) => r == m,
            None => r.sender_user_id@ == Seq::<char>::empty() && r.destination_id@ == Seq::<char>::empty()
                && r.timestamp == 0,
        },
{
    match proto_meta {
        Some(m) => m,
        None => Metadata { sender_user_id: String::new(), destination_id: String::new(), timestamp: 0 },
    }
}

/// Envelope of an upload of the gateway to the server.
#[derive(Debug, Clone)]
pub struct FromEdge<P> {
    pub edge_id: String,
    pub payload: Option<P>,
}

/// The upload of `payload` from gateway `edge_id`; nothing without payload.
pub fn generate_edge_upload<P>(payload: Option<P>, edge_id: String) -> (r: Option<FromEdge<P>>)
    ensures
        match payload {
            Some(p) => r matches Some(u) && u.edge_id@ == edge_id@ && u.payload == Some(p),
            None => r is None,
        },
{
    match payload {
        Some(p) => Some(FromEdge { edge_id, payload: Some(p) }),
        None => None,
    }
}

/// A topic ends with its own last part.
proof fn lemma_ends_with_own_suffix(p: Seq<char>, s: Seq<char>)
    ensures
        spec_ends_with(p + s, s),
{
    assert((p + s).subrange(p.len() as int, (p + s).len() as int) =~= s);
}

/// A topic whose `k`-th character from the end differs from that of `x`
/// does not end with `x`.
proof fn lemma_not_ends_with(t: Seq<char>, x: Seq<char>, k: int)
    requires
        1 <= k <= x.len(),
        k <= t.len(),
        t[t.len() - k] != x[x.len() - k],
    ensures
        !spec_ends_with(t, x),
{
    if spec_ends_with(t, x) {
        assert(t.subrange(t.len() - x.len(), t.len() as int)[x.len() - k] == t[t.len() - k]);
    }
}

/// Each hub topic selects its own decoder, whatever comes before its last
/// part (the network and hub of `iot/<network>/hub/<hub>/...`): `data` is a
/// measurement, `hub_state` a hub state, `monitor` a monitor report,
/// `alert_air` and `alert_temp` alerts, `balance_mode_handshake` a handshake,
/// `hub_firmware_ok` a firmware acknowledgement, `hub_setting_ok` a settings
/// acknowledgement, `setting` the hub's settings, `linkage_request` a linkage
/// request, `empty_queue_safe` and `empty_queue` empty-queue reports.
pub proof fn law_hub_topics_select_their_decoder(p: Seq<char>)
    ensures
        spec_classify_hub_topic(p + "data"@) == Some(HubTopicKind::Report),
        spec_classify_hub_topic(p + "hub_state"@) == Some(HubTopicKind::HubState),
        spec_classify_hub_topic(p + "monitor"@) == Some(HubTopicKind::Monitor),
        spec_classify_hub_topic(p + "alert_air"@) == Some(HubTopicKind::AlertAir),
        spec_classify_hub_topic(p + "alert_temp"@) == Some(HubTopicKind::AlertTem),
        spec_classify_hub_topic(p + "balance_mode_handshake"@) == Some(HubTopicKind::HandshakeFromHub),
        spec_classify_hub_topic(p + "hub_firmware_ok"@) == Some(HubTopicKind::FirmwareOk),
        spec_classify_hub_topic(p + "hub_setting_ok"@) == Some(HubTopicKind::FromHubSettingsAck),
        spec_classify_hub_topic(p + "setting"@) == Some(HubTopicKind::FromHubSettings),
        spec_classify_hub_topic(p + "linkage_request"@) == Some(HubTopicKind::LinkageRequest),
        spec_classify_hub_topic(p + "empty_queue_safe"@) == Some(HubTopicKind::EmptyQueueSafe),
        spec_classify_hub_topic(p + "empty_queue"@) == Some(HubTopicKind::EmptyQueue),
{
    reveal_strlit("data");
    reveal_strlit("hub_state");
    reveal_strlit("monitor");
    reveal_strlit("alert_air");
    reveal_strlit("alert_temp");
    reveal_strlit("balance_mode_handshake");
    reveal_strlit("hub_firmware_ok");
    reveal_strlit("hub_setting_ok");
    reveal_strlit("setting");
    reveal_strlit("linkage_request");
    reveal_strlit("empty_queue_safe");
    reveal_strlit("empty_queue");
    lemma_ends_with_own_suffix(p, "data"@);
    lemma_ends_with_own_suffix(p, "hub_state"@);
    lemma_not_ends_with(p + "hub_state"@, "data"@, 1);
    lemma_ends_with_own_suffix(p, "monitor"@);
    lemma_not_ends_with(p + "monitor"@, "data"@, 1);
    lemma_not_ends_with(p + "monitor"@, "hub_state"@, 1);
    lemma_ends_with_own_suffix(p, "alert_air"@);
    lemma_not_ends_with(p + "alert_air"@, "data"@, 1);
    lemma_not_ends_with(p + "alert_air"@, "hub_state"@, 1);
    lemma_not_ends_with(p + "alert_air"@, "monitor"@, 2);
    lemma_ends_with_own_suffix(p, "alert_temp"@);
    lemma_not_ends_with(p + "alert_temp"@, "data"@, 1);
    lemma_not_ends_with(p + "alert_temp"@, "hub_state"@, 1);
    lemma_not_ends_with(p + "alert_temp"@, "monitor"@, 1);
    lemma_not_ends_with(p + "alert_temp"@, "alert_air"@, 1);
    lemma_ends_with_own_suffix(p, "balance_mode_handshake"@);
    lemma_not_ends_with(p + "balance_mode_handshake"@, "data"@, 1);
    lemma_not_ends_with(p + "balance_mode_handshake"@, "hub_state"@, 2);
    lemma_not_ends_with(p + "balance_mode_handshake"@, "monitor"@, 1);
    lemma_not_ends_with(p + "balance_mode_handshake"@, "alert_air"@, 1);
    lemma_not_ends_with(p + "balance_mode_handshake"@, "alert_temp"@, 1);
    lemma_ends_with_own_suffix(p, "hub_firmware_ok"@);
    lemma_not_ends_with(p + "hub_firmware_ok"@, "data"@, 1);
    lemma_not_ends_with(p + "hub_firmware_ok"@, "hub_state"@, 1);
    lemma_not_ends_with(p + "hub_firmware_ok"@, "monitor"@, 1);
    lemma_not_ends_with(p + "hub_firmware_ok"@, "alert_air"@, 1);
    lemma_not_ends_with(p + "hub_firmware_ok"@, "alert_temp"@, 1);
    lemma_not_ends_with(p + "hub_firmware_ok"@, "balance_mode_handshake"@, 1);
    lemma_ends_with_own_suffix(p, "hub_setting_ok"@);
    lemma_not_ends_with(p + "hub_setting_ok"@, "data"@, 1);
    lemma_not_ends_with(p + "hub_setting_ok"@, "hub_state"@, 1);
    lemma_not_ends_with(p + "hub_setting_ok"@, "monitor"@, 1);
    lemma_not_ends_with(p + "hub_setting_ok"@, "alert_air"@, 1);
    lemma_not_ends_with(p + "hub_setting_ok"@, "alert_temp"@, 1);
    lemma_not_ends_with(p + "hub_setting_ok"@, "balance_mode_handshake"@, 1);
    lemma_not_ends_with(p + "hub_setting_ok"@, "hub_firmware_ok"@, 4);
    lemma_ends_with_own_suffix(p, "setting"@);
    lemma_not_ends_with(p + "setting"@, "data"@, 1);
    lemma_not_ends_with(p + "setting"@, "hub_state"@, 1);
    lemma_not_ends_with(p + "setting"@, "monitor"@, 1);
    lemma_not_ends_with(p + "setting"@, "alert_air"@, 1);
    lemma_not_ends_with(p + "setting"@, "alert_temp"@, 1);
    lemma_not_ends_with(p + "setting"@, "balance_mode_handshake"@, 1);
    lemma_not_ends_with(p + "setting"@, "hub_firmware_ok"@, 1);
    lemma_not_ends_with(p + "setting"@, "hub_setting_ok"@, 1);
    lemma_ends_with_own_suffix(p, "linkage_request"@);
    lemma_not_ends_with(p + "linkage_request"@, "data"@, 1);
    lemma_not_ends_with(p + "linkage_request"@, "hub_state"@, 1);
    lemma_not_ends_with(p + "linkage_request"@, "monitor"@, 1);
    lemma_not_ends_with(p + "linkage_request"@, "alert_air"@, 1);
    lemma_not_ends_with(p + "linkage_request"@, "alert_temp"@, 1);
    lemma_not_ends_with(p + "linkage_request"@, "balance_mode_handshake"@, 1);
    lemma_not_ends_with(p + "linkage_request"@, "hub_firmware_ok"@, 1);
    lemma_not_ends_with(p + "linkage_request"@, "hub_setting_ok"@, 1);
    lemma_not_ends_with(p + "linkage_request"@, "setting"@, 1);
    lemma_ends_with_own_suffix(p, "empty_queue_safe"@);
    lemma_not_ends_with(p + "empty_queue_safe"@, "data"@, 1);
    lemma_not_ends_with(p + "empty_queue_safe"@, "hub_state"@, 2);
    lemma_not_ends_with(p + "empty_queue_safe"@, "monitor"@, 1);
    lemma_not_ends_with(p + "empty_queue_safe"@, "alert_air"@, 1);
    lemma_not_ends_with(p + "empty_queue_safe"@, "alert_temp"@, 1);
    lemma_not_ends_with(p + "empty_queue_safe"@, "balance_mode_handshake"@, 2);
    lemma_not_ends_with(p + "empty_queue_safe"@, "hub_firmware_ok"@, 1);
    lemma_not_ends_with(p + "empty_queue_safe"@, "hub_setting_ok"@, 1);
    lemma_not_ends_with(p + "empty_queue_safe"@, "setting"@, 1);
    lemma_not_ends_with(p + "empty_queue_safe"@, "linkage_request"@, 1);
    lemma_ends_with_own_suffix(p, "empty_queue"@);
    lemma_not_ends_with(p + "empty_queue"@, "data"@, 1);
    lemma_not_ends_with(p + "empty_queue"@, "hub_state"@, 2);
    lemma_not_ends_with(p + "empty_queue"@, "monitor"@, 1);
    lemma_not_ends_with(p + "empty_queue"@, "alert_air"@, 1);
    lemma_not_ends_with(p + "empty_queue"@, "alert_temp"@, 1);
    lemma_not_ends_with(p + "empty_queue"@, "balance_mode_handshake"@, 2);
    lemma_not_ends_with(p + "empty_queue"@, "hub_firmware_ok"@, 1);
    lemma_not_ends_with(p + "empty_queue"@, "hub_setting_ok"@, 1);
    lemma_not_ends_with(p + "empty_queue"@, "setting"@, 1);
    lemma_not_ends_with(p + "empty_queue"@, "linkage_request"@, 1);
    lemma_not_ends_with(p + "empty_queue"@, "empty_queue_safe"@, 2);
}

/// Every server message handed to the middleware reaches a service: nothing
/// the middleware receives is dropped there. Network instructions go to the
/// network service, hub settings to its settings handling, hub and gateway
/// firmware requests to the firmware service, heartbeats to the heartbeat
/// monitor.
pub proof fn law_server_messages_reach_their_service(kind: ServerMessageKind, local_connected: bool)
    ensures
        spec_route_server_message(kind, local_connected).to_middleware ==> spec_server_destination(kind)
            != ServerDestination::Ignored,
        kind is Network ==> spec_server_destination(kind) == ServerDestination::NetworkService,
        kind is UpdateFirmware ==> spec_server_destination(kind) == ServerDestination::FirmwareHubs,
        kind is FromServerSettings ==> spec_server_destination(kind) == ServerDestination::NetworkSettings,
        kind is Heartbeat ==> spec_server_destination(kind) == ServerDestination::HeartbeatService,
        kind is UpdateEdgeFirmware ==> spec_server_destination(kind) == ServerDestination::FirmwareEdge,
{
}

} // verus!
