use pimad_edge::second_layer::database::domain::{HubRow, NetworkRow};
use pimad_edge::second_layer::message::domain::{LinkageRequest, Metadata, Network as NetworkMessage};
use pimad_edge::system::domain::System;
use pimad_edge::third_layer::network::domain::{Hub, Network, NetworkAction, NetworkChanged, NetworkManager};
use pimad_edge::third_layer::network::logic::{
    ack_code, handle_action, linkage, load_memory, network_action, send_message_linkage_ack, LinkageDecision,
};

fn system() -> System {
    System {
        id_edge: "edge7".to_string(),
        host_local: "localhost".to_string(),
        host_server: "server".to_string(),
        host_port: 50051,
        cn: "cn".to_string(),
        db_path: "db".to_string(),
        rust_log: "info".to_string(),
        buffer_size: 16,
    }
}

fn meta(sender: &str) -> Metadata {
    Metadata { sender_user_id: sender.to_string(), destination_id: "edge7".to_string(), timestamp: 1 }
}

fn msg(id: &str, active: bool, delete: bool) -> NetworkMessage {
    NetworkMessage { metadata: meta("server0"), id_network: id.to_string(), name_network: "n".to_string(), active, delete_network: delete }
}

fn hub(id: &str, name: &str) -> Hub {
    Hub { id: id.to_string(), device_name: name.to_string() }
}

#[test]
fn new_manager_topics_follow_edge_id() {
    let m = NetworkManager::new_empty(&system());
    assert!(m.networks.is_empty());
    assert_eq!(m.topic_handshake.topic, "iot/edge7/handshake");
    assert_eq!(m.topic_state.topic, "iot/edge7/state");
    assert_eq!(m.topic_heartbeat.topic, "iot/edge7/heartbeat");
    assert_eq!(m.topic_linkage_request.topic, "iot/edge7/linkage_request");
    assert_eq!(m.topic_linkage_ack.topic, "iot/edge7/linkage_ack");
}

#[test]
fn network_topics_follow_network_id() {
    let n = Network::new("net1".to_string(), true);
    assert_eq!(n.topic_data.topic, "iot/net1/hub/+/data");
    assert_eq!(n.topic_hub_state.topic, "iot/net1/hub/+/hub_state");
    assert_eq!(n.topic_queue_empty_safe.topic, "iot/net1/hub/+/empty_queue_safe");
    assert_eq!(n.topic_new_firmware.topic, "iot/net1/new_firmware");
    assert_eq!(n.topic_hub_firmware_ok.qos, 2);
    assert_eq!(n.topic_alert_air.qos, 1);
    assert!(n.active);
}

#[test]
fn add_then_active_then_remove() {
    let mut m = NetworkManager::new_empty(&system());
    m.add_network(Network::new("net1".to_string(), true));
    assert!(m.is_active("net1"));
    m.change_active(false, "net1");
    assert!(!m.is_active("net1"));
    m.add_network(Network::new("net1".to_string(), true));
    assert_eq!(m.networks.len(), 1);
    m.remove_network("net1");
    assert!(!m.is_active("net1"));
    assert!(m.networks.is_empty());
}

#[test]
fn hubs_are_added_once_and_searched() {
    let mut m = NetworkManager::new_empty(&system());
    m.add_network(Network::new("net1".to_string(), true));
    m.add_network(Network::new("net2".to_string(), true));
    m.add_hub("net1".to_string(), hub("h1", "dev1"));
    m.add_hub("net1".to_string(), hub("h1", "dev1"));
    m.add_hub("net1".to_string(), hub("h2", "dev2"));
    m.add_hub("net2".to_string(), hub("h3", "dev3"));
    assert!(m.search_hub("net1", "h2"));
    assert!(!m.search_hub("net2", "h2"));
    assert!(m.search_hub("net9", "h2"));
    assert_eq!(m.get_all_hub_ids_by_network("net1"), vec!["h1".to_string(), "h2".to_string()]);
    assert!(m.get_all_hub_ids_by_network("net9").is_empty());
    assert_eq!(m.get_total_hubs(), 3);
}

#[test]
fn server_network_messages_choose_action() {
    let mut m = NetworkManager::new_empty(&system());
    assert_eq!(network_action(&m, &msg("net1", true, false)), NetworkAction::Insert);
    assert_eq!(network_action(&m, &msg("net1", true, true)), NetworkAction::Ignore);
    let changed = handle_action(&mut m, &msg("net1", true, false), NetworkAction::Insert);
    assert!(matches!(changed, NetworkChanged::Insert(ref row) if row.id_network == "net1" && row.active));
    assert_eq!(network_action(&m, &msg("net1", true, false)), NetworkAction::Ignore);
    assert_eq!(network_action(&m, &msg("net1", false, false)), NetworkAction::Update { before: true, after: false });
    let changed = handle_action(&mut m, &msg("net1", false, false), NetworkAction::Update { before: true, after: false });
    assert!(!m.is_active("net1"));
    assert_eq!(ack_code(&changed, true), Some(400));
    assert_eq!(ack_code(&changed, false), Some(401));
    assert_eq!(network_action(&m, &msg("net1", false, true)), NetworkAction::Delete);
    let changed = handle_action(&mut m, &msg("net1", false, true), NetworkAction::Delete);
    assert!(m.networks.is_empty());
    assert_eq!(ack_code(&changed, true), Some(200));
    assert_eq!(ack_code(&changed, false), Some(201));
}

#[test]
fn ack_codes_for_every_change() {
    let row = NetworkRow { id_network: "n".to_string(), active: true };
    assert_eq!(ack_code(&NetworkChanged::Insert(row.clone()), true), Some(100));
    assert_eq!(ack_code(&NetworkChanged::Insert(row.clone()), false), Some(101));
    assert_eq!(ack_code(&NetworkChanged::Update { data: row.clone(), before: false, after: true }, true), Some(300));
    assert_eq!(ack_code(&NetworkChanged::Update { data: row.clone(), before: false, after: true }, false), Some(301));
    assert_eq!(ack_code(&NetworkChanged::Update { data: row, before: true, after: true }, true), None);
}

#[test]
fn linkage_registers_new_hub_of_known_network() {
    let mut m = NetworkManager::new_empty(&system());
    m.add_network(Network::new("net1".to_string(), true));
    let req = LinkageRequest { metadata: meta("hub9"), device_name: "dev9".to_string(), network: "net1".to_string(), linkage_request: true };
    match linkage(&mut m, &req) {
        LinkageDecision::Registered { hub_row, first_hub } => {
            assert_eq!(hub_row.id, "hub9");
            assert_eq!(hub_row.network_id, "net1");
            assert!(first_hub);
        }
        other => panic!("unexpected decision {:?}", other),
    }
    assert!(m.search_hub("net1", "hub9"));
    assert!(matches!(linkage(&mut m, &req), LinkageDecision::AlreadyRegistered));
    let unknown = LinkageRequest { metadata: meta("hub1"), device_name: "d".to_string(), network: "netX".to_string(), linkage_request: true };
    assert!(matches!(linkage(&mut m, &unknown), LinkageDecision::AlreadyRegistered));
    let ack = send_message_linkage_ack(&system(), &req);
    assert_eq!(ack.metadata.sender_user_id, "edge7");
    assert_eq!(ack.metadata.destination_id, "hub9");
    assert!(ack.linkage_ack);
}

#[test]
fn load_memory_needs_networks_and_hubs() {
    let mut m = NetworkManager::new_empty(&system());
    let nets = vec![NetworkRow { id_network: "net1".to_string(), active: true }];
    let hubs = vec![HubRow { id: "h1".to_string(), device_name: "d1".to_string(), network_id: "net1".to_string() }];
    assert!(load_memory(&mut m, Some(nets.clone()), Some(hubs)));
    assert!(m.is_active("net1"));
    assert!(m.search_hub("net1", "h1"));
    let mut e = NetworkManager::new_empty(&system());
    assert!(!load_memory(&mut e, Some(nets), Some(Vec::new())));
    let mut f = NetworkManager::new_empty(&system());
    assert!(!load_memory(&mut f, None, None));
}

#[test]
fn add_hub_updates_device_name_of_known_hub() {
    let mut m = NetworkManager::new_empty(&system());
    m.add_network(Network::new("net1".to_string(), true));
    m.add_hub("net1".to_string(), hub("h1", "old-name"));
    m.add_hub("net1".to_string(), hub("h1", "new-name"));
    assert_eq!(m.get_total_hubs(), 1);
    assert_eq!(m.get_all_hub_ids_by_network("net1"), vec!["h1".to_string()]);
    let group = m.hubs.iter().find(|g| g.id_network == "net1").unwrap();
    assert_eq!(group.hubs, vec![hub("h1", "new-name")]);
}

#[test]
fn load_memory_builds_networks_with_their_topics() {
    let mut m = NetworkManager::new_empty(&system());
    let nets = vec![
        NetworkRow { id_network: "net1".to_string(), active: true },
        NetworkRow { id_network: "net1".to_string(), active: false },
    ];
    let hubs = vec![
        HubRow { id: "h1".to_string(), device_name: "d1".to_string(), network_id: "net1".to_string() },
        HubRow { id: "h1".to_string(), device_name: "d2".to_string(), network_id: "net1".to_string() },
    ];
    assert!(load_memory(&mut m, Some(nets), Some(hubs)));
    assert!(!m.is_active("net1"));
    let n = m.networks.iter().find(|n| n.id_network == "net1").unwrap();
    assert_eq!(n.topic_data.topic, "iot/net1/hub/+/data");
    assert_eq!(n.topic_data.qos, 0);
    assert_eq!(n.topic_hub_firmware_ok.qos, 2);
    assert_eq!(m.get_total_hubs(), 1);
}
