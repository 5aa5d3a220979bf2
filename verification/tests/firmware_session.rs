use pimad_edge::second_layer::message::domain::{FirmwareHubAck, Metadata, UpdateEdgeFirmware, UpdateHubFirmware};
use pimad_edge::system::domain::System;
use pimad_edge::third_layer::firmware::logic::{
    clean_version, edge_update_accepted, edge_update_result, generate_outcome, EdgeUpdateOutcome, HubFirmwareStatus,
    HubOtaSession, OtaEffect, OtaState,
};
use pimad_edge::third_layer::network::domain::{Hub, NetworkManager};

fn system() -> System {
    System {
        id_edge: "edge1".to_string(),
        host_local: "l".to_string(),
        host_server: "s".to_string(),
        host_port: 1,
        cn: "c".to_string(),
        db_path: "d".to_string(),
        rust_log: "r".to_string(),
        buffer_size: 4,
    }
}

fn meta(sender: &str) -> Metadata {
    Metadata { sender_user_id: sender.to_string(), destination_id: "edge1".to_string(), timestamp: 0 }
}

fn manager() -> NetworkManager {
    let mut m = NetworkManager::new_empty(&system());
    m.add_hub("net1".to_string(), Hub { id: "h1".to_string(), device_name: "d1".to_string() });
    m.add_hub("net1".to_string(), Hub { id: "h2".to_string(), device_name: "d2".to_string() });
    m
}

fn request(network: &str) -> UpdateHubFirmware {
    UpdateHubFirmware { metadata: meta("server0"), network: network.to_string() }
}

fn ack(sender: &str, updated: bool, success: bool) -> FirmwareHubAck {
    FirmwareHubAck { metadata: meta(sender), is_updated: updated, success }
}

#[test]
fn session_asks_each_hub_in_turn() {
    let id = "edge1".to_string();
    let mut s = HubOtaSession::new();
    let e = s.on_request(&request("net1"), Some("1.4.0".to_string()), &manager(), &id);
    assert_eq!(s.state, OtaState::Working);
    assert_eq!(e.len(), 2);
    match &e[0] {
        OtaEffect::SendToHub(m) => {
            assert_eq!(m.metadata.destination_id, "h1");
            assert_eq!(m.version, "1.4.0");
            assert_eq!(m.network, "net1");
        }
        other => panic!("unexpected effect {:?}", other),
    }
    assert!(matches!(e[1], OtaEffect::InitTimer));
    let e = s.on_response(&ack("h2", true, true), &id);
    assert!(e.is_empty());
    assert_eq!(s.index, 0);
    let e = s.on_response(&ack("h1", true, true), &id);
    assert!(matches!(e[0], OtaEffect::StopTimer));
    match &e[1] {
        OtaEffect::SendToHub(m) => assert_eq!(m.metadata.destination_id, "h2"),
        other => panic!("unexpected effect {:?}", other),
    }
    let e = s.on_timeout(&id);
    assert_eq!(s.state, OtaState::Sleeping);
    match &e[1] {
        OtaEffect::Outcome { network, ok, total } => {
            assert_eq!(network, "net1");
            assert_eq!((*ok, *total), (1, 2));
        }
        other => panic!("unexpected effect {:?}", other),
    }
    assert!(s.on_response(&ack("h2", true, true), &id).is_empty());
}

#[test]
fn session_errors_without_version_or_hubs() {
    let id = "edge1".to_string();
    let mut s = HubOtaSession::new();
    let e = s.on_request(&request("net1"), None, &manager(), &id);
    assert_eq!(s.state, OtaState::Sleeping);
    match &e[0] {
        OtaEffect::OutcomeError { error, .. } => assert_eq!(error, "No se pudo obtener la versión actual del firmware"),
        other => panic!("unexpected effect {:?}", other),
    }
    let e = s.on_request(&request("empty"), Some("1.0".to_string()), &manager(), &id);
    assert_eq!(s.state, OtaState::Sleeping);
    match &e[0] {
        OtaEffect::OutcomeError { network, error } => {
            assert_eq!(network, "empty");
            assert_eq!(error, "No hay Hubs en la red empty. Nada para actualizar!");
        }
        other => panic!("unexpected effect {:?}", other),
    }
}

#[test]
fn outcome_counts_updated_or_successful() {
    let v = vec![
        HubFirmwareStatus { id: "a".to_string(), is_updated: true, success: false },
        HubFirmwareStatus { id: "b".to_string(), is_updated: false, success: true },
        HubFirmwareStatus { id: "c".to_string(), is_updated: false, success: false },
    ];
    assert_eq!(generate_outcome(&v), (2, 3));
    assert_eq!(generate_outcome(&Vec::new()), (0, 0));
}

#[test]
fn version_text_is_cleaned() {
    assert_eq!(clean_version("  v1.2.3\n"), "1.2.3");
    assert_eq!(clean_version("2.0"), "2.0");
    assert_eq!(clean_version("vv1"), "v1");
    assert_eq!(clean_version(" \n"), "");
}

#[test]
fn self_update_decisions() {
    let id = "edge1".to_string();
    let mine = UpdateEdgeFirmware { metadata: meta("server0"), version: "2".to_string() };
    assert!(edge_update_accepted(&mine, &id));
    assert!(!edge_update_accepted(&mine, &"edge2".to_string()));
    let (r, restart) = edge_update_result(&id, EdgeUpdateOutcome::Updated);
    assert!(!r.error && restart);
    assert_eq!(r.metadata.destination_id, "server0");
    let (r, restart) = edge_update_result(&id, EdgeUpdateOutcome::UpToDate);
    assert!(!r.error && !restart);
    let (r, restart) = edge_update_result(&id, EdgeUpdateOutcome::Failed);
    assert!(r.error && !restart);
}
