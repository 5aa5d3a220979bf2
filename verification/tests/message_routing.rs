use pimad_edge::second_layer::message::domain::Metadata;
use pimad_edge::second_layer::message::logic::{
    classify_hub_topic, ends_with, extract_metadata, generate_edge_upload, middleware_destination, route_hub_message,
    route_server_message, server_destination, HubRoute, HubTopicKind, MiddlewareDestination, ServerDestination,
    ServerMessageKind,
};

#[test]
fn topic_suffix_selects_decoder() {
    assert_eq!(classify_hub_topic("iot/n/hub/h/data"), Some(HubTopicKind::Report));
    assert_eq!(classify_hub_topic("iot/n/hub/h/hub_state"), Some(HubTopicKind::HubState));
    assert_eq!(classify_hub_topic("iot/n/hub/h/monitor"), Some(HubTopicKind::Monitor));
    assert_eq!(classify_hub_topic("iot/n/hub/h/alert_temp"), Some(HubTopicKind::AlertTem));
    assert_eq!(classify_hub_topic("iot/n/hub/h/hub_setting_ok"), Some(HubTopicKind::FromHubSettingsAck));
    assert_eq!(classify_hub_topic("iot/n/hub/h/setting"), Some(HubTopicKind::FromHubSettings));
    assert_eq!(classify_hub_topic("iot/e/linkage_request"), Some(HubTopicKind::LinkageRequest));
    assert_eq!(classify_hub_topic("iot/n/hub/h/empty_queue_safe"), Some(HubTopicKind::EmptyQueueSafe));
    assert_eq!(classify_hub_topic("iot/n/hub/h/empty_queue"), Some(HubTopicKind::EmptyQueue));
    assert_eq!(classify_hub_topic("iot/n/hub/h/unknown"), None);
    assert!(ends_with("abcdata", "data"));
    assert!(!ends_with("ata", "data"));
}

#[test]
fn telemetry_is_stored_and_forwarded() {
    assert_eq!(route_hub_message(HubTopicKind::Report, true, true), HubRoute::ToServer);
    assert_eq!(route_hub_message(HubTopicKind::Report, true, false), HubRoute::ToMiddleware);
    assert_eq!(route_hub_message(HubTopicKind::AlertAir, false, true), HubRoute::Drop);
    assert_eq!(route_hub_message(HubTopicKind::HubState, true, false), HubRoute::Drop);
    assert_eq!(route_hub_message(HubTopicKind::FromHubSettingsAck, false, true), HubRoute::AckToHubs);
    assert_eq!(route_hub_message(HubTopicKind::HandshakeFromHub, false, false), HubRoute::ToMiddleware);
}

#[test]
fn middleware_destinations() {
    assert_eq!(middleware_destination(HubTopicKind::Monitor), MiddlewareDestination::DataService);
    assert_eq!(middleware_destination(HubTopicKind::HandshakeFromHub), MiddlewareDestination::FsmHandshake);
    assert_eq!(middleware_destination(HubTopicKind::FirmwareOk), MiddlewareDestination::FirmwareAck);
    assert_eq!(middleware_destination(HubTopicKind::EmptyQueueSafe), MiddlewareDestination::FsmQueueSafe);
    assert_eq!(middleware_destination(HubTopicKind::LinkageRequest), MiddlewareDestination::NetworkLinkage);
    assert_eq!(middleware_destination(HubTopicKind::HubState), MiddlewareDestination::Ignored);
    assert_eq!(server_destination(ServerMessageKind::UpdateFirmware), ServerDestination::FirmwareHubs);
    assert_eq!(server_destination(ServerMessageKind::Heartbeat), ServerDestination::HeartbeatService);
    assert_eq!(server_destination(ServerMessageKind::FromServerSettingsAck), ServerDestination::Ignored);
}

#[test]
fn server_messages_routes() {
    let r = route_server_message(ServerMessageKind::FromServerSettings, false);
    assert!(r.to_hubs && r.to_middleware && !r.to_server);
    let r = route_server_message(ServerMessageKind::FromServerSettingsAck, true);
    assert!(r.to_server && !r.to_hubs && !r.to_middleware);
    let r = route_server_message(ServerMessageKind::FromServerSettingsAck, false);
    assert!(!r.to_server);
    let r = route_server_message(ServerMessageKind::Network, false);
    assert!(r.to_middleware && !r.to_hubs);
}

#[test]
fn metadata_and_upload_envelope() {
    let m = Metadata { sender_user_id: "s".to_string(), destination_id: "d".to_string(), timestamp: 3 };
    assert_eq!(extract_metadata(Some(m.clone())), m);
    assert_eq!(extract_metadata(None), Metadata::default());
    let up = generate_edge_upload(Some(5u8), "edge".to_string()).unwrap();
    assert_eq!(up.edge_id, "edge");
    assert_eq!(up.payload, Some(5));
    assert!(generate_edge_upload::<u8>(None, "edge".to_string()).is_none());
}
