use pimad_edge::first_layer::mqtt::domain::{MqttServiceCommand, PayloadTopic};
use pimad_edge::first_layer::mqtt::logic::{
    cast_qos, collect_subscriptions, mqtt_step, update_subscriptions, ClientAction, ClientEvent, Qos, StateClient,
    SubEntry, Subscriptions,
};
use pimad_edge::second_layer::message::domain::SerializedMessage;
use pimad_edge::system::domain::{InternalEvent, System};
use pimad_edge::third_layer::network::domain::{Network, NetworkManager};

fn system() -> System {
    System {
        id_edge: "edge1".to_string(),
        host_local: "localhost".to_string(),
        host_server: "server".to_string(),
        host_port: 1,
        cn: "cn".to_string(),
        db_path: "db".to_string(),
        rust_log: "info".to_string(),
        buffer_size: 8,
    }
}

fn manager_with(ids: &[&str]) -> NetworkManager {
    let mut m = NetworkManager::new_empty(&system());
    for id in ids {
        m.add_network(Network::new(id.to_string(), true));
    }
    m
}

#[test]
fn qos_levels() {
    assert_eq!(cast_qos(&0), Qos::AtMostOnce);
    assert_eq!(cast_qos(&1), Qos::AtLeastOnce);
    assert_eq!(cast_qos(&2), Qos::ExactlyOnce);
    assert_eq!(cast_qos(&7), Qos::AtMostOnce);
}

#[test]
fn startup_table_lists_linkage_and_hub_topics() {
    let m = manager_with(&["net1", "net2"]);
    let subs = collect_subscriptions(&m);
    assert_eq!(subs.len(), 1 + 2 * 11);
    let linkage = subs.get(&"iot/edge1/linkage_request".to_string()).unwrap();
    assert_eq!(linkage, SubEntry { active: true, subscribed: true, qos: Qos::AtLeastOnce });
    let firmware = subs.get(&"iot/net2/hub/+/hub_firmware_ok".to_string()).unwrap();
    assert_eq!(firmware.qos, Qos::ExactlyOnce);
    assert!(subs.get(&"iot/net1/new_setting".to_string()).is_none());
}

#[test]
fn update_subscribes_new_and_unsubscribes_dropped() {
    let before = manager_with(&["net1"]);
    let mut subs = collect_subscriptions(&before);
    let after = manager_with(&["net2"]);
    let plan = update_subscriptions(&after, &mut subs);
    assert_eq!(plan.to_sub.len(), 11);
    assert!(plan.to_sub.iter().all(|(t, _)| t.starts_with("iot/net2/")));
    assert_eq!(plan.to_unsub.len(), 11);
    assert!(!plan.to_unsub.contains(&"iot/edge1/linkage_request".to_string()));
    assert!(plan.to_unsub.contains(&"iot/net1/hub/+/data".to_string()));
    for (topic, _) in &plan.to_sub {
        subs.mark_subscribed(topic);
    }
    for topic in &plan.to_unsub {
        subs.remove(topic);
    }
    assert_eq!(subs.len(), 12);
    let linkage = subs.get(&"iot/edge1/linkage_request".to_string()).unwrap();
    assert!(linkage.active && linkage.subscribed);
    let again = update_subscriptions(&after, &mut subs);
    assert!(again.to_sub.is_empty());
    assert!(again.to_unsub.is_empty());
}

#[test]
fn unchanged_topology_asks_nothing_for_kept_topics() {
    let m = manager_with(&["net1"]);
    let mut subs = collect_subscriptions(&m);
    let plan = update_subscriptions(&m, &mut subs);
    assert!(plan.to_sub.is_empty());
    assert!(plan.to_unsub.is_empty());
    let kept = subs.get(&"iot/net1/hub/+/data".to_string()).unwrap();
    assert!(kept.active && kept.subscribed);
}

#[test]
fn table_primitives() {
    let mut subs = Subscriptions::new();
    let t = "a/b".to_string();
    subs.all_topics(&t, 1);
    assert_eq!(subs.get(&t), Some(SubEntry { active: true, subscribed: false, qos: Qos::AtLeastOnce }));
    subs.mark_subscribed(&t);
    subs.mark_all_inactive();
    assert_eq!(subs.get(&t), Some(SubEntry { active: false, subscribed: true, qos: Qos::AtLeastOnce }));
    subs.insert(t.clone(), SubEntry { active: true, subscribed: true, qos: Qos::AtMostOnce });
    assert_eq!(subs.len(), 1);
    subs.remove(&t);
    assert_eq!(subs.len(), 0);
}

#[test]
fn client_life_cycle() {
    let (s, a) = mqtt_step(StateClient::Waiting, ClientEvent::Command(MqttServiceCommand::NetworksUpdated));
    assert_eq!(s, StateClient::Waiting);
    assert!(matches!(a, ClientAction::Nothing));
    let (s, a) = mqtt_step(StateClient::Waiting, ClientEvent::Command(MqttServiceCommand::NetworksReady));
    assert_eq!(s, StateClient::Init);
    assert!(matches!(a, ClientAction::Connect));
    let (s, _) = mqtt_step(StateClient::Init, ClientEvent::Ready(false));
    assert_eq!(s, StateClient::Error);
    let (s, a) = mqtt_step(StateClient::Error, ClientEvent::RetryElapsed);
    assert_eq!(s, StateClient::Init);
    assert!(matches!(a, ClientAction::Connect));
    let (s, _) = mqtt_step(StateClient::Init, ClientEvent::Ready(true));
    assert_eq!(s, StateClient::Work);
    let (_, a) = mqtt_step(StateClient::Work, ClientEvent::ConnAck);
    assert!(matches!(a, ClientAction::Report(InternalEvent::LocalConnected)));
    let (_, a) = mqtt_step(StateClient::Work, ClientEvent::Incoming(PayloadTopic::new(vec![1, 2], "iot/n/hub/h/data".to_string())));
    match a {
        ClientAction::Report(InternalEvent::IncomingMessage(p)) => {
            assert_eq!(p.payload, vec![1, 2]);
            assert_eq!(p.topic, "iot/n/hub/h/data");
        }
        other => panic!("unexpected action {:?}", other),
    }
    let (_, a) = mqtt_step(StateClient::Work, ClientEvent::Outgoing(SerializedMessage::new("t".to_string(), vec![9], 2, false)));
    match a {
        ClientAction::Publish(m, q) => {
            assert_eq!(m.get_topic(), "t");
            assert_eq!(q, Qos::ExactlyOnce);
        }
        other => panic!("unexpected action {:?}", other),
    }
    let (_, a) = mqtt_step(StateClient::Work, ClientEvent::Command(MqttServiceCommand::NetworksUpdated));
    assert!(matches!(a, ClientAction::UpdateSubscriptions));
    let (s, a) = mqtt_step(StateClient::Work, ClientEvent::ConnectionLost);
    assert_eq!(s, StateClient::Error);
    assert!(matches!(a, ClientAction::Report(InternalEvent::LocalDisconnected)));
    let (s, a) = mqtt_step(StateClient::Error, ClientEvent::Shutdown);
    assert_eq!(s, StateClient::Error);
    assert!(matches!(a, ClientAction::Exit));
    let (s, _) = mqtt_step(StateClient::Work, ClientEvent::OutgoingClosed);
    assert_eq!(s, StateClient::Error);
}
