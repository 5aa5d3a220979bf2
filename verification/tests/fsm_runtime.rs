use pimad_edge::fsm::domain::{
    Action, Event, FsmState, StateGlobal, StateOfSession, SubStateBalanceMode, SubStatePhase, SubStateQuorum,
};
use pimad_edge::second_layer::message::domain::{EmptyQueue, EmptyQueueSafeMode, HandshakeFromHub, Metadata};
use pimad_edge::system::domain::InternalEvent;
use pimad_edge::system::timer::TimerOrder;
use pimad_edge::third_layer::fsm::domain::UpdateSession;
use pimad_edge::third_layer::fsm::logic::{
    beat_on_action, beat_on_timeout, edge_state, handle_action, handle_events, handle_transition, on_epoch_loaded,
    on_epoch_saved, quorum_attempts_exhausted, repeat_handshake, send_handshake, send_phase_notification, Beat,
    EventDecision, EventFsm, FsmEffect, State,
};
use pimad_edge::third_layer::quorum::domain::ProtocolSettings;

fn settings() -> ProtocolSettings {
    ProtocolSettings::new(3, 7, 9, 11, 13, 17, 19, 23, 29)
}

fn meta(sender: &str) -> Metadata {
    Metadata { sender_user_id: sender.to_string(), destination_id: "edge0".to_string(), timestamp: 5 }
}

fn handshake(sender: &str, epoch: u32) -> EventFsm {
    EventFsm::Handshake(HandshakeFromHub { metadata: meta(sender), flag: "in".to_string(), balance_epoch: epoch })
}

fn empty_queue(sender: &str, empty: bool) -> EventFsm {
    EventFsm::Queue(EmptyQueue { metadata: meta(sender), state: "balance".to_string(), phase: "alert".to_string(), queue_empty: empty })
}

fn empty_queue_safe(sender: &str, empty: bool) -> EventFsm {
    EventFsm::QueueSafe(EmptyQueueSafeMode { metadata: meta(sender), state: "safe".to_string(), queue_empty: empty })
}

fn session_at(stage: StateOfSession, epoch: u32) -> UpdateSession {
    let mut s = UpdateSession::new();
    s.set_state(stage);
    s.set_epoch(epoch);
    s
}

#[test]
fn session_new_is_empty() {
    let s = UpdateSession::new();
    assert_eq!(s.get_state(), StateOfSession::NoSession);
    assert_eq!(s.get_total_handshake(), 0);
    assert_eq!(s.get_total_empty(), 0);
    assert_eq!(s.get_total_attempts(), 0);
    assert_eq!(s.get_epoch(), 0);
}

#[test]
fn session_counts_each_hub_once() {
    let mut s = UpdateSession::new();
    s.insert_handshake("hub1".to_string(), 4);
    s.insert_handshake("hub2".to_string(), 4);
    s.insert_handshake("hub1".to_string(), 4);
    assert_eq!(s.get_total_handshake(), 2);
    s.insert_empty("hub1".to_string(), true);
    s.insert_empty("hub1".to_string(), true);
    assert_eq!(s.get_total_empty(), 1);
    s.reset_handshake_hash();
    s.reset_empty_hash();
    assert_eq!(s.get_total_handshake(), 0);
    assert_eq!(s.get_total_empty(), 0);
}

#[test]
fn session_attempts_increment_and_reset() {
    let mut s = UpdateSession::new();
    s.increment_attempts();
    s.increment_attempts();
    assert_eq!(s.get_total_attempts(), 2);
    s.reset_total_attempts();
    assert_eq!(s.get_total_attempts(), 0);
}

#[test]
fn handshakes_count_only_in_handshake_stages_and_epoch() {
    let mut s = session_at(StateOfSession::InHandshake, 8);
    assert!(matches!(handle_events(handshake("hub1", 8), &mut s), EventDecision::ToFsm(Event::NewMessageHandshake)));
    assert!(matches!(handle_events(handshake("hub1", 8), &mut s), EventDecision::ToFsm(Event::NewMessageHandshake)));
    assert_eq!(s.get_total_handshake(), 1);
    assert!(matches!(handle_events(handshake("hub2", 7), &mut s), EventDecision::Ignore));
    assert_eq!(s.get_total_handshake(), 1);
    let mut q = session_at(StateOfSession::Quorum, 8);
    assert!(matches!(handle_events(handshake("hub3", 8), &mut q), EventDecision::Ignore));
    assert_eq!(q.get_total_handshake(), 0);
    let mut r = session_at(StateOfSession::RepeatHandshake, 8);
    assert!(matches!(handle_events(handshake("hub3", 8), &mut r), EventDecision::ToFsm(Event::NewMessageHandshake)));
}

#[test]
fn empty_queue_reports_feed_phase_quorum() {
    let mut s = session_at(StateOfSession::PhaseData, 1);
    assert!(matches!(handle_events(empty_queue("hub1", true), &mut s), EventDecision::PhaseQuorum(1)));
    assert!(matches!(handle_events(empty_queue("hub2", true), &mut s), EventDecision::PhaseQuorum(2)));
    assert!(matches!(handle_events(empty_queue("hub2", true), &mut s), EventDecision::PhaseQuorum(2)));
    assert!(matches!(handle_events(empty_queue("hub3", false), &mut s), EventDecision::Ignore));
    let mut n = session_at(StateOfSession::SafeMode, 1);
    assert!(matches!(handle_events(empty_queue("hub1", true), &mut n), EventDecision::Ignore));
    assert!(matches!(handle_events(empty_queue_safe("hub1", true), &mut n), EventDecision::SafeModeQuorum(1)));
    let mut p = session_at(StateOfSession::PhaseAlert, 1);
    assert!(matches!(handle_events(empty_queue_safe("hub1", true), &mut p), EventDecision::Ignore));
}

#[test]
fn connection_events_reach_the_machine() {
    let mut s = UpdateSession::new();
    assert!(matches!(handle_events(EventFsm::Connection(InternalEvent::LocalConnected), &mut s), EventDecision::ToFsm(Event::LocalConnected)));
    assert!(matches!(handle_events(EventFsm::Connection(InternalEvent::LocalDisconnected), &mut s), EventDecision::ToFsm(Event::LocalDisconnected)));
    assert!(matches!(handle_events(EventFsm::Connection(InternalEvent::ServerConnected), &mut s), EventDecision::Ignore));
}

#[test]
fn entering_in_handshake_broadcasts_and_arms_timer() {
    let mut s = session_at(StateOfSession::NoSession, 42);
    let effects = handle_action(Action::OnEntryBalance(SubStateBalanceMode::InHandshake), &mut s, &settings(), &"edge1".to_string());
    assert_eq!(s.get_state(), StateOfSession::InHandshake);
    assert_eq!(effects.len(), 2);
    match &effects[0] {
        FsmEffect::SendHandshake(m) => {
            assert_eq!(m.flag, "in");
            assert_eq!(m.balance_epoch, 42);
            assert_eq!(m.metadata.sender_user_id, "edge1");
            assert_eq!(m.metadata.destination_id, "all");
        }
        other => panic!("unexpected effect {:?}", other),
    }
    assert!(matches!(effects[1], FsmEffect::InitTimer(11)));
    let effects = handle_action(Action::OnEntryBalance(SubStateBalanceMode::OutHandshake), &mut s, &settings(), &"edge1".to_string());
    assert_eq!(s.get_state(), StateOfSession::OutHandshake);
    match &effects[0] {
        FsmEffect::SendHandshake(m) => assert_eq!(m.flag, "out"),
        other => panic!("unexpected effect {:?}", other),
    }
}

#[test]
fn entering_balance_loads_epoch() {
    let mut s = UpdateSession::new();
    let effects = handle_action(Action::OnEntryBalance(SubStateBalanceMode::InitBalanceMode), &mut s, &settings(), &"e".to_string());
    assert_eq!(effects.len(), 1);
    assert!(matches!(effects[0], FsmEffect::LoadEpoch));
    assert_eq!(on_epoch_loaded(&mut s, Some(9)), Some(10));
    assert_eq!(s.get_epoch(), 10);
    let ok = on_epoch_saved(&s, true, &settings());
    assert!(matches!(ok[0], FsmEffect::ToFsm(Event::BalanceEpochOk)));
    match ok[1] {
        FsmEffect::ToEdgeState(State::BalanceMode { epoch, duration, frequency, jitter }) => {
            assert_eq!((epoch, duration, frequency), (10, 300, 7));
            assert!(jitter <= 5);
        }
        ref other => panic!("unexpected effect {:?}", other),
    }
    let failed = on_epoch_saved(&s, false, &settings());
    assert_eq!(failed.len(), 1);
    assert!(matches!(failed[0], FsmEffect::ToFsm(Event::BalanceEpochNotOk)));
    let mut t = UpdateSession::new();
    assert_eq!(on_epoch_loaded(&mut t, None), None);
    assert_eq!(t.get_epoch(), 0);
}

#[test]
fn repeated_round_counts_attempt_and_forgets_votes() {
    let mut s = session_at(StateOfSession::Quorum, 3);
    s.insert_handshake("hub1".to_string(), 3);
    let effects = handle_action(Action::OnEntryQuorum(SubStateQuorum::RepeatHandshakeOut), &mut s, &settings(), &"e".to_string());
    assert_eq!(s.get_state(), StateOfSession::RepeatHandshake);
    assert_eq!(s.get_total_attempts(), 1);
    assert_eq!(s.get_total_handshake(), 0);
    match &effects[0] {
        FsmEffect::SendHandshake(m) => {
            assert_eq!(m.flag, "out");
            assert_eq!(m.balance_epoch, 3);
        }
        other => panic!("unexpected effect {:?}", other),
    }
    assert!(matches!(effects[1], FsmEffect::InitTimer(11)));
}

#[test]
fn quorum_check_asks_for_evaluation() {
    let mut s = UpdateSession::new();
    let effects = handle_action(Action::OnEntryQuorum(SubStateQuorum::CheckQuorumIn), &mut s, &settings(), &"e".to_string());
    assert_eq!(s.get_state(), StateOfSession::Quorum);
    assert_eq!(effects.len(), 1);
    assert!(matches!(effects[0], FsmEffect::EvaluateQuorum));
    let effects = handle_action(Action::CalculateQuorum, &mut s, &settings(), &"e".to_string());
    assert!(matches!(effects[0], FsmEffect::EvaluateQuorum));
}

#[test]
fn entering_alert_phase_resets_and_notifies() {
    let mut s = session_at(StateOfSession::Quorum, 6);
    s.increment_attempts();
    s.insert_handshake("hub1".to_string(), 6);
    s.insert_empty("hub1".to_string(), true);
    let effects = handle_action(Action::OnEntryPhase(SubStatePhase::Alert), &mut s, &settings(), &"edge1".to_string());
    assert_eq!(s.get_state(), StateOfSession::PhaseAlert);
    assert_eq!((s.get_total_attempts(), s.get_total_handshake(), s.get_total_empty()), (0, 0, 0));
    assert_eq!(effects.len(), 3);
    assert!(matches!(effects[0], FsmEffect::InitTimer(13)));
    match &effects[1] {
        FsmEffect::SendPhase(p) => {
            assert_eq!(p.state, "balance_mode");
            assert_eq!(p.phase, "alert");
            assert_eq!(p.epoch, 6);
            assert_eq!(p.frequency, 7);
            assert!(p.jitter <= 10);
        }
        other => panic!("unexpected effect {:?}", other),
    }
    assert!(matches!(effects[2], FsmEffect::ToHeartbeat(Action::SendHeartbeatMessagePhase)));
    let effects = handle_action(Action::OnEntryPhase(SubStatePhase::Monitor), &mut s, &settings(), &"edge1".to_string());
    assert_eq!(s.get_state(), StateOfSession::PhaseMonitor);
    assert_eq!(effects.len(), 2);
}

#[test]
fn normal_safe_mode_and_forwarded_actions() {
    let mut s = UpdateSession::new();
    let e = handle_action(Action::OnEntryNormal, &mut s, &settings(), &"e".to_string());
    assert!(matches!(e[0], FsmEffect::ToHeartbeat(Action::SendHeartbeatMessageNormal)));
    assert!(matches!(e[1], FsmEffect::ToEdgeState(State::Normal)));
    s.insert_empty("hub".to_string(), true);
    let e = handle_action(Action::OnEntrySafeMode, &mut s, &settings(), &"e".to_string());
    assert_eq!(s.get_state(), StateOfSession::SafeMode);
    assert_eq!(s.get_total_empty(), 0);
    assert!(matches!(e[0], FsmEffect::InitTimer(17)));
    assert!(matches!(e[1], FsmEffect::ToHeartbeat(Action::SendHeartbeatMessageSafeMode)));
    match e[2] {
        FsmEffect::ToEdgeState(State::SafeMode { frequency, jitter }) => {
            assert_eq!(frequency, 9);
            assert!(jitter <= 5);
        }
        ref other => panic!("unexpected effect {:?}", other),
    }
    let e = handle_action(Action::OnEntryDisconnected, &mut s, &settings(), &"e".to_string());
    assert!(matches!(e[0], FsmEffect::ToEdgeState(State::Disconnected)));
    let e = handle_action(Action::StopTimer, &mut s, &settings(), &"e".to_string());
    assert!(matches!(e[0], FsmEffect::StopTimer));
    let e = handle_action(Action::StopSendHeartbeatMessageNormal, &mut s, &settings(), &"e".to_string());
    assert!(matches!(e[0], FsmEffect::ToHeartbeat(Action::StopSendHeartbeatMessageNormal)));
    let e = handle_action(Action::SendHeartbeatMessageNormal, &mut s, &settings(), &"e".to_string());
    assert!(e.is_empty());
}

#[test]
fn attempts_exhausted_only_beyond_limit() {
    let mut s = UpdateSession::new();
    for _ in 0..3 {
        s.increment_attempts();
    }
    assert!(!quorum_attempts_exhausted(&s, &settings()));
    s.increment_attempts();
    assert!(quorum_attempts_exhausted(&s, &settings()));
}

#[test]
fn heartbeat_generator_cadence() {
    let mut beat = Beat::Idle;
    assert_eq!(beat_on_action(&mut beat, Action::SendHeartbeatMessagePhase, &settings()), Some(TimerOrder::Init(19)));
    assert_eq!(beat, Beat::BalanceMode);
    assert_eq!(beat_on_action(&mut beat, Action::StopSendHeartbeatMessagePhase, &settings()), Some(TimerOrder::Stop));
    assert_eq!(beat, Beat::BalanceMode);
    assert_eq!(beat_on_action(&mut beat, Action::SendHeartbeatMessageNormal, &settings()), Some(TimerOrder::Init(23)));
    assert_eq!(beat_on_action(&mut beat, Action::SendHeartbeatMessageSafeMode, &settings()), Some(TimerOrder::Init(29)));
    assert_eq!(beat_on_action(&mut beat, Action::CalculateQuorum, &settings()), None);
    let (hb, next) = beat_on_timeout(Beat::Normal, &settings(), &"edge1".to_string());
    assert!(hb.beat);
    assert_eq!(hb.metadata.destination_id, "all");
    assert_eq!(next, Some(23));
    let (_, next) = beat_on_timeout(Beat::Idle, &settings(), &"edge1".to_string());
    assert_eq!(next, None);
}

#[test]
fn edge_state_messages_per_state() {
    let id = "edge1".to_string();
    let (e, h) = edge_state(&State::BalanceMode { epoch: 4, duration: 300, frequency: 7, jitter: 2 }, &id).unwrap();
    assert_eq!((e.state.as_str(), h.state.as_str()), ("Balance", "balance"));
    assert_eq!((h.balance_epoch, h.duration, h.frequency, h.jitter), (4, 300, 7, 2));
    assert_eq!(e.metadata, h.metadata);
    let (e, h) = edge_state(&State::Normal, &id).unwrap();
    assert_eq!((e.state.as_str(), h.state.as_str()), ("Normal", "normal"));
    assert_eq!((h.balance_epoch, h.duration, h.frequency, h.jitter), (0, 0, 0, 0));
    let (e, h) = edge_state(&State::SafeMode { frequency: 9, jitter: 1 }, &id).unwrap();
    assert_eq!((e.state.as_str(), h.state.as_str()), ("SafeMode", "safe"));
    assert_eq!((h.balance_epoch, h.duration, h.frequency, h.jitter), (0, 0, 9, 1));
    assert!(edge_state(&State::Disconnected, &id).is_none());
    assert!(edge_state(&State::Start, &id).is_none());
}

#[test]
fn handshake_messages_by_sub_state() {
    let m = meta("edge1");
    assert_eq!(send_handshake(m.clone(), 3, SubStateBalanceMode::InHandshake).unwrap().flag, "in");
    assert_eq!(send_handshake(m.clone(), 3, SubStateBalanceMode::OutHandshake).unwrap().flag, "out");
    assert!(send_handshake(m.clone(), 3, SubStateBalanceMode::Quorum).is_none());
    assert_eq!(repeat_handshake(m.clone(), 3, SubStateQuorum::RepeatHandshakeIn).unwrap().flag, "in");
    assert!(repeat_handshake(m.clone(), 3, SubStateQuorum::CheckQuorumIn).is_none());
    let p = send_phase_notification(m, 3, "data".to_string(), &settings());
    assert_eq!((p.phase.as_str(), p.state.as_str(), p.frequency), ("data", "balance_mode", 7));
}

#[test]
fn transitions_update_state_only_when_valid() {
    let mut state = FsmState::new();
    let actions = handle_transition(state.step(Event::Start), &mut state).unwrap();
    assert_eq!(state.global, StateGlobal::BalanceMode);
    assert_eq!(actions, vec![Action::OnEntryBalance(SubStateBalanceMode::InitBalanceMode)]);
    let before = state;
    assert!(handle_transition(state.step(Event::QuorumSafeMode), &mut state).is_none());
    assert_eq!(state, before);
}
