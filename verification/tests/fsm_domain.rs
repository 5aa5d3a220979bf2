use pimad_edge::fsm::domain::{
    compute_on_entry, Action, Event, FsmState, StateGlobal, SubStateBalanceMode, SubStatePhase, SubStateQuorum,
    Transition,
};

fn expect_valid(state: &FsmState, event: Event) -> (FsmState, Vec<Action>) {
    match state.step(event) {
        Transition::Valid(v) => (v.get_change_state(), v.get_actions()),
        Transition::Invalid(i) => panic!("unexpected invalid transition: {}", i.get_invalid()),
    }
}

fn expect_invalid(state: &FsmState, event: Event) -> String {
    match state.step(event) {
        Transition::Valid(_) => panic!("unexpected valid transition"),
        Transition::Invalid(i) => i.get_invalid().to_string(),
    }
}

fn at(global: StateGlobal, balance: Option<SubStateBalanceMode>, quorum: Option<SubStateQuorum>, phase: Option<SubStatePhase>) -> FsmState {
    let mut s = FsmState::new();
    s.global = global;
    s.balance = balance;
    s.quorum = quorum;
    s.phase = phase;
    s
}

#[test]
fn fsm_new_starts_idle() {
    let s = FsmState::new();
    assert_eq!(s.global, StateGlobal::Start);
    assert_eq!(s.balance, None);
    assert_eq!(s.quorum, None);
    assert_eq!(s.phase, None);
}

#[test]
fn fsm_start_enters_balance() {
    let (s, actions) = expect_valid(&FsmState::new(), Event::Start);
    assert_eq!(s, at(StateGlobal::BalanceMode, Some(SubStateBalanceMode::InitBalanceMode), None, None));
    assert_eq!(actions, vec![Action::OnEntryBalance(SubStateBalanceMode::InitBalanceMode)]);
}

#[test]
fn fsm_start_rejects_other_events() {
    assert_eq!(expect_invalid(&FsmState::new(), Event::Timeout), "Invalid");
    assert_eq!(expect_invalid(&FsmState::new(), Event::LocalConnected), "Invalid");
}

#[test]
fn fsm_full_balance_cycle_reaches_normal() {
    let (s, a) = expect_valid(&FsmState::new(), Event::Start);
    assert_eq!(a, vec![Action::OnEntryBalance(SubStateBalanceMode::InitBalanceMode)]);
    let (s, a) = expect_valid(&s, Event::BalanceEpochOk);
    assert_eq!(s.balance, Some(SubStateBalanceMode::InHandshake));
    assert_eq!(a, vec![Action::OnEntryBalance(SubStateBalanceMode::InHandshake)]);
    let (s, a) = expect_valid(&s, Event::NewMessageHandshake);
    assert_eq!(s.balance, Some(SubStateBalanceMode::InHandshake));
    assert_eq!(a, vec![Action::CalculateQuorum]);
    let (s, a) = expect_valid(&s, Event::Timeout);
    assert_eq!(s, at(StateGlobal::BalanceMode, Some(SubStateBalanceMode::Quorum), Some(SubStateQuorum::CheckQuorumIn), None));
    assert_eq!(a, vec![
        Action::OnEntryBalance(SubStateBalanceMode::Quorum),
        Action::OnEntryQuorum(SubStateQuorum::CheckQuorumIn),
    ]);
    let (s, a) = expect_valid(&s, Event::ApproveQuorum);
    assert_eq!(s, at(StateGlobal::BalanceMode, Some(SubStateBalanceMode::Phase), None, Some(SubStatePhase::Alert)));
    assert_eq!(a, vec![
        Action::StopTimer,
        Action::OnEntryBalance(SubStateBalanceMode::Phase),
        Action::OnEntryPhase(SubStatePhase::Alert),
    ]);
    let (s, a) = expect_valid(&s, Event::QuorumPhase);
    assert_eq!(s.phase, Some(SubStatePhase::Data));
    assert_eq!(a, vec![Action::StopTimer, Action::OnEntryPhase(SubStatePhase::Data)]);
    let (s, a) = expect_valid(&s, Event::Timeout);
    assert_eq!(s.phase, Some(SubStatePhase::Monitor));
    assert_eq!(a, vec![Action::StopTimer, Action::OnEntryPhase(SubStatePhase::Monitor)]);
    let (s, a) = expect_valid(&s, Event::QuorumPhase);
    assert_eq!(s, at(StateGlobal::BalanceMode, Some(SubStateBalanceMode::OutHandshake), None, None));
    assert_eq!(a, vec![
        Action::StopSendHeartbeatMessagePhase,
        Action::StopTimer,
        Action::OnEntryBalance(SubStateBalanceMode::OutHandshake),
    ]);
    let (s, a) = expect_valid(&s, Event::ApproveQuorum);
    assert_eq!(s, at(StateGlobal::Normal, None, None, None));
    assert_eq!(a, vec![Action::StopTimer, Action::OnEntryNormal]);
}

#[test]
fn fsm_epoch_failure_enters_safe_mode_and_recovers() {
    let s = at(StateGlobal::BalanceMode, Some(SubStateBalanceMode::InitBalanceMode), None, None);
    let (s, a) = expect_valid(&s, Event::BalanceEpochNotOk);
    assert_eq!(s, at(StateGlobal::SafeMode, None, None, None));
    assert_eq!(a, vec![Action::OnEntrySafeMode]);
    let (s, a) = expect_valid(&s, Event::QuorumSafeMode);
    assert_eq!(s, at(StateGlobal::Normal, None, None, None));
    assert_eq!(a, vec![Action::StopSendHeartbeatMessageSafeMode, Action::OnEntryNormal]);
    let t = at(StateGlobal::SafeMode, None, None, None);
    let (s, _) = expect_valid(&t, Event::Timeout);
    assert_eq!(s.global, StateGlobal::Normal);
}

#[test]
fn fsm_quorum_rounds_repeat_then_give_up() {
    let s = at(StateGlobal::BalanceMode, Some(SubStateBalanceMode::Quorum), Some(SubStateQuorum::CheckQuorumIn), None);
    let (r, a) = expect_valid(&s, Event::NotApproveQuorum);
    assert_eq!(r.quorum, Some(SubStateQuorum::RepeatHandshakeIn));
    assert_eq!(a, vec![Action::OnEntryQuorum(SubStateQuorum::RepeatHandshakeIn)]);
    let (c, a) = expect_valid(&r, Event::Timeout);
    assert_eq!(c.quorum, Some(SubStateQuorum::CheckQuorumIn));
    assert_eq!(a, vec![Action::OnEntryQuorum(SubStateQuorum::CheckQuorumIn)]);
    let (f, a) = expect_valid(&c, Event::NotApproveNotAttempts);
    assert_eq!(f, at(StateGlobal::SafeMode, None, None, None));
    assert_eq!(a, vec![Action::OnEntrySafeMode]);
    let out = at(StateGlobal::BalanceMode, Some(SubStateBalanceMode::Quorum), Some(SubStateQuorum::CheckQuorumOut), None);
    let (r, a) = expect_valid(&out, Event::NotApproveQuorum);
    assert_eq!(r.quorum, Some(SubStateQuorum::RepeatHandshakeOut));
    assert_eq!(a, vec![Action::OnEntryQuorum(SubStateQuorum::RepeatHandshakeOut)]);
    let (n, a) = expect_valid(&r, Event::ApproveQuorum);
    assert_eq!(n, at(StateGlobal::Normal, None, None, None));
    assert_eq!(a, vec![Action::StopTimer, Action::OnEntryNormal]);
}

#[test]
fn fsm_refused_quorum_in_handshake_keeps_state() {
    let s = at(StateGlobal::BalanceMode, Some(SubStateBalanceMode::InHandshake), None, None);
    let (n, a) = expect_valid(&s, Event::NotApproveQuorum);
    assert_eq!(n, s);
    assert!(a.is_empty());
}

#[test]
fn fsm_local_disconnection_from_balance() {
    let s = at(StateGlobal::BalanceMode, Some(SubStateBalanceMode::Phase), None, Some(SubStatePhase::Data));
    let (d, a) = expect_valid(&s, Event::LocalDisconnected);
    assert_eq!(d, at(StateGlobal::Disconnected, None, None, None));
    assert_eq!(a, vec![Action::StopSendHeartbeatMessagePhase, Action::StopTimer, Action::OnEntryDisconnected]);
    let (b, a) = expect_valid(&d, Event::LocalConnected);
    assert_eq!(b, at(StateGlobal::BalanceMode, Some(SubStateBalanceMode::InitBalanceMode), None, None));
    assert_eq!(a, vec![Action::OnEntryBalance(SubStateBalanceMode::InitBalanceMode)]);
}

#[test]
fn fsm_local_disconnection_from_normal_and_safe_mode() {
    let (d, a) = expect_valid(&at(StateGlobal::Normal, None, None, None), Event::LocalDisconnected);
    assert_eq!(d.global, StateGlobal::Disconnected);
    assert_eq!(a, vec![Action::StopSendHeartbeatMessageNormal, Action::OnEntryDisconnected]);
    let (d, a) = expect_valid(&at(StateGlobal::SafeMode, None, None, None), Event::LocalDisconnected);
    assert_eq!(d.global, StateGlobal::Disconnected);
    assert_eq!(a, vec![Action::StopSendHeartbeatMessageSafeMode, Action::OnEntryDisconnected]);
}

#[test]
fn fsm_invalid_transitions_carry_message() {
    assert_eq!(expect_invalid(&at(StateGlobal::Normal, None, None, None), Event::Timeout), "Transición inválida");
    assert_eq!(expect_invalid(&at(StateGlobal::Disconnected, None, None, None), Event::Timeout), "Transición inválida");
    let phase = at(StateGlobal::BalanceMode, Some(SubStateBalanceMode::Phase), None, Some(SubStatePhase::Alert));
    assert_eq!(expect_invalid(&phase, Event::ApproveQuorum), "Transición inválida");
}

#[test]
fn fsm_compute_on_entry_lists_changed_levels() {
    let old = at(StateGlobal::BalanceMode, Some(SubStateBalanceMode::InHandshake), None, None);
    let new = at(StateGlobal::BalanceMode, Some(SubStateBalanceMode::Quorum), Some(SubStateQuorum::CheckQuorumIn), None);
    assert_eq!(compute_on_entry(&old, &new), vec![
        Action::OnEntryBalance(SubStateBalanceMode::Quorum),
        Action::OnEntryQuorum(SubStateQuorum::CheckQuorumIn),
    ]);
    assert!(compute_on_entry(&old, &old).is_empty());
}

#[test]
fn fsm_repeated_round_returns_to_its_check() {
    for (check, repeat) in [
        (SubStateQuorum::CheckQuorumIn, SubStateQuorum::RepeatHandshakeIn),
        (SubStateQuorum::CheckQuorumOut, SubStateQuorum::RepeatHandshakeOut),
    ] {
        let s = at(StateGlobal::BalanceMode, Some(SubStateBalanceMode::Quorum), Some(check), None);
        let (r, a) = expect_valid(&s, Event::NotApproveQuorum);
        assert_eq!(r, at(StateGlobal::BalanceMode, Some(SubStateBalanceMode::Quorum), Some(repeat), None));
        assert_eq!(a, vec![Action::OnEntryQuorum(repeat)]);
        let (back, a) = expect_valid(&r, Event::Timeout);
        assert_eq!(back, s);
        assert_eq!(a, vec![Action::OnEntryQuorum(check)]);
    }
}
