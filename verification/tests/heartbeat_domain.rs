use pimad_edge::heartbeat::domain::{
    compute_on_entry, Action, Event, FsmHeartbeat, State, Status, Transition, TransitionValid,
};
use std::time::Duration;

fn contains_action(actions: &[Action], target: &Action) -> bool {
    actions.iter().any(|a| a == target)
}

fn unwrap_valid(t: Transition) -> TransitionValid {
    match t {
        Transition::Valid(v) => v,
        Transition::Invalid(i) => {
            panic!("Se esperaba una transicion valida: {}", i.get_invalid())
        }
    }
}

#[test]
fn test_new_fsm_initial_state() {
    let fsm = FsmHeartbeat::new();
    assert_eq!(fsm.state, State::StartingWait);
    assert_eq!(fsm.status, Status::Disconnected);
    assert_eq!(fsm.old_status, Status::Disconnected);
}

// ============================================================================
// State StartingWait
// ============================================================================

#[test]
fn test_starting_wait_on_heartbeat() {
    let fsm = FsmHeartbeat::new();
    let transition = fsm.step(Event::Heartbeat);

    match transition {
        Transition::Valid(valid) => {
            let new_fsm = valid.get_change_state();
            let actions = valid.get_actions();

            assert_eq!(new_fsm.state, State::ItsAlive);
            assert_eq!(new_fsm.status, Status::Connected);
            assert_eq!(new_fsm.old_status, Status::Connected);

            // The status is reported
            assert!(contains_action(
                &actions,
                &Action::SendStatusConditional(Status::Disconnected, Status::Connected)
            ));

            // The timer stops
            assert!(contains_action(&actions, &Action::StopTimer));

            // Entry action
            assert!(contains_action(&actions, &Action::OnEntry(State::ItsAlive)));

            assert_eq!(actions.len(), 3);
        }
        _ => panic!("Se esperaba una transicion valida"),
    }
}

#[test]
fn test_starting_wait_on_timeout() {
    let fsm = FsmHeartbeat::new();
    let transition = fsm.step(Event::Timeout);

    match transition {
        Transition::Valid(valid) => {
            let new_fsm = valid.get_change_state();
            let actions = valid.get_actions();

            assert_eq!(new_fsm.state, State::NotHeartbeatYet);
            assert_eq!(new_fsm.status, Status::Disconnected);

            // Only the entry action
            assert!(contains_action(
                &actions,
                &Action::OnEntry(State::NotHeartbeatYet)
            ));
            assert_eq!(actions.len(), 1);
        }
        _ => panic!("Se esperaba una transicion valida"),
    }
}

#[test]
fn test_starting_wait_on_init_timer() {
    let fsm = FsmHeartbeat::new();
    let transition = fsm.step(Event::InitTimer(Duration::from_secs(1)));

    match transition {
        Transition::Invalid(invalid) => {
            assert_eq!(invalid.get_invalid(), "Invalid state");
        }
        _ => panic!("Expected invalid transition"),
    }
}

#[test]
fn test_starting_wait_on_stop_timer() {
    let fsm = FsmHeartbeat::new();
    let transition = fsm.step(Event::StopTimer);

    match transition {
        Transition::Invalid(invalid) => {
            assert_eq!(invalid.get_invalid(), "Invalid state");
        }
        _ => panic!("Se esperaba una transicion invalida"),
    }
}

// ============================================================================
// State ItsAlive
// ============================================================================

#[test]
fn test_its_alive_on_heartbeat() {
    let mut fsm = FsmHeartbeat::new();
    fsm.state = State::ItsAlive;
    fsm.status = Status::Connected;
    fsm.old_status = Status::Connected;

    let transition = fsm.step(Event::Heartbeat);

    match transition {
        Transition::Valid(valid) => {
            let new_fsm = valid.get_change_state();
            let actions = valid.get_actions();

            assert_eq!(new_fsm.state, State::StartingWait);
            assert_eq!(new_fsm.status, Status::Connected);

            // The timer stops
            assert!(contains_action(&actions, &Action::StopTimer));

            // Entry action
            assert!(contains_action(
                &actions,
                &Action::OnEntry(State::StartingWait)
            ));

            assert_eq!(actions.len(), 2);
        }
        _ => panic!("Se esperaba una transicion valida"),
    }
}

#[test]
fn test_its_alive_on_timeout() {
    let mut fsm = FsmHeartbeat::new();
    fsm.state = State::ItsAlive;
    fsm.status = Status::Connected;

    let transition = fsm.step(Event::Timeout);

    match transition {
        Transition::Valid(valid) => {
            let new_fsm = valid.get_change_state();
            let actions = valid.get_actions();

            assert_eq!(new_fsm.state, State::NotHeartbeatYet);
            assert_eq!(new_fsm.status, Status::Connected);

            // Only the entry action
            assert!(contains_action(
                &actions,
                &Action::OnEntry(State::NotHeartbeatYet)
            ));
            assert_eq!(actions.len(), 1);
        }
        _ => panic!("Se esperaba una transicion valida"),
    }
}

#[test]
fn test_its_alive_on_init_timer() {
    let mut fsm = FsmHeartbeat::new();
    fsm.state = State::ItsAlive;

    let transition = fsm.step(Event::InitTimer(Duration::from_secs(1)));

    match transition {
        Transition::Invalid(_) => {}
        _ => panic!("Se esperaba una transicion invalida"),
    }
}

#[test]
fn test_its_alive_on_stop_timer() {
    let mut fsm = FsmHeartbeat::new();
    fsm.state = State::ItsAlive;

    let transition = fsm.step(Event::StopTimer);

    match transition {
        Transition::Invalid(_) => {}
        _ => panic!("Se esperaba una transicion invalida"),
    }
}

// ============================================================================
// State NotHeartbeatYet
// ============================================================================

#[test]
fn test_not_heartbeat_yet_on_heartbeat() {
    let mut fsm = FsmHeartbeat::new();
    fsm.state = State::NotHeartbeatYet;
    fsm.status = Status::Disconnected;

    let transition = fsm.step(Event::Heartbeat);

    match transition {
        Transition::Valid(valid) => {
            let new_fsm = valid.get_change_state();
            let actions = valid.get_actions();

            assert_eq!(new_fsm.state, State::StartingWait);

            // The timer stops
            assert!(contains_action(&actions, &Action::StopTimer));

            // Entry action
            assert!(contains_action(
                &actions,
                &Action::OnEntry(State::StartingWait)
            ));

            assert_eq!(actions.len(), 2);
        }
        _ => panic!("Se esperaba una transicion valida"),
    }
}

#[test]
fn test_not_heartbeat_yet_on_timeout_from_connected() {
    let mut fsm = FsmHeartbeat::new();
    fsm.state = State::NotHeartbeatYet;
    fsm.old_status = Status::Connected;
    fsm.status = Status::Connected;

    let transition = fsm.step(Event::Timeout);

    match transition {
        Transition::Valid(valid) => {
            let new_fsm = valid.get_change_state();
            let actions = valid.get_actions();

            assert_eq!(new_fsm.state, State::DeadServer);
            assert_eq!(new_fsm.status, Status::Disconnected);
            assert_eq!(new_fsm.old_status, Status::Disconnected);

            // The change of status is reported
            assert!(contains_action(
                &actions,
                &Action::SendStatusConditional(Status::Connected, Status::Disconnected)
            ));

            // Entry action
            assert!(contains_action(
                &actions,
                &Action::OnEntry(State::DeadServer)
            ));

            assert_eq!(actions.len(), 2);
        }
        _ => panic!("Se esperaba una transicion valida"),
    }
}

#[test]
fn test_not_heartbeat_yet_on_timeout_already_disconnected() {
    let mut fsm = FsmHeartbeat::new();
    fsm.state = State::NotHeartbeatYet;
    fsm.old_status = Status::Disconnected;
    fsm.status = Status::Disconnected;

    let transition = fsm.step(Event::Timeout);

    match transition {
        Transition::Valid(valid) => {
            let actions = valid.get_actions();

            // The status is reported even when unchanged
            assert!(contains_action(
                &actions,
                &Action::SendStatusConditional(Status::Disconnected, Status::Disconnected)
            ));

            assert_eq!(actions.len(), 2);
        }
        _ => panic!("Se esperaba una transicion valida"),
    }
}

#[test]
fn test_not_heartbeat_yet_on_init_timer() {
    let mut fsm = FsmHeartbeat::new();
    fsm.state = State::NotHeartbeatYet;

    let transition = fsm.step(Event::InitTimer(Duration::from_secs(1)));

    match transition {
        Transition::Invalid(_) => {}
        _ => panic!("Se esperaba una transicion invalida"),
    }
}

#[test]
fn test_not_heartbeat_yet_on_stop_timer() {
    let mut fsm = FsmHeartbeat::new();
    fsm.state = State::NotHeartbeatYet;

    let transition = fsm.step(Event::StopTimer);

    match transition {
        Transition::Invalid(_) => {}
        _ => panic!("Se esperaba una transicion invalida"),
    }
}

// ============================================================================
// State DeadServer
// ============================================================================

#[test]
fn test_dead_server_on_heartbeat() {
    let mut fsm = FsmHeartbeat::new();
    fsm.state = State::DeadServer;
    fsm.status = Status::Disconnected;

    let transition = fsm.step(Event::Heartbeat);

    match transition {
        Transition::Valid(valid) => {
            let new_fsm = valid.get_change_state();
            let actions = valid.get_actions();

            assert_eq!(new_fsm.state, State::StartingWait);

            // Only the entry action
            assert!(contains_action(
                &actions,
                &Action::OnEntry(State::StartingWait)
            ));
            assert_eq!(actions.len(), 1);
        }
        _ => panic!("Se esperaba una transicion valida"),
    }
}

#[test]
fn test_dead_server_on_timeout() {
    let mut fsm = FsmHeartbeat::new();
    fsm.state = State::DeadServer;

    let transition = fsm.step(Event::Timeout);

    match transition {
        Transition::Invalid(_) => {}
        _ => panic!("Se esperaba una transicion invalida"),
    }
}

#[test]
fn test_dead_server_on_init_timer() {
    let mut fsm = FsmHeartbeat::new();
    fsm.state = State::DeadServer;

    let transition = fsm.step(Event::InitTimer(Duration::from_secs(1)));

    match transition {
        Transition::Invalid(_) => {}
        _ => panic!("Se esperaba una transicion invalida"),
    }
}

#[test]
fn test_dead_server_on_stop_timer() {
    let mut fsm = FsmHeartbeat::new();
    fsm.state = State::DeadServer;

    let transition = fsm.step(Event::StopTimer);

    match transition {
        Transition::Invalid(_) => {}
        _ => panic!("Se esperaba una transicion invalida"),
    }
}

// ============================================================================
// Sequences
// ============================================================================

#[test]
fn test_full_connection_sequence() {
    let mut fsm = FsmHeartbeat::new();

    // StartingWait -> Heartbeat -> ItsAlive
    let transition = fsm.step(Event::Heartbeat);
    match transition {
        Transition::Valid(valid) => {
            fsm = valid.get_change_state();
            assert_eq!(fsm.state, State::ItsAlive);
            assert_eq!(fsm.status, Status::Connected);
        }
        _ => panic!("Se esperaba una transicion valida"),
    }

    // ItsAlive -> Heartbeat -> StartingWait (stays Connected)
    let transition = fsm.step(Event::Heartbeat);
    match transition {
        Transition::Valid(valid) => {
            fsm = valid.get_change_state();
            assert_eq!(fsm.state, State::StartingWait);
            assert_eq!(fsm.status, Status::Connected);
        }
        _ => panic!("Se esperaba una transicion valida"),
    }
}

#[test]
fn test_timeout_sequence_to_dead() {
    let mut fsm = FsmHeartbeat::new();

    // StartingWait -> Timeout -> NotHeartbeatYet
    let transition = fsm.step(Event::Timeout);
    match transition {
        Transition::Valid(valid) => {
            fsm = valid.get_change_state();
            assert_eq!(fsm.state, State::NotHeartbeatYet);
        }
        _ => panic!("Se esperaba una transicion valida"),
    }

    // NotHeartbeatYet -> Timeout -> DeadServer
    let transition = fsm.step(Event::Timeout);
    match transition {
        Transition::Valid(valid) => {
            fsm = valid.get_change_state();
            assert_eq!(fsm.state, State::DeadServer);
            assert_eq!(fsm.status, Status::Disconnected);
        }
        _ => panic!("Se esperaba una transicion valida"),
    }
}

#[test]
fn test_recovery_from_dead_server() {
    let mut fsm = FsmHeartbeat::new();
    fsm.state = State::DeadServer;
    fsm.status = Status::Disconnected;

    // DeadServer -> Heartbeat -> StartingWait
    let transition = fsm.step(Event::Heartbeat);
    match transition {
        Transition::Valid(valid) => {
            fsm = valid.get_change_state();
            assert_eq!(fsm.state, State::StartingWait);
        }
        _ => panic!("Se esperaba una transicion valida"),
    }

    // StartingWait -> Heartbeat -> ItsAlive + Connected
    let transition = fsm.step(Event::Heartbeat);
    match transition {
        Transition::Valid(valid) => {
            let actions = valid.get_actions();
            fsm = valid.get_change_state();

            assert_eq!(fsm.state, State::ItsAlive);
            assert_eq!(fsm.status, Status::Connected);

            // The change of status is reported
            assert!(contains_action(
                &actions,
                &Action::SendStatusConditional(Status::Disconnected, Status::Connected)
            ));
        }
        _ => panic!("Se esperaba una transicion valida"),
    }
}

#[test]
fn test_late_heartbeat_recovery() {
    let mut fsm = FsmHeartbeat::new();

    // StartingWait -> Timeout -> NotHeartbeatYet
    let transition = fsm.step(Event::Timeout);
    match transition {
        Transition::Valid(valid) => {
            fsm = valid.get_change_state();
        }
        _ => panic!("Se esperaba una transicion valida"),
    }

    // NotHeartbeatYet -> Heartbeat -> StartingWait (recovery)
    let transition = fsm.step(Event::Heartbeat);
    match transition {
        Transition::Valid(valid) => {
            let actions = valid.get_actions();
            fsm = valid.get_change_state();

            assert_eq!(fsm.state, State::StartingWait);
            assert!(contains_action(&actions, &Action::StopTimer));
        }
        _ => panic!("Se esperaba una transicion valida"),
    }
}

#[test]
fn test_connection_to_disconnection_sequence() {
    let mut fsm = FsmHeartbeat::new();

    // Connect
    fsm = unwrap_valid(fsm.step(Event::Heartbeat)).get_change_state();
    assert_eq!(fsm.status, Status::Connected);

    // ItsAlive -> Timeout -> NotHeartbeatYet (still Connected)
    fsm = unwrap_valid(fsm.step(Event::Timeout)).get_change_state();
    assert_eq!(fsm.state, State::NotHeartbeatYet);
    assert_eq!(fsm.status, Status::Connected);

    // NotHeartbeatYet -> Timeout -> DeadServer (becomes Disconnected)
    let transition = fsm.step(Event::Timeout);
    match transition {
        Transition::Valid(valid) => {
            let actions = valid.get_actions();
            fsm = valid.get_change_state();

            assert_eq!(fsm.state, State::DeadServer);
            assert_eq!(fsm.status, Status::Disconnected);

            // The change of status is reported
            assert!(contains_action(
                &actions,
                &Action::SendStatusConditional(Status::Connected, Status::Disconnected)
            ));
        }
        _ => panic!("Se esperaba una transicion valida"),
    }
}

#[test]
fn test_multiple_heartbeats_while_alive() {
    let mut fsm = FsmHeartbeat::new();

    // First heartbeat: StartingWait -> ItsAlive
    fsm = unwrap_valid(fsm.step(Event::Heartbeat)).get_change_state();
    assert_eq!(fsm.state, State::ItsAlive);

    // Later heartbeats: ItsAlive -> StartingWait -> ItsAlive
    for _ in 0..5 {
        fsm = unwrap_valid(fsm.step(Event::Heartbeat)).get_change_state();
        assert_eq!(fsm.state, State::StartingWait);

        fsm = unwrap_valid(fsm.step(Event::Heartbeat)).get_change_state();
        assert_eq!(fsm.state, State::ItsAlive);
        assert_eq!(fsm.status, Status::Connected);
    }
}

// compute_on_entry

#[test]
fn test_on_entry_same_state() {
    let fsm1 = FsmHeartbeat::new();
    let fsm2 = FsmHeartbeat::new();

    let action = compute_on_entry(&fsm1, &fsm2);
    assert_eq!(action, Action::Nothing);
}

#[test]
fn test_on_entry_different_states() {
    let fsm1 = FsmHeartbeat::new();
    let mut fsm2 = FsmHeartbeat::new();
    fsm2.state = State::ItsAlive;

    let action = compute_on_entry(&fsm1, &fsm2);
    assert_eq!(action, Action::OnEntry(State::ItsAlive));
}

#[test]
fn test_on_entry_all_states() {
    let fsm_base = FsmHeartbeat::new();

    let states = vec![
        State::StartingWait,
        State::ItsAlive,
        State::NotHeartbeatYet,
        State::DeadServer,
    ];

    for state in states {
        let mut fsm_new = FsmHeartbeat::new();
        fsm_new.state = state.clone();

        if fsm_base.state != state {
            let action = compute_on_entry(&fsm_base, &fsm_new);
            assert_eq!(action, Action::OnEntry(state));
        }
    }
}
