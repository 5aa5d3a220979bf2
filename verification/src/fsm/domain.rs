//! Hierarchical finite state machine that drives the gateway's operating mode.
//!
//! The machine is purely functional: `FsmState::step` takes the current state and
//! an event and returns either a valid transition (next state plus the actions the
//! runtime must perform) or an invalid transition carrying a message. Entry
//! actions (`OnEntry...`) are derived by comparing the old and the new state.

use std::time::Duration;
use vstd::prelude::*;
use vstd::string::*;

verus! {

/// Top level operating modes.
#[derive(Debug, Clone, Copy, PartialEq, Eq, Structural)]
pub enum StateGlobal {
    Start,
    /// Distributed negotiation with the hubs: handshakes, quorum and phases.
    BalanceMode,
    /// Stable operation after a successful balance.
    Normal,
    /// Fallback mode after critical failures.
    SafeMode,
    /// Local broker connection lost; balancing restarts on reconnection.
    Disconnected,
}

/// Sub-states of `StateGlobal::BalanceMode`.
#[derive(Debug, Clone, Copy, PartialEq, Eq, Structural)]
pub enum SubStateBalanceMode {
    InitBalanceMode,
    InHandshake,
    Quorum,
    Phase,
    OutHandshake,
}

/// Sub-states of the quorum check.
#[derive(Debug, Clone, Copy, PartialEq, Eq, Structural)]
pub enum SubStateQuorum {
    CheckQuorumIn,
    CheckQuorumOut,
    RepeatHandshakeIn,
    RepeatHandshakeOut,
}

/// Operating phases inside the balance mode.
#[derive(Debug, Clone, Copy, PartialEq, Eq, Structural)]
pub enum SubStatePhase {
    Alert,
    Data,
    Monitor,
}

/// Complete state of the machine. A child level is `None` whenever its parent
/// level is not active (see `well_formed`).
#[derive(Debug, Clone, Copy, PartialEq, Eq, Structural)]
pub struct FsmState {
    pub global: StateGlobal,
    pub balance: Option<SubStateBalanceMode>,
    pub quorum: Option<SubStateQuorum>,
    pub phase: Option<SubStatePhase>,
}

/// Side effects requested by the machine; the runtime performs them.
#[derive(Debug, Clone, Copy, PartialEq, Eq, Structural)]
pub enum Action {
    SendHeartbeatMessagePhase,
    SendHeartbeatMessageSafeMode,
    SendHeartbeatMessageNormal,
    StopSendHeartbeatMessagePhase,
    StopSendHeartbeatMessageSafeMode,
    StopSendHeartbeatMessageNormal,
    OnEntryBalance(SubStateBalanceMode),
    OnEntryQuorum(SubStateQuorum),
    OnEntryPhase(SubStatePhase),
    OnEntryNormal,
    OnEntrySafeMode,
    OnEntryDisconnected,
    StopTimer,
    CalculateQuorum,
}

/// Events that feed the machine.
#[derive(Debug, Clone, Copy, PartialEq)]
pub enum Event {
    Start,
    Timeout,
    BalanceEpochOk,
    BalanceEpochNotOk,
    ApproveQuorum,
    QuorumPhase,
    QuorumSafeMode,
    NotApproveQuorum,
    NotApproveNotAttempts,
    InitTimer(Duration),
    StopTimer,
    NewMessageHandshake,
    LocalDisconnected,
    LocalConnected,
}

/// Progress of the handshake/quorum session as seen by the runtime.
#[derive(Debug, Clone, Copy, PartialEq, Eq, Structural)]
pub enum StateOfSession {
    NoSession,
    InHandshake,
    Quorum,
    RepeatHandshake,
    OutHandshake,
    PhaseAlert,
    PhaseData,
    PhaseMonitor,
    SafeMode,
}

/// Data of a successful transition.
#[derive(Debug)]
pub struct TransitionValid {
    change_state: FsmState,
    actions: Vec<Action>,
}

/// Data of a rejected transition.
#[derive(Debug)]
pub struct TransitionInvalid {
    invalid: String,
}

/// Result of applying an event to a state.
#[derive(Debug)]
pub enum Transition {
    Valid(TransitionValid),
    Invalid(TransitionInvalid),
}

impl TransitionValid {
    pub closed spec fn spec_change_state(&self) -> FsmState {
        self.change_state
    }

    pub closed spec fn spec_actions(&self) -> Seq<Action> {
        self.actions@
    }

    pub fn get_change_state(&self) -> (r: FsmState)
        ensures
            r == self.spec_change_state(),
    {
        self.change_state
    }

    pub fn get_actions(&self) -> (r: Vec<Action>)
        ensures
            r@ == self.spec_actions(),
    {
        let mut out: Vec<Action> = Vec::new();
        let mut i: usize = 0;
        while i < self.actions.len()
            invariant
                i <= self.actions@.len(),
                out@ == self.actions@.subrange(0, i as int),
            decreases self.actions@.len() - i,
        {
            out.push(self.actions[i]);
            i = i + 1;
        }
        out
    }
}

impl TransitionInvalid {
    pub closed spec fn spec_invalid(&self) -> Seq<char> {
        self.invalid@
    }

    pub fn get_invalid(&self) -> (r: &str)
        ensures
            r@ == self.spec_invalid(),
    {
        self.invalid.as_str()
    }
}

impl Transition {
    /// The state/actions pair of a valid transition, `None` for an invalid one.
    pub open spec fn outcome(&self) -> Option<(FsmState, Seq<Action>)> {
        match self {
            Transition::Valid(t) => Some((t.spec_change_state(), t.spec_actions())),
            Transition::Invalid(_) => None,
        }
    }

    /// Message of an invalid transition (empty for a valid one).
    pub open spec fn message(&self) -> Seq<char> {
        match self {
            Transition::Valid(_) => Seq::empty(),
            Transition::Invalid(i) => i.spec_invalid(),
        }
    }
}

// ---------------------------------------------------------------------------
// Specification of the machine
// ---------------------------------------------------------------------------

impl FsmState {
    /// The hierarchy invariant: each level is present exactly when its parent
    /// level selects it.
    pub open spec fn well_formed(self) -> bool {
        &&& (self.global == StateGlobal::BalanceMode) == (self.balance is Some)
        &&& (self.balance == Some(SubStateBalanceMode::Quorum)) == (self.quorum is Some)
        &&& (self.balance == Some(SubStateBalanceMode::Phase)) == (self.phase is Some)
    }

    pub open spec fn spec_new() -> FsmState {
        FsmState { global: StateGlobal::Start, balance: None, quorum: None, phase: None }
    }
}

/// A valid transition without actions.
pub open spec fn moves_to(next: FsmState) -> Option<(FsmState, Seq<Action>)> {
    Some((next, Seq::empty()))
}

/// Entering a balance sub-state directly (no quorum, no phase).
pub open spec fn balance_at(b: SubStateBalanceMode) -> FsmState {
    FsmState { global: StateGlobal::BalanceMode, balance: Some(b), quorum: None, phase: None }
}

/// Entering a quorum sub-state.
pub open spec fn quorum_at(q: SubStateQuorum) -> FsmState {
    FsmState {
        global: StateGlobal::BalanceMode,
        balance: Some(SubStateBalanceMode::Quorum),
        quorum: Some(q),
        phase: None,
    }
}

/// Entering a phase.
pub open spec fn phase_at(p: SubStatePhase) -> FsmState {
    FsmState {
        global: StateGlobal::BalanceMode,
        balance: Some(SubStateBalanceMode::Phase),
        quorum: None,
        phase: Some(p),
    }
}

/// A top level mode with every sub-level cleared.
pub open spec fn mode_at(g: StateGlobal) -> FsmState {
    FsmState { global: g, balance: None, quorum: None, phase: None }
}

/// Transitions of the balance mode, before entry actions are added.
pub open spec fn spec_balance_step(s: FsmState, e: Event) -> Option<(FsmState, Seq<Action>)> {
    if e is LocalDisconnected {
        Some((
            mode_at(StateGlobal::Disconnected),
            seq![Action::StopSendHeartbeatMessagePhase, Action::StopTimer],
        ))
    } else {
        match s.balance {
            Some(SubStateBalanceMode::InitBalanceMode) => match e {
                Event::BalanceEpochOk => moves_to(FsmState { balance: Some(SubStateBalanceMode::InHandshake), ..s }),
                Event::BalanceEpochNotOk => moves_to(FsmState { global: StateGlobal::SafeMode, balance: None, ..s }),
                _ => None,
            },
            Some(SubStateBalanceMode::InHandshake) => match e {
                Event::Timeout => moves_to(FsmState {
                    balance: Some(SubStateBalanceMode::Quorum),
                    quorum: Some(SubStateQuorum::CheckQuorumIn),
                    ..s
                }),
                Event::NewMessageHandshake => Some((s, seq![Action::CalculateQuorum])),
                Event::ApproveQuorum => Some((
                    FsmState { balance: Some(SubStateBalanceMode::Phase), phase: Some(SubStatePhase::Alert), quorum: None, ..s },
                    seq![Action::StopTimer],
                )),
                Event::NotApproveQuorum => moves_to(s),
                _ => None,
            },
            Some(SubStateBalanceMode::Quorum) => match (s.quorum, e) {
                (Some(SubStateQuorum::CheckQuorumIn), Event::NotApproveQuorum) =>
                    moves_to(FsmState { quorum: Some(SubStateQuorum::RepeatHandshakeIn), ..s }),
                (Some(SubStateQuorum::CheckQuorumOut), Event::NotApproveQuorum) =>
                    moves_to(FsmState { quorum: Some(SubStateQuorum::RepeatHandshakeOut), ..s }),
                (Some(SubStateQuorum::CheckQuorumIn), Event::ApproveQuorum)
                | (Some(SubStateQuorum::RepeatHandshakeIn), Event::ApproveQuorum) => Some((
                    FsmState { balance: Some(SubStateBalanceMode::Phase), phase: Some(SubStatePhase::Alert), quorum: None, ..s },
                    seq![Action::StopTimer],
                )),
                (Some(SubStateQuorum::CheckQuorumOut), Event::ApproveQuorum)
                | (Some(SubStateQuorum::RepeatHandshakeOut), Event::ApproveQuorum) => Some((
                    FsmState { global: StateGlobal::Normal, balance: None, quorum: None, ..s },
                    seq![Action::StopTimer],
                )),
                (Some(SubStateQuorum::CheckQuorumIn), Event::NotApproveNotAttempts)
                | (Some(SubStateQuorum::CheckQuorumOut), Event::NotApproveNotAttempts) =>
                    moves_to(FsmState { global: StateGlobal::SafeMode, balance: None, quorum: None, ..s }),
                (Some(SubStateQuorum::RepeatHandshakeIn), Event::Timeout) =>
                    moves_to(FsmState { quorum: Some(SubStateQuorum::CheckQuorumIn), ..s }),
                (Some(SubStateQuorum::RepeatHandshakeOut), Event::Timeout) =>
                    moves_to(FsmState { quorum: Some(SubStateQuorum::CheckQuorumOut), ..s }),
                (Some(SubStateQuorum::RepeatHandshakeIn), Event::NewMessageHandshake)
                | (Some(SubStateQuorum::RepeatHandshakeOut), Event::NewMessageHandshake) =>
                    Some((s, seq![Action::CalculateQuorum])),
                (Some(SubStateQuorum::RepeatHandshakeIn), Event::NotApproveQuorum)
                | (Some(SubStateQuorum::RepeatHandshakeOut), Event::NotApproveQuorum) => moves_to(s),
                _ => None,
            },
            Some(SubStateBalanceMode::Phase) => if e is Timeout || e is QuorumPhase {
                match s.phase {
                    Some(SubStatePhase::Alert) => Some((
                        FsmState { phase: Some(SubStatePhase::Data), ..s },
                        seq![Action::StopTimer],
                    )),
                    Some(SubStatePhase::Data) => Some((
                        FsmState { phase: Some(SubStatePhase::Monitor), ..s },
                        seq![Action::StopTimer],
                    )),
                    Some(SubStatePhase::Monitor) => Some((
                        FsmState { balance: Some(SubStateBalanceMode::OutHandshake), phase: None, ..s },
                        seq![Action::StopSendHeartbeatMessagePhase, Action::StopTimer],
                    )),
                    None => None,
                }
            } else {
                None
            },
            Some(SubStateBalanceMode::OutHandshake) => match e {
                Event::Timeout => moves_to(FsmState {
                    balance: Some(SubStateBalanceMode::Quorum),
                    quorum: Some(SubStateQuorum::CheckQuorumOut),
                    ..s
                }),
                Event::ApproveQuorum => Some((
                    FsmState { global: StateGlobal::Normal, balance: None, quorum: None, ..s },
                    seq![Action::StopTimer],
                )),
                Event::NotApproveQuorum => moves_to(s),
                Event::NewMessageHandshake => Some((s, seq![Action::CalculateQuorum])),
                _ => None,
            },
            None => None,
        }
    }
}

/// Transitions of the machine, before entry actions are added.
pub open spec fn spec_step_inner(s: FsmState, e: Event) -> Option<(FsmState, Seq<Action>)> {
    match s.global {
        StateGlobal::Start => if e is Start {
            moves_to(FsmState {
                global: StateGlobal::BalanceMode,
                balance: Some(SubStateBalanceMode::InitBalanceMode),
                ..s
            })
        } else {
            None
        },
        StateGlobal::BalanceMode => spec_balance_step(s, e),
        StateGlobal::Normal => if e is LocalDisconnected {
            Some((FsmState { global: StateGlobal::Disconnected, ..s }, seq![Action::StopSendHeartbeatMessageNormal]))
        } else {
            None
        },
        StateGlobal::SafeMode => if e is LocalDisconnected {
            Some((FsmState { global: StateGlobal::Disconnected, ..s }, seq![Action::StopSendHeartbeatMessageSafeMode]))
        } else if e is Timeout || e is QuorumSafeMode {
            Some((FsmState { global: StateGlobal::Normal, ..s }, seq![Action::StopSendHeartbeatMessageSafeMode]))
        } else {
            None
        },
        StateGlobal::Disconnected => if e is LocalConnected {
            moves_to(FsmState {
                global: StateGlobal::BalanceMode,
                balance: Some(SubStateBalanceMode::InitBalanceMode),
                ..s
            })
        } else {
            None
        },
    }
}

/// The entry actions owed when moving from `old` to `new`, in this order:
/// balance sub-state, quorum sub-state, Normal, SafeMode, Disconnected, phase.
pub open spec fn spec_on_entry(old: FsmState, new: FsmState) -> Seq<Action> {
    let global_changed = old.global != new.global;
    let b: Seq<Action> = if old.balance != new.balance && new.balance is Some {
        seq![Action::OnEntryBalance(new.balance->0)]
    } else {
        Seq::empty()
    };
    let q: Seq<Action> = if old.quorum != new.quorum && new.quorum is Some {
        seq![Action::OnEntryQuorum(new.quorum->0)]
    } else {
        Seq::empty()
    };
    let n: Seq<Action> = if global_changed && new.global == StateGlobal::Normal {
        seq![Action::OnEntryNormal]
    } else {
        Seq::empty()
    };
    let sm: Seq<Action> = if global_changed && new.global == StateGlobal::SafeMode {
        seq![Action::OnEntrySafeMode]
    } else {
        Seq::empty()
    };
    let d: Seq<Action> = if global_changed && new.global == StateGlobal::Disconnected {
        seq![Action::OnEntryDisconnected]
    } else {
        Seq::empty()
    };
    let p: Seq<Action> = if old.phase != new.phase && new.phase is Some {
        seq![Action::OnEntryPhase(new.phase->0)]
    } else {
        Seq::empty()
    };
    b + q + n + sm + d + p
}

/// The full transition: the inner transition followed by the entry actions.
pub open spec fn spec_step(s: FsmState, e: Event) -> Option<(FsmState, Seq<Action>)> {
    match spec_step_inner(s, e) {
        Some((next, actions)) => Some((next, actions + spec_on_entry(s, next))),
        None => None,
    }
}

/// Message carried by an invalid transition out of `Start`.
pub open spec fn start_invalid_message() -> Seq<char> {
    "Invalid"@
}

/// Message carried by every other invalid transition.
pub open spec fn invalid_message() -> Seq<char> {
    "Transición inválida"@
}

/// What an invalid transition from `s` says.
pub open spec fn spec_invalid_message_for(s: FsmState) -> Seq<char> {
    if s.global == StateGlobal::Start { start_invalid_message() } else { invalid_message() }
}

// ---------------------------------------------------------------------------
// Implementation
// ---------------------------------------------------------------------------

fn valid(change_state: FsmState, actions: Vec<Action>) -> (r: Transition)
    ensures
        r.outcome() == Some((change_state, actions@)),
{
    Transition::Valid(TransitionValid { change_state, actions })
}

/// Generic invalid transition.
fn invalid() -> (r: Transition)
    ensures
        r.outcome() is None,
        r.message() == invalid_message(),
{
    let invalid = TransitionInvalid { invalid: String::from_str("Transición inválida") };
    Transition::Invalid(invalid)
}

impl FsmState {
    /// Initial state: `Start` with no sub-state.
    pub fn new() -> (r: Self)
        ensures
            r == FsmState::spec_new(),
            r.well_formed(),
    {
        Self { global: StateGlobal::Start, balance: None, quorum: None, phase: None }
    }

    /// Dispatch on the top level mode.
    fn step_inner(&self, event: Event) -> (r: Transition)
        ensures
            r.outcome() == spec_step_inner(*self, event),
            r.outcome() is None ==> r.message() == spec_invalid_message_for(*self),
    {
        match self.global {
            StateGlobal::Start => self.step_start(event),
            StateGlobal::BalanceMode => self.step_balance_mode(event),
            StateGlobal::SafeMode => self.step_safe_mode(event),
            StateGlobal::Normal => self.step_normal(event),
            StateGlobal::Disconnected => self.step_disconnected(event),
        }
    }

    fn step_start(&self, event: Event) -> (r: Transition)
        requires
            self.global == StateGlobal::Start,
        ensures
            r.outcome() == spec_step_inner(*self, event),
            r.outcome() is None ==> r.message() == start_invalid_message(),
    {
        match event {
            Event::Start => {
                let mut next_fsm = *self;
                next_fsm.global = StateGlobal::BalanceMode;
                next_fsm.balance = Some(SubStateBalanceMode::InitBalanceMode);
                valid(next_fsm, Vec::new())
            },
            _ => {
                let invalid = TransitionInvalid { invalid: String::from_str("Invalid") };
                Transition::Invalid(invalid)
            },
        }
    }

    /// Transitions while the top level mode is `BalanceMode`.
    fn step_balance_mode(&self, event: Event) -> (r: Transition)
        requires
            self.global == StateGlobal::BalanceMode,
        ensures
            r.outcome() == spec_step_inner(*self, event),
            r.outcome() is None ==> r.message() == invalid_message(),
    {
        if let Event::LocalDisconnected = event {
            let mut next_fsm = *self;
            next_fsm.balance = None;
            next_fsm.phase = None;
            next_fsm.quorum = None;
            next_fsm.global = StateGlobal::Disconnected;
            let mut actions = Vec::new();
            actions.push(Action::StopSendHeartbeatMessagePhase);
            actions.push(Action::StopTimer);
            proof {
                assert(actions@ =~= seq![Action::StopSendHeartbeatMessagePhase, Action::StopTimer]);
            }
            return valid(next_fsm, actions);
        }
        match self.balance {
            Some(SubStateBalanceMode::InitBalanceMode) => match event {
                Event::BalanceEpochOk => state_init_balance_mode_event_balance_epoch(*self),
                Event::BalanceEpochNotOk => state_init_balance_mode_event_balance_epoch_not_ok(*self),
                _ => invalid(),
            },
            Some(SubStateBalanceMode::InHandshake) => match event {
                Event::Timeout => state_in_handshake_event_timeout(*self),
                Event::NewMessageHandshake => new_message_handshake(*self),
                Event::ApproveQuorum => state_in_handshake_event_approve(*self),
                Event::NotApproveQuorum => valid(*self, Vec::new()),
                _ => invalid(),
            },
            Some(SubStateBalanceMode::Quorum) => match (self.quorum, event) {
                (Some(SubStateQuorum::CheckQuorumIn), Event::NotApproveQuorum) =>
                    state_check_quorum_in_event_not_approve(*self),
                (Some(SubStateQuorum::CheckQuorumIn), Event::ApproveQuorum) =>
                    state_check_quorum_in_event_approve_quorum(*self),
                (Some(SubStateQuorum::CheckQuorumIn), Event::NotApproveNotAttempts) =>
                    state_check_quorum_event_not_and_not(*self),
                (Some(SubStateQuorum::CheckQuorumOut), Event::NotApproveQuorum) =>
                    state_check_quorum_out_event_not_approve(*self),
                (Some(SubStateQuorum::CheckQuorumOut), Event::ApproveQuorum) =>
                    state_check_quorum_out_event_approve_quorum(*self),
                (Some(SubStateQuorum::CheckQuorumOut), Event::NotApproveNotAttempts) =>
                    state_check_quorum_event_not_and_not(*self),
                (Some(SubStateQuorum::RepeatHandshakeIn), Event::Timeout) =>
                    state_repeat_handshake_in(*self),
                (Some(SubStateQuorum::RepeatHandshakeIn), Event::NewMessageHandshake) =>
                    new_message_handshake(*self),
                (Some(SubStateQuorum::RepeatHandshakeIn), Event::ApproveQuorum) =>
                    state_repeat_in_handshake_event_approve(*self),
                (Some(SubStateQuorum::RepeatHandshakeIn), Event::NotApproveQuorum) =>
                    valid(*self, Vec::new()),
                (Some(SubStateQuorum::RepeatHandshakeOut), Event::Timeout) =>
                    state_repeat_handshake_out(*self),
                (Some(SubStateQuorum::RepeatHandshakeOut), Event::NewMessageHandshake) =>
                    new_message_handshake(*self),
                (Some(SubStateQuorum::RepeatHandshakeOut), Event::ApproveQuorum) =>
                    state_repeat_out_handshake_event_approve(*self),
                (Some(SubStateQuorum::RepeatHandshakeOut), Event::NotApproveQuorum) =>
                    valid(*self, Vec::new()),
                _ => invalid(),
            },
            Some(SubStateBalanceMode::Phase) => match (self.phase, event) {
                (Some(SubStatePhase::Alert), Event::Timeout)
                | (Some(SubStatePhase::Alert), Event::QuorumPhase) =>
                    state_alert_event_timeout_or_quorum(*self),
                (Some(SubStatePhase::Data), Event::Timeout)
                | (Some(SubStatePhase::Data), Event::QuorumPhase) =>
                    state_data_event_timeout_or_quorum(*self),
                (Some(SubStatePhase::Monitor), Event::Timeout)
                | (Some(SubStatePhase::Monitor), Event::QuorumPhase) =>
                    state_monitor_event_timeout_or_quorum(*self),
                _ => invalid(),
            },
            Some(SubStateBalanceMode::OutHandshake) => match event {
                Event::Timeout => state_out_handshake_event_timeout(*self),
                Event::ApproveQuorum => state_out_handshake_event_approve(*self),
                Event::NotApproveQuorum => valid(*self, Vec::new()),
                Event::NewMessageHandshake => new_message_handshake(*self),
                _ => invalid(),
            },
            None => invalid(),
        }
    }

    /// Transitions while the top level mode is `Normal`.
    fn step_normal(&self, event: Event) -> (r: Transition)
        requires
            self.global == StateGlobal::Normal,
        ensures
            r.outcome() == spec_step_inner(*self, event),
            r.outcome() is None ==> r.message() == invalid_message(),
    {
        match event {
            Event::LocalDisconnected => {
                let mut next_fsm = *self;
                next_fsm.global = StateGlobal::Disconnected;
                let mut actions = Vec::new();
                actions.push(Action::StopSendHeartbeatMessageNormal);
                proof {
                    assert(actions@ =~= seq![Action::StopSendHeartbeatMessageNormal]);
                }
                valid(next_fsm, actions)
            },
            _ => invalid(),
        }
    }

    /// Transitions while the top level mode is `Disconnected`.
    fn step_disconnected(&self, event: Event) -> (r: Transition)
        requires
            self.global == StateGlobal::Disconnected,
        ensures
            r.outcome() == spec_step_inner(*self, event),
            r.outcome() is None ==> r.message() == invalid_message(),
    {
        match event {
            Event::LocalConnected => {
                let mut next_fsm = *self;
                next_fsm.global = StateGlobal::BalanceMode;
                next_fsm.balance = Some(SubStateBalanceMode::InitBalanceMode);
                valid(next_fsm, Vec::new())
            },
            _ => invalid(),
        }
    }

    /// Transitions while the top level mode is `SafeMode`.
    fn step_safe_mode(&self, event: Event) -> (r: Transition)
        requires
            self.global == StateGlobal::SafeMode,
        ensures
            r.outcome() == spec_step_inner(*self, event),
            r.outcome() is None ==> r.message() == invalid_message(),
    {
        match event {
            Event::LocalDisconnected => {
                let mut next_fsm = *self;
                next_fsm.global = StateGlobal::Disconnected;
                let mut actions = Vec::new();
                actions.push(Action::StopSendHeartbeatMessageSafeMode);
                proof {
                    assert(actions@ =~= seq![Action::StopSendHeartbeatMessageSafeMode]);
                }
                valid(next_fsm, actions)
            },
            Event::Timeout | Event::QuorumSafeMode => {
                let mut next_fsm = *self;
                next_fsm.global = StateGlobal::Normal;
                let mut actions = Vec::new();
                actions.push(Action::StopSendHeartbeatMessageSafeMode);
                proof {
                    assert(actions@ =~= seq![Action::StopSendHeartbeatMessageSafeMode]);
                }
                valid(next_fsm, actions)
            },
            _ => invalid(),
        }
    }

    /// Applies `event`: computes the inner transition and, when it is valid,
    /// appends the entry actions owed by the change of state.
    pub fn step(&self, event: Event) -> (r: Transition)
        ensures
            r.outcome() == spec_step(*self, event),
            r.outcome() is None ==> r.message() == spec_invalid_message_for(*self),
    {
        let transition = self.step_inner(event);
        match transition {
            Transition::Valid(t) => {
                let TransitionValid { change_state, actions } = t;
                let mut actions = actions;
                let mut entry_actions = compute_on_entry(self, &change_state);
                actions.append(&mut entry_actions);
                valid(change_state, actions)
            },
            invalid => invalid,
        }
    }
}

// --- Single transitions ---

/// InitBalanceMode -> InHandshake.
fn state_init_balance_mode_event_balance_epoch(next_fsm: FsmState) -> (r: Transition)
    ensures
        r.outcome() == moves_to(FsmState { balance: Some(SubStateBalanceMode::InHandshake), ..next_fsm }),
{
    let mut next_fsm = next_fsm;
    next_fsm.balance = Some(SubStateBalanceMode::InHandshake);
    valid(next_fsm, Vec::new())
}

/// InitBalanceMode -> SafeMode.
fn state_init_balance_mode_event_balance_epoch_not_ok(next_fsm: FsmState) -> (r: Transition)
    ensures
        r.outcome() == moves_to(FsmState { global: StateGlobal::SafeMode, balance: None, ..next_fsm }),
{
    let mut next_fsm = next_fsm;
    next_fsm.balance = None;
    next_fsm.global = StateGlobal::SafeMode;
    valid(next_fsm, Vec::new())
}

/// InHandshake -> Quorum (CheckQuorumIn).
fn state_in_handshake_event_timeout(next_fsm: FsmState) -> (r: Transition)
    ensures
        r.outcome() == moves_to(FsmState {
            balance: Some(SubStateBalanceMode::Quorum),
            quorum: Some(SubStateQuorum::CheckQuorumIn),
            ..next_fsm
        }),
{
    let mut next_fsm = next_fsm;
    next_fsm.balance = Some(SubStateBalanceMode::Quorum);
    next_fsm.quorum = Some(SubStateQuorum::CheckQuorumIn);
    valid(next_fsm, Vec::new())
}

/// A new handshake arrived: stay and recompute the quorum.
fn new_message_handshake(next_fsm: FsmState) -> (r: Transition)
    ensures
        r.outcome() == Some((next_fsm, seq![Action::CalculateQuorum])),
{
    let mut actions = Vec::new();
    actions.push(Action::CalculateQuorum);
    proof {
        assert(actions@ =~= seq![Action::CalculateQuorum]);
    }
    valid(next_fsm, actions)
}

/// A single `StopTimer` action.
fn stop_timer_only() -> (r: Vec<Action>)
    ensures
        r@ == seq![Action::StopTimer],
{
    let mut actions = Vec::new();
    actions.push(Action::StopTimer);
    proof {
        assert(actions@ =~= seq![Action::StopTimer]);
    }
    actions
}

/// RepeatHandshakeIn -> Alert phase.
fn state_repeat_in_handshake_event_approve(next_fsm: FsmState) -> (r: Transition)
    ensures
        r.outcome() == Some((
            FsmState { balance: Some(SubStateBalanceMode::Phase), phase: Some(SubStatePhase::Alert), quorum: None, ..next_fsm },
            seq![Action::StopTimer],
        )),
{
    let mut next_fsm = next_fsm;
    next_fsm.balance = Some(SubStateBalanceMode::Phase);
    next_fsm.phase = Some(SubStatePhase::Alert);
    next_fsm.quorum = None;
    valid(next_fsm, stop_timer_only())
}

/// RepeatHandshakeOut -> Normal.
fn state_repeat_out_handshake_event_approve(next_fsm: FsmState) -> (r: Transition)
    ensures
        r.outcome() == Some((
            FsmState { global: StateGlobal::Normal, balance: None, quorum: None, ..next_fsm },
            seq![Action::StopTimer],
        )),
{
    let mut next_fsm = next_fsm;
    next_fsm.balance = None;
    next_fsm.quorum = None;
    next_fsm.global = StateGlobal::Normal;
    valid(next_fsm, stop_timer_only())
}

/// InHandshake -> Alert phase (quorum reached early).
fn state_in_handshake_event_approve(next_fsm: FsmState) -> (r: Transition)
    ensures
        r.outcome() == Some((
            FsmState { balance: Some(SubStateBalanceMode::Phase), phase: Some(SubStatePhase::Alert), quorum: None, ..next_fsm },
            seq![Action::StopTimer],
        )),
{
    let mut next_fsm = next_fsm;
    next_fsm.balance = Some(SubStateBalanceMode::Phase);
    next_fsm.phase = Some(SubStatePhase::Alert);
    next_fsm.quorum = None;
    valid(next_fsm, stop_timer_only())
}

/// CheckQuorumIn -> RepeatHandshakeIn (no quorum).
fn state_check_quorum_in_event_not_approve(next_fsm: FsmState) -> (r: Transition)
    ensures
        r.outcome() == moves_to(FsmState { quorum: Some(SubStateQuorum::RepeatHandshakeIn), ..next_fsm }),
{
    let mut next_fsm = next_fsm;
    next_fsm.quorum = Some(SubStateQuorum::RepeatHandshakeIn);
    valid(next_fsm, Vec::new())
}

/// CheckQuorumOut -> RepeatHandshakeOut (no quorum).
fn state_check_quorum_out_event_not_approve(next_fsm: FsmState) -> (r: Transition)
    ensures
        r.outcome() == moves_to(FsmState { quorum: Some(SubStateQuorum::RepeatHandshakeOut), ..next_fsm }),
{
    let mut next_fsm = next_fsm;
    next_fsm.quorum = Some(SubStateQuorum::RepeatHandshakeOut);
    valid(next_fsm, Vec::new())
}

/// CheckQuorumIn -> Alert phase (quorum approved).
fn state_check_quorum_in_event_approve_quorum(next_fsm: FsmState) -> (r: Transition)
    ensures
        r.outcome() == Some((
            FsmState { balance: Some(SubStateBalanceMode::Phase), phase: Some(SubStatePhase::Alert), quorum: None, ..next_fsm },
            seq![Action::StopTimer],
        )),
{
    let mut next_fsm = next_fsm;
    next_fsm.balance = Some(SubStateBalanceMode::Phase);
    next_fsm.phase = Some(SubStatePhase::Alert);
    next_fsm.quorum = None;
    valid(next_fsm, stop_timer_only())
}

/// CheckQuorumOut -> Normal (quorum approved).
fn state_check_quorum_out_event_approve_quorum(next_fsm: FsmState) -> (r: Transition)
    ensures
        r.outcome() == Some((
            FsmState { global: StateGlobal::Normal, balance: None, quorum: None, ..next_fsm },
            seq![Action::StopTimer],
        )),
{
    let mut next_fsm = next_fsm;
    next_fsm.balance = None;
    next_fsm.quorum = None;
    next_fsm.global = StateGlobal::Normal;
    valid(next_fsm, stop_timer_only())
}

/// CheckQuorum -> SafeMode (no quorum and no attempts left).
fn state_check_quorum_event_not_and_not(next_fsm: FsmState) -> (r: Transition)
    ensures
        r.outcome() == moves_to(FsmState { global: StateGlobal::SafeMode, balance: None, quorum: None, ..next_fsm }),
{
    let mut next_fsm = next_fsm;
    next_fsm.global = StateGlobal::SafeMode;
    next_fsm.balance = None;
    next_fsm.quorum = None;
    valid(next_fsm, Vec::new())
}

/// RepeatHandshakeIn -> CheckQuorumIn.
fn state_repeat_handshake_in(next_fsm: FsmState) -> (r: Transition)
    ensures
        r.outcome() == moves_to(FsmState { quorum: Some(SubStateQuorum::CheckQuorumIn), ..next_fsm }),
{
    let mut next_fsm = next_fsm;
    next_fsm.quorum = Some(SubStateQuorum::CheckQuorumIn);
    valid(next_fsm, Vec::new())
}

/// RepeatHandshakeOut -> CheckQuorumOut.
fn state_repeat_handshake_out(next_fsm: FsmState) -> (r: Transition)
    ensures
        r.outcome() == moves_to(FsmState { quorum: Some(SubStateQuorum::CheckQuorumOut), ..next_fsm }),
{
    let mut next_fsm = next_fsm;
    next_fsm.quorum = Some(SubStateQuorum::CheckQuorumOut);
    valid(next_fsm, Vec::new())
}

/// Alert -> Data.
fn state_alert_event_timeout_or_quorum(next_fsm: FsmState) -> (r: Transition)
    ensures
        r.outcome() == Some((FsmState { phase: Some(SubStatePhase::Data), ..next_fsm }, seq![Action::StopTimer])),
{
    let mut next_fsm = next_fsm;
    next_fsm.phase = Some(SubStatePhase::Data);
    valid(next_fsm, stop_timer_only())
}

/// Data -> Monitor.
fn state_data_event_timeout_or_quorum(next_fsm: FsmState) -> (r: Transition)
    ensures
        r.outcome() == Some((FsmState { phase: Some(SubStatePhase::Monitor), ..next_fsm }, seq![Action::StopTimer])),
{
    let mut next_fsm = next_fsm;
    next_fsm.phase = Some(SubStatePhase::Monitor);
    valid(next_fsm, stop_timer_only())
}

/// Monitor -> OutHandshake.
fn state_monitor_event_timeout_or_quorum(next_fsm: FsmState) -> (r: Transition)
    ensures
        r.outcome() == Some((
            FsmState { balance: Some(SubStateBalanceMode::OutHandshake), phase: None, ..next_fsm },
            seq![Action::StopSendHeartbeatMessagePhase, Action::StopTimer],
        )),
{
    let mut next_fsm = next_fsm;
    next_fsm.balance = Some(SubStateBalanceMode::OutHandshake);
    next_fsm.phase = None;
    let mut actions = Vec::new();
    actions.push(Action::StopSendHeartbeatMessagePhase);
    actions.push(Action::StopTimer);
    proof {
        assert(actions@ =~= seq![Action::StopSendHeartbeatMessagePhase, Action::StopTimer]);
    }
    valid(next_fsm, actions)
}

/// OutHandshake -> CheckQuorumOut.
fn state_out_handshake_event_timeout(next_fsm: FsmState) -> (r: Transition)
    ensures
        r.outcome() == moves_to(FsmState {
            balance: Some(SubStateBalanceMode::Quorum),
            quorum: Some(SubStateQuorum::CheckQuorumOut),
            ..next_fsm
        }),
{
    let mut next_fsm = next_fsm;
    next_fsm.balance = Some(SubStateBalanceMode::Quorum);
    next_fsm.quorum = Some(SubStateQuorum::CheckQuorumOut);
    valid(next_fsm, Vec::new())
}

/// OutHandshake -> Normal (quorum approved).
fn state_out_handshake_event_approve(next_fsm: FsmState) -> (r: Transition)
    ensures
        r.outcome() == Some((
            FsmState { global: StateGlobal::Normal, balance: None, quorum: None, ..next_fsm },
            seq![Action::StopTimer],
        )),
{
    let mut next_fsm = next_fsm;
    next_fsm.balance = None;
    next_fsm.quorum = None;
    next_fsm.global = StateGlobal::Normal;
    valid(next_fsm, stop_timer_only())
}

/// Entry actions owed by the change from `old` to `new`.
pub fn compute_on_entry(old: &FsmState, new: &FsmState) -> (r: Vec<Action>)
    ensures
        r@ == spec_on_entry(*old, *new),
{
    let mut actions: Vec<Action> = Vec::new();
    let ghost b: Seq<Action> = if old.balance != new.balance && new.balance is Some {
        seq![Action::OnEntryBalance(new.balance->0)]
    } else {
        Seq::empty()
    };
    if old.balance != new.balance {
        if let Some(s) = new.balance {
            actions.push(Action::OnEntryBalance(s));
        }
    }
    assert(actions@ =~= b);
    let ghost q: Seq<Action> = if old.quorum != new.quorum && new.quorum is Some {
        seq![Action::OnEntryQuorum(new.quorum->0)]
    } else {
        Seq::empty()
    };
    if old.quorum != new.quorum {
        if let Some(s) = new.quorum {
            actions.push(Action::OnEntryQuorum(s));
        }
    }
    assert(actions@ =~= b + q);
    if old.global != new.global && new.global == StateGlobal::Normal {
        actions.push(Action::OnEntryNormal);
    }
    if old.global != new.global && new.global == StateGlobal::SafeMode {
        actions.push(Action::OnEntrySafeMode);
    }
    if old.global != new.global && new.global == StateGlobal::Disconnected {
        actions.push(Action::OnEntryDisconnected);
    }
    if old.phase != new.phase {
        if let Some(s) = new.phase {
            actions.push(Action::OnEntryPhase(s));
        }
    }
    assert(actions@ =~= spec_on_entry(*old, *new));
    actions
}

// ---------------------------------------------------------------------------
// Laws
// ---------------------------------------------------------------------------

/// Every valid transition from a well-formed state leads to a well-formed state:
/// a sub-level is active exactly when its parent level selects it.
pub proof fn lemma_step_preserves_well_formed(s: FsmState, e: Event)
    requires
        s.well_formed(),
        spec_step(s, e) is Some,
    ensures
        spec_step(s, e).unwrap().0.well_formed(),
{
}

/// Once the machine has started, a loss of the local broker connection is always
/// accepted: the machine clears every sub-state, enters `Disconnected` and the
/// last requested action is `OnEntryDisconnected`.
pub proof fn lemma_local_disconnection_always_accepted(s: FsmState)
    requires
        s.well_formed(),
        s.global != StateGlobal::Start,
        s.global != StateGlobal::Disconnected,
    ensures
        spec_step(s, Event::LocalDisconnected) is Some,
        spec_step(s, Event::LocalDisconnected).unwrap().0 == mode_at(StateGlobal::Disconnected),
        spec_step(s, Event::LocalDisconnected).unwrap().1.last() == Action::OnEntryDisconnected,
{
}

/// While disconnected, only a reconnection is accepted, and it restarts the
/// balance from `InitBalanceMode`, announcing that sub-state.
pub proof fn lemma_reconnection_restarts_balance(e: Event)
    ensures
        spec_step(mode_at(StateGlobal::Disconnected), e) is Some <==> e is LocalConnected,
        e is LocalConnected ==> spec_step(mode_at(StateGlobal::Disconnected), e) == Some((
            balance_at(SubStateBalanceMode::InitBalanceMode),
            seq![Action::OnEntryBalance(SubStateBalanceMode::InitBalanceMode)],
        )),
{
    if e is LocalConnected {
        assert(spec_on_entry(mode_at(StateGlobal::Disconnected), balance_at(SubStateBalanceMode::InitBalanceMode))
            =~= seq![Action::OnEntryBalance(SubStateBalanceMode::InitBalanceMode)]);
        assert(Seq::<Action>::empty() + seq![Action::OnEntryBalance(SubStateBalanceMode::InitBalanceMode)]
            =~= seq![Action::OnEntryBalance(SubStateBalanceMode::InitBalanceMode)]);
    }
}

/// From the initial state only `Start` is accepted, and it enters the balance
/// mode at `InitBalanceMode`.
pub proof fn lemma_start_enters_balance(e: Event)
    ensures
        spec_step(FsmState::spec_new(), e) is Some <==> e is Start,
        e is Start ==> spec_step(FsmState::spec_new(), e) == Some((
            balance_at(SubStateBalanceMode::InitBalanceMode),
            seq![Action::OnEntryBalance(SubStateBalanceMode::InitBalanceMode)],
        )),
{
    if e is Start {
        assert(spec_on_entry(FsmState::spec_new(), balance_at(SubStateBalanceMode::InitBalanceMode))
            =~= seq![Action::OnEntryBalance(SubStateBalanceMode::InitBalanceMode)]);
        assert(Seq::<Action>::empty() + seq![Action::OnEntryBalance(SubStateBalanceMode::InitBalanceMode)]
            =~= seq![Action::OnEntryBalance(SubStateBalanceMode::InitBalanceMode)]);
    }
}

/// The phases run in order Alert -> Data -> Monitor -> OutHandshake; a phase
/// ends on its timeout or on the phase quorum, and nothing else moves it.
pub proof fn lemma_phase_order(p: SubStatePhase, e: Event)
    ensures
        spec_step(phase_at(p), e) is Some <==> (e is Timeout || e is QuorumPhase || e is LocalDisconnected),
        (e is Timeout || e is QuorumPhase) ==> spec_step(phase_at(p), e).unwrap().0 == (match p {
            SubStatePhase::Alert => phase_at(SubStatePhase::Data),
            SubStatePhase::Data => phase_at(SubStatePhase::Monitor),
            SubStatePhase::Monitor => balance_at(SubStateBalanceMode::OutHandshake),
        }),
{
}

/// In safe mode, the safe-mode timeout or the safe-mode quorum returns the
/// machine to normal operation, stopping the safe-mode heartbeats and
/// announcing `Normal`.
pub proof fn lemma_safe_mode_recovers(e: Event)
    requires
        e is Timeout || e is QuorumSafeMode,
    ensures
        spec_step(mode_at(StateGlobal::SafeMode), e) == Some((
            mode_at(StateGlobal::Normal),
            seq![Action::StopSendHeartbeatMessageSafeMode, Action::OnEntryNormal],
        )),
{
    assert(spec_on_entry(mode_at(StateGlobal::SafeMode), mode_at(StateGlobal::Normal)) =~= seq![Action::OnEntryNormal]);
    assert(seq![Action::StopSendHeartbeatMessageSafeMode] + seq![Action::OnEntryNormal]
        =~= seq![Action::StopSendHeartbeatMessageSafeMode, Action::OnEntryNormal]);
}

/// A quorum check without votes and without attempts left always ends the
/// balance in safe mode.
pub proof fn lemma_exhausted_quorum_enters_safe_mode(q: SubStateQuorum)
    requires
        q == SubStateQuorum::CheckQuorumIn || q == SubStateQuorum::CheckQuorumOut,
    ensures
        spec_step(quorum_at(q), Event::NotApproveNotAttempts) == Some((
            mode_at(StateGlobal::SafeMode),
            seq![Action::OnEntrySafeMode],
        )),
{
    assert(spec_on_entry(quorum_at(q), mode_at(StateGlobal::SafeMode)) =~= seq![Action::OnEntrySafeMode]);
    assert(Seq::<Action>::empty() + seq![Action::OnEntrySafeMode] =~= seq![Action::OnEntrySafeMode]);
}

/// A refused quorum check repeats its handshake round, and the timeout of
/// that round returns to the same check: the round trip leaves the machine
/// as it was. Each leg is a plain transition (no action of its own); entering
/// the repeated round and entering the check again each announce the quorum
/// sub-state entered.
pub proof fn lemma_repeated_round_returns_to_check(s: FsmState)
    requires
        s.global == StateGlobal::BalanceMode,
        s.balance == Some(SubStateBalanceMode::Quorum),
        s.quorum == Some(SubStateQuorum::CheckQuorumIn) || s.quorum == Some(SubStateQuorum::CheckQuorumOut),
    ensures
        ({
            let q = s.quorum->0;
            let r = if q is CheckQuorumIn { SubStateQuorum::RepeatHandshakeIn } else { SubStateQuorum::RepeatHandshakeOut };
            let repeated = FsmState { quorum: Some(r), ..s };
            &&& spec_step_inner(s, Event::NotApproveQuorum) == moves_to(repeated)
            &&& spec_step_inner(repeated, Event::Timeout) == moves_to(s)
            &&& spec_step(s, Event::NotApproveQuorum) == Some((repeated, seq![Action::OnEntryQuorum(r)]))
            &&& spec_step(repeated, Event::Timeout) == Some((s, seq![Action::OnEntryQuorum(q)]))
        }),
{
    let q = s.quorum->0;
    let r = if q is CheckQuorumIn { SubStateQuorum::RepeatHandshakeIn } else { SubStateQuorum::RepeatHandshakeOut };
    let repeated = FsmState { quorum: Some(r), ..s };
    assert(FsmState { quorum: Some(q), ..repeated } == s);
    assert(spec_on_entry(s, repeated) =~= seq![Action::OnEntryQuorum(r)]);
    assert(spec_on_entry(repeated, s) =~= seq![Action::OnEntryQuorum(q)]);
    assert(Seq::<Action>::empty() + seq![Action::OnEntryQuorum(r)] =~= seq![Action::OnEntryQuorum(r)]);
    assert(Seq::<Action>::empty() + seq![Action::OnEntryQuorum(q)] =~= seq![Action::OnEntryQuorum(q)]);
}

} // verus!
