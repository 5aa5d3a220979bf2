//! Decisions of the operating-mode runtime.
//!
//! The runtime feeds the machine of `crate::fsm::domain`, performs the actions
//! it returns and reacts to hub reports. Every decision is taken here, from the
//! balance session and the protocol settings; the runtime only performs the
//! returned effects (channel sends, timers, database reads and writes, MQTT
//! publications). The handshake quorum compares percentages in floating
//! point and is evaluated by the runtime when asked with
//! `FsmEffect::EvaluateQuorum`.

use crate::fsm::domain::{
    Action, Event, FsmState, StateOfSession, SubStateBalanceMode, SubStatePhase, SubStateQuorum, Transition,
};
use crate::second_layer::message::domain::{
    EdgeState, EmptyQueue, EmptyQueueSafeMode, HandshakeFromHub, HandshakeToHub, Heartbeat, Metadata,
    PhaseNotification, StateToHub,
};
use crate::system::clock::now_timestamp;
use crate::system::domain::InternalEvent;
use crate::system::random::random_up_to;
use crate::system::timer::TimerOrder;
use crate::third_layer::fsm::domain::UpdateSession;
use crate::third_layer::quorum::domain::ProtocolSettings;
use vstd::prelude::*;
use vstd::string::*;

verus! {

/// What the periodic state broadcast announces.
#[derive(Debug, Clone, Copy, PartialEq, Eq, Structural)]
pub enum State {
    Start,
    BalanceMode { epoch: u32, duration: u32, frequency: u32, jitter: u32 },
    Normal,
    SafeMode { frequency: u32, jitter: u32 },
    Disconnected,
}

/// Reports that reach the runtime from the hubs and the transport.
#[derive(Debug)]
pub enum EventFsm {
    Handshake(HandshakeFromHub),
    Queue(EmptyQueue),
    QueueSafe(EmptyQueueSafeMode),
    Connection(InternalEvent),
}

/// Effects the runtime performs, in order.
#[derive(Debug)]
pub enum FsmEffect {
    /// Feed this event to the machine.
    ToFsm(Event),
    /// Arm the general watchdog for this many seconds.
    InitTimer(u64),
    /// Stop the general watchdog.
    StopTimer,
    /// Hand this action to the heartbeat generator.
    ToHeartbeat(Action),
    /// Change what the periodic state broadcast announces.
    ToEdgeState(State),
    /// Publish this handshake to the hubs.
    SendHandshake(HandshakeToHub),
    /// Publish this phase notification to the hubs.
    SendPhase(PhaseNotification),
    /// Read the stored balance epoch and answer with `on_epoch_loaded`.
    LoadEpoch,
    /// Evaluate the handshake quorum (see `quorum_attempts_exhausted`).
    EvaluateQuorum,
}

/// What the runtime does with a report.
#[derive(Debug)]
pub enum EventDecision {
    Ignore,
    /// Feed this event to the machine.
    ToFsm(Event),
    /// A hub reported an empty queue during a phase; this many hubs did so
    /// far. The phase ends when they are at least 80% of the hubs.
    PhaseQuorum(u64),
    /// A hub reported an empty queue in safe mode; this many hubs did so far.
    /// Safe mode ends when they are at least 70% of the hubs.
    SafeModeQuorum(u64),
}

/// Cadence of the heartbeat generator.
#[derive(Debug, Clone, Copy, PartialEq, Eq, Structural)]
pub enum Beat {
    BalanceMode,
    Normal,
    SafeMode,
    Idle,
}

// ---------------------------------------------------------------------------
// Specification
// ---------------------------------------------------------------------------

/// Metadata of a broadcast of the gateway to all hubs.
pub open spec fn is_broadcast(m: Metadata, id_edge: Seq<char>) -> bool {
    m.sender_user_id@ == id_edge && m.destination_id@ == "all"@
}

/// The two metadata are the same value.
pub open spec fn same_metadata(a: Metadata, b: Metadata) -> bool {
    a.sender_user_id@ == b.sender_user_id@ && a.destination_id@ == b.destination_id@ && a.timestamp == b.timestamp
}

/// The effect publishes the handshake `flag` of epoch `epoch`.
pub open spec fn is_handshake(e: FsmEffect, id_edge: Seq<char>, flag: Seq<char>, epoch: u32) -> bool {
    e matches FsmEffect::SendHandshake(m) && is_broadcast(m.metadata, id_edge) && m.flag@ == flag
        && m.balance_epoch == epoch
}

/// Name of a phase in the notifications.
pub open spec fn phase_name(p: SubStatePhase) -> Seq<char> {
    match p {
        SubStatePhase::Alert => "alert"@,
        SubStatePhase::Data => "data"@,
        SubStatePhase::Monitor => "monitor"@,
    }
}

/// Session stage of a phase.
pub open spec fn phase_stage(p: SubStatePhase) -> StateOfSession {
    match p {
        SubStatePhase::Alert => StateOfSession::PhaseAlert,
        SubStatePhase::Data => StateOfSession::PhaseData,
        SubStatePhase::Monitor => StateOfSession::PhaseMonitor,
    }
}

/// The effect publishes the notification of phase `p` of epoch `epoch`,
/// with the phase frequency and a jitter of at most 10.
pub open spec fn is_phase_notification(e: FsmEffect, id_edge: Seq<char>, epoch: u32, p: SubStatePhase, settings: ProtocolSettings) -> bool {
    e matches FsmEffect::SendPhase(m) && is_broadcast(m.metadata, id_edge) && m.state@ == "balance_mode"@
        && m.epoch == epoch && m.phase@ == phase_name(p) && m.frequency == settings.spec_frequency_phase()
        && m.jitter <= 10
}

/// Records, repeated rounds and stage are the same.
pub open spec fn same_session(a: UpdateSession, b: UpdateSession) -> bool {
    &&& b.empties() == a.empties()
    &&& b.handshakes() == a.handshakes()
    &&& b.attempts() == a.attempts()
    &&& b.spec_state() == a.spec_state()
}

/// Only the stage changed, to `stage`.
pub open spec fn only_stage(a: UpdateSession, b: UpdateSession, stage: StateOfSession) -> bool {
    &&& b.empties() == a.empties()
    &&& b.handshakes() == a.handshakes()
    &&& b.attempts() == a.attempts()
    &&& b.spec_state() == stage
}

/// Repeated rounds after one more round.
pub open spec fn next_attempts(n: u64) -> u64 {
    if n < u64::MAX { (n + 1) as u64 } else { n }
}

/// Session change and effects owed for `action`.
pub open spec fn action_outcome(
    action: Action,
    before: UpdateSession,
    after: UpdateSession,
    effects: Seq<FsmEffect>,
    settings: ProtocolSettings,
    id_edge: Seq<char>,
) -> bool {
    match action {
        Action::OnEntryBalance(SubStateBalanceMode::InitBalanceMode) => {
            &&& same_session(before, after)
            &&& effects.len() == 1
            &&& effects[0] is LoadEpoch
        },
        Action::OnEntryBalance(SubStateBalanceMode::InHandshake) => {
            &&& only_stage(before, after, StateOfSession::InHandshake)
            &&& effects.len() == 2
            &&& is_handshake(effects[0], id_edge, "in"@, before.spec_epoch())
            &&& effects[1] == FsmEffect::InitTimer(settings.spec_timeout_handshake())
        },
        Action::OnEntryBalance(SubStateBalanceMode::OutHandshake) => {
            &&& only_stage(before, after, StateOfSession::OutHandshake)
            &&& effects.len() == 2
            &&& is_handshake(effects[0], id_edge, "out"@, before.spec_epoch())
            &&& effects[1] == FsmEffect::InitTimer(settings.spec_timeout_handshake())
        },
        Action::OnEntryBalance(_) => same_session(before, after) && effects.len() == 0,
        Action::OnEntryQuorum(SubStateQuorum::CheckQuorumIn) | Action::OnEntryQuorum(SubStateQuorum::CheckQuorumOut) => {
            &&& only_stage(before, after, StateOfSession::Quorum)
            &&& effects.len() == 1
            &&& effects[0] is EvaluateQuorum
        },
        Action::OnEntryQuorum(q) => {
            &&& after.empties() == before.empties()
            &&& after.handshakes() == Map::<Seq<char>, u32>::empty()
            &&& after.attempts() == next_attempts(before.attempts())
            &&& after.spec_state() == StateOfSession::RepeatHandshake
            &&& effects.len() == 2
            &&& is_handshake(effects[0], id_edge, if q is RepeatHandshakeIn { "in"@ } else { "out"@ }, before.spec_epoch())
            &&& effects[1] == FsmEffect::InitTimer(settings.spec_timeout_handshake())
        },
        Action::OnEntryPhase(p) => {
            &&& after.empties() == Map::<Seq<char>, bool>::empty()
            &&& after.handshakes() == Map::<Seq<char>, u32>::empty()
            &&& after.attempts() == 0
            &&& after.spec_state() == phase_stage(p)
            &&& effects.len() == if p is Alert { 3int } else { 2int }
            &&& effects[0] == FsmEffect::InitTimer(settings.spec_timeout_phase())
            &&& is_phase_notification(effects[1], id_edge, before.spec_epoch(), p, settings)
            &&& p is Alert ==> effects[2] == FsmEffect::ToHeartbeat(Action::SendHeartbeatMessagePhase)
        },
        Action::OnEntryNormal => {
            &&& same_session(before, after)
            &&& effects == seq![
                FsmEffect::ToHeartbeat(Action::SendHeartbeatMessageNormal),
                FsmEffect::ToEdgeState(State::Normal),
            ]
        },
        Action::OnEntrySafeMode => {
            &&& after.empties() == Map::<Seq<char>, bool>::empty()
            &&& after.handshakes() == before.handshakes()
            &&& after.attempts() == before.attempts()
            &&& after.spec_state() == StateOfSession::SafeMode
            &&& effects.len() == 3
            &&& effects[0] == FsmEffect::InitTimer(settings.spec_timeout_safe_mode())
            &&& effects[1] == FsmEffect::ToHeartbeat(Action::SendHeartbeatMessageSafeMode)
            &&& effects[2] matches FsmEffect::ToEdgeState(State::SafeMode { frequency, jitter })
                && frequency == settings.spec_frequency_safe_mode() && jitter <= 5
        },
        Action::CalculateQuorum => {
            &&& same_session(before, after)
            &&& effects.len() == 1
            &&& effects[0] is EvaluateQuorum
        },
        Action::OnEntryDisconnected => same_session(before, after) && effects == seq![FsmEffect::ToEdgeState(State::Disconnected)],
        Action::StopTimer => same_session(before, after) && effects == seq![FsmEffect::StopTimer],
        Action::StopSendHeartbeatMessagePhase | Action::StopSendHeartbeatMessageSafeMode | Action::StopSendHeartbeatMessageNormal => {
            same_session(before, after) && effects == seq![FsmEffect::ToHeartbeat(action)]
        },
        _ => same_session(before, after) && effects.len() == 0,
    }
}

/// Stages in which handshakes are collected.
pub open spec fn collects_handshakes(s: StateOfSession) -> bool {
    s is InHandshake || s is OutHandshake || s is RepeatHandshake
}

/// Stages in which empty-queue reports of a phase are collected.
pub open spec fn collects_phase_reports(s: StateOfSession) -> bool {
    s is PhaseAlert || s is PhaseData || s is PhaseMonitor
}

/// Heartbeat period of a cadence, `None` when idle.
pub open spec fn beat_period(b: Beat, settings: ProtocolSettings) -> Option<u64> {
    match b {
        Beat::BalanceMode => Some(settings.spec_time_between_heartbeats_balance_mode()),
        Beat::Normal => Some(settings.spec_time_between_heartbeats_normal()),
        Beat::SafeMode => Some(settings.spec_time_between_heartbeats_safe_mode()),
        Beat::Idle => None,
    }
}

// ---------------------------------------------------------------------------
// Messages
// ---------------------------------------------------------------------------

/// Metadata of a message from the gateway to `destination`, stamped now.
pub fn build_metadata(id_edge: &String, destination: &str) -> (r: Metadata)
    ensures
        r.sender_user_id@ == id_edge@,
        r.destination_id@ == destination@,
{
    Metadata {
        sender_user_id: id_edge.clone(),
        destination_id: String::from_str(destination),
        timestamp: now_timestamp(),
    }
}

/// A copy of `m`.
fn copy_metadata(m: &Metadata) -> (r: Metadata)
    ensures
        same_metadata(r, *m),
{
    Metadata { sender_user_id: m.sender_user_id.clone(), destination_id: m.destination_id.clone(), timestamp: m.timestamp }
}

/// Handshake broadcast of the entry into `state`: flag `in` when entering,
/// `out` when leaving the balance; nothing for the other sub-states.
pub fn send_handshake(metadata: Metadata, epoch: u32, state: SubStateBalanceMode) -> (r: Option<HandshakeToHub>)
    ensures
        match state {
            SubStateBalanceMode::InHandshake => r matches Some(m) && m.flag@ == "in"@ && m.balance_epoch == epoch
                && same_metadata(m.metadata, metadata),
            SubStateBalanceMode::OutHandshake => r matches Some(m) && m.flag@ == "out"@ && m.balance_epoch == epoch
                && same_metadata(m.metadata, metadata),
            _ => r is None,
        },
{
    match state {
        SubStateBalanceMode::InHandshake => {
            let m = HandshakeToHub { metadata: copy_metadata(&metadata), flag: String::from_str("in"), balance_epoch: epoch };
            Some(m)
        },
        SubStateBalanceMode::OutHandshake => {
            let m = HandshakeToHub { metadata: copy_metadata(&metadata), flag: String::from_str("out"), balance_epoch: epoch };
            Some(m)
        },
        _ => None,
    }
}

/// Handshake broadcast when a handshake round is repeated: flag `in` or
/// `out` as the round; nothing for the quorum checks.
pub fn repeat_handshake(metadata: Metadata, epoch: u32, state: SubStateQuorum) -> (r: Option<HandshakeToHub>)
    ensures
        match state {
            SubStateQuorum::RepeatHandshakeIn => r matches Some(m) && m.flag@ == "in"@ && m.balance_epoch == epoch
                && same_metadata(m.metadata, metadata),
            SubStateQuorum::RepeatHandshakeOut => r matches Some(m) && m.flag@ == "out"@ && m.balance_epoch == epoch
                && same_metadata(m.metadata, metadata),
            _ => r is None,
        },
{
    match state {
        SubStateQuorum::RepeatHandshakeIn => Some(
            HandshakeToHub { metadata: copy_metadata(&metadata), flag: String::from_str("in"), balance_epoch: epoch },
        ),
        SubStateQuorum::RepeatHandshakeOut => Some(
            HandshakeToHub { metadata: copy_metadata(&metadata), flag: String::from_str("out"), balance_epoch: epoch },
        ),
        _ => None,
    }
}

/// Notification of a phase of the balance: state `balance_mode`, the phase
/// frequency of the settings and a random jitter in `0..=10`.
pub fn send_phase_notification(metadata: Metadata, epoch: u32, phase: String, settings: &ProtocolSettings) -> (r: PhaseNotification)
    ensures
        same_metadata(r.metadata, metadata),
        r.state@ == "balance_mode"@,
        r.epoch == epoch,
        r.phase@ == phase@,
        r.frequency == settings.spec_frequency_phase(),
        r.jitter <= 10,
{
    let jitter = random_up_to(10);
    PhaseNotification {
        metadata: copy_metadata(&metadata),
        state: String::from_str("balance_mode"),
        epoch,
        phase,
        frequency: settings.get_frequency_phase(),
        jitter,
    }
}

/// The heartbeat broadcast to the hubs.
pub fn send_heartbeat(id_edge: &String) -> (r: Heartbeat)
    ensures
        is_broadcast(r.metadata, id_edge@),
        r.beat,
{
    Heartbeat { metadata: build_metadata(id_edge, "all"), beat: true }
}

/// Messages of one tick of the periodic state broadcast: the state reported
/// to the server and the state announced to the hubs, with the same metadata.
/// Nothing is sent before the balance starts or while disconnected.
pub fn edge_state(state: &State, id_edge: &String) -> (r: Option<(EdgeState, StateToHub)>)
    ensures
        match *state {
            State::BalanceMode { epoch, duration, frequency, jitter } => r matches Some((e, h))
                && is_broadcast(e.metadata, id_edge@) && same_metadata(h.metadata, e.metadata)
                && e.state@ == "Balance"@ && h.state@ == "balance"@ && h.balance_epoch == epoch
                && h.duration == duration && h.frequency == frequency && h.jitter == jitter,
            State::Normal => r matches Some((e, h))
                && is_broadcast(e.metadata, id_edge@) && same_metadata(h.metadata, e.metadata)
                && e.state@ == "Normal"@ && h.state@ == "normal"@ && h.balance_epoch == 0
                && h.duration == 0 && h.frequency == 0 && h.jitter == 0,
            State::SafeMode { frequency, jitter } => r matches Some((e, h))
                && is_broadcast(e.metadata, id_edge@) && same_metadata(h.metadata, e.metadata)
                && e.state@ == "SafeMode"@ && h.state@ == "safe"@ && h.balance_epoch == 0
                && h.duration == 0 && h.frequency == frequency && h.jitter == jitter,
            _ => r is None,
        },
{
    match *state {
        State::BalanceMode { epoch, duration, frequency, jitter } => {
            let metadata = build_metadata(id_edge, "all");
            let to_hub = StateToHub {
                metadata: copy_metadata(&metadata),
                state: String::from_str("balance"),
                balance_epoch: epoch,
                duration,
                frequency,
                jitter,
            };
            Some((EdgeState { metadata, state: String::from_str("Balance") }, to_hub))
        },
        State::Normal => {
            let metadata = build_metadata(id_edge, "all");
            let to_hub = StateToHub {
                metadata: copy_metadata(&metadata),
                state: String::from_str("normal"),
                balance_epoch: 0,
                duration: 0,
                frequency: 0,
                jitter: 0,
            };
            Some((EdgeState { metadata, state: String::from_str("Normal") }, to_hub))
        },
        State::SafeMode { frequency, jitter } => {
            let metadata = build_metadata(id_edge, "all");
            let to_hub = StateToHub {
                metadata: copy_metadata(&metadata),
                state: String::from_str("safe"),
                balance_epoch: 0,
                duration: 0,
                frequency,
                jitter,
            };
            Some((EdgeState { metadata, state: String::from_str("SafeMode") }, to_hub))
        },
        _ => None,
    }
}

// ---------------------------------------------------------------------------
// Actions of the machine
// ---------------------------------------------------------------------------

/// Performs the session bookkeeping of `action` and returns the effects the
/// runtime owes for it:
/// - entering the balance asks for the stored epoch;
/// - entering a handshake (in, out, or a repeated round, which also counts a
///   round and forgets the handshakes) broadcasts it and arms the handshake
///   watchdog;
/// - a quorum check, or `CalculateQuorum`, asks for the quorum evaluation;
/// - entering a phase forgets rounds and reports, arms the phase watchdog,
///   notifies the phase and, for the alert phase, starts the phase heartbeat;
/// - entering normal or safe mode starts the matching heartbeat and switches
///   the state broadcast (safe mode also forgets the empty-queue reports and
///   arms its watchdog);
/// - disconnection, timer stops and heartbeat stops are forwarded.
pub fn handle_action(action: Action, session: &mut UpdateSession, settings: &ProtocolSettings, id_edge: &String) -> (effects: Vec<FsmEffect>)
    requires
        old(session).well_formed(),
    ensures
        final(session).well_formed(),
        final(session).spec_epoch() == old(session).spec_epoch(),
        action_outcome(action, *old(session), *final(session), effects@, *settings, id_edge@),
{
    let mut effects: Vec<FsmEffect> = Vec::new();
    match action {
        Action::OnEntryBalance(sub_bm) => match sub_bm {
            SubStateBalanceMode::InitBalanceMode => {
                effects.push(FsmEffect::LoadEpoch);
            },
            SubStateBalanceMode::InHandshake => {
                session.set_state(StateOfSession::InHandshake);
                let metadata = build_metadata(id_edge, "all");
                match send_handshake(metadata, session.get_epoch(), sub_bm) {
                    Some(m) => effects.push(FsmEffect::SendHandshake(m)),
                    None => {},
                }
                effects.push(FsmEffect::InitTimer(settings.get_timeout_handshake()));
            },
            SubStateBalanceMode::OutHandshake => {
                session.set_state(StateOfSession::OutHandshake);
                let metadata = build_metadata(id_edge, "all");
                match send_handshake(metadata, session.get_epoch(), sub_bm) {
                    Some(m) => effects.push(FsmEffect::SendHandshake(m)),
                    None => {},
                }
                effects.push(FsmEffect::InitTimer(settings.get_timeout_handshake()));
            },
            _ => {},
        },
        Action::OnEntryQuorum(sub_q) => match sub_q {
            SubStateQuorum::CheckQuorumIn | SubStateQuorum::CheckQuorumOut => {
                session.set_state(StateOfSession::Quorum);
                effects.push(FsmEffect::EvaluateQuorum);
            },
            SubStateQuorum::RepeatHandshakeIn | SubStateQuorum::RepeatHandshakeOut => {
                session.set_state(StateOfSession::RepeatHandshake);
                session.increment_attempts();
                session.reset_handshake_hash();
                let metadata = build_metadata(id_edge, "all");
                match repeat_handshake(metadata, session.get_epoch(), sub_q) {
                    Some(m) => effects.push(FsmEffect::SendHandshake(m)),
                    None => {},
                }
                effects.push(FsmEffect::InitTimer(settings.get_timeout_handshake()));
            },
        },
        Action::OnEntryPhase(sub_p) => {
            session.reset_total_attempts();
            session.reset_handshake_hash();
            session.reset_empty_hash();
            let phase = match sub_p {
                SubStatePhase::Alert => {
                    session.set_state(StateOfSession::PhaseAlert);
                    String::from_str("alert")
                },
                SubStatePhase::Data => {
                    session.set_state(StateOfSession::PhaseData);
                    String::from_str("data")
                },
                SubStatePhase::Monitor => {
                    session.set_state(StateOfSession::PhaseMonitor);
                    String::from_str("monitor")
                },
            };
            effects.push(FsmEffect::InitTimer(settings.get_timeout_phase()));
            let metadata = build_metadata(id_edge, "all");
            let notification = send_phase_notification(metadata, session.get_epoch(), phase, settings);
            effects.push(FsmEffect::SendPhase(notification));
            match sub_p {
                SubStatePhase::Alert => effects.push(FsmEffect::ToHeartbeat(Action::SendHeartbeatMessagePhase)),
                _ => {},
            }
        },
        Action::OnEntryNormal => {
            effects.push(FsmEffect::ToHeartbeat(Action::SendHeartbeatMessageNormal));
            effects.push(FsmEffect::ToEdgeState(State::Normal));
        },
        Action::OnEntrySafeMode => {
            session.reset_empty_hash();
            session.set_state(StateOfSession::SafeMode);
            effects.push(FsmEffect::InitTimer(settings.get_timeout_safe_mode()));
            effects.push(FsmEffect::ToHeartbeat(Action::SendHeartbeatMessageSafeMode));
            let frequency = settings.get_frequency_safe_mode();
            let jitter = random_up_to(5);
            effects.push(FsmEffect::ToEdgeState(State::SafeMode { frequency, jitter }));
        },
        Action::CalculateQuorum => {
            effects.push(FsmEffect::EvaluateQuorum);
        },
        Action::OnEntryDisconnected => {
            effects.push(FsmEffect::ToEdgeState(State::Disconnected));
        },
        Action::StopTimer => {
            effects.push(FsmEffect::StopTimer);
        },
        Action::StopSendHeartbeatMessagePhase => {
            effects.push(FsmEffect::ToHeartbeat(Action::StopSendHeartbeatMessagePhase));
        },
        Action::StopSendHeartbeatMessageSafeMode => {
            effects.push(FsmEffect::ToHeartbeat(Action::StopSendHeartbeatMessageSafeMode));
        },
        Action::StopSendHeartbeatMessageNormal => {
            effects.push(FsmEffect::ToHeartbeat(Action::StopSendHeartbeatMessageNormal));
        },
        _ => {},
    }
    proof {
        match action {
            Action::OnEntryNormal => {
                assert(effects@ =~= seq![
                    FsmEffect::ToHeartbeat(Action::SendHeartbeatMessageNormal),
                    FsmEffect::ToEdgeState(State::Normal),
                ]);
            },
            Action::OnEntryDisconnected => {
                assert(effects@ =~= seq![FsmEffect::ToEdgeState(State::Disconnected)]);
            },
            Action::StopTimer => {
                assert(effects@ =~= seq![FsmEffect::StopTimer]);
            },
            Action::StopSendHeartbeatMessagePhase | Action::StopSendHeartbeatMessageSafeMode | Action::StopSendHeartbeatMessageNormal => {
                assert(effects@ =~= seq![FsmEffect::ToHeartbeat(action)]);
            },
            _ => {},
        }
    }
    effects
}

/// The stored epoch was read (`None` when it could not be read). The session
/// moves to the next epoch, which the runtime must store; without a stored
/// epoch nothing is to be stored.
pub fn on_epoch_loaded(session: &mut UpdateSession, loaded: Option<u32>) -> (to_save: Option<u32>)
    requires
        old(session).well_formed(),
        loaded matches Some(e) ==> e < u32::MAX,
    ensures
        final(session).well_formed(),
        same_session(*old(session), *final(session)),
        match loaded {
            Some(e) => to_save == Some((e + 1) as u32) && final(session).spec_epoch() == e + 1,
            None => to_save is None && final(session).spec_epoch() == old(session).spec_epoch(),
        },
{
    match loaded {
        Some(e) => {
            session.set_epoch(e + 1);
            Some(e + 1)
        },
        None => None,
    }
}

/// The new epoch was stored (`saved`), or could not be read or stored. On
/// success the machine is told so and the state broadcast announces the
/// balance of that epoch (duration 300, the phase frequency, a jitter in
/// `0..=5`); otherwise the machine is told of the failure.
pub fn on_epoch_saved(session: &UpdateSession, saved: bool, settings: &ProtocolSettings) -> (effects: Vec<FsmEffect>)
    ensures
        saved ==> {
            &&& effects.len() == 2
            &&& effects@[0] == FsmEffect::ToFsm(Event::BalanceEpochOk)
            &&& effects@[1] matches FsmEffect::ToEdgeState(State::BalanceMode { epoch, duration, frequency, jitter })
                && epoch == session.spec_epoch() && duration == 300 && frequency == settings.spec_frequency_phase()
                && jitter <= 5
        },
        !saved ==> effects@ == seq![FsmEffect::ToFsm(Event::BalanceEpochNotOk)],
{
    let mut effects: Vec<FsmEffect> = Vec::new();
    if saved {
        effects.push(FsmEffect::ToFsm(Event::BalanceEpochOk));
        let jitter = random_up_to(5);
        effects.push(FsmEffect::ToEdgeState(State::BalanceMode {
            epoch: session.get_epoch(),
            duration: 300,
            frequency: settings.get_frequency_phase(),
            jitter,
        }));
    } else {
        effects.push(FsmEffect::ToFsm(Event::BalanceEpochNotOk));
        proof {
            assert(effects@ =~= seq![FsmEffect::ToFsm(Event::BalanceEpochNotOk)]);
        }
    }
    effects
}

/// The handshake rounds are exhausted: more repeated rounds than the settings
/// allow. The quorum is then refused without counting votes.
pub fn quorum_attempts_exhausted(session: &UpdateSession, settings: &ProtocolSettings) -> (r: bool)
    ensures
        r == (session.attempts() > settings.spec_max_attempts()),
{
    session.get_total_attempts() > settings.get_max_attempts()
}

// ---------------------------------------------------------------------------
// Reports
// ---------------------------------------------------------------------------

/// Takes a report into the session:
/// - a handshake counts when handshakes are being collected and it answers
///   the session's epoch; the machine is then told of it;
/// - an empty-queue report of a phase (or of safe mode) counts when such
///   reports are being collected and the queue is empty; the runtime then
///   checks the quorum with the new count;
/// - local broker (dis)connection is passed to the machine;
/// anything else is ignored. Each hub counts once.
pub fn handle_events(event: EventFsm, session: &mut UpdateSession) -> (r: EventDecision)
    requires
        old(session).well_formed(),
    ensures
        final(session).well_formed(),
        final(session).spec_epoch() == old(session).spec_epoch(),
        final(session).attempts() == old(session).attempts(),
        final(session).spec_state() == old(session).spec_state(),
        match event {
            EventFsm::Handshake(h) => if collects_handshakes(old(session).spec_state())
                && h.balance_epoch == old(session).spec_epoch() {
                &&& final(session).handshakes() == if old(session).handshakes().dom().contains(h.metadata.sender_user_id@) {
                        old(session).handshakes()
                    } else {
                        old(session).handshakes().insert(h.metadata.sender_user_id@, h.balance_epoch)
                    }
                &&& final(session).empties() == old(session).empties()
                &&& r == EventDecision::ToFsm(Event::NewMessageHandshake)
            } else {
                same_session(*old(session), *final(session)) && r is Ignore
            },
            EventFsm::Queue(q) => if collects_phase_reports(old(session).spec_state()) && q.queue_empty {
                &&& final(session).empties() == if old(session).empties().dom().contains(q.metadata.sender_user_id@) {
                        old(session).empties()
                    } else {
                        old(session).empties().insert(q.metadata.sender_user_id@, true)
                    }
                &&& final(session).handshakes() == old(session).handshakes()
                &&& r == EventDecision::PhaseQuorum(final(session).empties().dom().len() as u64)
            } else {
                same_session(*old(session), *final(session)) && r is Ignore
            },
            EventFsm::QueueSafe(q) => if old(session).spec_state() is SafeMode && q.queue_empty {
                &&& final(session).empties() == if old(session).empties().dom().contains(q.metadata.sender_user_id@) {
                        old(session).empties()
                    } else {
                        old(session).empties().insert(q.metadata.sender_user_id@, true)
                    }
                &&& final(session).handshakes() == old(session).handshakes()
                &&& r == EventDecision::SafeModeQuorum(final(session).empties().dom().len() as u64)
            } else {
                same_session(*old(session), *final(session)) && r is Ignore
            },
            EventFsm::Connection(c) => {
                &&& same_session(*old(session), *final(session))
                &&& match c {
                    InternalEvent::LocalConnected => r == EventDecision::ToFsm(Event::LocalConnected),
                    InternalEvent::LocalDisconnected => r == EventDecision::ToFsm(Event::LocalDisconnected),
                    _ => r is Ignore,
                }
            },
        },
{
    match event {
        EventFsm::Handshake(handshake) => {
            let state = session.get_state();
            let collecting = match state {
                StateOfSession::InHandshake | StateOfSession::OutHandshake | StateOfSession::RepeatHandshake => true,
                _ => false,
            };
            if collecting && handshake.balance_epoch == session.get_epoch() {
                session.insert_handshake(handshake.metadata.sender_user_id, handshake.balance_epoch);
                EventDecision::ToFsm(Event::NewMessageHandshake)
            } else {
                EventDecision::Ignore
            }
        },
        EventFsm::Queue(queue) => {
            let collecting = match session.get_state() {
                StateOfSession::PhaseAlert | StateOfSession::PhaseData | StateOfSession::PhaseMonitor => true,
                _ => false,
            };
            if collecting && queue.queue_empty {
                session.insert_empty(queue.metadata.sender_user_id, queue.queue_empty);
                EventDecision::PhaseQuorum(session.get_total_empty())
            } else {
                EventDecision::Ignore
            }
        },
        EventFsm::QueueSafe(queue) => {
            let collecting = match session.get_state() {
                StateOfSession::SafeMode => true,
                _ => false,
            };
            if collecting && queue.queue_empty {
                session.insert_empty(queue.metadata.sender_user_id, queue.queue_empty);
                EventDecision::SafeModeQuorum(session.get_total_empty())
            } else {
                EventDecision::Ignore
            }
        },
        EventFsm::Connection(con) => match con {
            InternalEvent::LocalConnected => EventDecision::ToFsm(Event::LocalConnected),
            InternalEvent::LocalDisconnected => EventDecision::ToFsm(Event::LocalDisconnected),
            _ => EventDecision::Ignore,
        },
    }
}

// ---------------------------------------------------------------------------
// Heartbeat generator
// ---------------------------------------------------------------------------

/// An action for the heartbeat generator: starting a heartbeat sets the
/// cadence and arms the timer with its period; stopping one stops the timer
/// (the cadence stays); other actions are ignored.
pub fn beat_on_action(beat: &mut Beat, action: Action, settings: &ProtocolSettings) -> (r: Option<TimerOrder>)
    ensures
        match action {
            Action::SendHeartbeatMessagePhase => *final(beat) == Beat::BalanceMode
                && r == Some(TimerOrder::Init(settings.spec_time_between_heartbeats_balance_mode())),
            Action::SendHeartbeatMessageNormal => *final(beat) == Beat::Normal
                && r == Some(TimerOrder::Init(settings.spec_time_between_heartbeats_normal())),
            Action::SendHeartbeatMessageSafeMode => *final(beat) == Beat::SafeMode
                && r == Some(TimerOrder::Init(settings.spec_time_between_heartbeats_safe_mode())),
            Action::StopSendHeartbeatMessagePhase | Action::StopSendHeartbeatMessageSafeMode
                | Action::StopSendHeartbeatMessageNormal => *final(beat) == *old(beat) && r == Some(TimerOrder::Stop),
            _ => *final(beat) == *old(beat) && r is None,
        },
{
    match action {
        Action::SendHeartbeatMessagePhase => {
            *beat = Beat::BalanceMode;
            Some(TimerOrder::Init(settings.get_time_between_heartbeats_balance_mode()))
        },
        Action::SendHeartbeatMessageNormal => {
            *beat = Beat::Normal;
            Some(TimerOrder::Init(settings.get_time_between_heartbeats_normal()))
        },
        Action::SendHeartbeatMessageSafeMode => {
            *beat = Beat::SafeMode;
            Some(TimerOrder::Init(settings.get_time_between_heartbeats_safe_mode()))
        },
        Action::StopSendHeartbeatMessagePhase | Action::StopSendHeartbeatMessageSafeMode
        | Action::StopSendHeartbeatMessageNormal => Some(TimerOrder::Stop),
        _ => None,
    }
}

/// The heartbeat timer expired: a heartbeat is broadcast, and the timer is
/// armed again with the period of the cadence (not when idle).
pub fn beat_on_timeout(beat: Beat, settings: &ProtocolSettings, id_edge: &String) -> (r: (Heartbeat, Option<u64>))
    ensures
        is_broadcast(r.0.metadata, id_edge@),
        r.0.beat,
        r.1 == beat_period(beat, *settings),
{
    let heartbeat = send_heartbeat(id_edge);
    let period = match beat {
        Beat::BalanceMode => Some(settings.get_time_between_heartbeats_balance_mode()),
        Beat::Normal => Some(settings.get_time_between_heartbeats_normal()),
        Beat::SafeMode => Some(settings.get_time_between_heartbeats_safe_mode()),
        Beat::Idle => None,
    };
    (heartbeat, period)
}

// ---------------------------------------------------------------------------
// Transitions
// ---------------------------------------------------------------------------

/// Applies a transition of the machine: a valid one replaces the state and
/// hands out its actions; an invalid one leaves the state as it was.
pub fn handle_transition(transition: Transition, state: &mut FsmState) -> (r: Option<Vec<Action>>)
    ensures
        match transition.outcome() {
            Some((next, actions)) => {
                &&& *final(state) == next
                &&& r matches Some(v) && v@ == actions
            },
            None => *final(state) == *old(state) && r is None,
        },
{
    match transition {
        Transition::Valid(t) => {
            *state = t.get_change_state();
            Some(t.get_actions())
        },
        Transition::Invalid(_) => None,
    }
}

} // verus!
