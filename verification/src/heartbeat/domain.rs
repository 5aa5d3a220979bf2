//! State machine that watches the heartbeats of the central server.
//!
//! The machine is pure: it evaluates `Heartbeat` and `Timeout` events and returns
//! the next state plus the actions the runtime must perform.
//!
//! Life cycle: `StartingWait` (waiting for a beat) -> `ItsAlive` (the server
//! answered) -> `NotHeartbeatYet` (one beat missed) -> `DeadServer` (the server is
//! declared disconnected).

use std::time::Duration;
use vstd::prelude::*;
use vstd::string::*;

verus! {

/// Internal states of the heartbeat monitor.
#[derive(Debug, Clone, Copy, PartialEq, Eq, Structural)]
pub enum State {
    /// Waiting for the first heartbeat, or restarting the cycle.
    StartingWait,
    /// The server is sending heartbeats.
    ItsAlive,
    /// The server was declared dead after repeated misses.
    DeadServer,
    /// One timer expired without a heartbeat; not yet declared dead.
    NotHeartbeatYet,
}

/// Connection status of the server.
#[derive(Debug, Clone, Copy, PartialEq, Eq, Structural)]
pub enum Status {
    Disconnected,
    Connected,
}

/// State of the heartbeat monitor.
#[derive(Debug, Clone, Copy, PartialEq, Eq, Structural)]
pub struct FsmHeartbeat {
    /// Current internal state.
    pub state: State,
    /// Previously reported connection status.
    pub old_status: Status,
    /// Current connection status.
    pub status: Status,
}

/// Events that feed the monitor.
#[derive(Debug)]
pub enum Event {
    /// A heartbeat arrived from the server.
    Heartbeat,
    /// The watchdog timer expired.
    Timeout,
    /// Internal command: start the timer.
    InitTimer(Duration),
    /// Internal command: stop the timer.
    StopTimer,
}

/// Side effects requested by the monitor.
#[derive(Debug, Clone, Copy, PartialEq, Eq, Structural)]
pub enum Action {
    /// Report the status change (previous, current); the runtime sends it only
    /// when both differ.
    SendStatusConditional(Status, Status),
    /// A new state was entered.
    OnEntry(State),
    /// Nothing to do.
    Nothing,
    /// Stop the watchdog timer.
    StopTimer,
}

/// Result of a valid transition.
pub struct TransitionValid {
    change_state: FsmHeartbeat,
    action: Vec<Action>,
}

/// Result of a rejected transition.
pub struct TransitionInvalid {
    invalid: String,
}

pub enum Transition {
    Valid(TransitionValid),
    Invalid(TransitionInvalid),
}

impl TransitionValid {
    pub closed spec fn spec_change_state(&self) -> FsmHeartbeat {
        self.change_state
    }

    pub closed spec fn spec_actions(&self) -> Seq<Action> {
        self.action@
    }

    pub fn get_change_state(&self) -> (r: FsmHeartbeat)
        ensures
            r == self.spec_change_state(),
    {
        self.change_state
    }

    pub fn get_actions(&self) -> (r: Vec<Action>)
        ensures
            r@ == self.spec_actions(),
    {
        let mut out: Vec<Action> = Vec::new();
        let mut i: usize = 0;
        while i < self.action.len()
            invariant
                i <= self.action@.len(),
                out@ == self.action@.subrange(0, i as int),
            decreases self.action@.len() - i,
        {
            out.push(self.action[i]);
            i = i + 1;
        }
        out
    }
}

impl TransitionInvalid {
    pub closed spec fn spec_invalid(&self) -> Seq<char> {
        self.invalid@
    }

    pub fn get_invalid(&self) -> (r: &str)
        ensures
            r@ == self.spec_invalid(),
    {
        self.invalid.as_str()
    }
}

impl Transition {
    /// The state/actions pair of a valid transition, `None` for an invalid one.
    pub open spec fn outcome(&self) -> Option<(FsmHeartbeat, Seq<Action>)> {
        match self {
            Transition::Valid(t) => Some((t.spec_change_state(), t.spec_actions())),
            Transition::Invalid(_) => None,
        }
    }

    /// Message of an invalid transition (empty for a valid one).
    pub open spec fn message(&self) -> Seq<char> {
        match self {
            Transition::Valid(_) => Seq::empty(),
            Transition::Invalid(i) => i.spec_invalid(),
        }
    }
}

// ---------------------------------------------------------------------------
// Specification
// ---------------------------------------------------------------------------

impl FsmHeartbeat {
    pub open spec fn spec_new() -> FsmHeartbeat {
        FsmHeartbeat { state: State::StartingWait, old_status: Status::Disconnected, status: Status::Disconnected }
    }

    /// The remembered status agrees with the current status.
    pub open spec fn statuses_agree(self) -> bool {
        self.old_status == self.status
    }
}

/// Transitions of the monitor before the entry action is added.
pub open spec fn spec_step_inner(s: FsmHeartbeat, e: Event) -> Option<(FsmHeartbeat, Seq<Action>)> {
    match (s.state, e) {
        (State::StartingWait, Event::Heartbeat) => Some((
            FsmHeartbeat { state: State::ItsAlive, old_status: Status::Connected, status: Status::Connected },
            seq![Action::SendStatusConditional(s.old_status, Status::Connected), Action::StopTimer],
        )),
        (State::StartingWait, Event::Timeout) =>
            Some((FsmHeartbeat { state: State::NotHeartbeatYet, ..s }, Seq::empty())),
        (State::ItsAlive, Event::Heartbeat) =>
            Some((FsmHeartbeat { state: State::StartingWait, ..s }, seq![Action::StopTimer])),
        (State::ItsAlive, Event::Timeout) =>
            Some((FsmHeartbeat { state: State::NotHeartbeatYet, ..s }, Seq::empty())),
        (State::NotHeartbeatYet, Event::Heartbeat) =>
            Some((FsmHeartbeat { state: State::StartingWait, ..s }, seq![Action::StopTimer])),
        (State::NotHeartbeatYet, Event::Timeout) => Some((
            FsmHeartbeat { state: State::DeadServer, old_status: Status::Disconnected, status: Status::Disconnected },
            seq![Action::SendStatusConditional(s.old_status, Status::Disconnected)],
        )),
        (State::DeadServer, Event::Heartbeat) =>
            Some((FsmHeartbeat { state: State::StartingWait, ..s }, Seq::empty())),
        _ => None,
    }
}

/// The entry action owed by a change from `old` to `new`.
pub open spec fn spec_on_entry(old: FsmHeartbeat, new: FsmHeartbeat) -> Action {
    if old.state != new.state { Action::OnEntry(new.state) } else { Action::Nothing }
}

/// The full transition: the inner transition plus the entry action, if any.
pub open spec fn spec_step(s: FsmHeartbeat, e: Event) -> Option<(FsmHeartbeat, Seq<Action>)> {
    match spec_step_inner(s, e) {
        Some((next, actions)) => Some((
            next,
            if spec_on_entry(s, next) != Action::Nothing { actions.push(spec_on_entry(s, next)) } else { actions },
        )),
        None => None,
    }
}

/// Message of every invalid transition.
pub open spec fn invalid_message() -> Seq<char> {
    "Invalid state"@
}

// ---------------------------------------------------------------------------
// Implementation
// ---------------------------------------------------------------------------

fn valid(change_state: FsmHeartbeat, action: Vec<Action>) -> (r: Transition)
    ensures
        r.outcome() == Some((change_state, action@)),
{
    Transition::Valid(TransitionValid { change_state, action })
}

impl FsmHeartbeat {
    /// Initial monitor: waiting, disconnected.
    pub fn new() -> (r: Self)
        ensures
            r == FsmHeartbeat::spec_new(),
            r.statuses_agree(),
    {
        Self { state: State::StartingWait, old_status: Status::Disconnected, status: Status::Disconnected }
    }

    /// Dispatch of `(state, event)` to the single transitions.
    pub fn step_inner(&self, event: Event) -> (r: Transition)
        ensures
            r.outcome() == spec_step_inner(*self, event),
            r.outcome() is None ==> r.message() == invalid_message(),
    {
        match (self.state, event) {
            (State::StartingWait, Event::Heartbeat) => state_starting_wait_event_heartbeat(*self),
            (State::StartingWait, Event::Timeout) => state_starting_wait_event_timeout(*self),
            (State::ItsAlive, Event::Heartbeat) => state_its_alive_event_heartbeat(*self),
            (State::ItsAlive, Event::Timeout) => state_its_alive_event_timeout(*self),
            (State::NotHeartbeatYet, Event::Heartbeat) => state_not_heartbeat_yet_event_heartbeat(*self),
            (State::NotHeartbeatYet, Event::Timeout) => state_not_heartbeat_yet_event_timeout(*self),
            (State::DeadServer, Event::Heartbeat) => state_dead_server_event_heartbeat(*self),
            _ => invalid(),
        }
    }

    /// Applies `event` and appends the entry action when the state changed.
    pub fn step(&self, event: Event) -> (r: Transition)
        ensures
            r.outcome() == spec_step(*self, event),
            r.outcome() is None ==> r.message() == invalid_message(),
    {
        let transition = self.step_inner(event);
        match transition {
            Transition::Valid(valid_t) => {
                let TransitionValid { change_state, action } = valid_t;
                let mut action = action;
                let entry_action = compute_on_entry(self, &change_state);
                if entry_action != Action::Nothing {
                    action.push(entry_action);
                }
                valid(change_state, action)
            },
            invalid => invalid,
        }
    }
}

// --- Single transitions ---

/// StartingWait + Heartbeat -> ItsAlive: the connection is established.
fn state_starting_wait_event_heartbeat(next_fsm: FsmHeartbeat) -> (r: Transition)
    ensures
        r.outcome() == Some((
            FsmHeartbeat { state: State::ItsAlive, old_status: Status::Connected, status: Status::Connected },
            seq![Action::SendStatusConditional(next_fsm.old_status, Status::Connected), Action::StopTimer],
        )),
{
    let old_status = next_fsm.old_status;
    let mut next_fsm = next_fsm;
    next_fsm.state = State::ItsAlive;
    next_fsm.old_status = Status::Connected;
    next_fsm.status = Status::Connected;
    let mut action = Vec::new();
    action.push(Action::SendStatusConditional(old_status, next_fsm.status));
    action.push(Action::StopTimer);
    proof {
        assert(action@ =~= seq![Action::SendStatusConditional(old_status, Status::Connected), Action::StopTimer]);
    }
    valid(next_fsm, action)
}

/// StartingWait + Timeout -> NotHeartbeatYet: first miss.
fn state_starting_wait_event_timeout(next_fsm: FsmHeartbeat) -> (r: Transition)
    ensures
        r.outcome() == Some((FsmHeartbeat { state: State::NotHeartbeatYet, ..next_fsm }, Seq::<Action>::empty())),
{
    let mut next_fsm = next_fsm;
    next_fsm.state = State::NotHeartbeatYet;
    valid(next_fsm, Vec::new())
}

/// A single `StopTimer` action.
fn stop_timer_only() -> (r: Vec<Action>)
    ensures
        r@ == seq![Action::StopTimer],
{
    let mut action = Vec::new();
    action.push(Action::StopTimer);
    proof {
        assert(action@ =~= seq![Action::StopTimer]);
    }
    action
}

/// ItsAlive + Heartbeat -> StartingWait: restart the waiting cycle.
fn state_its_alive_event_heartbeat(next_fsm: FsmHeartbeat) -> (r: Transition)
    ensures
        r.outcome() == Some((FsmHeartbeat { state: State::StartingWait, ..next_fsm }, seq![Action::StopTimer])),
{
    let mut next_fsm = next_fsm;
    next_fsm.state = State::StartingWait;
    valid(next_fsm, stop_timer_only())
}

/// ItsAlive + Timeout -> NotHeartbeatYet: a beat is late.
fn state_its_alive_event_timeout(next_fsm: FsmHeartbeat) -> (r: Transition)
    ensures
        r.outcome() == Some((FsmHeartbeat { state: State::NotHeartbeatYet, ..next_fsm }, Seq::<Action>::empty())),
{
    let mut next_fsm = next_fsm;
    next_fsm.state = State::NotHeartbeatYet;
    valid(next_fsm, Vec::new())
}

/// NotHeartbeatYet + Heartbeat -> StartingWait: recovered in time.
fn state_not_heartbeat_yet_event_heartbeat(next_fsm: FsmHeartbeat) -> (r: Transition)
    ensures
        r.outcome() == Some((FsmHeartbeat { state: State::StartingWait, ..next_fsm }, seq![Action::StopTimer])),
{
    let mut next_fsm = next_fsm;
    next_fsm.state = State::StartingWait;
    valid(next_fsm, stop_timer_only())
}

/// NotHeartbeatYet + Timeout -> DeadServer: the server is disconnected.
fn state_not_heartbeat_yet_event_timeout(next_fsm: FsmHeartbeat) -> (r: Transition)
    ensures
        r.outcome() == Some((
            FsmHeartbeat { state: State::DeadServer, old_status: Status::Disconnected, status: Status::Disconnected },
            seq![Action::SendStatusConditional(next_fsm.old_status, Status::Disconnected)],
        )),
{
    let old_status = next_fsm.old_status;
    let mut next_fsm = next_fsm;
    next_fsm.state = State::DeadServer;
    next_fsm.old_status = Status::Disconnected;
    next_fsm.status = Status::Disconnected;
    let mut action = Vec::new();
    action.push(Action::SendStatusConditional(old_status, next_fsm.status));
    proof {
        assert(action@ =~= seq![Action::SendStatusConditional(old_status, Status::Disconnected)]);
    }
    valid(next_fsm, action)
}

/// DeadServer + Heartbeat -> StartingWait: the server came back.
fn state_dead_server_event_heartbeat(next_fsm: FsmHeartbeat) -> (r: Transition)
    ensures
        r.outcome() == Some((FsmHeartbeat { state: State::StartingWait, ..next_fsm }, Seq::<Action>::empty())),
{
    let mut next_fsm = next_fsm;
    next_fsm.state = State::StartingWait;
    valid(next_fsm, Vec::new())
}

/// Generic invalid transition.
fn invalid() -> (r: Transition)
    ensures
        r.outcome() is None,
        r.message() == invalid_message(),
{
    let invalid = TransitionInvalid { invalid: String::from_str("Invalid state") };
    Transition::Invalid(invalid)
}

/// Entry action: `OnEntry(new state)` when the state changed, `Nothing` otherwise.
pub fn compute_on_entry(old: &FsmHeartbeat, new: &FsmHeartbeat) -> (r: Action)
    ensures
        r == spec_on_entry(*old, *new),
{
    if old.state != new.state {
        return Action::OnEntry(new.state);
    }
    Action::Nothing
}

// ---------------------------------------------------------------------------
// Laws
// ---------------------------------------------------------------------------

/// The remembered status and the current status agree after every valid
/// transition from a state where they agree (they start equal in `new`).
pub proof fn lemma_statuses_stay_in_agreement(s: FsmHeartbeat, e: Event)
    requires
        s.statuses_agree(),
        spec_step(s, e) is Some,
    ensures
        spec_step(s, e).unwrap().0.statuses_agree(),
{
}

/// A heartbeat from the server is accepted in every state.
pub proof fn lemma_heartbeat_always_accepted(s: FsmHeartbeat)
    ensures
        spec_step(s, Event::Heartbeat) is Some,
{
}

/// Timer commands are never accepted as monitor events.
pub proof fn lemma_timer_commands_rejected(s: FsmHeartbeat, d: Duration)
    ensures
        spec_step(s, Event::InitTimer(d)) is None,
        spec_step(s, Event::StopTimer) is None,
{
}

/// The connection status changes only in two places: the first heartbeat after
/// `StartingWait` makes it `Connected`, and a second consecutive timeout (from
/// `NotHeartbeatYet`) makes it `Disconnected`.
pub proof fn lemma_status_changes_only_on_confirmation(s: FsmHeartbeat, e: Event)
    requires
        spec_step(s, e) is Some,
        spec_step(s, e).unwrap().0.status != s.status,
    ensures
        (s.state == State::StartingWait && e is Heartbeat && spec_step(s, e).unwrap().0.status == Status::Connected)
        || (s.state == State::NotHeartbeatYet && e is Timeout
            && spec_step(s, e).unwrap().0.status == Status::Disconnected),
{
}

/// From `ItsAlive`, a single timeout never declares the server dead: two
/// consecutive timeouts are needed, and the second one reports the change from
/// `Connected` to `Disconnected` and enters `DeadServer`.
pub proof fn lemma_two_timeouts_declare_dead(s: FsmHeartbeat)
    requires
        s.state == State::ItsAlive,
        s.old_status == Status::Connected,
        s.status == Status::Connected,
    ensures
        spec_step(s, Event::Timeout).unwrap().0.status == Status::Connected,
        spec_step(spec_step(s, Event::Timeout).unwrap().0, Event::Timeout) == Some((
            FsmHeartbeat { state: State::DeadServer, old_status: Status::Disconnected, status: Status::Disconnected },
            seq![
                Action::SendStatusConditional(Status::Connected, Status::Disconnected),
                Action::OnEntry(State::DeadServer),
            ],
        )),
{
    assert(seq![Action::SendStatusConditional(Status::Connected, Status::Disconnected)].push(
        Action::OnEntry(State::DeadServer))
        =~= seq![
            Action::SendStatusConditional(Status::Connected, Status::Disconnected),
            Action::OnEntry(State::DeadServer),
        ]);
}

} // verus!
