//! Decisions of the hub firmware update session.
//!
//! A session updates the hubs of one network one at a time: it asks the hub at
//! `index`, waits for its acknowledgement or for the watchdog timeout, records
//! the result and moves to the next hub; after the last hub it reports how many
//! hubs ended up updated. The runtime performs the returned effects.

use crate::second_layer::message::domain::{
    FirmwareEdgeResult, FirmwareHubAck, Metadata, UpdateEdgeFirmware, UpdateFirmwareRequestHub, UpdateHubFirmware,
};
use crate::system::text::{trim, trim_str};
use crate::system::clock::now_timestamp;
use crate::third_layer::network::domain::NetworkManager;
use vstd::prelude::*;
use vstd::string::*;

verus! {

/// Commands received by the hub update task.
#[derive(Debug)]
pub enum CommandToHubOta {
    /// The server asks to update the hubs of a network.
    Request(UpdateHubFirmware),
    /// A hub reports the result of its update.
    Response(FirmwareHubAck),
}

/// Whether a session is running.
#[derive(Debug, Clone, Copy, PartialEq, Eq, Structural)]
pub enum OtaState {
    Sleeping,
    Working,
}

/// Update progress of one hub.
#[derive(Debug, Clone)]
pub struct HubFirmwareStatus {
    pub id: String,
    pub is_updated: bool,
    pub success: bool,
}

/// Side effects requested by the session.
#[derive(Debug)]
pub enum OtaEffect {
    /// Publish this update request to its hub.
    SendToHub(UpdateFirmwareRequestHub),
    /// Arm the watchdog timer.
    InitTimer,
    /// Stop the watchdog timer.
    StopTimer,
    /// Report to the server that the session could not run.
    OutcomeError { network: String, error: String },
    /// Report to the server that `ok` of `total` hubs were updated.
    Outcome { network: String, ok: usize, total: usize },
}

/// State of the hub update task.
#[derive(Debug)]
pub struct HubOtaSession {
    pub state: OtaState,
    pub process_vector: Vec<HubFirmwareStatus>,
    pub index: usize,
    pub version: String,
    pub network: String,
}

/// Number of hubs whose update is reported as updated or successful.
pub open spec fn ok_count(statuses: Seq<HubFirmwareStatus>) -> nat
    decreases statuses.len(),
{
    if statuses.len() == 0 {
        0
    } else {
        ok_count(statuses.drop_last()) + if statuses.last().is_updated || statuses.last().success { 1nat } else { 0nat }
    }
}

/// A hub that reported an update or a success.
pub open spec fn reported_update() -> spec_fn(HubFirmwareStatus) -> bool {
    |s: HubFirmwareStatus| s.is_updated || s.success
}

/// Every hub of a session counts, once: the outcome counts exactly the hubs
/// that reported an update or a success, and one more hub adds one to the
/// count exactly when it reported an update or a success.
pub proof fn law_outcome_counts_every_updated_hub(statuses: Seq<HubFirmwareStatus>, x: HubFirmwareStatus)
    ensures
        ok_count(statuses) == statuses.filter(reported_update()).len(),
        ok_count(statuses.push(x)) == ok_count(statuses) + if x.is_updated || x.success { 1int } else { 0int },
    decreases statuses.len(),
{
    reveal(Seq::filter);
    assert(statuses.push(x).drop_last() =~= statuses);
    if statuses.len() > 0 {
        law_outcome_counts_every_updated_hub(statuses.drop_last(), x);
    }
}

/// The outcome of a session never reports more updated hubs than the
/// session asked.
pub proof fn law_outcome_never_exceeds_total(statuses: Seq<HubFirmwareStatus>)
    ensures
        ok_count(statuses) <= statuses.len(),
    decreases statuses.len(),
{
    if statuses.len() > 0 {
        law_outcome_never_exceeds_total(statuses.drop_last());
    }
}

/// The update request owed to the hub at `index`.
pub open spec fn is_request_for(m: UpdateFirmwareRequestHub, id_edge: Seq<char>, s: HubOtaSession, index: int) -> bool {
    &&& m.metadata.sender_user_id@ == id_edge
    &&& m.metadata.destination_id@ == s.process_vector@[index].id@
    &&& m.network@ == s.network@
    &&& m.version@ == s.version@
}

/// Message of the error outcome sent when the network has no hub.
pub open spec fn no_hubs_message(network: Seq<char>) -> Seq<char> {
    "No hay Hubs en la red "@ + network + ". Nada para actualizar!"@
}

/// Message of the error outcome sent when the firmware version is unknown.
pub open spec fn no_version_message() -> Seq<char> {
    "No se pudo obtener la versión actual del firmware"@
}

impl HubOtaSession {
    /// Session invariant: the index never passes the end, and a running
    /// session always has a hub to wait for.
    pub open spec fn well_formed(&self) -> bool {
        &&& self.index <= self.process_vector@.len()
        &&& self.state == OtaState::Working ==> self.index < self.process_vector@.len()
    }

    /// An idle session with no hub and empty version and network.
    pub fn new() -> (r: Self)
        ensures
            r.well_formed(),
            r.state == OtaState::Sleeping,
            r.process_vector@.len() == 0,
            r.index == 0,
            r.version@ == Seq::<char>::empty(),
            r.network@ == Seq::<char>::empty(),
    {
        HubOtaSession {
            state: OtaState::Sleeping,
            process_vector: Vec::new(),
            index: 0,
            version: String::new(),
            network: String::new(),
        }
    }

    /// Starts a session for `update.network`. `version` is the firmware
    /// version fetched by the runtime (`None` when it could not be fetched).
    /// Without a version the session goes back to sleep and reports the error
    /// under the previous network; without hubs it reports that nothing is to
    /// be updated; otherwise it asks the first hub and arms the timer.
    pub fn on_request(
        &mut self,
        update: &UpdateHubFirmware,
        version: Option<String>,
        manager: &NetworkManager,
        id_edge: &String,
    ) -> (effects: Vec<OtaEffect>)
        requires
            manager.well_formed(),
        ensures
            final(self).well_formed(),
            final(self).index == 0,
            version is None ==> {
                &&& final(self).state == OtaState::Sleeping
                &&& final(self).process_vector@.len() == 0
                &&& final(self).network@ == old(self).network@
                &&& effects@.len() == 1
                &&& effects@[0] matches OtaEffect::OutcomeError { network, error }
                    && network@ == old(self).network@ && error@ == no_version_message()
            },
            version matches Some(v) ==> {
                &&& final(self).version@ == v@
                &&& final(self).network@ == update.network@
                &&& final(self).process_vector@.len() == manager.hubs_of(update.network@).len()
                &&& forall|j: int| 0 <= j < final(self).process_vector@.len() ==> {
                    &&& (#[trigger] final(self).process_vector@[j]).id@ == manager.hubs_of(update.network@)[j].id@
                    &&& !final(self).process_vector@[j].is_updated
                    &&& !final(self).process_vector@[j].success
                }
                &&& if manager.hubs_of(update.network@).len() == 0 {
                    &&& final(self).state == OtaState::Sleeping
                    &&& effects@.len() == 1
                    &&& effects@[0] matches OtaEffect::OutcomeError { network, error }
                        && network@ == update.network@ && error@ == no_hubs_message(update.network@)
                } else {
                    &&& final(self).state == OtaState::Working
                    &&& effects@.len() == 2
                    &&& effects@[0] matches OtaEffect::SendToHub(m) && is_request_for(m, id_edge@, *final(self), 0)
                    &&& effects@[1] is InitTimer
                }
            },
    {
        self.state = OtaState::Working;
        self.process_vector = Vec::new();
        self.index = 0;
        let mut effects: Vec<OtaEffect> = Vec::new();
        match version {
            Some(v) => {
                self.version = v;
                self.network = update.network.clone();
                let vec_of_ids = manager.get_all_hub_ids_by_network(self.network.as_str());
                if vec_of_ids.len() == 0 {
                    self.state = OtaState::Sleeping;
                    let mut error = String::from_str("No hay Hubs en la red ");
                    error.append(self.network.as_str());
                    error.append(". Nada para actualizar!");
                    effects.push(OtaEffect::OutcomeError { network: self.network.clone(), error });
                } else {
                    let ghost version_view = self.version@;
                    let mut j: usize = 0;
                    while j < vec_of_ids.len()
                        invariant
                            j <= vec_of_ids@.len(),
                            self.version@ == version_view,
                            self.network@ == update.network@,
                            self.index == 0,
                            self.state == OtaState::Working,
                            self.process_vector@.len() == j,
                            forall|k: int| 0 <= k < j ==> {
                                &&& (#[trigger] self.process_vector@[k]).id@ == vec_of_ids@[k]@
                                &&& !self.process_vector@[k].is_updated
                                &&& !self.process_vector@[k].success
                            },
                        decreases vec_of_ids@.len() - j,
                    {
                        let hub = HubFirmwareStatus { id: vec_of_ids[j].clone(), is_updated: false, success: false };
                        self.process_vector.push(hub);
                        j = j + 1;
                    }
                    let msg = generate_message_to_hub(&self.process_vector, self.index, id_edge, &self.network, &self.version);
                    effects.push(OtaEffect::SendToHub(msg));
                    effects.push(OtaEffect::InitTimer);
                }
            },
            None => {
                self.state = OtaState::Sleeping;
                let error = String::from_str("No se pudo obtener la versión actual del firmware");
                effects.push(OtaEffect::OutcomeError { network: self.network.clone(), error });
            },
        }
        effects
    }

    /// Records the result of the hub being updated and moves to the next hub,
    /// or finishes the session. Acknowledgements from any other hub, or
    /// received while no session runs, are ignored.
    pub fn on_response(&mut self, firmware: &FirmwareHubAck, id_edge: &String) -> (effects: Vec<OtaEffect>)
        requires
            old(self).well_formed(),
        ensures
            final(self).well_formed(),
            if old(self).state == OtaState::Working
                && firmware.metadata.sender_user_id@ == old(self).process_vector@[old(self).index as int].id@ {
                &&& final(self).index == old(self).index + 1
                &&& final(self).process_vector@ == old(self).process_vector@.update(
                    old(self).index as int,
                    HubFirmwareStatus {
                        is_updated: firmware.is_updated,
                        success: firmware.success,
                        ..old(self).process_vector@[old(self).index as int]
                    },
                )
                &&& final(self).network@ == old(self).network@
                &&& final(self).version@ == old(self).version@
                &&& effects@.len() >= 1
                &&& effects@[0] is StopTimer
                &&& old(self).advance_effects(*final(self), effects@, id_edge@)
            } else {
                &&& final(self).state == old(self).state
                &&& final(self).index == old(self).index
                &&& final(self).process_vector@ == old(self).process_vector@
                &&& effects@.len() == 0
            },
    {
        let mut effects: Vec<OtaEffect> = Vec::new();
        if self.state == OtaState::Working {
            if self.index < self.process_vector.len() {
                if firmware.metadata.sender_user_id == self.process_vector[self.index].id {
                    effects.push(OtaEffect::StopTimer);
                    self.record(firmware.is_updated, firmware.success);
                    self.advance(&mut effects, id_edge);
                }
            }
        }
        effects
    }

    /// The watchdog expired: the hub being updated is recorded as failed and
    /// the session moves to the next hub, or finishes.
    pub fn on_timeout(&mut self, id_edge: &String) -> (effects: Vec<OtaEffect>)
        requires
            old(self).well_formed(),
            old(self).index < old(self).process_vector@.len(),
        ensures
            final(self).well_formed(),
            final(self).index == old(self).index + 1,
            final(self).process_vector@ == old(self).process_vector@.update(
                old(self).index as int,
                HubFirmwareStatus { is_updated: false, success: false, ..old(self).process_vector@[old(self).index as int] },
            ),
            final(self).network@ == old(self).network@,
            final(self).version@ == old(self).version@,
            effects@.len() >= 1,
            effects@[0] is StopTimer,
            old(self).advance_effects(*final(self), effects@, id_edge@),
    {
        let mut effects: Vec<OtaEffect> = Vec::new();
        effects.push(OtaEffect::StopTimer);
        self.record(false, false);
        self.advance(&mut effects, id_edge);
        effects
    }

    /// What follows a recorded result, given the session `after` it: the next
    /// hub is asked and the timer armed, or the session sleeps and the outcome
    /// is reported.
    pub open spec fn advance_effects(&self, after: HubOtaSession, effects: Seq<OtaEffect>, id_edge: Seq<char>) -> bool {
        if after.index < after.process_vector@.len() {
            &&& after.state == OtaState::Working
            &&& effects.len() == 3
            &&& effects[1] matches OtaEffect::SendToHub(m) && is_request_for(m, id_edge, after, after.index as int)
            &&& effects[2] is InitTimer
        } else {
            &&& after.state == OtaState::Sleeping
            &&& effects.len() == 2
            &&& effects[1] matches OtaEffect::Outcome { network, ok, total }
                && network@ == after.network@ && ok == ok_count(after.process_vector@)
                && total == after.process_vector@.len()
        }
    }

    /// Stores the result of the hub at `index` and moves the index forward.
    fn record(&mut self, is_updated: bool, success: bool)
        requires
            old(self).index < old(self).process_vector@.len(),
        ensures
            final(self).index == old(self).index + 1,
            final(self).process_vector@ == old(self).process_vector@.update(
                old(self).index as int,
                HubFirmwareStatus { is_updated, success, ..old(self).process_vector@[old(self).index as int] },
            ),
            final(self).state == old(self).state,
            final(self).network == old(self).network,
            final(self).version == old(self).version,
    {
        let i = self.index;
        let n = self.process_vector.len();
        let mut status = self.process_vector.remove(i);
        status.is_updated = is_updated;
        status.success = success;
        self.process_vector.insert(i, status);
        proof {
            assert(self.process_vector@ =~= old(self).process_vector@.update(
                i as int,
                HubFirmwareStatus { is_updated, success, ..old(self).process_vector@[i as int] },
            ));
        }
        self.index = i + 1;
    }

    /// Asks the next hub, or closes the session with its outcome.
    fn advance(&mut self, effects: &mut Vec<OtaEffect>, id_edge: &String)
        requires
            old(self).index <= old(self).process_vector@.len(),
            old(effects)@.len() == 1,
        ensures
            final(self).well_formed(),
            final(self).index == old(self).index,
            final(self).process_vector@ == old(self).process_vector@,
            final(self).network == old(self).network,
            final(self).version == old(self).version,
            final(effects)@[0] == old(effects)@[0],
            old(self).advance_effects(*final(self), final(effects)@, id_edge@),
    {
        if self.index < self.process_vector.len() {
            self.state = OtaState::Working;
            let msg = generate_message_to_hub(&self.process_vector, self.index, id_edge, &self.network, &self.version);
            effects.push(OtaEffect::SendToHub(msg));
            effects.push(OtaEffect::InitTimer);
        } else {
            self.state = OtaState::Sleeping;
            let (ok, total) = generate_outcome(&self.process_vector);
            effects.push(OtaEffect::Outcome { network: self.network.clone(), ok, total });
        }
    }
}

/// Update request for the hub at `index`: from the gateway to that hub, with
/// the session's network and version.
fn generate_message_to_hub(
    process_vector: &Vec<HubFirmwareStatus>,
    index: usize,
    id_edge: &String,
    network: &String,
    version: &String,
) -> (r: UpdateFirmwareRequestHub)
    requires
        index < process_vector@.len(),
    ensures
        r.metadata.sender_user_id@ == id_edge@,
        r.metadata.destination_id@ == process_vector@[index as int].id@,
        r.network@ == network@,
        r.version@ == version@,
{
    let hub_id = process_vector[index].id.clone();
    let timestamp = now_timestamp();
    let metadata = Metadata { sender_user_id: id_edge.clone(), destination_id: hub_id, timestamp };
    UpdateFirmwareRequestHub { metadata, network: network.clone(), version: version.clone() }
}

/// Number of hubs reported as updated or successful, and number of hubs.
pub fn generate_outcome(process_vector: &Vec<HubFirmwareStatus>) -> (r: (usize, usize))
    ensures
        r.0 == ok_count(process_vector@),
        r.0 == process_vector@.filter(reported_update()).len(),
        r.1 == process_vector@.len(),
        r.0 <= r.1,
{
    let total = process_vector.len();
    let mut counter: usize = 0;
    let mut i: usize = 0;
    while i < total
        invariant
            total == process_vector@.len(),
            i <= total,
            counter == ok_count(process_vector@.subrange(0, i as int)),
            counter <= i,
        decreases total - i,
    {
        proof {
            assert(process_vector@.subrange(0, i as int + 1).drop_last() =~= process_vector@.subrange(0, i as int));
        }
        if process_vector[i].is_updated || process_vector[i].success {
            counter = counter + 1;
        }
        i = i + 1;
    }
    proof {
        assert(process_vector@.subrange(0, total as int) =~= process_vector@);
        law_outcome_counts_every_updated_hub(process_vector@, arbitrary());
    }
    (counter, total)
}


// ---------------------------------------------------------------------------
// Firmware version and self-update
// ---------------------------------------------------------------------------

/// A version text without a leading `v`.
pub open spec fn strip_v(t: Seq<char>) -> Seq<char> {
    if t.len() > 0 && t[0] == 'v' { t.drop_first() } else { t }
}

/// The firmware version published in the release text: trimmed, without a
/// leading `v`.
pub fn clean_version(text: &str) -> (r: String)
    ensures
        r@ == strip_v(trim(text@)),
{
    let t = trim_str(text);
    let n = t.as_str().unicode_len();
    if n > 0 && t.as_str().get_char(0) == 'v' {
        let rest = String::from_str(t.as_str().substring_char(1, n));
        proof {
            assert(t@.subrange(1, n as int) =~= t@.drop_first());
        }
        rest
    } else {
        t
    }
}

/// Result of the gateway's self-update.
#[derive(Debug, Clone, Copy, PartialEq, Eq, Structural)]
pub enum EdgeUpdateOutcome {
    /// A newer release was installed.
    Updated,
    /// The running release is the latest.
    UpToDate,
    /// The update could not be checked or installed.
    Failed,
}

/// A self-update request is for this gateway only when addressed to it.
pub fn edge_update_accepted(update: &UpdateEdgeFirmware, id_edge: &String) -> (r: bool)
    ensures
        r == (update.metadata.destination_id@ == id_edge@),
{
    update.metadata.destination_id == *id_edge
}

/// Metadata of a firmware report of the gateway to the server (`server0`),
/// stamped now.
pub fn server_metadata(id_edge: &String) -> (r: Metadata)
    ensures
        r.sender_user_id@ == id_edge@,
        r.destination_id@ == "server0"@,
{
    Metadata { sender_user_id: id_edge.clone(), destination_id: String::from_str("server0"), timestamp: now_timestamp() }
}

/// Report to the server after a self-update (an error exactly when it
/// failed), and whether the gateway must restart to run the new release.
pub fn edge_update_result(id_edge: &String, outcome: EdgeUpdateOutcome) -> (r: (FirmwareEdgeResult, bool))
    ensures
        r.0.metadata.sender_user_id@ == id_edge@,
        r.0.metadata.destination_id@ == "server0"@,
        r.0.error == (outcome == EdgeUpdateOutcome::Failed),
        r.1 == (outcome == EdgeUpdateOutcome::Updated),
{
    let metadata = server_metadata(id_edge);
    let error = match outcome {
        EdgeUpdateOutcome::Failed => true,
        _ => false,
    };
    let restart = match outcome {
        EdgeUpdateOutcome::Updated => true,
        _ => false,
    };
    (FirmwareEdgeResult { metadata, error }, restart)
}

} // verus!
