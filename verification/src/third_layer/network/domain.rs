//! In-memory topology of the gateway: the logical networks, the hubs attached
//! to each network, and the MQTT topics derived from them.
//!
//! The manager keeps networks and hub groups in vectors whose identifiers are
//! unique (`well_formed`); its abstract contents are a map from network id to
//! network and, per network id, a set of hubs.

use crate::second_layer::database::domain::{HubRow, NetworkRow};
use crate::system::domain::System;
use vstd::prelude::*;
use vstd::string::*;

verus! {

/// An MQTT topic and its quality of service.
#[derive(Debug, Clone)]
pub struct Topic {
    pub topic: String,
    pub qos: u8,
}

impl Topic {
    pub fn new(topic: String, qos: u8) -> (r: Self)
        ensures
            r.topic@ == topic@,
            r.qos == qos,
    {
        Self { topic, qos }
    }
}

/// Configuration of a logical network with all its precomputed topics.
#[derive(Debug, Clone)]
pub struct Network {
    pub id_network: String,
    // Subscribed topics (wildcard `+` over the hubs of the network).
    pub topic_hub_state: Topic,
    pub topic_data: Topic,
    pub topic_alert_air: Topic,
    pub topic_alert_temp: Topic,
    pub topic_monitor: Topic,
    pub topic_hub_setting_ok: Topic,
    pub topic_hub_firmware_ok: Topic,
    pub topic_balance_mode_handshake: Topic,
    pub topic_setting: Topic,
    pub topic_queue_empty: Topic,
    pub topic_queue_empty_safe: Topic,
    // Published topics.
    pub topic_new_setting: Topic,
    pub topic_new_firmware: Topic,
    pub topic_setting_ok: Topic,
    /// Whether the network is being processed.
    pub active: bool,
}

/// Operation to apply on a network after a server message.
#[derive(Debug, Clone, Copy, PartialEq, Eq, Structural)]
pub enum NetworkAction {
    Delete,
    Update { before: bool, after: bool },
    Insert,
    Ignore,
}

/// Change of the network table to mirror in the database.
#[derive(Debug, PartialEq, Clone)]
pub enum NetworkChanged {
    Insert(NetworkRow),
    Update { data: NetworkRow, before: bool, after: bool },
    Delete { id: String },
}

/// Light in-memory record of a hub.
#[derive(Debug, Clone, Default, Hash, Eq, PartialEq)]
pub struct Hub {
    pub id: String,
    pub device_name: String,
}

/// The hubs registered under one network.
#[derive(Debug, Clone)]
pub struct HubGroup {
    pub id_network: String,
    pub hubs: Vec<Hub>,
}

/// In-memory cache of networks, hubs and global topics.
#[derive(Debug, Clone)]
pub struct NetworkManager {
    /// Networks, one per `id_network`.
    pub networks: Vec<Network>,
    /// Hub groups, one per network id.
    pub hubs: Vec<HubGroup>,
    // Global control topics.
    pub topic_handshake: Topic,
    pub topic_state: Topic,
    pub topic_heartbeat: Topic,
    pub topic_linkage_request: Topic,
    pub topic_linkage_ack: Topic,
}

// ---------------------------------------------------------------------------
// Specification helpers
// ---------------------------------------------------------------------------

/// Path of a topic of the gateway or of a network: `iot/<id><tail>`.
pub open spec fn topic_path(id: Seq<char>, tail: Seq<char>) -> Seq<char> {
    "iot/"@ + id + tail
}

/// Identity of a hub inside a network (the pair compared by the hub set).
pub open spec fn hub_key(h: Hub) -> (Seq<char>, Seq<char>) {
    (h.id@, h.device_name@)
}

/// No two hubs of a sequence have the same identifier.
pub open spec fn hubs_unique(hubs: Seq<Hub>) -> bool {
    forall|i: int, j: int| 0 <= i < j < hubs.len() ==> (#[trigger] hubs[i]).id@ != (#[trigger] hubs[j]).id@
}

/// Identities of the hubs of a sequence.
pub open spec fn keys_of(hubs: Seq<Hub>) -> Set<(Seq<char>, Seq<char>)> {
    Set::new(|k: (Seq<char>, Seq<char>)| exists|j: int| 0 <= j < hubs.len() && hub_key(#[trigger] hubs[j]) == k)
}

/// A set of hub identities after adding or updating the hub `key`: every
/// entry with the same hub identifier gives way to `key`.
pub open spec fn hub_set_with(s: Set<(Seq<char>, Seq<char>)>, key: (Seq<char>, Seq<char>)) -> Set<(Seq<char>, Seq<char>)> {
    s.filter(|k: (Seq<char>, Seq<char>)| k.0 != key.0).insert(key)
}

/// Number of hubs over all groups.
pub open spec fn sum_hubs(groups: Seq<HubGroup>) -> int
    decreases groups.len(),
{
    if groups.len() == 0 {
        0
    } else {
        sum_hubs(groups.drop_last()) + groups.last().hubs@.len()
    }
}

impl Network {
    /// The network's topics are those derived from its identifier.
    pub open spec fn topics_follow_id(&self) -> bool {
        let id = self.id_network@;
        &&& self.topic_hub_state.topic@ == topic_path(id, "/hub/+/hub_state"@) && self.topic_hub_state.qos == 0
        &&& self.topic_data.topic@ == topic_path(id, "/hub/+/data"@) && self.topic_data.qos == 0
        &&& self.topic_alert_air.topic@ == topic_path(id, "/hub/+/alert_air"@) && self.topic_alert_air.qos == 1
        &&& self.topic_alert_temp.topic@ == topic_path(id, "/hub/+/alert_temp"@) && self.topic_alert_temp.qos == 1
        &&& self.topic_monitor.topic@ == topic_path(id, "/hub/+/monitor"@) && self.topic_monitor.qos == 0
        &&& self.topic_hub_setting_ok.topic@ == topic_path(id, "/hub/+/hub_setting_ok"@)
            && self.topic_hub_setting_ok.qos == 0
        &&& self.topic_hub_firmware_ok.topic@ == topic_path(id, "/hub/+/hub_firmware_ok"@)
            && self.topic_hub_firmware_ok.qos == 2
        &&& self.topic_balance_mode_handshake.topic@ == topic_path(id, "/hub/+/balance_mode_handshake"@)
            && self.topic_balance_mode_handshake.qos == 0
        &&& self.topic_setting.topic@ == topic_path(id, "/hub/+/setting"@) && self.topic_setting.qos == 0
        &&& self.topic_new_setting.topic@ == topic_path(id, "/new_setting"@) && self.topic_new_setting.qos == 0
        &&& self.topic_new_firmware.topic@ == topic_path(id, "/new_firmware"@) && self.topic_new_firmware.qos == 2
        &&& self.topic_setting_ok.topic@ == topic_path(id, "/new_setting_ok"@) && self.topic_setting_ok.qos == 0
        &&& self.topic_queue_empty.topic@ == topic_path(id, "/hub/+/empty_queue"@) && self.topic_queue_empty.qos == 1
        &&& self.topic_queue_empty_safe.topic@ == topic_path(id, "/hub/+/empty_queue_safe"@)
            && self.topic_queue_empty_safe.qos == 1
    }
}

impl NetworkManager {
    /// Identifiers are unique: one network per id, one hub group per network
    /// id, and no hub identifier twice in a group.
    pub open spec fn well_formed(&self) -> bool {
        &&& forall|i: int, j: int|
            0 <= i < j < self.networks@.len() ==> (#[trigger] self.networks@[i]).id_network@
                != (#[trigger] self.networks@[j]).id_network@
        &&& forall|i: int, j: int|
            0 <= i < j < self.hubs@.len() ==> (#[trigger] self.hubs@[i]).id_network@
                != (#[trigger] self.hubs@[j]).id_network@
        &&& forall|g: int| 0 <= g < self.hubs@.len() ==> hubs_unique((#[trigger] self.hubs@[g]).hubs@)
    }

    /// A network with identifier `id` is registered.
    pub open spec fn has_network(&self, id: Seq<char>) -> bool {
        exists|i: int| 0 <= i < self.networks@.len() && (#[trigger] self.networks@[i]).id_network@ == id
    }

    /// The registered network with identifier `id` (meaningful when `has_network(id)`).
    pub open spec fn network_of(&self, id: Seq<char>) -> Network {
        self.networks@[choose|i: int| 0 <= i < self.networks@.len() && (#[trigger] self.networks@[i]).id_network@ == id]
    }

    /// Abstract view of the networks: identifier to network.
    pub open spec fn networks_view(&self) -> Map<Seq<char>, Network> {
        Map::new(|id: Seq<char>| self.has_network(id), |id: Seq<char>| self.network_of(id))
    }

    /// Abstract view of the `active` flags: identifier to flag.
    pub open spec fn active_view(&self) -> Map<Seq<char>, bool> {
        self.networks_view().map_values(|n: Network| n.active)
    }

    /// A hub group exists for network `id`.
    pub open spec fn has_group(&self, id: Seq<char>) -> bool {
        exists|g: int| 0 <= g < self.hubs@.len() && (#[trigger] self.hubs@[g]).id_network@ == id
    }

    /// The hubs registered under network `id` (empty when there is no group).
    pub open spec fn hubs_of(&self, id: Seq<char>) -> Seq<Hub> {
        if self.has_group(id) {
            self.hubs@[choose|g: int| 0 <= g < self.hubs@.len() && (#[trigger] self.hubs@[g]).id_network@ == id].hubs@
        } else {
            Seq::empty()
        }
    }

    /// The set of hub identities registered under network `id`.
    pub open spec fn hub_set(&self, id: Seq<char>) -> Set<(Seq<char>, Seq<char>)> {
        keys_of(self.hubs_of(id))
    }

    /// A hub with identifier `hub_id` is registered under network `id`.
    pub open spec fn group_has_hub(&self, id: Seq<char>, hub_id: Seq<char>) -> bool {
        exists|j: int| 0 <= j < self.hubs_of(id).len() && (#[trigger] self.hubs_of(id)[j]).id@ == hub_id
    }

    /// Total number of hubs over all networks.
    pub open spec fn total_hubs(&self) -> int {
        sum_hubs(self.hubs@)
    }

    /// The global topics are those derived from the gateway identifier.
    pub open spec fn global_topics_follow(&self, id_edge: Seq<char>) -> bool {
        &&& self.topic_handshake.topic@ == topic_path(id_edge, "/handshake"@) && self.topic_handshake.qos == 1
        &&& self.topic_state.topic@ == topic_path(id_edge, "/state"@) && self.topic_state.qos == 0
        &&& self.topic_heartbeat.topic@ == topic_path(id_edge, "/heartbeat"@) && self.topic_heartbeat.qos == 0
        &&& self.topic_linkage_request.topic@ == topic_path(id_edge, "/linkage_request"@)
            && self.topic_linkage_request.qos == 1
        &&& self.topic_linkage_ack.topic@ == topic_path(id_edge, "/linkage_ack"@) && self.topic_linkage_ack.qos == 1
    }

    /// The global topics of `self` and `other` are the same.
    pub open spec fn same_global_topics(&self, other: &NetworkManager) -> bool {
        &&& self.topic_handshake.topic@ == other.topic_handshake.topic@
        &&& self.topic_handshake.qos == other.topic_handshake.qos
        &&& self.topic_state.topic@ == other.topic_state.topic@
        &&& self.topic_state.qos == other.topic_state.qos
        &&& self.topic_heartbeat.topic@ == other.topic_heartbeat.topic@
        &&& self.topic_heartbeat.qos == other.topic_heartbeat.qos
        &&& self.topic_linkage_request.topic@ == other.topic_linkage_request.topic@
        &&& self.topic_linkage_request.qos == other.topic_linkage_request.qos
        &&& self.topic_linkage_ack.topic@ == other.topic_linkage_ack.topic@
        &&& self.topic_linkage_ack.qos == other.topic_linkage_ack.qos
    }
}

// ---------------------------------------------------------------------------
// Lemmas
// ---------------------------------------------------------------------------

/// With unique identifiers, the network chosen for the id at index `i` is the
/// one at index `i`.
proof fn lemma_network_at(m: &NetworkManager, i: int)
    requires
        m.well_formed(),
        0 <= i < m.networks@.len(),
    ensures
        m.has_network(m.networks@[i].id_network@),
        m.network_of(m.networks@[i].id_network@) == m.networks@[i],
{
    let id = m.networks@[i].id_network@;
    assert(m.has_network(id));
    let j = choose|j: int| 0 <= j < m.networks@.len() && (#[trigger] m.networks@[j]).id_network@ == id;
    if j < i {
        assert(m.networks@[j].id_network@ != m.networks@[i].id_network@);
    } else if i < j {
        assert(m.networks@[i].id_network@ != m.networks@[j].id_network@);
    }
}

/// With unique identifiers, the group chosen for the id at index `g` is the
/// one at index `g`.
proof fn lemma_group_at(m: &NetworkManager, g: int)
    requires
        m.well_formed(),
        0 <= g < m.hubs@.len(),
    ensures
        m.has_group(m.hubs@[g].id_network@),
        m.hubs_of(m.hubs@[g].id_network@) == m.hubs@[g].hubs@,
{
    let id = m.hubs@[g].id_network@;
    assert(m.has_group(id));
    let k = choose|k: int| 0 <= k < m.hubs@.len() && (#[trigger] m.hubs@[k]).id_network@ == id;
    if k < g {
        assert(m.hubs@[k].id_network@ != m.hubs@[g].id_network@);
    } else if g < k {
        assert(m.hubs@[g].id_network@ != m.hubs@[k].id_network@);
    }
}

/// Replacing the hub with the same identifier keeps identifiers unique and
/// updates the identities accordingly.
proof fn lemma_keys_update(hs: Seq<Hub>, p: int, hub: Hub)
    requires
        hubs_unique(hs),
        0 <= p < hs.len(),
        hs[p].id@ == hub.id@,
    ensures
        hubs_unique(hs.update(p, hub)),
        keys_of(hs.update(p, hub)) == hub_set_with(keys_of(hs), hub_key(hub)),
{
    let ns = hs.update(p, hub);
    assert forall|i: int, j: int| 0 <= i < j < ns.len() implies (#[trigger] ns[i]).id@ != (#[trigger] ns[j]).id@ by {
        assert(hs[i].id@ != hs[j].id@);
    }
    let target = hub_set_with(keys_of(hs), hub_key(hub));
    assert forall|k: (Seq<char>, Seq<char>)| #[trigger] keys_of(ns).contains(k) == target.contains(k) by {
        if keys_of(ns).contains(k) {
            let j = choose|j: int| 0 <= j < ns.len() && hub_key(#[trigger] ns[j]) == k;
            if j != p {
                assert(hub_key(hs[j]) == k);
                if j < p {
                    assert(hs[j].id@ != hs[p].id@);
                } else {
                    assert(hs[p].id@ != hs[j].id@);
                }
                assert(keys_of(hs).contains(k));
            }
        }
        if target.contains(k) {
            if k == hub_key(hub) {
                assert(hub_key(ns[p]) == k);
            } else {
                let j = choose|j: int| 0 <= j < hs.len() && hub_key(#[trigger] hs[j]) == k;
                assert(j != p);
                assert(hub_key(ns[j]) == k);
            }
        }
    }
    assert(keys_of(ns) =~= target);
}

/// Appending a hub with a new identifier keeps identifiers unique and adds
/// its identity.
proof fn lemma_keys_push(hs: Seq<Hub>, hub: Hub)
    requires
        hubs_unique(hs),
        forall|j: int| 0 <= j < hs.len() ==> (#[trigger] hs[j]).id@ != hub.id@,
    ensures
        hubs_unique(hs.push(hub)),
        keys_of(hs.push(hub)) == hub_set_with(keys_of(hs), hub_key(hub)),
{
    let ns = hs.push(hub);
    let n = hs.len() as int;
    assert forall|i: int, j: int| 0 <= i < j < ns.len() implies (#[trigger] ns[i]).id@ != (#[trigger] ns[j]).id@ by {
        if j == n {
            assert(hs[i].id@ != hub.id@);
        } else {
            assert(hs[i].id@ != hs[j].id@);
        }
    }
    let target = hub_set_with(keys_of(hs), hub_key(hub));
    assert forall|k: (Seq<char>, Seq<char>)| #[trigger] keys_of(ns).contains(k) == target.contains(k) by {
        if keys_of(ns).contains(k) {
            let j = choose|j: int| 0 <= j < ns.len() && hub_key(#[trigger] ns[j]) == k;
            if j < n {
                assert(hub_key(hs[j]) == k);
                assert(keys_of(hs).contains(k));
            }
        }
        if target.contains(k) {
            if k == hub_key(hub) {
                assert(hub_key(ns[n]) == k);
            } else {
                let j = choose|j: int| 0 <= j < hs.len() && hub_key(#[trigger] hs[j]) == k;
                assert(hub_key(ns[j]) == k);
            }
        }
    }
    assert(keys_of(ns) =~= target);
}

/// Replacing one group changes the hub total by the difference of sizes.
proof fn lemma_sum_hubs_update(groups: Seq<HubGroup>, g: int, x: HubGroup)
    requires
        0 <= g < groups.len(),
    ensures
        sum_hubs(groups.update(g, x)) == sum_hubs(groups) - groups[g].hubs@.len() + x.hubs@.len(),
    decreases groups.len(),
{
    if g == groups.len() - 1 {
        assert(groups.update(g, x).drop_last() =~= groups.drop_last());
    } else {
        lemma_sum_hubs_update(groups.drop_last(), g, x);
        assert(groups.update(g, x).drop_last() =~= groups.drop_last().update(g, x));
    }
}

/// Appending one group adds its size to the hub total.
proof fn lemma_sum_hubs_push(groups: Seq<HubGroup>, x: HubGroup)
    ensures
        sum_hubs(groups.push(x)) == sum_hubs(groups) + x.hubs@.len(),
{
    assert(groups.push(x).drop_last() =~= groups);
}

/// Every group size is at most the hub total.
proof fn lemma_sum_hubs_nonneg(groups: Seq<HubGroup>)
    ensures
        sum_hubs(groups) >= 0,
    decreases groups.len(),
{
    if groups.len() > 0 {
        lemma_sum_hubs_nonneg(groups.drop_last());
    }
}

/// A prefix of the groups holds at most the hub total.
proof fn lemma_sum_hubs_prefix_le(groups: Seq<HubGroup>, i: int)
    requires
        0 <= i <= groups.len(),
    ensures
        sum_hubs(groups.subrange(0, i)) <= sum_hubs(groups),
        i > 0 ==> sum_hubs(groups.subrange(0, i)) == sum_hubs(groups.subrange(0, i - 1)) + groups[i - 1].hubs@.len(),
    decreases groups.len() - i,
{
    if i > 0 {
        assert(groups.subrange(0, i).drop_last() =~= groups.subrange(0, i - 1));
    }
    if i < groups.len() {
        lemma_sum_hubs_prefix_le(groups, i + 1);
        assert(groups.subrange(0, i + 1).drop_last() =~= groups.subrange(0, i));
    } else {
        assert(groups.subrange(0, i) =~= groups);
    }
}

// ---------------------------------------------------------------------------
// Implementation
// ---------------------------------------------------------------------------

/// Builds `iot/<id><tail>` with the given QoS.
fn topic_for(id: &str, tail: &str, qos: u8) -> (r: Topic)
    ensures
        r.topic@ == topic_path(id@, tail@),
        r.qos == qos,
{
    let mut t = String::from_str("iot/");
    t.append(id);
    t.append(tail);
    Topic::new(t, qos)
}

impl Network {
    /// A network with all its topics derived from `id_network`; incoming topics
    /// use the `+` wildcard over the hubs.
    pub fn new(id_network: String, active: bool) -> (r: Self)
        ensures
            r.id_network@ == id_network@,
            r.active == active,
            r.topics_follow_id(),
    {
        let id = id_network.as_str();
        let topic_hub_state = topic_for(id, "/hub/+/hub_state", 0);
        let topic_data = topic_for(id, "/hub/+/data", 0);
        let topic_alert_air = topic_for(id, "/hub/+/alert_air", 1);
        let topic_alert_temp = topic_for(id, "/hub/+/alert_temp", 1);
        let topic_monitor = topic_for(id, "/hub/+/monitor", 0);
        let topic_hub_setting_ok = topic_for(id, "/hub/+/hub_setting_ok", 0);
        let topic_hub_firmware_ok = topic_for(id, "/hub/+/hub_firmware_ok", 2);
        let topic_balance_mode_handshake = topic_for(id, "/hub/+/balance_mode_handshake", 0);
        let topic_setting = topic_for(id, "/hub/+/setting", 0);
        let topic_new_setting = topic_for(id, "/new_setting", 0);
        let topic_new_firmware = topic_for(id, "/new_firmware", 2);
        let topic_setting_ok = topic_for(id, "/new_setting_ok", 0);
        let topic_queue_empty = topic_for(id, "/hub/+/empty_queue", 1);
        let topic_queue_empty_safe = topic_for(id, "/hub/+/empty_queue_safe", 1);
        Self {
            id_network,
            topic_hub_state,
            topic_data,
            topic_alert_air,
            topic_alert_temp,
            topic_monitor,
            topic_hub_setting_ok,
            topic_hub_firmware_ok,
            topic_balance_mode_handshake,
            topic_setting,
            topic_new_setting,
            topic_new_firmware,
            topic_setting_ok,
            topic_queue_empty,
            topic_queue_empty_safe,
            active,
        }
    }
}

impl NetworkManager {
    /// An empty manager; the global topics are `iot/<id_edge>/handshake`,
    /// `/state`, `/heartbeat`, `/linkage_request` and `/linkage_ack`.
    pub fn new_empty(system: &System) -> (r: Self)
        ensures
            r.well_formed(),
            r.networks@.len() == 0,
            r.hubs@.len() == 0,
            r.global_topics_follow(system.id_edge@),
    {
        let id = system.id_edge.as_str();
        Self {
            networks: Vec::new(),
            hubs: Vec::new(),
            topic_handshake: topic_for(id, "/handshake", 1),
            topic_state: topic_for(id, "/state", 0),
            topic_heartbeat: topic_for(id, "/heartbeat", 0),
            topic_linkage_request: topic_for(id, "/linkage_request", 1),
            topic_linkage_ack: topic_for(id, "/linkage_ack", 1),
        }
    }

    /// Index of the network `id`, if registered.
    fn find_network(&self, id: &String) -> (r: Option<usize>)
        ensures
            match r {
                Some(i) => i < self.networks@.len() && self.networks@[i as int].id_network@ == id@,
                None => !self.has_network(id@),
            },
    {
        let mut i: usize = 0;
        while i < self.networks.len()
            invariant
                i <= self.networks@.len(),
                forall|k: int| 0 <= k < i ==> (#[trigger] self.networks@[k]).id_network@ != id@,
            decreases self.networks@.len() - i,
        {
            if self.networks[i].id_network == *id {
                return Some(i);
            }
            i = i + 1;
        }
        None
    }

    /// Index of the hub group of network `id`, if any.
    fn find_group(&self, id: &String) -> (r: Option<usize>)
        ensures
            match r {
                Some(g) => g < self.hubs@.len() && self.hubs@[g as int].id_network@ == id@,
                None => !self.has_group(id@),
            },
    {
        let mut g: usize = 0;
        while g < self.hubs.len()
            invariant
                g <= self.hubs@.len(),
                forall|k: int| 0 <= k < g ==> (#[trigger] self.hubs@[k]).id_network@ != id@,
            decreases self.hubs@.len() - g,
        {
            if self.hubs[g].id_network == *id {
                return Some(g);
            }
            g = g + 1;
        }
        None
    }

    /// Adds the network, or replaces the registered network with the same id.
    pub fn add_network(&mut self, network: Network)
        requires
            old(self).well_formed(),
        ensures
            final(self).well_formed(),
            final(self).networks_view() == old(self).networks_view().insert(network.id_network@, network),
            final(self).hubs@ == old(self).hubs@,
            final(self).same_global_topics(old(self)),
    {
        let ghost old_self = *self;
        let ghost id = network.id_network@;
        match self.find_network(&network.id_network) {
            Some(i) => {
                let ghost gn = network;
                self.networks.set(i, network);
                proof {
                    assert(self.networks@ =~= old_self.networks@.update(i as int, gn));
                    self.add_network_proof_helper(old_self, i, gn);
                }
            },
            None => {
                self.networks.push(network);
                proof {
                    let n = old_self.networks@.len() as int;
                    assert forall|a: int, b: int|
                        0 <= a < b < self.networks@.len() implies (#[trigger] self.networks@[a]).id_network@
                        != (#[trigger] self.networks@[b]).id_network@ by {
                        if b == n {
                            assert(old_self.networks@[a].id_network@ != id);
                        } else {
                            assert(old_self.networks@[a].id_network@ != old_self.networks@[b].id_network@);
                        }
                    }
                    assert forall|g: int| 0 <= g < self.hubs@.len() implies hubs_unique((#[trigger] self.hubs@[g]).hubs@) by {
                        assert(hubs_unique(old_self.hubs@[g].hubs@));
                    }
                    assert forall|k: Seq<char>| #[trigger] self.has_network(k) == old_self.networks_view().insert(id, network).dom().contains(k) by {
                        if self.has_network(k) {
                            let j = choose|j: int| 0 <= j < self.networks@.len() && (#[trigger] self.networks@[j]).id_network@ == k;
                            if j != n {
                                assert(old_self.networks@[j].id_network@ == k);
                            }
                        }
                        if old_self.has_network(k) {
                            let j = choose|j: int| 0 <= j < old_self.networks@.len() && (#[trigger] old_self.networks@[j]).id_network@ == k;
                            assert(self.networks@[j].id_network@ == k);
                        }
                        if k == id {
                            assert(self.networks@[n].id_network@ == k);
                        }
                    }
                    assert forall|k: Seq<char>| #[trigger] self.has_network(k) implies self.network_of(k) == old_self.networks_view().insert(id, network)[k] by {
                        let j = choose|j: int| 0 <= j < self.networks@.len() && (#[trigger] self.networks@[j]).id_network@ == k;
                        lemma_network_at(self, j);
                        if j != n {
                            lemma_network_at(&old_self, j);
                        }
                    }
                    assert(self.networks_view() =~= old_self.networks_view().insert(id, network));
                }
            },
        }
    }

    /// Sets the `active` flag of network `id`; does nothing when it is not registered.
    pub fn change_active(&mut self, active: bool, id: &str)
        requires
            old(self).well_formed(),
        ensures
            final(self).well_formed(),
            old(self).has_network(id@) ==> final(self).networks_view() == old(self).networks_view().insert(
                id@,
                Network { active: active, ..old(self).network_of(id@) },
            ),
            !old(self).has_network(id@) ==> final(self).networks_view() == old(self).networks_view(),
            final(self).hubs@ == old(self).hubs@,
            final(self).same_global_topics(old(self)),
    {
        let key = String::from_str(id);
        let ghost old_self = *self;
        match self.find_network(&key) {
            Some(i) => {
                proof {
                    lemma_network_at(&old_self, i as int);
                }
                let mut n = self.networks.remove(i);
                n.active = active;
                let ghost gn = n;
                self.networks.insert(i, n);
                proof {
                    assert(self.networks@ =~= old_self.networks@.update(i as int, gn));
                    self.add_network_proof_helper(old_self, i, gn);
                    assert(gn == Network { active: active, ..old_self.network_of(id@) });
                }
            },
            None => {
                proof {
                    assert(self.networks_view() =~= old_self.networks_view());
                }
            },
        }
    }

    /// Replacing the network at index `i` by one with the same identifier keeps
    /// the invariant and updates the view at that identifier.
    proof fn add_network_proof_helper(&self, old_self: NetworkManager, i: usize, n: Network)
        requires
            old_self.well_formed(),
            i < old_self.networks@.len(),
            n.id_network@ == old_self.networks@[i as int].id_network@,
            self.networks@ == old_self.networks@.update(i as int, n),
            self.hubs@ == old_self.hubs@,
        ensures
            self.well_formed(),
            self.networks_view() == old_self.networks_view().insert(n.id_network@, n),
    {
        let id = n.id_network@;
        assert forall|a: int, b: int|
            0 <= a < b < self.networks@.len() implies (#[trigger] self.networks@[a]).id_network@
            != (#[trigger] self.networks@[b]).id_network@ by {
            assert(old_self.networks@[a].id_network@ != old_self.networks@[b].id_network@);
        }
        assert forall|g: int| 0 <= g < self.hubs@.len() implies hubs_unique((#[trigger] self.hubs@[g]).hubs@) by {
            assert(hubs_unique(old_self.hubs@[g].hubs@));
        }
        assert forall|k: Seq<char>| #[trigger] self.has_network(k) == old_self.networks_view().insert(id, n).dom().contains(k) by {
            if self.has_network(k) {
                let j = choose|j: int| 0 <= j < self.networks@.len() && (#[trigger] self.networks@[j]).id_network@ == k;
                if j != i {
                    assert(old_self.networks@[j].id_network@ == k);
                }
            }
            if old_self.has_network(k) {
                let j = choose|j: int| 0 <= j < old_self.networks@.len() && (#[trigger] old_self.networks@[j]).id_network@ == k;
                assert(self.networks@[j].id_network@ == k);
            }
            if k == id {
                assert(self.networks@[i as int].id_network@ == k);
            }
        }
        assert forall|k: Seq<char>| #[trigger] self.has_network(k) implies self.network_of(k) == old_self.networks_view().insert(id, n)[k] by {
            let j = choose|j: int| 0 <= j < self.networks@.len() && (#[trigger] self.networks@[j]).id_network@ == k;
            lemma_network_at(self, j);
            if j != i {
                lemma_network_at(&old_self, j);
            }
        }
        assert(self.networks_view() =~= old_self.networks_view().insert(id, n));
    }

    /// The registered network `id`, if any.
    pub(crate) fn get_network(&self, id: &String) -> (r: Option<&Network>)
        requires
            self.well_formed(),
        ensures
            match r {
                Some(n) => self.networks_view().contains_key(id@) && self.networks_view()[id@] == *n,
                None => !self.networks_view().contains_key(id@),
            },
    {
        match self.find_network(id) {
            Some(i) => {
                proof {
                    lemma_network_at(self, i as int);
                }
                Some(&self.networks[i])
            },
            None => None,
        }
    }

    /// `active` flag of network `id`, `None` when it is not registered.
    pub(crate) fn get_active(&self, id: &String) -> (r: Option<bool>)
        requires
            self.well_formed(),
        ensures
            r == if self.networks_view().contains_key(id@) {
                Some(self.networks_view()[id@].active)
            } else {
                None::<bool>
            },
    {
        match self.find_network(id) {
            Some(i) => {
                proof {
                    lemma_network_at(self, i as int);
                }
                Some(self.networks[i].active)
            },
            None => None,
        }
    }

    /// `active` flag of network `id`; `false` when it is not registered.
    pub fn is_active(&self, id: &str) -> (r: bool)
        requires
            self.well_formed(),
        ensures
            r == (self.networks_view().contains_key(id@) && self.networks_view()[id@].active),
    {
        let key = String::from_str(id);
        match self.find_network(&key) {
            Some(i) => {
                proof {
                    lemma_network_at(self, i as int);
                }
                self.networks[i].active
            },
            None => false,
        }
    }

    /// Index of the hub with identifier `hub_id` in `hubs`, if any.
    fn position_of_id(hubs: &Vec<Hub>, hub_id: &String) -> (r: Option<usize>)
        ensures
            match r {
                Some(p) => p < hubs@.len() && hubs@[p as int].id@ == hub_id@,
                None => forall|j: int| 0 <= j < hubs@.len() ==> (#[trigger] hubs@[j]).id@ != hub_id@,
            },
    {
        let mut j: usize = 0;
        while j < hubs.len()
            invariant
                j <= hubs@.len(),
                forall|k: int| 0 <= k < j ==> (#[trigger] hubs@[k]).id@ != hub_id@,
            decreases hubs@.len() - j,
        {
            if hubs[j].id == *hub_id {
                return Some(j);
            }
            j = j + 1;
        }
        None
    }

    /// Adds `hub` to the group of network `id`, creating the group when
    /// needed, or updates it: a hub registered under the same identifier is
    /// replaced, so each hub identifier appears once per network.
    pub fn add_hub(&mut self, id: String, hub: Hub)
        requires
            old(self).well_formed(),
        ensures
            final(self).well_formed(),
            final(self).hub_set(id@) == hub_set_with(old(self).hub_set(id@), hub_key(hub)),
            forall|k: Seq<char>| k != id@ ==> #[trigger] final(self).hubs_of(k) == old(self).hubs_of(k),
            final(self).total_hubs() == old(self).total_hubs() + if old(self).group_has_hub(id@, hub.id@) {
                0int
            } else {
                1int
            },
            final(self).networks@ == old(self).networks@,
            final(self).same_global_topics(old(self)),
    {
        let ghost old_self = *self;
        let ghost gid = id@;
        let ghost ghub = hub;
        match self.find_group(&id) {
            None => {
                let mut v: Vec<Hub> = Vec::new();
                v.push(hub);
                let group = HubGroup { id_network: id, hubs: v };
                let ghost ggroup = group;
                self.hubs.push(group);
                proof {
                    let n = old_self.hubs@.len() as int;
                    assert(self.hubs@ == old_self.hubs@.push(ggroup));
                    lemma_sum_hubs_push(old_self.hubs@, ggroup);
                    assert forall|a: int, b: int|
                        0 <= a < b < self.hubs@.len() implies (#[trigger] self.hubs@[a]).id_network@
                        != (#[trigger] self.hubs@[b]).id_network@ by {
                        if b == n {
                            assert(old_self.hubs@[a].id_network@ != gid);
                        } else {
                            assert(old_self.hubs@[a].id_network@ != old_self.hubs@[b].id_network@);
                        }
                    }
                    assert forall|g: int| 0 <= g < self.hubs@.len() implies hubs_unique((#[trigger] self.hubs@[g]).hubs@) by {
                        if g < n {
                            assert(hubs_unique(old_self.hubs@[g].hubs@));
                        }
                    }
                    lemma_group_at(self, n);
                    assert(self.hubs_of(gid) == seq![ghub]);
                    assert(old_self.hubs_of(gid) == Seq::<Hub>::empty());
                    lemma_keys_push(Seq::<Hub>::empty(), ghub);
                    assert(seq![ghub] =~= Seq::<Hub>::empty().push(ghub));
                    assert(!old_self.group_has_hub(gid, ghub.id@));
                    assert forall|k: Seq<char>| k != gid implies #[trigger] self.hubs_of(k) == old_self.hubs_of(k) by {
                        if old_self.has_group(k) {
                            let j = choose|j: int| 0 <= j < old_self.hubs@.len() && (#[trigger] old_self.hubs@[j]).id_network@ == k;
                            lemma_group_at(&old_self, j);
                            lemma_group_at(self, j);
                        } else {
                            if self.has_group(k) {
                                let j = choose|j: int| 0 <= j < self.hubs@.len() && (#[trigger] self.hubs@[j]).id_network@ == k;
                                if j < n {
                                    assert(old_self.hubs@[j].id_network@ == k);
                                }
                            }
                        }
                    }
                }
            },
            Some(g) => {
                proof {
                    lemma_group_at(&old_self, g as int);
                    assert(hubs_unique(old_self.hubs@[g as int].hubs@));
                }
                let mut group = self.hubs.remove(g);
                let ghost os = group.hubs@;
                proof {
                    assert(os == old_self.hubs@[g as int].hubs@);
                }
                match Self::position_of_id(&group.hubs, &hub.id) {
                    Some(p) => {
                        group.hubs.set(p, hub);
                        proof {
                            lemma_keys_update(os, p as int, ghub);
                            assert(old_self.group_has_hub(gid, ghub.id@)) by {
                                assert(old_self.hubs_of(gid)[p as int].id@ == ghub.id@);
                            }
                        }
                    },
                    None => {
                        group.hubs.push(hub);
                        proof {
                            lemma_keys_push(os, ghub);
                            assert(!old_self.group_has_hub(gid, ghub.id@)) by {
                                if old_self.group_has_hub(gid, ghub.id@) {
                                    let j = choose|j: int| 0 <= j < old_self.hubs_of(gid).len() && (#[trigger] old_self.hubs_of(gid)[j]).id@ == ghub.id@;
                                    assert(os[j].id@ == ghub.id@);
                                }
                            }
                        }
                    },
                }
                let ghost ggroup = group;
                self.hubs.insert(g, group);
                proof {
                    let gi = g as int;
                    assert(self.hubs@ =~= old_self.hubs@.update(gi, ggroup));
                    lemma_sum_hubs_update(old_self.hubs@, gi, ggroup);
                    assert forall|a: int, b: int|
                        0 <= a < b < self.hubs@.len() implies (#[trigger] self.hubs@[a]).id_network@
                        != (#[trigger] self.hubs@[b]).id_network@ by {
                        assert(old_self.hubs@[a].id_network@ != old_self.hubs@[b].id_network@);
                    }
                    assert forall|x: int| 0 <= x < self.hubs@.len() implies hubs_unique((#[trigger] self.hubs@[x]).hubs@) by {
                        assert(hubs_unique(old_self.hubs@[x].hubs@));
                    }
                    lemma_group_at(self, gi);
                    assert(self.hub_set(gid) == keys_of(ggroup.hubs@));
                    assert(old_self.hub_set(gid) == keys_of(os));
                    assert forall|k: Seq<char>| k != gid implies #[trigger] self.hubs_of(k) == old_self.hubs_of(k) by {
                        if old_self.has_group(k) {
                            let j = choose|j: int| 0 <= j < old_self.hubs@.len() && (#[trigger] old_self.hubs@[j]).id_network@ == k;
                            lemma_group_at(&old_self, j);
                            lemma_group_at(self, j);
                        } else {
                            if self.has_group(k) {
                                let j = choose|j: int| 0 <= j < self.hubs@.len() && (#[trigger] self.hubs@[j]).id_network@ == k;
                                assert(old_self.hubs@[j].id_network@ == k);
                            }
                        }
                    }
                }
            },
        }
    }

    /// Whether hub `id_hub` is registered in network `id_net`. An unknown
    /// network answers `true`, so that the caller ignores the hub.
    pub fn search_hub(&self, id_net: &str, id_hub: &str) -> (r: bool)
        requires
            self.well_formed(),
        ensures
            r == (!self.networks_view().contains_key(id_net@) || self.group_has_hub(id_net@, id_hub@)),
    {
        let net_key = String::from_str(id_net);
        let hub_key_s = String::from_str(id_hub);
        if self.find_network(&net_key).is_none() {
            return true;
        }
        match self.find_group(&net_key) {
            Some(g) => {
                proof {
                    lemma_group_at(self, g as int);
                }
                let hubs = &self.hubs[g].hubs;
                let mut j: usize = 0;
                while j < hubs.len()
                    invariant
                        hubs@ == self.hubs_of(id_net@),
                        hub_key_s@ == id_hub@,
                        self.has_network(id_net@),
                        j <= hubs@.len(),
                        forall|k: int| 0 <= k < j ==> (#[trigger] hubs@[k]).id@ != id_hub@,
                    decreases hubs@.len() - j,
                {
                    if hubs[j].id == hub_key_s {
                        return true;
                    }
                    j = j + 1;
                }
                false
            },
            None => false,
        }
    }

    /// Identifiers of the hubs of network `id_network`, in registration order
    /// (empty when the network has no hub).
    pub fn get_all_hub_ids_by_network(&self, id_network: &str) -> (r: Vec<String>)
        requires
            self.well_formed(),
        ensures
            r@.len() == self.hubs_of(id_network@).len(),
            forall|j: int| 0 <= j < r@.len() ==> (#[trigger] r@[j])@ == self.hubs_of(id_network@)[j].id@,
    {
        let key = String::from_str(id_network);
        let mut out: Vec<String> = Vec::new();
        match self.find_group(&key) {
            Some(g) => {
                proof {
                    lemma_group_at(self, g as int);
                }
                let hubs = &self.hubs[g].hubs;
                let mut j: usize = 0;
                while j < hubs.len()
                    invariant
                        hubs@ == self.hubs_of(id_network@),
                        j <= hubs@.len(),
                        out@.len() == j,
                        forall|k: int| 0 <= k < j ==> (#[trigger] out@[k])@ == hubs@[k].id@,
                    decreases hubs@.len() - j,
                {
                    out.push(hubs[j].id.clone());
                    j = j + 1;
                }
                out
            },
            None => out,
        }
    }

    /// Total number of hubs over all networks.
    pub fn get_total_hubs(&self) -> (r: u64)
        requires
            self.total_hubs() <= u64::MAX,
        ensures
            r == self.total_hubs(),
    {
        let mut total_hubs: u64 = 0;
        let mut i: usize = 0;
        while i < self.hubs.len()
            invariant
                i <= self.hubs@.len(),
                total_hubs == sum_hubs(self.hubs@.subrange(0, i as int)),
                self.total_hubs() <= u64::MAX,
            decreases self.hubs@.len() - i,
        {
            proof {
                let s = self.hubs@;
                assert(s.subrange(0, i as int + 1).drop_last() =~= s.subrange(0, i as int));
                lemma_sum_hubs_prefix_le(s, i as int + 1);
            }
            let total = self.hubs[i].hubs.len() as u64;
            total_hubs = total_hubs + total;
            i = i + 1;
        }
        proof {
            assert(self.hubs@.subrange(0, self.hubs@.len() as int) =~= self.hubs@);
        }
        total_hubs
    }

    /// Removes network `id` from memory (its hub group is kept).
    pub fn remove_network(&mut self, id: &str)
        requires
            old(self).well_formed(),
        ensures
            final(self).well_formed(),
            final(self).networks_view() == old(self).networks_view().remove(id@),
            final(self).hubs@ == old(self).hubs@,
            final(self).same_global_topics(old(self)),
    {
        let key = String::from_str(id);
        let ghost old_self = *self;
        match self.find_network(&key) {
            Some(i) => {
                self.networks.remove(i);
                proof {
                    let old_n = old_self.networks@;
                    assert forall|a: int, b: int|
                        0 <= a < b < self.networks@.len() implies (#[trigger] self.networks@[a]).id_network@
                        != (#[trigger] self.networks@[b]).id_network@ by {
                        let oa = if a < i { a } else { a + 1 };
                        let ob = if b < i { b } else { b + 1 };
                        assert(self.networks@[a] == old_n[oa]);
                        assert(self.networks@[b] == old_n[ob]);
                        assert(old_n[oa].id_network@ != old_n[ob].id_network@);
                    }
                    assert forall|g: int| 0 <= g < self.hubs@.len() implies hubs_unique((#[trigger] self.hubs@[g]).hubs@) by {
                        assert(hubs_unique(old_self.hubs@[g].hubs@));
                    }
                    assert forall|k: Seq<char>| #[trigger] self.has_network(k) == old_self.networks_view().remove(id@).dom().contains(k) by {
                        if self.has_network(k) {
                            let j = choose|j: int| 0 <= j < self.networks@.len() && (#[trigger] self.networks@[j]).id_network@ == k;
                            let oj = if j < i { j } else { j + 1 };
                            assert(self.networks@[j] == old_n[oj]);
                            assert(old_n[oj].id_network@ == k);
                            assert(old_n[i as int].id_network@ != old_n[oj].id_network@);
                        }
                        if old_self.has_network(k) && k != id@ {
                            let j = choose|j: int| 0 <= j < old_n.len() && (#[trigger] old_n[j]).id_network@ == k;
                            let nj = if j < i { j } else { j - 1 };
                            assert(j != i);
                            assert(self.networks@[nj] == old_n[j]);
                        }
                    }
                    assert forall|k: Seq<char>| #[trigger] self.has_network(k) implies self.network_of(k) == old_self.networks_view().remove(id@)[k] by {
                        let j = choose|j: int| 0 <= j < self.networks@.len() && (#[trigger] self.networks@[j]).id_network@ == k;
                        let oj = if j < i { j } else { j + 1 };
                        assert(self.networks@[j] == old_n[oj]);
                        lemma_network_at(self, j);
                        lemma_network_at(&old_self, oj);
                    }
                    assert(self.networks_view() =~= old_self.networks_view().remove(id@));
                }
            },
            None => {
                proof {
                    assert(self.networks_view() =~= old_self.networks_view().remove(id@));
                }
            },
        }
    }
}

impl HubRow {
    /// In-memory record of the hub described by this row.
    pub fn cast_to_hub(self) -> (r: Hub)
        ensures
            r.id@ == self.id@,
            r.device_name@ == self.device_name@,
    {
        Hub { id: self.id, device_name: self.device_name }
    }
}

// ---------------------------------------------------------------------------
// Laws
// ---------------------------------------------------------------------------

/// After `add_network(n)`, `is_active` on `n`'s id answers `n.active`.
pub proof fn law_add_network_then_is_active(before: NetworkManager, after: NetworkManager, n: Network)
    requires
        after.networks_view() == before.networks_view().insert(n.id_network@, n),
    ensures
        after.networks_view().contains_key(n.id_network@) && after.networks_view()[n.id_network@].active == n.active,
{
}

/// After `remove_network(id)`, `is_active(id)` answers `false` and `search_hub`
/// on that network answers `true` for every hub (the network is unknown).
pub proof fn law_remove_network_then_unknown(before: NetworkManager, after: NetworkManager, id: Seq<char>, hub_id: Seq<char>)
    requires
        after.networks_view() == before.networks_view().remove(id),
    ensures
        !(after.networks_view().contains_key(id) && after.networks_view()[id].active),
        !after.networks_view().contains_key(id) || after.group_has_hub(id, hub_id),
{
}

/// After `change_active(a, id)` on a registered network, `is_active(id)`
/// answers `a`; every other network keeps its flag.
pub proof fn law_change_active_then_is_active(before: NetworkManager, after: NetworkManager, a: bool, id: Seq<char>, other: Seq<char>)
    requires
        before.has_network(id),
        after.networks_view() == before.networks_view().insert(id, Network { active: a, ..before.network_of(id) }),
        other != id,
    ensures
        after.networks_view().contains_key(id) && after.networks_view()[id].active == a,
        after.networks_view().contains_key(other) == before.networks_view().contains_key(other),
        before.networks_view().contains_key(other) ==> after.networks_view()[other].active == before.networks_view()[other].active,
{
}

/// After `add_hub(id, hub)`, `search_hub(id, hub.id)` answers `true`.
pub proof fn law_add_hub_then_search(before: NetworkManager, after: NetworkManager, id: Seq<char>, hub: Hub)
    requires
        after.hub_set(id) == hub_set_with(before.hub_set(id), hub_key(hub)),
    ensures
        after.group_has_hub(id, hub.id@),
{
    assert(after.hub_set(id).contains(hub_key(hub)));
    let j = choose|j: int| 0 <= j < after.hubs_of(id).len() && hub_key(#[trigger] after.hubs_of(id)[j]) == hub_key(hub);
    assert(after.hubs_of(id)[j].id@ == hub.id@);
}

/// Adding or updating a hub leaves exactly one entry with its identifier in
/// the network: the hub as given. Whatever device name the network had
/// recorded for that identifier is gone.
pub proof fn law_add_hub_updates(before: NetworkManager, after: NetworkManager, id: Seq<char>, hub: Hub, k: (Seq<char>, Seq<char>))
    requires
        after.hub_set(id) == hub_set_with(before.hub_set(id), hub_key(hub)),
        k.0 == hub.id@,
    ensures
        after.hub_set(id).contains(k) <==> k == hub_key(hub),
{
}

/// Adding the same hub twice leaves the same hubs and the same total as
/// adding it once.
pub proof fn law_add_hub_idempotent(m0: NetworkManager, m1: NetworkManager, m2: NetworkManager, id: Seq<char>, hub: Hub)
    requires
        m1.hub_set(id) == hub_set_with(m0.hub_set(id), hub_key(hub)),
        m2.hub_set(id) == hub_set_with(m1.hub_set(id), hub_key(hub)),
        m2.total_hubs() == m1.total_hubs() + if m1.group_has_hub(id, hub.id@) { 0int } else { 1int },
    ensures
        m2.hub_set(id) == m1.hub_set(id),
        m2.total_hubs() == m1.total_hubs(),
{
    assert(m1.hub_set(id).contains(hub_key(hub)));
    let j = choose|j: int| 0 <= j < m1.hubs_of(id).len() && hub_key(#[trigger] m1.hubs_of(id)[j]) == hub_key(hub);
    assert(m1.hubs_of(id)[j].id@ == hub.id@);
    assert(m2.hub_set(id) =~= m1.hub_set(id));
}

} // verus!
