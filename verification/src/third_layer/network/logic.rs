//! Decisions of the network service: what a server `Network` message does to
//! the topology, which acknowledgement code answers it, how a hub linkage
//! request is handled, and how the persisted topology is loaded.

use crate::second_layer::database::domain::{HubRow, NetworkRow};
use crate::second_layer::message::domain::{LinkageAck, LinkageRequest, Metadata, Network as NetworkMessage};
use crate::system::clock::now_timestamp;
use crate::system::domain::System;
use crate::third_layer::network::domain::{hub_set_with, Hub, Network, NetworkAction, NetworkChanged, NetworkManager};
use vstd::prelude::*;
use vstd::string::*;

verus! {

/// Answer of the network service to the middleware.
#[derive(Debug, Clone, Copy, PartialEq, Eq, Structural)]
pub enum NetworkServiceResponse {
    /// The topology is ready: the operating-mode runtime may start.
    Run,
}

/// Outcome of a hub linkage request.
#[derive(Debug)]
pub enum LinkageDecision {
    /// The hub is already known (or its network is unknown): only acknowledge.
    AlreadyRegistered,
    /// The hub was added to memory; persist `hub_row`, then acknowledge and,
    /// when `first_hub` holds, start the runtime.
    Registered { hub_row: HubRow, first_hub: bool },
}

/// The action a server `Network` message calls for, given the topology.
pub open spec fn spec_network_action(m: NetworkManager, msg: NetworkMessage) -> NetworkAction {
    let id = msg.id_network@;
    if m.networks_view().contains_key(id) {
        if msg.delete_network {
            NetworkAction::Delete
        } else if m.networks_view()[id].active != msg.active {
            NetworkAction::Update { before: m.networks_view()[id].active, after: msg.active }
        } else {
            NetworkAction::Ignore
        }
    } else if !msg.delete_network {
        NetworkAction::Insert
    } else {
        NetworkAction::Ignore
    }
}

/// Acknowledgement code owed for a change, given whether the database accepted it.
pub open spec fn spec_ack_code(changed: NetworkChanged, saved: bool) -> Option<u32> {
    match changed {
        NetworkChanged::Delete { .. } => Some(if saved { 200u32 } else { 201u32 }),
        NetworkChanged::Insert(_) => Some(if saved { 100u32 } else { 101u32 }),
        NetworkChanged::Update { before, after, .. } => if !before && after {
            Some(if saved { 300u32 } else { 301u32 })
        } else if before && !after {
            Some(if saved { 400u32 } else { 401u32 })
        } else {
            None
        },
    }
}

/// Active flags after inserting each row in order (later rows win).
pub open spec fn apply_network_rows(m: Map<Seq<char>, bool>, rows: Seq<NetworkRow>) -> Map<Seq<char>, bool>
    decreases rows.len(),
{
    if rows.len() == 0 {
        m
    } else {
        apply_network_rows(m, rows.drop_last()).insert(rows.last().id_network@, rows.last().active)
    }
}

/// Some row names network `id`.
pub open spec fn names_network(rows: Seq<NetworkRow>, id: Seq<char>) -> bool {
    exists|j: int| 0 <= j < rows.len() && (#[trigger] rows[j]).id_network@ == id
}

/// Hub identities of network `id` after adding or updating, in order, the
/// hubs of the rows that belong to it.
pub open spec fn apply_hub_rows(s: Set<(Seq<char>, Seq<char>)>, rows: Seq<HubRow>, id: Seq<char>) -> Set<(Seq<char>, Seq<char>)>
    decreases rows.len(),
{
    if rows.len() == 0 {
        s
    } else {
        let prev = apply_hub_rows(s, rows.drop_last(), id);
        if rows.last().network_id@ == id {
            hub_set_with(prev, (rows.last().id@, rows.last().device_name@))
        } else {
            prev
        }
    }
}

/// Decides what a server `Network` message does: delete a registered network,
/// update its `active` flag when it differs, insert an unknown one, or ignore.
pub fn network_action(manager: &NetworkManager, network: &NetworkMessage) -> (r: NetworkAction)
    requires
        manager.well_formed(),
    ensures
        r == spec_network_action(*manager, *network),
{
    let known = manager.get_active(&network.id_network);
    match (known, network.delete_network) {
        (Some(_), true) => NetworkAction::Delete,
        (Some(active), false) => if active != network.active {
            NetworkAction::Update { before: active, after: network.active }
        } else {
            NetworkAction::Ignore
        },
        (None, false) => NetworkAction::Insert,
        (None, true) => NetworkAction::Ignore,
    }
}

/// Applies `action` to the topology and returns the change to persist.
pub fn handle_action(manager: &mut NetworkManager, network: &NetworkMessage, action: NetworkAction) -> (r: NetworkChanged)
    requires
        old(manager).well_formed(),
        action != NetworkAction::Ignore,
    ensures
        final(manager).well_formed(),
        final(manager).hubs@ == old(manager).hubs@,
        final(manager).same_global_topics(old(manager)),
        match action {
            NetworkAction::Delete => {
                &&& final(manager).networks_view() == old(manager).networks_view().remove(network.id_network@)
                &&& r matches NetworkChanged::Delete { id } && id@ == network.id_network@
            },
            NetworkAction::Update { before, after } => {
                &&& (old(manager).has_network(network.id_network@) ==> final(manager).networks_view()
                    == old(manager).networks_view().insert(
                        network.id_network@,
                        Network { active: network.active, ..old(manager).network_of(network.id_network@) },
                    ))
                &&& (!old(manager).has_network(network.id_network@) ==> final(manager).networks_view()
                    == old(manager).networks_view())
                &&& r matches NetworkChanged::Update { data, before: b, after: a }
                    && data.id_network@ == network.id_network@ && data.active == network.active && b == before && a == after
            },
            _ => {
                &&& final(manager).networks_view().contains_key(network.id_network@)
                &&& final(manager).networks_view()[network.id_network@].active == network.active
                &&& final(manager).networks_view()[network.id_network@].topics_follow_id()
                &&& final(manager).networks_view()[network.id_network@].id_network@ == network.id_network@
                &&& forall|k: Seq<char>| k != network.id_network@ ==> #[trigger] final(manager).networks_view().contains_key(k)
                    == old(manager).networks_view().contains_key(k)
                &&& r matches NetworkChanged::Insert(data)
                    && data.id_network@ == network.id_network@ && data.active == network.active
            },
        },
{
    match action {
        NetworkAction::Delete => {
            manager.remove_network(network.id_network.as_str());
            NetworkChanged::Delete { id: network.id_network.clone() }
        },
        NetworkAction::Update { before, after } => {
            manager.change_active(network.active, network.id_network.as_str());
            let net = NetworkRow { id_network: network.id_network.clone(), active: network.active };
            NetworkChanged::Update { data: net, before, after }
        },
        _ => {
            let ghost old_m = *manager;
            let n = Network::new(network.id_network.clone(), network.active);
            let ghost gn = n;
            manager.add_network(n);
            proof {
                assert(manager.networks_view() == old_m.networks_view().insert(network.id_network@, gn));
            }
            let net = NetworkRow { id_network: network.id_network.clone(), active: network.active };
            NetworkChanged::Insert(net)
        },
    }
}

/// Acknowledgement code that answers a change once the database has answered:
/// 100/101 insertion, 200/201 deletion, 300/301 activation, 400/401
/// deactivation (the second code of each pair when the database failed). An
/// update that neither activates nor deactivates is not acknowledged.
pub fn ack_code(net_chan: &NetworkChanged, saved: bool) -> (r: Option<u32>)
    ensures
        r == spec_ack_code(*net_chan, saved),
{
    match net_chan {
        NetworkChanged::Delete { .. } => if saved { Some(200) } else { Some(201) },
        NetworkChanged::Insert(_) => if saved { Some(100) } else { Some(101) },
        NetworkChanged::Update { before, after, .. } => {
            if *before == false && *after == true {
                if saved { Some(300) } else { Some(301) }
            } else if *before == true && *after == false {
                if saved { Some(400) } else { Some(401) }
            } else {
                None
            }
        },
    }
}

/// Metadata of a broadcast generated by the gateway: sender is the gateway,
/// destination is `all`, timestamp is the current time.
pub fn create_metadata(system: &System) -> (r: Metadata)
    ensures
        r.sender_user_id@ == system.id_edge@,
        r.destination_id@ == "all"@,
{
    let timestamp = now_timestamp();
    Metadata {
        sender_user_id: system.id_edge.clone(),
        destination_id: String::from_str("all"),
        timestamp,
    }
}

/// Handles a hub's linkage request: a hub that is not yet registered in a
/// known network is added to memory; otherwise only an acknowledgement is owed.
pub fn linkage(manager: &mut NetworkManager, request: &LinkageRequest) -> (r: LinkageDecision)
    requires
        old(manager).well_formed(),
        old(manager).total_hubs() <= u64::MAX,
    ensures
        final(manager).well_formed(),
        final(manager).networks@ == old(manager).networks@,
        final(manager).same_global_topics(old(manager)),
        match r {
            LinkageDecision::AlreadyRegistered => {
                &&& !old(manager).networks_view().contains_key(request.network@)
                    || old(manager).group_has_hub(request.network@, request.metadata.sender_user_id@)
                &&& final(manager).hubs@ == old(manager).hubs@
            },
            LinkageDecision::Registered { hub_row, first_hub } => {
                &&& old(manager).networks_view().contains_key(request.network@)
                &&& !old(manager).group_has_hub(request.network@, request.metadata.sender_user_id@)
                &&& hub_row.id@ == request.metadata.sender_user_id@
                &&& hub_row.device_name@ == request.device_name@
                &&& hub_row.network_id@ == request.network@
                &&& first_hub == (old(manager).total_hubs() == 0)
                &&& final(manager).hub_set(request.network@) == old(manager).hub_set(request.network@).insert(
                    (request.metadata.sender_user_id@, request.device_name@))
                &&& forall|k: Seq<char>| k != request.network@ ==> #[trigger] final(manager).hubs_of(k)
                    == old(manager).hubs_of(k)
            },
        },
{
    let id = request.network.clone();
    if !manager.search_hub(id.as_str(), request.metadata.sender_user_id.as_str()) {
        let total = manager.get_total_hubs();
        let hub_row = HubRow {
            id: request.metadata.sender_user_id.clone(),
            device_name: request.device_name.clone(),
            network_id: request.network.clone(),
        };
        let hub = Hub { id: request.metadata.sender_user_id.clone(), device_name: request.device_name.clone() };
        manager.add_hub(id, hub);
        LinkageDecision::Registered { hub_row, first_hub: total == 0 }
    } else {
        LinkageDecision::AlreadyRegistered
    }
}

/// Acknowledgement for a linkage request: from the gateway to the requesting hub.
pub fn send_message_linkage_ack(system: &System, request: &LinkageRequest) -> (r: LinkageAck)
    ensures
        r.metadata.sender_user_id@ == system.id_edge@,
        r.metadata.destination_id@ == request.metadata.sender_user_id@,
        r.linkage_ack,
{
    let timestamp = now_timestamp();
    let metadata = Metadata {
        sender_user_id: system.id_edge.clone(),
        destination_id: request.metadata.sender_user_id.clone(),
        timestamp,
    };
    LinkageAck { metadata, linkage_ack: true }
}

/// Loads the persisted topology into memory: every network row becomes the
/// network built from its identifier and flag (later rows win), and every hub
/// row is added to (or updates) the hubs of its network. Answers whether the
/// runtime may start: both lists were present and memory holds at least one
/// network and at least one hub.
pub fn load_memory(manager: &mut NetworkManager, networks: Option<Vec<NetworkRow>>, hubs: Option<Vec<HubRow>>) -> (r: bool)
    requires
        old(manager).well_formed(),
        hubs is Some ==> old(manager).total_hubs() + hubs->0@.len() <= u64::MAX,
    ensures
        final(manager).well_formed(),
        final(manager).same_global_topics(old(manager)),
        networks is None ==> final(manager).networks@ == old(manager).networks@ && final(manager).hubs@ == old(manager).hubs@,
        networks is Some ==> final(manager).active_view() == apply_network_rows(old(manager).active_view(), networks->0@),
        networks is Some ==> forall|id: Seq<char>| #[trigger] final(manager).networks_view().contains_key(id) ==> if names_network(networks->0@, id) {
            final(manager).networks_view()[id].id_network@ == id && final(manager).networks_view()[id].topics_follow_id()
        } else {
            final(manager).networks_view()[id] == old(manager).networks_view()[id]
        },
        forall|id: Seq<char>| #[trigger] final(manager).hub_set(id) == if networks is Some && hubs is Some {
            apply_hub_rows(old(manager).hub_set(id), hubs->0@, id)
        } else {
            old(manager).hub_set(id)
        },
        r == (networks is Some && hubs is Some && final(manager).networks@.len() > 0 && final(manager).total_hubs() > 0),
{
    let ghost old_m = *manager;
    match networks {
        Some(net) => {
            let mut i: usize = 0;
            while i < net.len()
                invariant
                    manager.well_formed(),
                    manager.same_global_topics(&old_m),
                    manager.hubs@ == old_m.hubs@,
                    i <= net@.len(),
                    manager.active_view() == apply_network_rows(old_m.active_view(), net@.subrange(0, i as int)),
                    forall|id: Seq<char>| #[trigger] manager.networks_view().contains_key(id) ==> if names_network(net@.subrange(0, i as int), id) {
                        manager.networks_view()[id].id_network@ == id && manager.networks_view()[id].topics_follow_id()
                    } else {
                        old_m.networks_view().contains_key(id) && manager.networks_view()[id] == old_m.networks_view()[id]
                    },
                decreases net@.len() - i,
            {
                let row = &net[i];
                let ghost before = *manager;
                let network = Network::new(row.id_network.clone(), row.active);
                let ghost gn = network;
                manager.add_network(network);
                proof {
                    let rows = net@.subrange(0, i as int + 1);
                    let prev = net@.subrange(0, i as int);
                    assert(rows.drop_last() =~= prev);
                    assert(manager.active_view() =~= before.active_view().insert(row.id_network@, row.active));
                    assert forall|id: Seq<char>| #[trigger] manager.networks_view().contains_key(id) implies if names_network(rows, id) {
                        manager.networks_view()[id].id_network@ == id && manager.networks_view()[id].topics_follow_id()
                    } else {
                        old_m.networks_view().contains_key(id) && manager.networks_view()[id] == old_m.networks_view()[id]
                    } by {
                        if id == row.id_network@ {
                            assert(rows[i as int] == *row);
                            assert(names_network(rows, id));
                        } else {
                            assert(before.networks_view().contains_key(id));
                            if names_network(rows, id) {
                                let x = choose|x: int| 0 <= x < rows.len() && (#[trigger] rows[x]).id_network@ == id;
                                assert(x != i);
                                assert(prev[x] == rows[x]);
                                assert(names_network(prev, id));
                            } else {
                                if names_network(prev, id) {
                                    let x = choose|x: int| 0 <= x < prev.len() && (#[trigger] prev[x]).id_network@ == id;
                                    assert(rows[x] == prev[x]);
                                }
                            }
                        }
                    }
                }
                i = i + 1;
            }
            proof {
                assert(net@.subrange(0, net@.len() as int) =~= net@);
            }
            let total_networks = manager.networks.len();
            match hubs {
                Some(hub) => {
                    let ghost mid = *manager;
                    proof {
                        assert forall|id: Seq<char>| #[trigger] manager.hub_set(id) == apply_hub_rows(old_m.hub_set(id), hub@.subrange(0, 0), id) by {
                            assert(manager.hubs_of(id) == old_m.hubs_of(id));
                        }
                    }
                    let mut j: usize = 0;
                    while j < hub.len()
                        invariant
                            manager.well_formed(),
                            manager.same_global_topics(&old_m),
                            manager.networks@ == mid.networks@,
                            j <= hub@.len(),
                            manager.total_hubs() <= old_m.total_hubs() + j,
                            old_m.total_hubs() + hub@.len() <= u64::MAX,
                            forall|id: Seq<char>| #[trigger] manager.hub_set(id) == apply_hub_rows(old_m.hub_set(id), hub@.subrange(0, j as int), id),
                        decreases hub@.len() - j,
                    {
                        let hubs_row = &hub[j];
                        let ghost before = *manager;
                        let net_id = hubs_row.network_id.clone();
                        let h = Hub { id: hubs_row.id.clone(), device_name: hubs_row.device_name.clone() };
                        manager.add_hub(net_id, h);
                        proof {
                            let rows = hub@.subrange(0, j as int + 1);
                            let prev = hub@.subrange(0, j as int);
                            assert(rows.drop_last() =~= prev);
                            assert(rows.last() == *hubs_row);
                            assert forall|id: Seq<char>| #[trigger] manager.hub_set(id) == apply_hub_rows(old_m.hub_set(id), rows, id) by {
                                assert(before.hub_set(id) == apply_hub_rows(old_m.hub_set(id), prev, id));
                                if id != hubs_row.network_id@ {
                                    assert(manager.hubs_of(id) == before.hubs_of(id));
                                }
                            }
                        }
                        j = j + 1;
                    }
                    proof {
                        assert(hub@.subrange(0, hub@.len() as int) =~= hub@);
                        assert(manager.networks_view() =~= mid.networks_view());
                    }
                    let total_hubs = manager.get_total_hubs();
                    total_hubs > 0 && total_networks > 0
                },
                None => {
                    proof {
                        assert forall|id: Seq<char>| #[trigger] manager.hub_set(id) == old_m.hub_set(id) by {
                            assert(manager.hubs_of(id) == old_m.hubs_of(id));
                        }
                    }
                    false
                },
            }
        },
        None => false,
    }
}

} // verus!
