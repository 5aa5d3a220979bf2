//! Decisions of the MQTT client: which topics it subscribes to, how the
//! subscriptions follow changes of the topology, and the client's life cycle.
//!
//! The subscription table records, per topic, whether the current topology
//! requires it (`active`), whether the broker accepted the subscription
//! (`subscribed`) and its quality of service. An update marks every topic as
//! not required, marks again the topics of every network, and yields the
//! topics to subscribe (required, not subscribed) and to unsubscribe (no
//! longer required, still subscribed). The runtime talks to the broker and
//! reports each accepted request back to the table.

use crate::first_layer::mqtt::domain::{MqttServiceCommand, PayloadTopic};
use crate::second_layer::message::domain::SerializedMessage;
use crate::system::domain::InternalEvent;
use crate::system::records::{
    entries_map, find_key, keys_unique, lemma_entries_map, lemma_entries_map_push, lemma_entries_map_remove,
    lemma_entries_map_update,
};
use crate::third_layer::network::domain::{Network, NetworkManager, Topic};
use vstd::prelude::*;
use vstd::string::*;

verus! {

/// MQTT quality of service.
#[derive(Debug, Clone, Copy, PartialEq, Eq, Structural)]
pub enum Qos {
    AtMostOnce,
    AtLeastOnce,
    ExactlyOnce,
}

/// Tracking state of one subscribed topic.
#[derive(Debug, Clone, Copy, PartialEq, Eq, Structural)]
pub struct SubEntry {
    /// The current topology requires the topic.
    pub active: bool,
    /// The broker accepted the subscription.
    pub subscribed: bool,
    pub qos: Qos,
}

/// The subscription table: one entry per topic.
#[derive(Debug)]
pub struct Subscriptions {
    entries: Vec<(String, SubEntry)>,
}

/// Requests the runtime sends to the broker after an update.
#[derive(Debug)]
pub struct SubscriptionPlan {
    /// Topics to subscribe, with their quality of service.
    pub to_sub: Vec<(String, Qos)>,
    /// Topics to unsubscribe.
    pub to_unsub: Vec<String>,
}

// ---------------------------------------------------------------------------
// Specification
// ---------------------------------------------------------------------------

/// Quality of service of a configured level: 1 and 2 as such, anything else
/// the lowest level.
pub open spec fn spec_cast_qos(qos: u8) -> Qos {
    if qos == 1 {
        Qos::AtLeastOnce
    } else if qos == 2 {
        Qos::ExactlyOnce
    } else {
        Qos::AtMostOnce
    }
}

/// The topics a network's hubs publish on, in subscription order.
pub open spec fn network_sub_topics(n: Network) -> Seq<Topic> {
    seq![
        n.topic_hub_state,
        n.topic_data,
        n.topic_monitor,
        n.topic_alert_air,
        n.topic_alert_temp,
        n.topic_hub_firmware_ok,
        n.topic_balance_mode_handshake,
        n.topic_hub_setting_ok,
        n.topic_setting,
        n.topic_queue_empty,
        n.topic_queue_empty_safe,
    ]
}

/// The hub topics of all networks, network after network.
pub open spec fn networks_sub_topics(nets: Seq<Network>) -> Seq<Topic>
    decreases nets.len(),
{
    if nets.len() == 0 {
        Seq::empty()
    } else {
        networks_sub_topics(nets.drop_last()) + network_sub_topics(nets.last())
    }
}

/// Every topic the gateway subscribes to at start-up: the linkage requests
/// first, then the hub topics of every network.
pub open spec fn required_topics(m: NetworkManager) -> Seq<Topic> {
    seq![m.topic_linkage_request] + networks_sub_topics(m.networks@)
}

/// The table built by subscribing to `topics` one after the other, every
/// entry required and subscribed.
pub open spec fn collected(topics: Seq<Topic>) -> Map<Seq<char>, SubEntry>
    decreases topics.len(),
{
    if topics.len() == 0 {
        Map::empty()
    } else {
        collected(topics.drop_last()).insert(
            topics.last().topic@,
            SubEntry { active: true, subscribed: true, qos: spec_cast_qos(topics.last().qos) },
        )
    }
}

/// The table with every topic marked as not required.
pub open spec fn deactivated(m: Map<Seq<char>, SubEntry>) -> Map<Seq<char>, SubEntry> {
    Map::new(|k: Seq<char>| m.dom().contains(k), |k: Seq<char>| SubEntry { active: false, ..m[k] })
}

/// The table after the topology requires `t`: a known topic is marked as
/// required; a new one is added as required and not yet subscribed.
pub open spec fn touch(m: Map<Seq<char>, SubEntry>, t: Topic) -> Map<Seq<char>, SubEntry> {
    if m.dom().contains(t.topic@) {
        m.insert(t.topic@, SubEntry { active: true, ..m[t.topic@] })
    } else {
        m.insert(t.topic@, SubEntry { active: true, subscribed: false, qos: spec_cast_qos(t.qos) })
    }
}

/// `touch` applied to each topic in order.
pub open spec fn touched(m: Map<Seq<char>, SubEntry>, topics: Seq<Topic>) -> Map<Seq<char>, SubEntry>
    decreases topics.len(),
{
    if topics.len() == 0 {
        m
    } else {
        touch(touched(m, topics.drop_last()), topics.last())
    }
}

/// Characters of the topics of a sequence.
pub open spec fn topic_names(topics: Seq<Topic>) -> Set<Seq<char>> {
    Set::new(|k: Seq<char>| exists|i: int| 0 <= i < topics.len() && (#[trigger] topics[i]).topic@ == k)
}

/// Topic `k` is required and not yet subscribed.
pub open spec fn needs_subscribe(m: Map<Seq<char>, SubEntry>, k: Seq<char>) -> bool {
    m.dom().contains(k) && m[k].active && !m[k].subscribed
}

/// Topic `k` is still subscribed but no longer required.
pub open spec fn needs_unsubscribe(m: Map<Seq<char>, SubEntry>, k: Seq<char>) -> bool {
    m.dom().contains(k) && !m[k].active && m[k].subscribed
}

/// The table once the broker accepted every request of the plan: the topics
/// to subscribe are subscribed, the topics to unsubscribe are gone.
pub open spec fn settled(m: Map<Seq<char>, SubEntry>) -> Map<Seq<char>, SubEntry> {
    Map::new(
        |k: Seq<char>| m.dom().contains(k) && !needs_unsubscribe(m, k),
        |k: Seq<char>| if m[k].active { SubEntry { subscribed: true, ..m[k] } } else { m[k] },
    )
}

// ---------------------------------------------------------------------------
// Quality of service
// ---------------------------------------------------------------------------

/// Quality of service of a configured level.
pub fn cast_qos(qos: &u8) -> (r: Qos)
    ensures
        r == spec_cast_qos(*qos),
{
    match *qos {
        0 => Qos::AtMostOnce,
        1 => Qos::AtLeastOnce,
        2 => Qos::ExactlyOnce,
        _ => Qos::AtMostOnce,
    }
}

// ---------------------------------------------------------------------------
// The table
// ---------------------------------------------------------------------------

impl Subscriptions {
    /// The table as a map from topic to tracking state.
    pub closed spec fn view(&self) -> Map<Seq<char>, SubEntry> {
        entries_map(self.entries@)
    }

    /// Each topic has one entry.
    pub closed spec fn well_formed(&self) -> bool {
        keys_unique(self.entries@)
    }

    /// An empty table.
    pub fn new() -> (r: Self)
        ensures
            r.well_formed(),
            r.view() == Map::<Seq<char>, SubEntry>::empty(),
    {
        Subscriptions { entries: Vec::new() }
    }

    /// Number of topics in the table.
    pub fn len(&self) -> (r: usize)
        requires
            self.well_formed(),
        ensures
            r == self.view().dom().len(),
    {
        proof {
            lemma_entries_map(self.entries@);
        }
        self.entries.len()
    }

    /// Tracking state of `topic`, if it is in the table.
    pub fn get(&self, topic: &String) -> (r: Option<SubEntry>)
        requires
            self.well_formed(),
        ensures
            match r {
                Some(e) => self.view().dom().contains(topic@) && self.view()[topic@] == e,
                None => !self.view().dom().contains(topic@),
            },
    {
        proof {
            lemma_entries_map(self.entries@);
        }
        match find_key(&self.entries, topic) {
            Some(i) => Some(self.entries[i].1),
            None => None,
        }
    }

    /// Topics of the table with their tracking state, in table order.
    pub fn topics(&self) -> (r: Vec<(String, SubEntry)>)
        requires
            self.well_formed(),
        ensures
            r@.len() == self.view().dom().len(),
            forall|i: int| 0 <= i < r@.len() ==> {
                &&& self.view().dom().contains((#[trigger] r@[i]).0@)
                &&& self.view()[r@[i].0@] == r@[i].1
            },
            forall|k: Seq<char>| #[trigger] self.view().dom().contains(k) ==> exists|i: int| 0 <= i < r@.len() && r@[i].0@ == k,
    {
        proof {
            lemma_entries_map(self.entries@);
        }
        let mut out: Vec<(String, SubEntry)> = Vec::new();
        let mut i: usize = 0;
        while i < self.entries.len()
            invariant
                i <= self.entries@.len(),
                out@.len() == i,
                forall|j: int| 0 <= j < i ==> (#[trigger] out@[j]).0@ == self.entries@[j].0@ && out@[j].1 == self.entries@[j].1,
            decreases self.entries@.len() - i,
        {
            out.push((self.entries[i].0.clone(), self.entries[i].1));
            i = i + 1;
        }
        proof {
            assert forall|k: Seq<char>| #[trigger] self.view().dom().contains(k) implies exists|i: int| 0 <= i < out@.len() && out@[i].0@ == k by {
                let j = choose|j: int| 0 <= j < self.entries@.len() && self.entries@[j].0@ == k;
                assert(out@[j].0@ == k);
            }
            assert forall|j: int| 0 <= j < out@.len() implies {
                &&& self.view().dom().contains((#[trigger] out@[j]).0@)
                &&& self.view()[out@[j].0@] == out@[j].1
            } by {
                assert(entries_map(self.entries@)[self.entries@[j].0@] == self.entries@[j].1);
            }
        }
        out
    }

    /// Sets the tracking state of `topic`, adding the topic if it is new.
    pub fn insert(&mut self, topic: String, entry: SubEntry)
        requires
            old(self).well_formed(),
        ensures
            final(self).well_formed(),
            final(self).view() == old(self).view().insert(topic@, entry),
    {
        match find_key(&self.entries, &topic) {
            Some(i) => {
                proof {
                    lemma_entries_map_update(self.entries@, i as int, topic, entry);
                }
                self.entries.set(i, (topic, entry));
            },
            None => {
                proof {
                    lemma_entries_map_push(self.entries@, topic, entry);
                }
                self.entries.push((topic, entry));
            },
        }
    }

    /// Marks every topic as not required.
    pub fn mark_all_inactive(&mut self)
        requires
            old(self).well_formed(),
        ensures
            final(self).well_formed(),
            final(self).view() == deactivated(old(self).view()),
    {
        let ghost start = self.entries@;
        let mut i: usize = 0;
        while i < self.entries.len()
            invariant
                keys_unique(self.entries@),
                self.entries@.len() == start.len(),
                i <= self.entries@.len(),
                forall|j: int| 0 <= j < self.entries@.len() ==> (#[trigger] self.entries@[j]).0@ == start[j].0@,
                forall|j: int| 0 <= j < i ==> (#[trigger] self.entries@[j]).1 == (SubEntry { active: false, ..start[j].1 }),
                forall|j: int| i <= j < self.entries@.len() ==> (#[trigger] self.entries@[j]).1 == start[j].1,
            decreases self.entries@.len() - i,
        {
            let topic = self.entries[i].0.clone();
            let entry = self.entries[i].1;
            proof {
                lemma_entries_map_update(self.entries@, i as int, topic, SubEntry { active: false, ..entry });
            }
            self.entries.set(i, (topic, SubEntry { active: false, ..entry }));
            i = i + 1;
        }
        proof {
            lemma_entries_map(start);
            lemma_entries_map(self.entries@);
            let m1 = entries_map(self.entries@);
            let m2 = deactivated(entries_map(start));
            assert forall|k: Seq<char>| m1.dom().contains(k) <==> m2.dom().contains(k) by {
                if m1.dom().contains(k) {
                    let j = choose|j: int| 0 <= j < self.entries@.len() && self.entries@[j].0@ == k;
                    assert(start[j].0@ == k);
                }
                if m2.dom().contains(k) {
                    let j = choose|j: int| 0 <= j < start.len() && start[j].0@ == k;
                    assert(self.entries@[j].0@ == k);
                }
            }
            assert forall|k: Seq<char>| m1.dom().contains(k) implies m1[k] == m2[k] by {
                let j = choose|j: int| 0 <= j < self.entries@.len() && self.entries@[j].0@ == k;
                assert(m1[self.entries@[j].0@] == self.entries@[j].1);
                assert(entries_map(start)[start[j].0@] == start[j].1);
            }
            assert(m1 =~= m2);
        }
    }

    /// The topology requires `topic`: a known topic is marked as required; a
    /// new one is added as required and not yet subscribed.
    pub fn all_topics(&mut self, topic: &String, qos: u8)
        requires
            old(self).well_formed(),
        ensures
            final(self).well_formed(),
            final(self).view() == touch(old(self).view(), Topic { topic: *topic, qos }),
    {
        proof {
            lemma_entries_map(self.entries@);
        }
        match find_key(&self.entries, topic) {
            Some(i) => {
                let entry = self.entries[i].1;
                let key = self.entries[i].0.clone();
                proof {
                    lemma_entries_map_update(self.entries@, i as int, key, SubEntry { active: true, ..entry });
                }
                self.entries.set(i, (key, SubEntry { active: true, ..entry }));
            },
            None => {
                let entry = SubEntry { active: true, subscribed: false, qos: cast_qos(&qos) };
                let key = topic.clone();
                proof {
                    lemma_entries_map_push(self.entries@, key, entry);
                }
                self.entries.push((key, entry));
            },
        }
    }

    /// The broker accepted the subscription to `topic`.
    pub fn mark_subscribed(&mut self, topic: &String)
        requires
            old(self).well_formed(),
        ensures
            final(self).well_formed(),
            final(self).view() == if old(self).view().dom().contains(topic@) {
                old(self).view().insert(topic@, SubEntry { subscribed: true, ..old(self).view()[topic@] })
            } else {
                old(self).view()
            },
    {
        proof {
            lemma_entries_map(self.entries@);
        }
        match find_key(&self.entries, topic) {
            Some(i) => {
                let entry = self.entries[i].1;
                let key = self.entries[i].0.clone();
                proof {
                    lemma_entries_map_update(self.entries@, i as int, key, SubEntry { subscribed: true, ..entry });
                }
                self.entries.set(i, (key, SubEntry { subscribed: true, ..entry }));
            },
            None => {},
        }
    }

    /// The broker accepted the unsubscription of `topic`: it leaves the table.
    pub fn remove(&mut self, topic: &String)
        requires
            old(self).well_formed(),
        ensures
            final(self).well_formed(),
            final(self).view() == old(self).view().remove(topic@),
    {
        match find_key(&self.entries, topic) {
            Some(i) => {
                proof {
                    lemma_entries_map_remove(self.entries@, i as int);
                }
                self.entries.remove(i);
            },
            None => {
                proof {
                    assert(entries_map(self.entries@).remove(topic@) =~= entries_map(self.entries@));
                }
            },
        }
    }

    /// The requests owed to the broker: every topic required and not
    /// subscribed, with its quality of service, and every topic subscribed
    /// and no longer required; each topic once.
    pub fn diff(&self) -> (r: SubscriptionPlan)
        requires
            self.well_formed(),
        ensures
            forall|k: Seq<char>| needs_subscribe(self.view(), k) <==> exists|i: int| 0 <= i < r.to_sub@.len() && (#[trigger] r.to_sub@[i]).0@ == k,
            forall|i: int| 0 <= i < r.to_sub@.len() ==> needs_subscribe(self.view(), (#[trigger] r.to_sub@[i]).0@)
                && r.to_sub@[i].1 == self.view()[r.to_sub@[i].0@].qos,
            forall|i: int, j: int| 0 <= i < j < r.to_sub@.len() ==> (#[trigger] r.to_sub@[i]).0@ != (#[trigger] r.to_sub@[j]).0@,
            forall|k: Seq<char>| needs_unsubscribe(self.view(), k) <==> exists|i: int| 0 <= i < r.to_unsub@.len() && (#[trigger] r.to_unsub@[i])@ == k,
            forall|i: int, j: int| 0 <= i < j < r.to_unsub@.len() ==> (#[trigger] r.to_unsub@[i])@ != (#[trigger] r.to_unsub@[j])@,
    {
        proof {
            lemma_entries_map(self.entries@);
        }
        let mut to_sub: Vec<(String, Qos)> = Vec::new();
        let mut to_unsub: Vec<String> = Vec::new();
        let ghost sub_idx: Seq<int> = Seq::empty();
        let ghost unsub_idx: Seq<int> = Seq::empty();
        let mut i: usize = 0;
        while i < self.entries.len()
            invariant
                keys_unique(self.entries@),
                i <= self.entries@.len(),
                sub_idx.len() == to_sub@.len(),
                unsub_idx.len() == to_unsub@.len(),
                forall|a: int| 0 <= a < sub_idx.len() ==> {
                    &&& 0 <= #[trigger] sub_idx[a] < i
                    &&& to_sub@[a].0@ == self.entries@[sub_idx[a]].0@
                    &&& to_sub@[a].1 == self.entries@[sub_idx[a]].1.qos
                    &&& self.entries@[sub_idx[a]].1.active && !self.entries@[sub_idx[a]].1.subscribed
                },
                forall|a: int, b: int| 0 <= a < b < sub_idx.len() ==> #[trigger] sub_idx[a] < #[trigger] sub_idx[b],
                forall|j: int| 0 <= j < i && (#[trigger] self.entries@[j]).1.active && !self.entries@[j].1.subscribed
                    ==> exists|a: int| 0 <= a < sub_idx.len() && sub_idx[a] == j,
                forall|a: int| 0 <= a < unsub_idx.len() ==> {
                    &&& 0 <= #[trigger] unsub_idx[a] < i
                    &&& to_unsub@[a]@ == self.entries@[unsub_idx[a]].0@
                    &&& !self.entries@[unsub_idx[a]].1.active && self.entries@[unsub_idx[a]].1.subscribed
                },
                forall|a: int, b: int| 0 <= a < b < unsub_idx.len() ==> #[trigger] unsub_idx[a] < #[trigger] unsub_idx[b],
                forall|j: int| 0 <= j < i && !(#[trigger] self.entries@[j]).1.active && self.entries@[j].1.subscribed
                    ==> exists|a: int| 0 <= a < unsub_idx.len() && unsub_idx[a] == j,
            decreases self.entries@.len() - i,
        {
            let entry = self.entries[i].1;
            let ghost old_sub = sub_idx;
            let ghost old_unsub = unsub_idx;
            if entry.active && !entry.subscribed {
                to_sub.push((self.entries[i].0.clone(), entry.qos));
                proof {
                    sub_idx = sub_idx.push(i as int);
                }
            } else if !entry.active && entry.subscribed {
                to_unsub.push(self.entries[i].0.clone());
                proof {
                    unsub_idx = unsub_idx.push(i as int);
                }
            }
            proof {
                assert forall|j: int| 0 <= j < i + 1 && (#[trigger] self.entries@[j]).1.active && !self.entries@[j].1.subscribed
                    implies exists|a: int| 0 <= a < sub_idx.len() && sub_idx[a] == j by {
                    if j < i {
                        let a = choose|a: int| 0 <= a < old_sub.len() && old_sub[a] == j;
                        assert(sub_idx[a] == j);
                    } else {
                        assert(sub_idx[old_sub.len() as int] == j);
                    }
                }
                assert forall|j: int| 0 <= j < i + 1 && !(#[trigger] self.entries@[j]).1.active && self.entries@[j].1.subscribed
                    implies exists|a: int| 0 <= a < unsub_idx.len() && unsub_idx[a] == j by {
                    if j < i {
                        let a = choose|a: int| 0 <= a < old_unsub.len() && old_unsub[a] == j;
                        assert(unsub_idx[a] == j);
                    } else {
                        assert(unsub_idx[old_unsub.len() as int] == j);
                    }
                }
            }
            i = i + 1;
        }
        proof {
            let m = entries_map(self.entries@);
            assert forall|k: Seq<char>| needs_subscribe(m, k) <==> exists|a: int| 0 <= a < to_sub@.len() && (#[trigger] to_sub@[a]).0@ == k by {
                if needs_subscribe(m, k) {
                    let j = choose|j: int| 0 <= j < self.entries@.len() && self.entries@[j].0@ == k;
                    assert(m[self.entries@[j].0@] == self.entries@[j].1);
                    let a = choose|a: int| 0 <= a < sub_idx.len() && sub_idx[a] == j;
                    assert(to_sub@[a].0@ == k);
                }
                if exists|a: int| 0 <= a < to_sub@.len() && (#[trigger] to_sub@[a]).0@ == k {
                    let a = choose|a: int| 0 <= a < to_sub@.len() && (#[trigger] to_sub@[a]).0@ == k;
                    let j = sub_idx[a];
                    assert(m[self.entries@[j].0@] == self.entries@[j].1);
                }
            }
            assert forall|a: int| 0 <= a < to_sub@.len() implies needs_subscribe(m, (#[trigger] to_sub@[a]).0@)
                && to_sub@[a].1 == m[to_sub@[a].0@].qos by {
                let j = sub_idx[a];
                assert(m[self.entries@[j].0@] == self.entries@[j].1);
            }
            assert forall|a: int, b: int| 0 <= a < b < to_sub@.len() implies (#[trigger] to_sub@[a]).0@ != (#[trigger] to_sub@[b]).0@ by {
                assert(sub_idx[a] < sub_idx[b]);
            }
            assert forall|k: Seq<char>| needs_unsubscribe(m, k) <==> exists|a: int| 0 <= a < to_unsub@.len() && (#[trigger] to_unsub@[a])@ == k by {
                if needs_unsubscribe(m, k) {
                    let j = choose|j: int| 0 <= j < self.entries@.len() && self.entries@[j].0@ == k;
                    assert(m[self.entries@[j].0@] == self.entries@[j].1);
                    assert(!self.entries@[j].1.active && self.entries@[j].1.subscribed);
                    let a = choose|a: int| 0 <= a < unsub_idx.len() && unsub_idx[a] == j;
                    assert(to_unsub@[a]@ == k);
                }
                if exists|a: int| 0 <= a < to_unsub@.len() && (#[trigger] to_unsub@[a])@ == k {
                    let a = choose|a: int| 0 <= a < to_unsub@.len() && (#[trigger] to_unsub@[a])@ == k;
                    let j = unsub_idx[a];
                    assert(0 <= j < self.entries@.len());
                    assert(to_unsub@[a]@ == self.entries@[j].0@);
                    assert(m[self.entries@[j].0@] == self.entries@[j].1);
                    assert(m.dom().contains(k));
                }
            }
            assert forall|a: int, b: int| 0 <= a < b < to_unsub@.len() implies (#[trigger] to_unsub@[a])@ != (#[trigger] to_unsub@[b])@ by {
                assert(unsub_idx[a] < unsub_idx[b]);
            }
        }
        let plan = SubscriptionPlan { to_sub, to_unsub };
        proof {
            assert(plan.to_unsub@ == to_unsub@);
            assert forall|k: Seq<char>| needs_unsubscribe(self.view(), k) implies exists|i: int| 0 <= i < plan.to_unsub@.len() && (#[trigger] plan.to_unsub@[i])@ == k by {
                assert(exists|a: int| 0 <= a < to_unsub@.len() && (#[trigger] to_unsub@[a])@ == k);
            }
        }
        plan
    }
}


// ---------------------------------------------------------------------------
// Building and updating the table from the topology
// ---------------------------------------------------------------------------

/// Adds a required, subscribed entry for `t`.
fn add_required(subs: &mut Subscriptions, t: &Topic, Ghost(prefix): Ghost<Seq<Topic>>)
    requires
        old(subs).well_formed(),
        old(subs).view() == collected(prefix),
    ensures
        final(subs).well_formed(),
        final(subs).view() == collected(prefix.push(*t)),
{
    proof {
        assert(prefix.push(*t).drop_last() =~= prefix);
    }
    subs.insert(t.topic.clone(), SubEntry { active: true, subscribed: true, qos: cast_qos(&t.qos) });
}

/// Adds the hub topics of network `n`.
fn add_network(subs: &mut Subscriptions, n: &Network, Ghost(prefix): Ghost<Seq<Topic>>)
    requires
        old(subs).well_formed(),
        old(subs).view() == collected(prefix),
    ensures
        final(subs).well_formed(),
        final(subs).view() == collected(prefix + network_sub_topics(*n)),
{
    let ghost p0 = prefix;
    add_required(subs, &n.topic_hub_state, Ghost(p0));
    let ghost p1 = p0.push(n.topic_hub_state);
    add_required(subs, &n.topic_data, Ghost(p1));
    let ghost p2 = p1.push(n.topic_data);
    add_required(subs, &n.topic_monitor, Ghost(p2));
    let ghost p3 = p2.push(n.topic_monitor);
    add_required(subs, &n.topic_alert_air, Ghost(p3));
    let ghost p4 = p3.push(n.topic_alert_air);
    add_required(subs, &n.topic_alert_temp, Ghost(p4));
    let ghost p5 = p4.push(n.topic_alert_temp);
    add_required(subs, &n.topic_hub_firmware_ok, Ghost(p5));
    let ghost p6 = p5.push(n.topic_hub_firmware_ok);
    add_required(subs, &n.topic_balance_mode_handshake, Ghost(p6));
    let ghost p7 = p6.push(n.topic_balance_mode_handshake);
    add_required(subs, &n.topic_hub_setting_ok, Ghost(p7));
    let ghost p8 = p7.push(n.topic_hub_setting_ok);
    add_required(subs, &n.topic_setting, Ghost(p8));
    let ghost p9 = p8.push(n.topic_setting);
    add_required(subs, &n.topic_queue_empty, Ghost(p9));
    let ghost p10 = p9.push(n.topic_queue_empty);
    add_required(subs, &n.topic_queue_empty_safe, Ghost(p10));
    let ghost p11 = p10.push(n.topic_queue_empty_safe);
    proof {
        assert(p11 =~= prefix + network_sub_topics(*n));
    }
}

/// The subscription table at start-up: every topic the gateway listens to
/// (linkage requests, then the hub topics of each network), each required
/// and subscribed with the quality of service of its configuration.
pub fn collect_subscriptions(manager: &NetworkManager) -> (r: Subscriptions)
    ensures
        r.well_formed(),
        r.view() == collected(required_topics(*manager)),
{
    let mut subs = Subscriptions::new();
    add_required(&mut subs, &manager.topic_linkage_request, Ghost(Seq::empty()));
    let ghost head = seq![manager.topic_linkage_request];
    proof {
        assert(Seq::<Topic>::empty().push(manager.topic_linkage_request) =~= head);
        assert(networks_sub_topics(manager.networks@.subrange(0, 0)) =~= Seq::<Topic>::empty());
        assert(head + Seq::<Topic>::empty() =~= head);
    }
    let mut i: usize = 0;
    while i < manager.networks.len()
        invariant
            i <= manager.networks@.len(),
            subs.well_formed(),
            head == seq![manager.topic_linkage_request],
            subs.view() == collected(head + networks_sub_topics(manager.networks@.subrange(0, i as int))),
        decreases manager.networks@.len() - i,
    {
        let ghost before = head + networks_sub_topics(manager.networks@.subrange(0, i as int));
        add_network(&mut subs, &manager.networks[i], Ghost(before));
        proof {
            let nets = manager.networks@.subrange(0, i as int + 1);
            assert(nets.drop_last() =~= manager.networks@.subrange(0, i as int));
            assert(nets.last() == manager.networks@[i as int]);
            assert(before + network_sub_topics(manager.networks@[i as int])
                =~= head + networks_sub_topics(nets));
        }
        i = i + 1;
    }
    proof {
        assert(manager.networks@.subrange(0, manager.networks@.len() as int) =~= manager.networks@);
    }
    subs
}

/// Marks `t` as required.
fn touch_required(subs: &mut Subscriptions, t: &Topic, Ghost(start): Ghost<Map<Seq<char>, SubEntry>>, Ghost(prefix): Ghost<Seq<Topic>>)
    requires
        old(subs).well_formed(),
        old(subs).view() == touched(start, prefix),
    ensures
        final(subs).well_formed(),
        final(subs).view() == touched(start, prefix.push(*t)),
{
    proof {
        assert(prefix.push(*t).drop_last() =~= prefix);
    }
    subs.all_topics(&t.topic, t.qos);
    proof {
        assert(Topic { topic: t.topic, qos: t.qos } == *t);
    }
}

/// Marks the hub topics of network `n` as required.
fn touch_network(subs: &mut Subscriptions, n: &Network, Ghost(start): Ghost<Map<Seq<char>, SubEntry>>, Ghost(prefix): Ghost<Seq<Topic>>)
    requires
        old(subs).well_formed(),
        old(subs).view() == touched(start, prefix),
    ensures
        final(subs).well_formed(),
        final(subs).view() == touched(start, prefix + network_sub_topics(*n)),
{
    let ghost p0 = prefix;
    touch_required(subs, &n.topic_hub_state, Ghost(start), Ghost(p0));
    let ghost p1 = p0.push(n.topic_hub_state);
    touch_required(subs, &n.topic_data, Ghost(start), Ghost(p1));
    let ghost p2 = p1.push(n.topic_data);
    touch_required(subs, &n.topic_monitor, Ghost(start), Ghost(p2));
    let ghost p3 = p2.push(n.topic_monitor);
    touch_required(subs, &n.topic_alert_air, Ghost(start), Ghost(p3));
    let ghost p4 = p3.push(n.topic_alert_air);
    touch_required(subs, &n.topic_alert_temp, Ghost(start), Ghost(p4));
    let ghost p5 = p4.push(n.topic_alert_temp);
    touch_required(subs, &n.topic_hub_firmware_ok, Ghost(start), Ghost(p5));
    let ghost p6 = p5.push(n.topic_hub_firmware_ok);
    touch_required(subs, &n.topic_balance_mode_handshake, Ghost(start), Ghost(p6));
    let ghost p7 = p6.push(n.topic_balance_mode_handshake);
    touch_required(subs, &n.topic_hub_setting_ok, Ghost(start), Ghost(p7));
    let ghost p8 = p7.push(n.topic_hub_setting_ok);
    touch_required(subs, &n.topic_setting, Ghost(start), Ghost(p8));
    let ghost p9 = p8.push(n.topic_setting);
    touch_required(subs, &n.topic_queue_empty, Ghost(start), Ghost(p9));
    let ghost p10 = p9.push(n.topic_queue_empty);
    touch_required(subs, &n.topic_queue_empty_safe, Ghost(start), Ghost(p10));
    let ghost p11 = p10.push(n.topic_queue_empty_safe);
    proof {
        assert(p11 =~= prefix + network_sub_topics(*n));
    }
}

/// Follows a change of the topology: every topic is marked as not required,
/// the topics of the manager (the linkage requests, then the hub topics of
/// every network) are marked as required again (new ones are added, not yet
/// subscribed), and the requests owed to the broker are returned.
pub fn update_subscriptions(manager: &NetworkManager, subs: &mut Subscriptions) -> (plan: SubscriptionPlan)
    requires
        old(subs).well_formed(),
    ensures
        final(subs).well_formed(),
        final(subs).view() == touched(deactivated(old(subs).view()), required_topics(*manager)),
        forall|k: Seq<char>| needs_subscribe(final(subs).view(), k) <==> exists|i: int| 0 <= i < plan.to_sub@.len() && (#[trigger] plan.to_sub@[i]).0@ == k,
        forall|i: int| 0 <= i < plan.to_sub@.len() ==> needs_subscribe(final(subs).view(), (#[trigger] plan.to_sub@[i]).0@)
            && plan.to_sub@[i].1 == final(subs).view()[plan.to_sub@[i].0@].qos,
        forall|i: int, j: int| 0 <= i < j < plan.to_sub@.len() ==> (#[trigger] plan.to_sub@[i]).0@ != (#[trigger] plan.to_sub@[j]).0@,
        forall|k: Seq<char>| needs_unsubscribe(final(subs).view(), k) <==> exists|i: int| 0 <= i < plan.to_unsub@.len() && (#[trigger] plan.to_unsub@[i])@ == k,
        forall|i: int, j: int| 0 <= i < j < plan.to_unsub@.len() ==> (#[trigger] plan.to_unsub@[i])@ != (#[trigger] plan.to_unsub@[j])@,
{
    subs.mark_all_inactive();
    let ghost start = subs.view();
    proof {
        assert(touched(start, Seq::<Topic>::empty()) == start);
    }
    touch_required(subs, &manager.topic_linkage_request, Ghost(start), Ghost(Seq::empty()));
    let ghost head = seq![manager.topic_linkage_request];
    proof {
        assert(Seq::<Topic>::empty().push(manager.topic_linkage_request) =~= head);
        assert(networks_sub_topics(manager.networks@.subrange(0, 0)) =~= Seq::<Topic>::empty());
        assert(head + Seq::<Topic>::empty() =~= head);
    }
    let mut i: usize = 0;
    while i < manager.networks.len()
        invariant
            i <= manager.networks@.len(),
            subs.well_formed(),
            head == seq![manager.topic_linkage_request],
            subs.view() == touched(start, head + networks_sub_topics(manager.networks@.subrange(0, i as int))),
        decreases manager.networks@.len() - i,
    {
        let ghost before = head + networks_sub_topics(manager.networks@.subrange(0, i as int));
        touch_network(subs, &manager.networks[i], Ghost(start), Ghost(before));
        proof {
            let nets = manager.networks@.subrange(0, i as int + 1);
            assert(nets.drop_last() =~= manager.networks@.subrange(0, i as int));
            assert(nets.last() == manager.networks@[i as int]);
            assert(before + network_sub_topics(manager.networks@[i as int])
                =~= head + networks_sub_topics(nets));
        }
        i = i + 1;
    }
    proof {
        assert(manager.networks@.subrange(0, manager.networks@.len() as int) =~= manager.networks@);
    }
    subs.diff()
}

// ---------------------------------------------------------------------------
// Laws of the table
// ---------------------------------------------------------------------------

/// Marking topics as required keeps every known topic with its subscription
/// state, adds the new ones unsubscribed, and leaves required exactly the
/// marked topics and those required before.
pub proof fn lemma_touched(m: Map<Seq<char>, SubEntry>, topics: Seq<Topic>)
    ensures
        forall|k: Seq<char>| #[trigger] touched(m, topics).dom().contains(k) <==> (m.dom().contains(k) || topic_names(topics).contains(k)),
        forall|k: Seq<char>| #[trigger] touched(m, topics).dom().contains(k) ==>
            (touched(m, topics)[k].active <==> (topic_names(topics).contains(k) || (m.dom().contains(k) && m[k].active))),
        forall|k: Seq<char>| #[trigger] m.dom().contains(k) ==> touched(m, topics)[k].subscribed == m[k].subscribed,
        forall|k: Seq<char>| #[trigger] touched(m, topics).dom().contains(k) && !m.dom().contains(k) ==> !touched(m, topics)[k].subscribed,
    decreases topics.len(),
{
    if topics.len() > 0 {
        let prefix = topics.drop_last();
        let t = topics.last();
        lemma_touched(m, prefix);
        assert forall|k: Seq<char>| topic_names(topics).contains(k) <==> (topic_names(prefix).contains(k) || k == t.topic@) by {
            if topic_names(topics).contains(k) {
                let i = choose|i: int| 0 <= i < topics.len() && (#[trigger] topics[i]).topic@ == k;
                if i < topics.len() - 1 {
                    assert(prefix[i] == topics[i]);
                }
            }
            if topic_names(prefix).contains(k) {
                let i = choose|i: int| 0 <= i < prefix.len() && (#[trigger] prefix[i]).topic@ == k;
                assert(topics[i] == prefix[i]);
            }
            if k == t.topic@ {
                assert(topics[topics.len() - 1].topic@ == k);
            }
        }
    } else {
        assert forall|k: Seq<char>| !topic_names(topics).contains(k) by {}
    }
}

/// Once the broker accepted every request of an update, the subscribed
/// topics are exactly the topics required by the topology (the linkage
/// requests and the hub topics of the current networks), whatever the table
/// held before.
pub proof fn law_update_settles_on_required(m: Map<Seq<char>, SubEntry>, topics: Seq<Topic>)
    ensures
        forall|k: Seq<char>|
            (#[trigger] settled(touched(deactivated(m), topics)).dom().contains(k) && settled(touched(deactivated(m), topics))[k].subscribed)
                <==> topic_names(topics).contains(k),
{
    let d = deactivated(m);
    let p = touched(d, topics);
    lemma_touched(d, topics);
    assert forall|k: Seq<char>|
        (#[trigger] settled(p).dom().contains(k) && settled(p)[k].subscribed) <==> topic_names(topics).contains(k) by {
        if topic_names(topics).contains(k) {
            assert(p.dom().contains(k));
            assert(p[k].active);
        }
        if settled(p).dom().contains(k) && settled(p)[k].subscribed {
            assert(p.dom().contains(k));
            if !p[k].active {
                assert(!needs_unsubscribe(p, k));
            }
        }
    }
}

/// Topics that stay required keep their subscription across an update: the
/// broker is not asked to subscribe them again.
pub proof fn law_kept_topics_not_resubscribed(m: Map<Seq<char>, SubEntry>, topics: Seq<Topic>, k: Seq<char>)
    requires
        m.dom().contains(k),
        m[k].subscribed,
        topic_names(topics).contains(k),
    ensures
        !needs_subscribe(touched(deactivated(m), topics), k),
        !needs_unsubscribe(touched(deactivated(m), topics), k),
{
    lemma_touched(deactivated(m), topics);
    assert(deactivated(m).dom().contains(k));
    assert(deactivated(m)[k].subscribed);
    assert(touched(deactivated(m), topics).dom().contains(k));
}


// ---------------------------------------------------------------------------
// Life cycle of the client
// ---------------------------------------------------------------------------

/// Life cycle of the MQTT client.
#[derive(Debug, Clone, Copy, PartialEq, Eq, Structural)]
pub enum StateClient {
    /// Waiting for the topology to be loaded.
    Waiting,
    /// Creating the client and subscribing to the start-up table.
    Init,
    /// Connected: relaying messages in both directions.
    Work,
    /// Failed: waiting before creating the client again.
    Error,
}

/// What the client task observed.
#[derive(Debug)]
pub enum ClientEvent {
    Command(MqttServiceCommand),
    /// The client was created and the broker accepted every subscription of
    /// the start-up table (`true`), or not.
    Ready(bool),
    /// A message published by a hub.
    Incoming(PayloadTopic),
    /// The broker acknowledged the connection.
    ConnAck,
    /// Any other notification of the connection (pings, acknowledgements).
    Notification,
    /// The connection to the broker failed.
    ConnectionLost,
    /// A message to publish.
    Outgoing(SerializedMessage),
    /// The channel of messages to publish was closed.
    OutgoingClosed,
    /// The pause after a failure elapsed.
    RetryElapsed,
    Shutdown,
}

/// What the client task does next.
#[derive(Debug)]
pub enum ClientAction {
    Nothing,
    /// Create the client and subscribe to `collect_subscriptions`, then
    /// report `ClientEvent::Ready`.
    Connect,
    /// Follow the topology with `update_subscriptions`.
    UpdateSubscriptions,
    /// Tell the core.
    Report(InternalEvent),
    /// Publish the message with this quality of service.
    Publish(SerializedMessage, Qos),
    /// Stop the task.
    Exit,
}

pub open spec fn spec_mqtt_step(state: StateClient, event: ClientEvent) -> (StateClient, ClientAction) {
    match (state, event) {
        (StateClient::Waiting, ClientEvent::Command(MqttServiceCommand::NetworksReady)) => (StateClient::Init, ClientAction::Connect),
        (StateClient::Init, ClientEvent::Ready(ok)) => (if ok { StateClient::Work } else { StateClient::Error }, ClientAction::Nothing),
        (StateClient::Work, ClientEvent::Shutdown) | (StateClient::Error, ClientEvent::Shutdown) => (state, ClientAction::Exit),
        (StateClient::Work, ClientEvent::Command(MqttServiceCommand::NetworksUpdated)) => (state, ClientAction::UpdateSubscriptions),
        (StateClient::Work, ClientEvent::Incoming(p)) => (state, ClientAction::Report(InternalEvent::IncomingMessage(p))),
        (StateClient::Work, ClientEvent::ConnAck) => (state, ClientAction::Report(InternalEvent::LocalConnected)),
        (StateClient::Work, ClientEvent::ConnectionLost) => (StateClient::Error, ClientAction::Report(InternalEvent::LocalDisconnected)),
        (StateClient::Work, ClientEvent::Outgoing(m)) => (state, ClientAction::Publish(m, spec_cast_qos(m.spec_qos()))),
        (StateClient::Work, ClientEvent::OutgoingClosed) => (StateClient::Error, ClientAction::Nothing),
        (StateClient::Error, ClientEvent::RetryElapsed) => (StateClient::Init, ClientAction::Connect),
        _ => (state, ClientAction::Nothing),
    }
}

/// One step of the client's life cycle. Waiting, it starts on the first
/// `NetworksReady`. After the start-up it works, or fails when a subscription
/// was refused. Working, it relays hub messages and connection
/// acknowledgements to the core, publishes outgoing messages, follows
/// topology updates, and fails when the connection is lost (telling the core
/// the local broker is gone) or the outgoing channel closes. Failed, it
/// starts again once the pause elapsed. Working or failed, it stops on
/// shutdown. Anything else leaves the state as it is and does nothing.
pub fn mqtt_step(state: StateClient, event: ClientEvent) -> (r: (StateClient, ClientAction))
    ensures
        r == spec_mqtt_step(state, event),
{
    match state {
        StateClient::Waiting => match event {
            ClientEvent::Command(MqttServiceCommand::NetworksReady) => (StateClient::Init, ClientAction::Connect),
            _ => (state, ClientAction::Nothing),
        },
        StateClient::Init => match event {
            ClientEvent::Ready(ok) => {
                if ok {
                    (StateClient::Work, ClientAction::Nothing)
                } else {
                    (StateClient::Error, ClientAction::Nothing)
                }
            },
            _ => (state, ClientAction::Nothing),
        },
        StateClient::Work => match event {
            ClientEvent::Shutdown => (state, ClientAction::Exit),
            ClientEvent::Command(MqttServiceCommand::NetworksUpdated) => (state, ClientAction::UpdateSubscriptions),
            ClientEvent::Incoming(p) => (state, ClientAction::Report(InternalEvent::IncomingMessage(p))),
            ClientEvent::ConnAck => (state, ClientAction::Report(InternalEvent::LocalConnected)),
            ClientEvent::ConnectionLost => (StateClient::Error, ClientAction::Report(InternalEvent::LocalDisconnected)),
            ClientEvent::Outgoing(m) => {
                let q = cast_qos(&m.get_qos());
                (state, ClientAction::Publish(m, q))
            },
            ClientEvent::OutgoingClosed => (StateClient::Error, ClientAction::Nothing),
            _ => (state, ClientAction::Nothing),
        },
        StateClient::Error => match event {
            ClientEvent::Shutdown => (state, ClientAction::Exit),
            ClientEvent::RetryElapsed => (StateClient::Init, ClientAction::Connect),
            _ => (state, ClientAction::Nothing),
        },
    }
}

/// Whatever happens, a failed client never publishes and only a shutdown or
/// the end of the pause moves it.
pub proof fn law_failed_client_only_retries(event: ClientEvent)
    ensures
        ({
            let (next, action) = spec_mqtt_step(StateClient::Error, event);
            !(action is Publish) && (next == StateClient::Error || (event is RetryElapsed && next == StateClient::Init))
        }),
{
}

/// A started client (working or failed) stops on shutdown and stays where it
/// is; and a client only ever stops because of a shutdown.
pub proof fn law_started_client_stops_on_shutdown(state: StateClient, event: ClientEvent)
    ensures
        (state == StateClient::Work || state == StateClient::Error) ==> ({
            let (next, action) = spec_mqtt_step(state, ClientEvent::Shutdown);
            action is Exit && next == state
        }),
        spec_mqtt_step(state, event).1 is Exit ==> event is Shutdown,
{
}

} // verus!
