//! Bookkeeping of a balance session: which hubs answered the handshake of the
//! current epoch, which hubs reported an empty queue, how many handshake
//! rounds were repeated, and the stage the session is in.
//!
//! Each hub is counted once: its first report is kept and later reports of
//! the same hub are ignored.

use crate::fsm::domain::StateOfSession;
use crate::system::records::{entries_map, keys_unique, lemma_entries_map};
use vstd::prelude::*;
use vstd::string::*;

verus! {

/// Reports kept per hub: the first report of each hub wins.
#[derive(Debug)]
pub struct FirstReports<V> {
    entries: Vec<(String, V)>,
}

impl<V: Copy> FirstReports<V> {
    /// The kept reports, by hub identifier.
    pub closed spec fn view(&self) -> Map<Seq<char>, V> {
        entries_map(self.entries@)
    }

    /// Each hub appears once.
    pub closed spec fn well_formed(&self) -> bool {
        keys_unique(self.entries@)
    }

    /// An empty record.
    pub fn new() -> (r: Self)
        ensures
            r.well_formed(),
            r.view() == Map::<Seq<char>, V>::empty(),
    {
        FirstReports { entries: Vec::new() }
    }

    /// Number of hubs that reported.
    pub fn len(&self) -> (r: usize)
        requires
            self.well_formed(),
        ensures
            r == self.view().dom().len(),
            self.view().dom().finite(),
    {
        proof {
            lemma_entries_map(self.entries@);
        }
        self.entries.len()
    }

    /// Whether hub `key` already reported.
    pub fn contains(&self, key: &String) -> (r: bool)
        requires
            self.well_formed(),
        ensures
            r == self.view().dom().contains(key@),
    {
        proof {
            lemma_entries_map(self.entries@);
        }
        let mut i: usize = 0;
        while i < self.entries.len()
            invariant
                self.well_formed(),
                i <= self.entries@.len(),
                forall|j: int| 0 <= j < i ==> (#[trigger] self.entries@[j]).0@ != key@,
            decreases self.entries@.len() - i,
        {
            if self.entries[i].0 == *key {
                proof {
                    lemma_entries_map(self.entries@);
                    assert(self.entries@[i as int].0@ == key@);
                }
                return true;
            }
            i = i + 1;
        }
        false
    }

    /// Keeps the report of `key` unless that hub already reported.
    pub fn insert_first(&mut self, key: String, value: V)
        requires
            old(self).well_formed(),
        ensures
            final(self).well_formed(),
            final(self).view() == if old(self).view().dom().contains(key@) {
                old(self).view()
            } else {
                old(self).view().insert(key@, value)
            },
    {
        if !self.contains(&key) {
            proof {
                lemma_entries_map(self.entries@);
            }
            let ghost before = self.entries@;
            self.entries.push((key, value));
            proof {
                assert(self.entries@.drop_last() =~= before);
                assert forall|i: int, j: int| 0 <= i < j < self.entries@.len() implies (#[trigger] self.entries@[i]).0@ != (#[trigger] self.entries@[j]).0@ by {
                    if j == self.entries@.len() - 1 {
                        assert(before[i] == self.entries@[i]);
                    } else {
                        assert(before[i] == self.entries@[i]);
                        assert(before[j] == self.entries@[j]);
                    }
                }
            }
        }
    }

    /// Forgets every report.
    pub fn clear(&mut self)
        ensures
            final(self).well_formed(),
            final(self).view() == Map::<Seq<char>, V>::empty(),
    {
        self.entries.clear();
    }
}

/// State of the balance session shared by the runtime tasks.
#[derive(Debug)]
pub struct UpdateSession {
    empty_hash: FirstReports<bool>,
    handshake_hash: FirstReports<u32>,
    state: StateOfSession,
    total_attempts: u64,
    epoch: u32,
}

impl UpdateSession {
    /// Hubs that reported an empty queue (with the reported flag).
    pub closed spec fn empties(&self) -> Map<Seq<char>, bool> {
        self.empty_hash.view()
    }

    /// Hubs that answered the handshake (with the epoch they answered).
    pub closed spec fn handshakes(&self) -> Map<Seq<char>, u32> {
        self.handshake_hash.view()
    }

    pub closed spec fn spec_state(&self) -> StateOfSession {
        self.state
    }

    /// Handshake rounds repeated since the last phase.
    pub closed spec fn attempts(&self) -> u64 {
        self.total_attempts
    }

    /// Balance epoch of the session.
    pub closed spec fn spec_epoch(&self) -> u32 {
        self.epoch
    }

    /// Each hub is recorded at most once in each record.
    pub closed spec fn well_formed(&self) -> bool {
        self.empty_hash.well_formed() && self.handshake_hash.well_formed()
    }

    /// A session with no report, no repeated round, epoch 0 and no stage.
    pub fn new() -> (r: Self)
        ensures
            r.well_formed(),
            r.empties() == Map::<Seq<char>, bool>::empty(),
            r.handshakes() == Map::<Seq<char>, u32>::empty(),
            r.spec_state() == StateOfSession::NoSession,
            r.attempts() == 0,
            r.spec_epoch() == 0,
    {
        UpdateSession {
            empty_hash: FirstReports::new(),
            handshake_hash: FirstReports::new(),
            state: StateOfSession::NoSession,
            total_attempts: 0,
            epoch: 0,
        }
    }

    pub fn reset_total_attempts(&mut self)
        requires
            old(self).well_formed(),
        ensures
            final(self).well_formed(),
            final(self).attempts() == 0,
            final(self).empties() == old(self).empties(),
            final(self).handshakes() == old(self).handshakes(),
            final(self).spec_state() == old(self).spec_state(),
            final(self).spec_epoch() == old(self).spec_epoch(),
    {
        self.total_attempts = 0;
    }

    pub fn reset_empty_hash(&mut self)
        requires
            old(self).well_formed(),
        ensures
            final(self).well_formed(),
            final(self).empties() == Map::<Seq<char>, bool>::empty(),
            final(self).handshakes() == old(self).handshakes(),
            final(self).attempts() == old(self).attempts(),
            final(self).spec_state() == old(self).spec_state(),
            final(self).spec_epoch() == old(self).spec_epoch(),
    {
        self.empty_hash.clear();
    }

    pub fn reset_handshake_hash(&mut self)
        requires
            old(self).well_formed(),
        ensures
            final(self).well_formed(),
            final(self).handshakes() == Map::<Seq<char>, u32>::empty(),
            final(self).empties() == old(self).empties(),
            final(self).attempts() == old(self).attempts(),
            final(self).spec_state() == old(self).spec_state(),
            final(self).spec_epoch() == old(self).spec_epoch(),
    {
        self.handshake_hash.clear();
    }

    /// Records that hub `key` reported an empty queue, unless it already did.
    pub fn insert_empty(&mut self, key: String, value: bool)
        requires
            old(self).well_formed(),
        ensures
            final(self).well_formed(),
            final(self).empties() == if old(self).empties().dom().contains(key@) {
                old(self).empties()
            } else {
                old(self).empties().insert(key@, value)
            },
            final(self).handshakes() == old(self).handshakes(),
            final(self).attempts() == old(self).attempts(),
            final(self).spec_state() == old(self).spec_state(),
            final(self).spec_epoch() == old(self).spec_epoch(),
    {
        self.empty_hash.insert_first(key, value);
    }

    /// Records that hub `key` answered the handshake of epoch `value`, unless
    /// it already answered.
    pub fn insert_handshake(&mut self, key: String, value: u32)
        requires
            old(self).well_formed(),
        ensures
            final(self).well_formed(),
            final(self).handshakes() == if old(self).handshakes().dom().contains(key@) {
                old(self).handshakes()
            } else {
                old(self).handshakes().insert(key@, value)
            },
            final(self).empties() == old(self).empties(),
            final(self).attempts() == old(self).attempts(),
            final(self).spec_state() == old(self).spec_state(),
            final(self).spec_epoch() == old(self).spec_epoch(),
    {
        self.handshake_hash.insert_first(key, value);
    }

    pub fn set_state(&mut self, state: StateOfSession)
        requires
            old(self).well_formed(),
        ensures
            final(self).well_formed(),
            final(self).spec_state() == state,
            final(self).empties() == old(self).empties(),
            final(self).handshakes() == old(self).handshakes(),
            final(self).attempts() == old(self).attempts(),
            final(self).spec_epoch() == old(self).spec_epoch(),
    {
        self.state = state;
    }

    /// Counts one more repeated handshake round (saturating at the largest
    /// count).
    pub fn increment_attempts(&mut self)
        requires
            old(self).well_formed(),
        ensures
            final(self).well_formed(),
            final(self).attempts() == if old(self).attempts() < u64::MAX {
                (old(self).attempts() + 1) as u64
            } else {
                old(self).attempts()
            },
            final(self).empties() == old(self).empties(),
            final(self).handshakes() == old(self).handshakes(),
            final(self).spec_state() == old(self).spec_state(),
            final(self).spec_epoch() == old(self).spec_epoch(),
    {
        self.total_attempts = self.total_attempts.saturating_add(1);
    }

    pub fn get_state(&self) -> (r: StateOfSession)
        ensures
            r == self.spec_state(),
    {
        self.state
    }

    /// Number of hubs that answered the handshake.
    pub fn get_total_handshake(&self) -> (r: u64)
        requires
            self.well_formed(),
        ensures
            r == self.handshakes().dom().len(),
    {
        self.handshake_hash.len() as u64
    }

    pub fn get_total_attempts(&self) -> (r: u64)
        ensures
            r == self.attempts(),
    {
        self.total_attempts
    }

    /// Number of hubs that reported an empty queue.
    pub fn get_total_empty(&self) -> (r: u64)
        requires
            self.well_formed(),
        ensures
            r == self.empties().dom().len(),
    {
        self.empty_hash.len() as u64
    }

    pub fn get_epoch(&self) -> (r: u32)
        ensures
            r == self.spec_epoch(),
    {
        self.epoch
    }

    pub fn set_epoch(&mut self, epoch: u32)
        requires
            old(self).well_formed(),
        ensures
            final(self).well_formed(),
            final(self).spec_epoch() == epoch,
            final(self).empties() == old(self).empties(),
            final(self).handshakes() == old(self).handshakes(),
            final(self).attempts() == old(self).attempts(),
            final(self).spec_state() == old(self).spec_state(),
    {
        self.epoch = epoch;
    }
}

/// Answering twice counts once: a hub's repeated handshake or empty-queue
/// report leaves the record as the first report left it.
pub proof fn law_reports_counted_once<V>(m: Map<Seq<char>, V>, key: Seq<char>, first: V, again: V)
    ensures
        ({
            let once = if m.dom().contains(key) { m } else { m.insert(key, first) };
            let twice = if once.dom().contains(key) { once } else { once.insert(key, again) };
            twice == once && once.dom().contains(key)
        }),
{
}

} // verus!
