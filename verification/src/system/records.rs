//! Small keyed records held in vectors: a sequence of `(key, value)` pairs
//! read as a map from the key's characters to the value.

use vstd::prelude::*;

verus! {

/// No two entries share a key.
pub open spec fn keys_unique<V>(entries: Seq<(String, V)>) -> bool {
    forall|i: int, j: int| 0 <= i < j < entries.len() ==> (#[trigger] entries[i]).0@ != (#[trigger] entries[j]).0@
}

/// The entries as a map from key to value; a later entry of a key replaces
/// an earlier one.
pub open spec fn entries_map<V>(entries: Seq<(String, V)>) -> Map<Seq<char>, V>
    decreases entries.len(),
{
    if entries.len() == 0 {
        Map::empty()
    } else {
        entries_map(entries.drop_last()).insert(entries.last().0@, entries.last().1)
    }
}

/// The map of a sequence holds exactly its keys, with the value of each key's
/// entry, and (without repeated keys) as many keys as entries.
pub proof fn lemma_entries_map<V>(entries: Seq<(String, V)>)
    requires
        keys_unique(entries),
    ensures
        entries_map(entries).dom().finite(),
        entries_map(entries).dom().len() == entries.len(),
        forall|k: Seq<char>| #[trigger] entries_map(entries).dom().contains(k) <==> exists|i: int| 0 <= i < entries.len() && entries[i].0@ == k,
        forall|i: int| 0 <= i < entries.len() ==> #[trigger] entries_map(entries)[entries[i].0@] == entries[i].1,
    decreases entries.len(),
{
    if entries.len() > 0 {
        let prefix = entries.drop_last();
        assert(keys_unique(prefix));
        lemma_entries_map(prefix);
        let last = entries.last();
        assert(!entries_map(prefix).dom().contains(last.0@)) by {
            if entries_map(prefix).dom().contains(last.0@) {
                let i = choose|i: int| 0 <= i < prefix.len() && prefix[i].0@ == last.0@;
                assert(entries[i] == prefix[i]);
                assert(entries[entries.len() - 1] == last);
            }
        }
        assert forall|k: Seq<char>| #[trigger] entries_map(entries).dom().contains(k) <==> exists|i: int| 0 <= i < entries.len() && entries[i].0@ == k by {
            if entries_map(entries).dom().contains(k) {
                if k == last.0@ {
                    assert(entries[entries.len() - 1].0@ == k);
                } else {
                    let i = choose|i: int| 0 <= i < prefix.len() && prefix[i].0@ == k;
                    assert(entries[i] == prefix[i]);
                }
            }
            if exists|i: int| 0 <= i < entries.len() && entries[i].0@ == k {
                let i = choose|i: int| 0 <= i < entries.len() && entries[i].0@ == k;
                if i < entries.len() - 1 {
                    assert(prefix[i] == entries[i]);
                }
            }
        }
        assert forall|i: int| 0 <= i < entries.len() implies #[trigger] entries_map(entries)[entries[i].0@] == entries[i].1 by {
            if i < entries.len() - 1 {
                assert(prefix[i] == entries[i]);
                assert(entries[i].0@ != last.0@);
            }
        }
    }
}


/// Appending a new key adds it to the map.
pub proof fn lemma_entries_map_push<V>(entries: Seq<(String, V)>, key: String, value: V)
    requires
        keys_unique(entries),
        !entries_map(entries).dom().contains(key@),
    ensures
        keys_unique(entries.push((key, value))),
        entries_map(entries.push((key, value))) == entries_map(entries).insert(key@, value),
{
    lemma_entries_map(entries);
    let pushed = entries.push((key, value));
    assert(pushed.drop_last() =~= entries);
    assert forall|i: int, j: int| 0 <= i < j < pushed.len() implies (#[trigger] pushed[i]).0@ != (#[trigger] pushed[j]).0@ by {
        assert(pushed[i] == entries[i]);
        if j < entries.len() {
            assert(pushed[j] == entries[j]);
        }
    }
}

/// Replacing the value of an entry (under an equal key) replaces it in the
/// map.
pub proof fn lemma_entries_map_update<V>(entries: Seq<(String, V)>, i: int, key: String, value: V)
    requires
        keys_unique(entries),
        0 <= i < entries.len(),
        key@ == entries[i].0@,
    ensures
        keys_unique(entries.update(i, (key, value))),
        entries_map(entries.update(i, (key, value))) == entries_map(entries).insert(key@, value),
{
    let updated = entries.update(i, (key, value));
    assert forall|a: int, b: int| 0 <= a < b < updated.len() implies (#[trigger] updated[a]).0@ != (#[trigger] updated[b]).0@ by {
        assert(updated[a].0@ == entries[a].0@);
        assert(updated[b].0@ == entries[b].0@);
    }
    lemma_entries_map(entries);
    lemma_entries_map(updated);
    let m1 = entries_map(updated);
    let m2 = entries_map(entries).insert(key@, value);
    assert forall|k: Seq<char>| m1.dom().contains(k) <==> m2.dom().contains(k) by {
        if m1.dom().contains(k) {
            let j = choose|j: int| 0 <= j < updated.len() && updated[j].0@ == k;
            assert(entries[j].0@ == k);
        }
        if m2.dom().contains(k) && k != key@ {
            let j = choose|j: int| 0 <= j < entries.len() && entries[j].0@ == k;
            assert(updated[j].0@ == k);
        }
        if k == key@ {
            assert(updated[i].0@ == k);
        }
    }
    assert forall|k: Seq<char>| m1.dom().contains(k) implies m1[k] == m2[k] by {
        let j = choose|j: int| 0 <= j < updated.len() && updated[j].0@ == k;
        assert(m1[updated[j].0@] == updated[j].1);
        if j == i {
        } else {
            assert(updated[j] == entries[j]);
            assert(entries_map(entries)[entries[j].0@] == entries[j].1);
        }
    }
    assert(m1 =~= m2);
}

/// Removing an entry removes its key from the map.
pub proof fn lemma_entries_map_remove<V>(entries: Seq<(String, V)>, i: int)
    requires
        keys_unique(entries),
        0 <= i < entries.len(),
    ensures
        keys_unique(entries.remove(i)),
        entries_map(entries.remove(i)) == entries_map(entries).remove(entries[i].0@),
{
    let removed = entries.remove(i);
    let key = entries[i].0@;
    assert forall|a: int, b: int| 0 <= a < b < removed.len() implies (#[trigger] removed[a]).0@ != (#[trigger] removed[b]).0@ by {
        let a0 = if a < i { a } else { a + 1 };
        let b0 = if b < i { b } else { b + 1 };
        assert(removed[a] == entries[a0]);
        assert(removed[b] == entries[b0]);
    }
    lemma_entries_map(entries);
    lemma_entries_map(removed);
    let m1 = entries_map(removed);
    let m2 = entries_map(entries).remove(key);
    assert forall|k: Seq<char>| m1.dom().contains(k) <==> m2.dom().contains(k) by {
        if m1.dom().contains(k) {
            let j = choose|j: int| 0 <= j < removed.len() && removed[j].0@ == k;
            let j0 = if j < i { j } else { j + 1 };
            assert(removed[j] == entries[j0]);
            assert(entries[j0].0@ != key);
        }
        if m2.dom().contains(k) {
            let j = choose|j: int| 0 <= j < entries.len() && entries[j].0@ == k;
            assert(j != i);
            let j1 = if j < i { j } else { j - 1 };
            assert(removed[j1] == entries[j]);
        }
    }
    assert forall|k: Seq<char>| m1.dom().contains(k) implies m1[k] == m2[k] by {
        let j = choose|j: int| 0 <= j < removed.len() && removed[j].0@ == k;
        let j0 = if j < i { j } else { j + 1 };
        assert(removed[j] == entries[j0]);
        assert(m1[removed[j].0@] == removed[j].1);
        assert(entries_map(entries)[entries[j0].0@] == entries[j0].1);
    }
    assert(m1 =~= m2);
}

/// Position of the entry whose key has the characters of `key`.
pub fn find_key<V>(entries: &Vec<(String, V)>, key: &String) -> (r: Option<usize>)
    requires
        keys_unique(entries@),
    ensures
        match r {
            Some(i) => i < entries@.len() && entries@[i as int].0@ == key@,
            None => !entries_map(entries@).dom().contains(key@),
        },
{
    proof {
        lemma_entries_map(entries@);
    }
    let mut i: usize = 0;
    while i < entries.len()
        invariant
            keys_unique(entries@),
            i <= entries@.len(),
            forall|j: int| 0 <= j < i ==> (#[trigger] entries@[j]).0@ != key@,
        decreases entries@.len() - i,
    {
        if entries[i].0 == *key {
            return Some(i);
        }
        i = i + 1;
    }
    proof {
        lemma_entries_map(entries@);
    }
    None
}

} // verus!
