//! Finite maps written as sequences of entries, where a later entry for a
//! key replaces an earlier one.

use vstd::prelude::*;

verus! {

/// The map that a sequence of key-value entries stands for.
pub open spec fn entries_map<K, V>(entries: Seq<(K, V)>) -> Map<K, V>
    decreases entries.len(),
{
    if entries.len() == 0 {
        Map::empty()
    } else {
        entries_map(entries.drop_last()).insert(entries.last().0, entries.last().1)
    }
}

/// Whether no entry after position `i` has the key `key`.
pub open spec fn none_after<K, V>(entries: Seq<(K, V)>, i: int, key: K) -> bool {
    forall|j: int| i < j < entries.len() ==> (#[trigger] entries[j]).0 != key
}

/// Appending an entry sets its key.
pub proof fn lemma_entries_push<K, V>(entries: Seq<(K, V)>, entry: (K, V))
    ensures
        entries_map(entries.push(entry)) == entries_map(entries).insert(entry.0, entry.1),
{
    assert(entries.push(entry).drop_last() =~= entries);
}

/// The last entry for a key gives the key's value.
pub proof fn lemma_entries_found<K, V>(entries: Seq<(K, V)>, i: int)
    requires
        0 <= i < entries.len(),
        none_after(entries, i, entries[i].0),
    ensures
        entries_map(entries).contains_key(entries[i].0),
        entries_map(entries)[entries[i].0] == entries[i].1,
    decreases entries.len(),
{
    if i < entries.len() - 1 {
        let front = entries.drop_last();
        assert(entries.last() == entries[entries.len() - 1]);
        assert forall|j: int| i < j < front.len() implies (#[trigger] front[j]).0
            != front[i].0 by {
            assert(front[j] == entries[j]);
        }
        lemma_entries_found(front, i);
    }
}

/// A key that no entry has is not in the map.
pub proof fn lemma_entries_absent<K, V>(entries: Seq<(K, V)>, key: K)
    requires
        none_after(entries, -1, key),
    ensures
        !entries_map(entries).contains_key(key),
    decreases entries.len(),
{
    if entries.len() > 0 {
        let front = entries.drop_last();
        assert(entries.last() == entries[entries.len() - 1]);
        assert forall|j: int| -1 < j < front.len() implies (#[trigger] front[j]).0 != key by {
            assert(front[j] == entries[j]);
        }
        lemma_entries_absent(front, key);
    }
}

/// Taking an entry out changes the map at most at that entry's key.
pub proof fn lemma_entries_remove<K, V>(entries: Seq<(K, V)>, i: int)
    requires
        0 <= i < entries.len(),
    ensures
        entries_map(entries.remove(i)).remove(entries[i].0) == entries_map(entries).remove(
            entries[i].0,
        ),
    decreases entries.len(),
{
    let key = entries[i].0;
    let front = entries.drop_last();
    if i == entries.len() - 1 {
        assert(entries.remove(i) =~= front);
        assert(entries_map(front).remove(key) =~= entries_map(entries).remove(key));
    } else {
        lemma_entries_remove(front, i);
        assert(entries.remove(i) =~= front.remove(i).push(entries.last()));
        lemma_entries_push(front.remove(i), entries.last());
        assert(entries_map(entries.remove(i)).remove(key) =~= entries_map(front).remove(
            key,
        ).insert(entries.last().0, entries.last().1).remove(key));
        assert(entries_map(entries.remove(i)).remove(key) =~= entries_map(entries).remove(key));
    }
}

/// Replacing the value of a key by taking an entry for it out and appending
/// a new one sets the key.
pub proof fn lemma_entries_replace<K, V>(entries: Seq<(K, V)>, i: int, value: V)
    requires
        0 <= i < entries.len(),
    ensures
        entries_map(entries.remove(i).push((entries[i].0, value))) == entries_map(entries).insert(
            entries[i].0,
            value,
        ),
{
    let key = entries[i].0;
    lemma_entries_remove(entries, i);
    lemma_entries_push(entries.remove(i), (key, value));
    assert(entries_map(entries.remove(i)).insert(key, value) =~= entries_map(
        entries.remove(i),
    ).remove(key).insert(key, value));
    assert(entries_map(entries).insert(key, value) =~= entries_map(entries).remove(key).insert(
        key,
        value,
    ));
}

} // verus!
