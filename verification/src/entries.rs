//! Tables made from a list of entries, where a later entry replaces an
//! earlier one of the same key.

use vstd::prelude::*;

verus! {

/// The map that results from entering `entries` in order, each value
/// under its key.
pub open spec fn map_of<K, V>(entries: Seq<(K, V)>) -> Map<K, V>
    decreases entries.len(),
{
    if entries.len() == 0 {
        Map::empty()
    } else {
        map_of(entries.drop_last()).insert(entries.last().0, entries.last().1)
    }
}

/// One more entry at the end is one more insertion.
pub proof fn lemma_map_of_push<K, V>(entries: Seq<(K, V)>, key: K, value: V)
    ensures
        map_of(entries.push((key, value))) == map_of(entries).insert(key, value),
{
    assert(entries.push((key, value)).drop_last() =~= entries);
}

/// A key is in the map exactly if some entry has it.
pub proof fn lemma_map_of_keys<K, V>(entries: Seq<(K, V)>, key: K)
    ensures
        map_of(entries).contains_key(key) <==> exists|i: int|
            0 <= i < entries.len() && (#[trigger] entries[i]).0 == key,
    decreases entries.len(),
{
    if entries.len() > 0 {
        let earlier = entries.drop_last();
        lemma_map_of_keys(earlier, key);
        if map_of(entries).contains_key(key) {
            if entries.last().0 == key {
                assert(entries[entries.len() - 1].0 == key);
            } else {
                let i = choose|i: int| 0 <= i < earlier.len() && (#[trigger] earlier[i]).0 == key;
                assert(entries[i].0 == key);
            }
        } else {
            assert forall|i: int| 0 <= i < entries.len() implies (#[trigger] entries[i]).0
                != key by {
                if i < earlier.len() {
                    assert(earlier[i].0 != key);
                }
            }
        }
    }
}

/// The value of a key is that of the last entry with the key.
pub proof fn lemma_map_of_last_wins<K, V>(entries: Seq<(K, V)>, at: int)
    requires
        0 <= at < entries.len(),
        forall|later: int| at < later < entries.len() ==> (#[trigger] entries[later]).0 != entries[at].0,
    ensures
        map_of(entries).contains_key(entries[at].0),
        map_of(entries)[entries[at].0] == entries[at].1,
    decreases entries.len(),
{
    if at < entries.len() - 1 {
        let earlier = entries.drop_last();
        assert(entries[entries.len() - 1].0 != entries[at].0);
        assert forall|later: int| at < later < earlier.len() implies (#[trigger] earlier[later]).0
            != earlier[at].0 by {
            assert(entries[later].0 != entries[at].0);
        }
        lemma_map_of_last_wins(earlier, at);
    }
}

} // verus!
