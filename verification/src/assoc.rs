//! Lists of values by id.  Where an id occurs more than once, the entry
//! that comes last counts.

use vstd::prelude::*;
use crate::text::same_text;

verus! {

/// The entries as a map from id to value.
pub open spec fn assoc_map<V>(entries: Seq<(String, V)>) -> Map<Seq<char>, V>
    decreases entries.len(),
{
    if entries.len() == 0 {
        Map::empty()
    } else {
        assoc_map(entries.drop_last()).insert(entries.last().0@, entries.last().1)
    }
}

/// An id that no entry from `from` on carries is looked up in the entries
/// before `from`.
pub proof fn lemma_assoc_skips<V>(entries: Seq<(String, V)>, id: Seq<char>, from: int)
    requires
        0 <= from <= entries.len(),
        forall|k: int| from <= k < entries.len() ==> (#[trigger] entries[k]).0@ != id,
    ensures
        assoc_map(entries).dom().contains(id) == assoc_map(entries.take(from)).dom().contains(id),
        assoc_map(entries).dom().contains(id) ==> assoc_map(entries)[id] == assoc_map(entries.take(from))[id],
    decreases entries.len(),
{
    if from == entries.len() {
        assert(entries.take(from) == entries);
    } else {
        lemma_assoc_skips(entries.drop_last(), id, from);
        assert(entries.drop_last().take(from) == entries.take(from));
    }
}

/// Replacing the value of the entry that counts for its id replaces the
/// value in the map.
pub proof fn lemma_assoc_update<V>(entries: Seq<(String, V)>, at: int, value: V)
    requires
        0 <= at < entries.len(),
        forall|k: int| at < k < entries.len() ==> (#[trigger] entries[k]).0@ != entries[at].0@,
    ensures
        assoc_map(entries.update(at, (entries[at].0, value))) == assoc_map(entries).insert(
            entries[at].0@,
            value,
        ),
    decreases entries.len(),
{
    let updated = entries.update(at, (entries[at].0, value));
    if at == entries.len() - 1 {
        assert(updated.drop_last() == entries.drop_last());
        assert(assoc_map(updated) =~= assoc_map(entries).insert(entries[at].0@, value));
    } else {
        lemma_assoc_update(entries.drop_last(), at, value);
        assert(updated.drop_last() == entries.drop_last().update(at, (entries[at].0, value)));
        assert(updated.last() == entries.last());
        assert(assoc_map(updated) =~= assoc_map(entries).insert(entries[at].0@, value));
    }
}

/// Position of the entry that counts for `id`.
pub fn assoc_find<V>(entries: &Vec<(String, V)>, id: &str) -> (at: Option<usize>)
    ensures
        at is Some == assoc_map(entries@).dom().contains(id@),
        at matches Some(i) ==> i < entries@.len() && entries@[i as int].0@ == id@ && entries@[i as int].1
            == assoc_map(entries@)[id@] && forall|k: int|
            i < k < entries@.len() ==> (#[trigger] entries@[k]).0@ != id@,
{
    let mut i: usize = entries.len();
    while i > 0
        invariant
            i <= entries@.len(),
            forall|k: int| i <= k < entries@.len() ==> (#[trigger] entries@[k]).0@ != id@,
        decreases i,
    {
        i -= 1;
        if same_text(entries[i].0.as_str(), id) {
            proof {
                lemma_assoc_skips(entries@, id@, i + 1);
                assert(entries@.take(i + 1).drop_last() == entries@.take(i as int));
            }
            return Some(i);
        }
    }
    proof {
        lemma_assoc_skips(entries@, id@, 0);
    }
    None
}

} // verus!
