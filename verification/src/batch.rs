//! The mathematical model of a batch write: a dataset applied to a map
//! in order, later entries for a key overwriting earlier ones.

use vstd::prelude::*;

verus! {

/// The map that results from applying every pair of `data`, in order,
/// to `m`. A pair `(k, v)` sets key `k` to value `v`; within `data` a
/// later pair for the same key wins.
pub open spec fn apply_batch(m: Map<u64, u64>, data: Seq<(u64, u64)>) -> Map<u64, u64>
    decreases data.len(),
{
    if data.len() == 0 {
        m
    } else {
        apply_batch(m, data.drop_last()).insert(data.last().0, data.last().1)
    }
}

/// The contents of a store that holds nothing.
pub open spec fn empty_contents() -> Map<u64, u64> {
    Map::empty()
}

/// Looking up `key` in `m`: the value when present, absence otherwise.
pub open spec fn lookup(m: Map<u64, u64>, key: u64) -> Option<u64> {
    if m.contains_key(key) {
        Some(m[key])
    } else {
        None
    }
}

/// A key that no pair of the batch carries keeps its prior binding:
/// the batch neither adds nor changes nor removes it.
pub proof fn lemma_batch_untouched_key(m: Map<u64, u64>, data: Seq<(u64, u64)>, key: u64)
    requires
        forall|j: int| 0 <= j < data.len() ==> (#[trigger] data[j]).0 != key,
    ensures
        lookup(apply_batch(m, data), key) == lookup(m, key),
    decreases data.len(),
{
    if data.len() > 0 {
        lemma_batch_untouched_key(m, data.drop_last(), key);
        assert(data.last() == data[data.len() - 1]);
    }
}

/// Last write wins: if `data[i]` carries `key` and no later pair does,
/// the batch leaves `key` bound to `data[i].1`.
pub proof fn lemma_last_write_wins(m: Map<u64, u64>, data: Seq<(u64, u64)>, i: int, key: u64)
    requires
        0 <= i < data.len(),
        data[i].0 == key,
        forall|j: int| i < j < data.len() ==> (#[trigger] data[j]).0 != key,
    ensures
        lookup(apply_batch(m, data), key) == Some(data[i].1),
    decreases data.len(),
{
    if i == data.len() - 1 {
        assert(data.last() == data[i]);
    } else {
        assert(data.last() == data[data.len() - 1]);
        lemma_last_write_wins(m, data.drop_last(), i, key);
    }
}

/// Round trip: a key written by the batch and not overwritten later
/// reads back as the written value. This is last-write-wins read at
/// the writing index.
pub proof fn lemma_round_trip(m: Map<u64, u64>, data: Seq<(u64, u64)>, i: int)
    requires
        0 <= i < data.len(),
        forall|j: int| i < j < data.len() ==> (#[trigger] data[j]).0 != data[i].0,
    ensures
        lookup(apply_batch(m, data), data[i].0) == Some(data[i].1),
{
    lemma_last_write_wins(m, data, i, data[i].0);
}

/// Absence: a key never written to a store populated only by `data`
/// reads back as absent, never as an error or a value.
pub proof fn lemma_absent_key(data: Seq<(u64, u64)>, key: u64)
    requires
        forall|j: int| 0 <= j < data.len() ==> (#[trigger] data[j]).0 != key,
    ensures
        lookup(apply_batch(Map::empty(), data), key) is None,
{
    lemma_batch_untouched_key(Map::empty(), data, key);
}

} // verus!
