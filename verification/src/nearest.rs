//! The key nearest to a queried timestamp.
//!
//! Among the keys of a mapping, the nearest to a query is the one at the
//! least distance from it; of two keys at the same distance, the smaller.

use vstd::prelude::*;
use std::collections::HashMap;
use vstd::std_specs::iter::IteratorSpec;

verus! {

/// How far the timestamp `key` lies from `query`.
pub open spec fn distance(key: i64, query: i64) -> int {
    if key >= query {
        key - query
    } else {
        query - key
    }
}

/// Whether `key` answers `query` at least as well as `other`: it lies
/// nearer, or as near and is not the greater of the two.
pub open spec fn preferred(key: i64, other: i64, query: i64) -> bool {
    distance(key, query) < distance(other, query) || (distance(key, query) == distance(other, query)
        && key <= other)
}

/// Whether `key` is the one of `keys` that answers `query`: it is among
/// them and is preferred to each of them.
pub open spec fn is_nearest(keys: Set<i64>, query: i64, key: i64) -> bool {
    &&& keys.contains(key)
    &&& forall|other: i64| keys.contains(other) ==> preferred(key, other, query)
}

/// How far `key` lies from `query`. The difference of two `i64` fits in
/// an `i128`.
fn distance_of(key: i64, query: i64) -> (d: i128)
    ensures
        d == distance(key, query),
{
    if key >= query {
        key as i128 - query as i128
    } else {
        query as i128 - key as i128
    }
}

/// Whether `key` answers `query` better than `other`, which it differs
/// from.
fn improves(key: i64, other: i64, query: i64) -> (better: bool)
    ensures
        better == (preferred(key, other, query) && key != other),
{
    let d: i128 = distance_of(key, query);
    let e: i128 = distance_of(other, query);
    d < e || (d == e && key < other)
}

/// The key of `records` nearest to `query`, the smaller of two that are
/// equally near; `None` when there is no key.
///
/// Every key is looked at once, in whatever order the map hands them
/// out. The order makes no difference to the result.
pub fn get_closest_timestamp<V>(records: &HashMap<i64, V>, query: i64) -> (closest: Option<i64>)
    ensures
        match closest {
            None => records@.dom().is_empty(),
            Some(key) => is_nearest(records@.dom(), query, key),
        },
{
    broadcast use vstd::std_specs::hash::group_hash_axioms;

    let mut best: Option<i64> = None;
    for key in it: records.keys()
        invariant
            it.seq() == records.keys().remaining(),
            match best {
                None => it.index() == 0,
                Some(b) => {
                    &&& exists|j: int| 0 <= j < it.index() && *it.seq()[j] == b
                    &&& forall|j: int| 0 <= j < it.index() ==> preferred(b, *#[trigger] it.seq()[j], query)
                },
            },
    {
        let candidate: i64 = *key;
        best = match best {
            None => Some(candidate),
            Some(b) => if improves(candidate, b, query) {
                Some(candidate)
            } else {
                Some(b)
            },
        };
    }
    proof {
        let keys = records.keys().remaining();
        assert(keys.unref().to_set() == records@.dom());
        assert forall|other: i64| records@.dom().contains(other) implies exists|j: int|
            0 <= j < keys.len() && *keys[j] == other by {
            assert(keys.unref().contains(other));
            let j = choose|j: int| 0 <= j < keys.unref().len() && keys.unref()[j] == other;
            assert(*keys[j] == other);
        }
        match best {
            None => {
                assert(keys.len() == 0);
                assert(records@.dom() =~= Set::<i64>::empty());
            },
            Some(b) => {
                let j = choose|j: int| 0 <= j < keys.len() && *keys[j] == b;
                assert(keys.unref()[j] == b);
                assert(keys.unref().contains(b));
            },
        }
    }
    best
}

} // verus!
