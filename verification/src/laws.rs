//! What holds of the store whatever is added and whatever is asked.
//!
//! The laws are stated over the models that the operations' contracts
//! use: the map from timestamp to record that a store stands for, and
//! the set of its keys.

use vstd::prelude::*;
use crate::nearest::{distance, is_nearest, preferred};
use crate::record::RecordView;

verus! {

/// What one `add` leaves of the mapping: a record whose readings are in
/// range takes the place at its timestamp, any other changes nothing.
pub open spec fn add_effect(model: Map<i64, RecordView>, record: RecordView) -> Map<i64, RecordView> {
    if record.valid() {
        model.insert(record.timestamp, record)
    } else {
        model
    }
}

/// What a run of `add` calls, one for each of `records` in order, leaves
/// of a store that began empty.
pub open spec fn after_adds(records: Seq<RecordView>) -> Map<i64, RecordView>
    decreases records.len(),
{
    if records.len() == 0 {
        Map::empty()
    } else {
        add_effect(after_adds(records.drop_last()), records.last())
    }
}

/// Whether the `index`-th of `records` is one that `add` accepts.
pub open spec fn accepted(records: Seq<RecordView>, index: int) -> bool {
    0 <= index < records.len() && records[index].valid()
}

/// Whether the `index`-th of `records` is accepted and no accepted record
/// after it has the same timestamp.
pub open spec fn last_at_its_timestamp(records: Seq<RecordView>, index: int) -> bool {
    &&& accepted(records, index)
    &&& forall|later: int|
        index < later && #[trigger] accepted(records, later) ==> records[later].timestamp
            != records[index].timestamp
}

/// After any run of `add` calls the store holds a record at exactly the
/// timestamps of the accepted records, one at each, and that one is the
/// last accepted record with the timestamp.
pub proof fn lemma_adds_keep_the_last(records: Seq<RecordView>)
    ensures
        after_adds(records).dom().finite(),
        forall|key: i64|
            after_adds(records).contains_key(key) <==> exists|index: int|
                #[trigger] accepted(records, index) && records[index].timestamp == key,
        forall|index: int| #[trigger]
            last_at_its_timestamp(records, index) ==> after_adds(records).contains_key(
                records[index].timestamp,
            ) && after_adds(records)[records[index].timestamp] == records[index],
    decreases records.len(),
{
    if records.len() > 0 {
        let earlier = records.drop_last();
        let newest = records.last();
        let end = records.len() - 1;
        lemma_adds_keep_the_last(earlier);
        assert forall|index: int| accepted(earlier, index) == (accepted(records, index) && index
            != end) by {
            if 0 <= index < end {
                assert(earlier[index] == records[index]);
            }
        }
        assert forall|key: i64|
            after_adds(records).contains_key(key) <==> exists|index: int|
                #[trigger] accepted(records, index) && records[index].timestamp == key by {
            if after_adds(records).contains_key(key) {
                if newest.valid() && newest.timestamp == key {
                    assert(accepted(records, end));
                } else {
                    assert(after_adds(earlier).contains_key(key));
                    let index = choose|index: int| #[trigger]
                        accepted(earlier, index) && earlier[index].timestamp == key;
                    assert(accepted(records, index) && records[index].timestamp == key);
                }
            }
            if exists|index: int| #[trigger] accepted(records, index) && records[index].timestamp == key {
                let index = choose|index: int| #[trigger]
                    accepted(records, index) && records[index].timestamp == key;
                if index != end {
                    assert(accepted(earlier, index) && earlier[index].timestamp == key);
                }
            }
        }
        assert forall|index: int| #[trigger] last_at_its_timestamp(records, index) implies after_adds(
            records,
        ).contains_key(records[index].timestamp) && after_adds(records)[records[index].timestamp]
            == records[index] by {
            if index != end {
                assert(earlier[index] == records[index]);
                assert(accepted(earlier, index));
                assert forall|later: int|
                    index < later && #[trigger] accepted(earlier, later) implies earlier[later].timestamp
                    != earlier[index].timestamp by {
                    assert(accepted(records, later));
                    assert(earlier[later] == records[later]);
                }
                assert(last_at_its_timestamp(earlier, index));
                if newest.valid() {
                    assert(accepted(records, end));
                }
            }
        }
    }
}

/// Two accepted records with one timestamp, added one after the other,
/// leave what the second alone would have left: the first cannot be had
/// back.
pub proof fn lemma_second_add_replaces(model: Map<i64, RecordView>, first: RecordView, second: RecordView)
    requires
        first.timestamp == second.timestamp,
        second.valid(),
    ensures
        add_effect(add_effect(model, first), second) == add_effect(model, second),
        add_effect(add_effect(model, first), second)[second.timestamp] == second,
{
    assert(add_effect(add_effect(model, first), second) =~= add_effect(model, second));
}

/// Among finitely many keys, not none, one is nearest to any query.
pub proof fn lemma_nearest_exists(keys: Set<i64>, query: i64)
    requires
        keys.finite(),
        !keys.is_empty(),
    ensures
        exists|key: i64| is_nearest(keys, query, key),
    decreases keys.len(),
{
    let one = keys.choose();
    let rest = keys.remove(one);
    if rest.is_empty() {
        assert forall|other: i64| keys.contains(other) implies preferred(one, other, query) by {
            if other != one {
                assert(rest.contains(other));
            }
        }
        assert(is_nearest(keys, query, one));
    } else {
        lemma_nearest_exists(rest, query);
        let best = choose|key: i64| is_nearest(rest, query, key);
        let winner = if preferred(one, best, query) {
            one
        } else {
            best
        };
        assert forall|other: i64| keys.contains(other) implies preferred(winner, other, query) by {
            if other != one {
                assert(rest.contains(other));
                assert(preferred(best, other, query));
            }
        }
        assert(is_nearest(keys, query, winner));
    }
}

/// A key that is asked for by its own timestamp is the nearest.
pub proof fn lemma_own_timestamp_is_nearest(keys: Set<i64>, key: i64)
    requires
        keys.contains(key),
    ensures
        is_nearest(keys, key, key),
{
}

/// No two keys are both nearest to one query.
pub proof fn lemma_nearest_is_unique(keys: Set<i64>, query: i64, first: i64, second: i64)
    requires
        is_nearest(keys, query, first),
        is_nearest(keys, query, second),
    ensures
        first == second,
{
}

/// No key lies nearer to the query than the nearest one.
pub proof fn lemma_nearest_is_closest(keys: Set<i64>, query: i64, key: i64, other: i64)
    requires
        is_nearest(keys, query, key),
        keys.contains(other),
    ensures
        distance(key, query) <= distance(other, query),
{
}

/// Of two keys equally far from the query, with no key nearer, the
/// smaller is the nearest.
pub proof fn lemma_tie_goes_to_the_smaller(keys: Set<i64>, query: i64, smaller: i64, greater: i64)
    requires
        keys.contains(smaller),
        keys.contains(greater),
        smaller < greater,
        distance(smaller, query) == distance(greater, query),
        forall|other: i64| keys.contains(other) ==> distance(smaller, query) <= distance(other, query),
    ensures
        is_nearest(keys, query, smaller),
        !is_nearest(keys, query, greater),
{
}

/// Among no keys, none is nearest.
pub proof fn lemma_nothing_is_nearest_among_none(query: i64, key: i64)
    ensures
        !is_nearest(Set::<i64>::empty(), query, key),
{
}

} // verus!
