//! The mapping from timestamp to weather record.

use vstd::prelude::*;
use std::collections::HashMap;
use crate::nearest::{get_closest_timestamp, is_nearest};
use crate::reading::Reading;
use crate::record::{Location, RecordView, WeatherRecord};

verus! {

/// What a record says beside its timestamp. The store keeps the
/// timestamp as the key only, so a record cannot be filed under a
/// timestamp that is not its own.
struct Sample {
    temperature: Reading,
    pressure: Reading,
    wind_speed: Reading,
    location: Location,
}

impl Sample {
    /// The record that this sample makes at `timestamp`.
    spec fn at(self, timestamp: i64) -> RecordView {
        RecordView {
            timestamp,
            temperature: self.temperature,
            pressure: self.pressure,
            wind_speed: self.wind_speed,
            location: self.location@,
        }
    }

    /// A copy of the sample as a record at `timestamp`.
    fn to_record(&self, timestamp: i64) -> (record: WeatherRecord)
        ensures
            record@ == self.at(timestamp),
    {
        WeatherRecord {
            timestamp,
            temperature: self.temperature,
            pressure: self.pressure,
            wind_speed: self.wind_speed,
            location: self.location.clone(),
        }
    }
}

/// The records held, one for each timestamp.
///
/// The model is a finite map from timestamp to record, in which each
/// record stands at its own timestamp.
pub struct TimestampStore {
    samples: HashMap<i64, Sample>,
}

impl View for TimestampStore {
    type V = Map<i64, RecordView>;

    closed spec fn view(&self) -> Map<i64, RecordView> {
        Map::new(|key: i64| self.samples@.contains_key(key), |key: i64| self.samples@[key].at(key))
    }
}

impl TimestampStore {
    /// Whether `model` can be what a store holds: finitely many records,
    /// each at its own timestamp.
    pub open spec fn well_formed(model: Map<i64, RecordView>) -> bool {
        &&& model.dom().finite()
        &&& forall|key: i64| #[trigger] model.contains_key(key) ==> model[key].timestamp == key
    }

    /// Every store is well formed.
    pub proof fn lemma_well_formed(self)
        ensures
            Self::well_formed(self@),
    {
        broadcast use vstd::std_specs::hash::group_hash_axioms;

        assert(self@.dom() =~= self.samples@.dom());
    }

    /// A store that holds no record.
    pub fn new() -> (store: TimestampStore)
        ensures
            store@ == Map::<i64, RecordView>::empty(),
    {
        let store = TimestampStore { samples: HashMap::new() };
        assert(store@ =~= Map::<i64, RecordView>::empty());
        store
    }

    /// Files `record` under its timestamp. A record that was there before
    /// under that timestamp is gone; every other record stays.
    pub fn put(&mut self, record: WeatherRecord)
        ensures
            final(self)@ == old(self)@.insert(record.timestamp, record@),
    {
        broadcast use vstd::std_specs::hash::group_hash_axioms;

        let ghost filed = record@;
        let sample = Sample {
            temperature: record.temperature,
            pressure: record.pressure,
            wind_speed: record.wind_speed,
            location: record.location,
        };
        self.samples.insert(record.timestamp, sample);
        assert(self@ =~= old(self)@.insert(filed.timestamp, filed));
    }

    /// A copy of the record whose timestamp is nearest to `query`, the
    /// earlier of two that are equally near; `None` when the store holds
    /// no record.
    pub fn nearest(&self, query: i64) -> (found: Option<WeatherRecord>)
        ensures
            found is None <==> self@ == Map::<i64, RecordView>::empty(),
            found matches Some(record) ==> is_nearest(self@.dom(), query, record.timestamp)
                && self@[record.timestamp] == record@,
    {
        broadcast use vstd::std_specs::hash::group_hash_axioms;

        assert(self@.dom() =~= self.samples@.dom());
        match get_closest_timestamp(&self.samples, query) {
            None => {
                assert(self@ =~= Map::<i64, RecordView>::empty());
                None
            },
            Some(key) => match self.samples.get(&key) {
                None => None,
                Some(sample) => Some(sample.to_record(key)),
            },
        }
    }

    /// A copy of the record filed under exactly `timestamp`, if there is
    /// one.
    pub fn record_at(&self, timestamp: i64) -> (found: Option<WeatherRecord>)
        ensures
            match found {
                None => !self@.contains_key(timestamp),
                Some(record) => self@.contains_key(timestamp) && self@[timestamp] == record@,
            },
    {
        broadcast use vstd::std_specs::hash::group_hash_axioms;

        match self.samples.get(&timestamp) {
            None => None,
            Some(sample) => Some(sample.to_record(timestamp)),
        }
    }

    /// How many records the store holds.
    pub fn len(&self) -> (count: usize)
        ensures
            count == self@.dom().len(),
    {
        broadcast use vstd::std_specs::hash::group_hash_axioms;

        assert(self@.dom() =~= self.samples@.dom());
        self.samples.len()
    }

    /// Whether the store holds no record.
    pub fn is_empty(&self) -> (empty: bool)
        ensures
            empty == (self@ == Map::<i64, RecordView>::empty()),
    {
        broadcast use vstd::std_specs::hash::group_hash_axioms;

        assert(self@.dom() =~= self.samples@.dom());
        let empty = self.samples.is_empty();
        proof {
            if empty {
                assert(self@ =~= Map::<i64, RecordView>::empty());
            }
        }
        empty
    }
}

} // verus!
