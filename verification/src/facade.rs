//! Shared access to one store.
//!
//! The facade keeps the store behind a lock. Each operation checks what
//! it can before it takes the lock, holds the lock for one call into the
//! store, and lets it go on every way out.

use vstd::prelude::*;
use std::sync::{Mutex, MutexGuard};
use crate::error::StoreError;
use crate::nearest::is_nearest;
use crate::record::{RecordView, WeatherRecord};
use crate::store::TimestampStore;

verus! {

/// `std::sync::Mutex`, taken as it is: nothing inside it is seen here.
#[verifier::external_type_specification]
#[verifier::external_body]
#[verifier::reject_recursive_types(T)]
pub struct ExMutex<T: ?Sized>(Mutex<T>);

/// `std::sync::MutexGuard`, taken as it is. The lock is held for as long
/// as the guard lives and let go when it is dropped.
#[verifier::external_type_specification]
#[verifier::external_body]
#[verifier::reject_recursive_types(T)]
pub struct ExMutexGuard<'a, T: ?Sized + 'a>(MutexGuard<'a, T>);

/// The store that the facade keeps behind its lock: one into which only
/// records with every reading in range have been put.
struct Vetted {
    store: TimestampStore,
}

impl Vetted {
    #[verifier::type_invariant]
    spec fn only_valid(self) -> bool {
        forall|key: i64| self.store@.contains_key(key) ==> (#[trigger] self.store@[key]).valid()
    }

    /// A vetted store that holds no record.
    fn new() -> (vetted: Vetted)
        ensures
            vetted.store@ == Map::<i64, RecordView>::empty(),
    {
        Vetted { store: TimestampStore::new() }
    }

    /// Puts `record`, whose readings are in range, into the store.
    ///
    /// The store is taken out, changed and set back, so that at no point
    /// a record out of range stands in it.
    fn file(&mut self, record: WeatherRecord)
        requires
            record@.valid(),
        ensures
            final(self).store@ == old(self).store@.insert(record.timestamp, record@),
    {
        proof {
            use_type_invariant(&*self);
        }
        let mut store = TimestampStore::new();
        std::mem::swap(&mut self.store, &mut store);
        store.put(record);
        std::mem::swap(&mut self.store, &mut store);
    }

    /// What `lookup` answers from the store. Where that is a record, its
    /// readings are in range.
    fn answer(&self, query: i64) -> (outcome: Result<WeatherRecord, StoreError>)
        ensures
            outcome is Err <==> self.store@ == Map::<i64, RecordView>::empty(),
            outcome matches Err(error) ==> error == StoreError::NotFound,
            outcome matches Ok(record) ==> record@.valid() && is_nearest(
                self.store@.dom(),
                query,
                record.timestamp,
            ) && self.store@[record.timestamp] == record@,
    {
        proof {
            use_type_invariant(self);
        }
        lookup(&self.store, query)
    }
}

/// `Mutex::new`: a lock around `store`. Nothing is claimed of it.
#[verifier::external_body]
fn lock_around(store: Vetted) -> Mutex<Vetted> {
    Mutex::new(store)
}

/// `Mutex::lock`: waits for the lock and takes it. `None` stands for a
/// poisoned lock. Nothing is claimed of what the guard gives access to:
/// other holders of the lock may have changed it. A thread that holds
/// the guard must not call this again before it drops the guard; `add`
/// and `get` each take the lock once and drop the guard on return.
#[verifier::external_body]
fn acquire<'a>(lock: &'a Mutex<Vetted>) -> Option<MutexGuard<'a, Vetted>> {
    lock.lock().ok()
}

/// `MutexGuard::deref`: the store that the lock is held for. Nothing is
/// claimed of what it holds.
#[verifier::external_body]
fn held<'a, 'b>(guard: &'b MutexGuard<'a, Vetted>) -> &'b Vetted {
    &**guard
}

/// `MutexGuard::deref_mut`: the store that the lock is held for, to
/// change. Nothing is claimed of what it holds.
#[verifier::external_body]
fn held_mut<'a, 'b>(guard: &'b mut MutexGuard<'a, Vetted>) -> &'b mut Vetted {
    &mut **guard
}

/// What `get` answers once it has the store in hand: a copy of the
/// record nearest to `query`, or `NotFound` where the store is empty.
pub fn lookup(store: &TimestampStore, query: i64) -> (outcome: Result<WeatherRecord, StoreError>)
    ensures
        outcome is Err <==> store@ == Map::<i64, RecordView>::empty(),
        outcome matches Err(error) ==> error == StoreError::NotFound,
        outcome matches Ok(record) ==> is_nearest(store@.dom(), query, record.timestamp)
            && store@[record.timestamp] == record@,
{
    match store.nearest(query) {
        None => Err(StoreError::NotFound),
        Some(record) => Ok(record),
    }
}

/// One store, shared by all who hold a reference to the facade.
pub struct AccessFacade {
    lock: Mutex<Vetted>,
}

impl AccessFacade {
    /// A facade over an empty store.
    ///
    /// The store that goes behind the lock is empty, as `TimestampStore::new`
    /// says. Of the lock itself nothing can be said: what it holds is for
    /// whoever takes it next to see.
    pub fn new() -> AccessFacade {
        AccessFacade { lock: lock_around(Vetted::new()) }
    }

    /// Files `record` in the store, in place of one with the same
    /// timestamp.
    ///
    /// A record with a reading out of range is turned down before the
    /// lock is touched. A poisoned lock fails the call. With the lock in
    /// hand the call is one `put`, whose contract says what becomes of
    /// the store; of the store that other holders of the facade see next,
    /// nothing can be said here.
    pub fn add(&self, record: WeatherRecord) -> (outcome: Result<(), StoreError>)
        ensures
            !record@.valid() ==> outcome == Err::<(), StoreError>(StoreError::Invalid),
            record@.valid() ==> outcome is Ok || outcome == Err::<(), StoreError>(StoreError::LockFailure),
    {
        if !record.is_valid() {
            return Err(StoreError::Invalid);
        }
        match acquire(&self.lock) {
            None => Err(StoreError::LockFailure),
            Some(mut guard) => {
                held_mut(&mut guard).file(record);
                Ok(())
            },
        }
    }

    /// A copy of the record nearest to `query`.
    ///
    /// An empty store gives `NotFound`. A poisoned lock fails the call.
    /// With the lock in hand the call is one `lookup`, whose contract says
    /// which record it is. Whatever the store holds by then, the record
    /// is one that `add` let in: its readings are in range.
    pub fn get(&self, query: i64) -> (outcome: Result<WeatherRecord, StoreError>)
        ensures
            outcome matches Err(error) ==> error == StoreError::NotFound || error
                == StoreError::LockFailure,
            outcome matches Ok(record) ==> record@.valid(),
    {
        match acquire(&self.lock) {
            None => Err(StoreError::LockFailure),
            Some(guard) => held(&guard).answer(query),
        }
    }
}

} // verus!
