//! The ways an operation on the store can fail.

use vstd::prelude::*;

verus! {

/// Why a request to the store was turned down.
#[derive(Clone, Copy, Debug, PartialEq, Eq, Structural)]
pub enum StoreError {
    /// The record breaks one of the ranges its readings must lie in.
    Invalid,
    /// A query met a store that holds no record.
    NotFound,
    /// The lock around the store was found poisoned.
    LockFailure,
}

impl StoreError {
    /// A short text for the error, as a client would be told.
    pub fn message(&self) -> (text: &'static str)
        ensures
            text@ == Self::message_of(*self),
    {
        match self {
            StoreError::Invalid => "Reading out of range",
            StoreError::NotFound => "No data found",
            StoreError::LockFailure => "Store unavailable",
        }
    }

    /// The text that `message` returns for each error.
    pub open spec fn message_of(e: StoreError) -> Seq<char> {
        match e {
            StoreError::Invalid => "Reading out of range"@,
            StoreError::NotFound => "No data found"@,
            StoreError::LockFailure => "Store unavailable"@,
        }
    }
}

} // verus!
