//! An in-memory store of weather samples keyed by timestamp, with a
//! nearest-timestamp query.

pub mod error;
pub mod reading;
pub mod record;
pub mod nearest;
pub mod store;
pub mod facade;
pub mod laws;
