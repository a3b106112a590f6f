//! An in-memory record store for pets: a verified sequential core holding the
//! id-to-record mapping and the identifier counter, wrapped in a verified
//! reader-writer lock so that concurrent callers always observe a consistent,
//! fully-updated snapshot.

pub mod api;
pub mod laws;
pub mod pet;
pub mod registry;
pub mod storage;
pub mod store;
