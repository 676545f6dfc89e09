//! The single command of the core, with the state it orchestrates.

use vstd::prelude::*;

use crate::adapters::memory::MemoryDatabase;

pub mod add_points;

verus! {

/// The command handler: it owns the reference loyalty store and consumes the
/// member directory's answers per call.
pub struct DomainLogic {
    database: MemoryDatabase,
}

impl DomainLogic {
    /// The loyalty store the handler appends to.
    pub closed spec fn db(self) -> MemoryDatabase {
        self.database
    }

    pub fn new(database: MemoryDatabase) -> (d: Self)
        ensures
            d.db() == database,
    {
        DomainLogic { database }
    }

    /// Read access to the store, for callers that inspect the ledgers.
    pub fn database(&self) -> (db: &MemoryDatabase)
        ensures
            *db == self.db(),
    {
        &self.database
    }
}

/// Errors of the command handler.
#[derive(Debug)]
pub enum Error {
    Database(crate::ports::database::Error),
    Member(crate::ports::member::Error),
    /// The directory data is inconsistent with the current time: the month
    /// arithmetic on `membership_since` came out negative.
    InvalidState(String),
}

} // verus!
