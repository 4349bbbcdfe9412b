//! The store and its schema migrations.

use vstd::prelude::*;
use crate::db::guarantees::bootstrapped;
use crate::db::report::DatabaseOpenError;
use crate::db::store::MemoryStore;
use crate::db::upgrade::upgrade_to_version_1;

pub mod catalog;
pub mod fold;
pub mod guarantees;
pub mod ledger;
pub mod report;
pub mod runner;
pub mod store;
pub mod text;
pub mod upgrade;

verus! {

/// A fresh in-memory store, taken to the current version by the standard
/// catalog. Its one ledger row carries the instant `now`.
pub fn get_db(now: u64) -> (result: Result<MemoryStore, DatabaseOpenError>)
    ensures
        result is Ok,
        result->Ok_0.wf(),
        result->Ok_0@ == bootstrapped(now),
{
    let mut db = MemoryStore::new();
    proof {
        crate::db::guarantees::law_standard_bootstrap(now);
    }
    match upgrade_to_version_1(&mut db, now) {
        Ok(_) => Ok(db),
        Err(failure) => Err(failure),
    }
}

} // verus!
