//! A bootstrap-time schema-migration engine for an embedded store, and the
//! state of the terminal application that sits on top of it.
//!
//! On start the engine reads the version ledger, works out which catalog
//! steps are pending, and applies each one inside its own transaction,
//! recording the new version as the last action before the commit.

pub mod db;
pub mod ui;
