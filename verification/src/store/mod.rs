//! The persistence contract of the authority, kept in memory.
pub mod ledger;
pub mod repo;
