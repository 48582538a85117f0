//! A single counter record on a ledger: the rules that decide how the record is
//! created, changed and destroyed, stated and proved over plain values.

pub mod accounts;
pub mod error;
pub mod laws;
pub mod model;
pub mod operations;
pub mod party;
pub mod record;
pub mod slot;
