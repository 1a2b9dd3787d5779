//! Hardware fingerprint: merges per-category hardware rows and system
//! statistics into one keyed record and attaches a keyed machine identifier.

pub mod decimal;
pub mod record;
pub mod inventory;
pub mod identity;
pub mod hwid;
pub mod guarantees;
