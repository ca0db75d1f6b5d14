//! A verified model of a donation-trophy ledger: a registry that owns a
//! non-fungible trophy record type, per-creator collections that custody
//! donated funds and mint or grow trophy records, and a merge operation that
//! folds many records of one creator into a single one.
//!
//! The hosting ledger substrate (atomic transactions, unforgeable badges,
//! vaults) is modelled by plain values: badge and component addresses are
//! integers, proofs are values naming the resource they attest, and the
//! record store is held by the registry's resource manager. Every operation
//! either succeeds with the stated effect or returns an abort reason and
//! leaves all state unchanged, mirroring the substrate's all-or-nothing
//! transaction semantics.

pub mod date;
pub mod text;
pub mod auth;
pub mod manager;
pub mod collection;
pub mod repository;
pub mod laws;
