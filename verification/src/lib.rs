//! A small ledger-style account service core.
//!
//! The crate tracks per-user balances across asset types and mutates them
//! through named action types, each of which deterministically increments,
//! decrements or leaves unchanged four balance fields.  The durable store and
//! the catalog cache are modelled as explicit in-memory values (`Ledger`,
//! `CatalogCache`) that every operation takes as an explicit dependency; the
//! surrounding service host supplies real persistence and I/O.

pub mod account;
pub mod action_type;
pub mod amount;
pub mod asset_type;
pub mod cache;
pub mod error;
pub mod guarantees;
pub mod ledger;
