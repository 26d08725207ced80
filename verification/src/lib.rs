//! A CRUD store for question records.
//!
//! The crate centres on one piece of logic: a mutable collection of
//! question records (a free-text prompt, an optional answer, optional
//! provenance) that must behave identically whether it lives in process
//! memory or in a relational table.  The shared semantics are written
//! once, as spec functions over a map from identifier to record
//! ([`semantics`]); the in-memory backend ([`memory`]) is verified
//! against them directly, and the relational backend ([`persistent`])
//! is verified against them through a model of what its single-row
//! statements do to the table.
//!
//! [`laws`] states and proves the store-wide guarantees: the
//! create/get round trip, absence of lost updates under linearized
//! writes, uniform not-found behaviour, duplicate-create rejection,
//! and parity between the two backends.

pub mod errors;
pub mod ident;
pub mod laws;
pub mod memory;
pub mod persistent;
pub mod record;
pub mod render;
pub mod semantics;
pub mod service;
