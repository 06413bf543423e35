//! Adaptation pipeline that turns a legacy forum snapshot (entities keyed by
//! raw 32-byte account identifiers) into the initial-state configuration of a
//! new forum store, where every actor is addressed by a compact sequential
//! numeric identity.

pub mod account;
pub mod config;
pub mod entities;
pub mod laws;
pub mod legacy;
pub mod registry;
pub mod remap;
