//! Deployment state and access control engine.
//!
//! The crate governs three interacting safety concerns that every mutating
//! operation of a deployment must satisfy jointly before any state commits:
//!
//! - a global operational phase state machine with freeze and migration
//!   switches ([`lifecycle`]);
//! - a role-bitmask and scope based authorization model ([`authority`]);
//! - overflow-safe, ceiling-bounded aggregate counters on per-resource
//!   accounts ([`repo`]).
//!
//! The guarded mutation protocol ([`protocol`]) sequences the lifecycle
//! write-gate, the authorization check, the activation check and field
//! validation in front of every mutation; a failure of any guard leaves all
//! touched accounts unmodified.
//!
//! The engine performs no I/O and no non-deterministic operation. Caller
//! identities arrive already authenticated, and every timestamp is a
//! current-time value supplied by the surrounding execution environment.

pub mod authority;
pub mod config;
pub mod constants;
pub mod errors;
pub mod fork;
pub mod ids;
pub mod lifecycle;
pub mod metadata;
pub mod metrics;
pub mod protocol;
pub mod repo;
pub mod text;
