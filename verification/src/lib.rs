//! Patch rollout and migration orchestration for a smart-contract registry.
//!
//! The library registers versioned security patches, decides deterministically
//! which deployed contracts belong to a patch's current rollout cohort,
//! computes notification deltas for cohort members, and drives per-contract
//! migrations through a validate/apply state machine with dry-run previews,
//! failure simulation, and idempotent re-application.

pub mod clock;
pub mod cohort;
pub mod command;
pub mod errors;
pub mod lookup;
pub mod migrate;
pub mod model;
pub mod notify;
pub mod registry;
pub mod severity;
pub mod store;
