//! Data model of the rollout and migration core: patches, contracts,
//! migration records and notification notices.

use vstd::prelude::*;

use crate::severity::Severity;

verus! {

/// Lifecycle status of a patch.
#[derive(Clone, Copy, Debug, PartialEq, Eq, Structural)]
pub enum PatchStatus {
    /// Created with rollout percentage 0; not yet rolling out.
    Draft,
    /// Rolling out to a positive percentage below 100.
    RollingOut,
    /// Rollout percentage reached 100.
    Complete,
    /// Soft-disabled; excluded from cohort, notify and apply operations.
    Withdrawn,
}

/// Terminal outcome of one migration attempt.
#[derive(Clone, Copy, Debug, PartialEq, Eq, Structural)]
pub enum MigrationOutcome {
    /// The contract record was updated to the target artifact.
    Applied,
    /// A partial external write was explicitly reverted (reserved for
    /// future multi-step artifacts; never produced today).
    RolledBack,
    /// The attempt failed before any contract write took effect.
    Failed,
    /// A dry run: the projected outcome was computed, nothing was written.
    Previewed,
}

/// A versioned, hashed security patch with a staged rollout percentage.
pub struct Patch {
    /// Unique identifier, assigned at creation, immutable.
    pub id: u64,
    /// Semantic version the patch upgrades contracts to.
    pub target_version: String,
    /// Hex digest of the target artifact.
    pub bytecode_hash: String,
    /// Severity; immutable after creation.
    pub severity: Severity,
    /// Integer in [0, 100]; non-decreasing over the patch's lifetime.
    pub rollout_percentage: u8,
    /// Lifecycle status.
    pub status: PatchStatus,
    /// Creation timestamp (RFC 3339), immutable.
    pub created_at: String,
}

impl Patch {
    /// Structural validity of a patch record.
    pub open spec fn valid(self) -> bool {
        self.rollout_percentage <= 100
    }
}

impl Clone for Patch {
    fn clone(&self) -> (r: Self)
        ensures
            r == *self,
    {
        Patch {
            id: self.id,
            target_version: self.target_version.clone(),
            bytecode_hash: self.bytecode_hash.clone(),
            severity: self.severity,
            rollout_percentage: self.rollout_percentage,
            status: self.status,
            created_at: self.created_at.clone(),
        }
    }
}

/// A deployed contract, owned by the external registry; the core reads it
/// and amends it only through the store's conditional write.
pub struct Contract {
    /// Unique identifier.
    pub id: String,
    /// Hash of the currently deployed artifact.
    pub current_wasm_hash: String,
    /// Currently deployed version.
    pub current_version: String,
    /// Owner to be notified of rollout inclusion.
    pub publisher_id: String,
}

impl Clone for Contract {
    fn clone(&self) -> (r: Self)
        ensures
            r == *self,
    {
        Contract {
            id: self.id.clone(),
            current_wasm_hash: self.current_wasm_hash.clone(),
            current_version: self.current_version.clone(),
            publisher_id: self.publisher_id.clone(),
        }
    }
}

/// Append-only audit record of one migration attempt; never mutated or
/// deleted after creation.
pub struct MigrationRecord {
    /// The contract the attempt targeted.
    pub contract_id: String,
    /// The patch applied, or None for an explicit-artifact migration.
    pub patch_id: Option<u64>,
    /// Whether the attempt was a preview.
    pub dry_run: bool,
    /// Whether a failure was deliberately injected after validation.
    pub simulate_fail: bool,
    /// Terminal outcome of the attempt.
    pub outcome: MigrationOutcome,
    /// Time of the attempt (RFC 3339).
    pub timestamp: String,
}

impl Clone for MigrationRecord {
    fn clone(&self) -> (r: Self)
        ensures
            r == *self,
    {
        MigrationRecord {
            contract_id: self.contract_id.clone(),
            patch_id: if let Some(p) = self.patch_id {
                Some(p)
            } else {
                None
            },
            dry_run: self.dry_run,
            simulate_fail: self.simulate_fail,
            outcome: self.outcome,
            timestamp: self.timestamp.clone(),
        }
    }
}

/// A recorded notification: the owner of `contract_id` was notified that
/// the contract entered the cohort of `patch_id`.
pub struct Notice {
    /// The patch the notice was for.
    pub patch_id: u64,
    /// The contract whose owner was notified.
    pub contract_id: String,
}

impl Clone for Notice {
    fn clone(&self) -> (r: Self)
        ensures
            r == *self,
    {
        Notice { patch_id: self.patch_id, contract_id: self.contract_id.clone() }
    }
}

/// What a migration is aimed at: a registered patch, or an explicit target
/// artifact given by its hash and version.
pub enum MigrationTarget {
    /// Migrate to the artifact of a registered patch.
    ToPatch(u64),
    /// Migrate to an explicit artifact.
    ToArtifact {
        /// Hex digest of the artifact.
        hash: String,
        /// Version the artifact carries.
        version: String,
    },
}

} // verus!
