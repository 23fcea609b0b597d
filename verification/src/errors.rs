//! Error taxonomy of the rollout and migration core.
//!
//! Every failure is a returned value of this one enum; nothing in the core
//! panics. The variants fall into the groups: not-found, validation,
//! conflict, and transient.

use vstd::prelude::*;

verus! {

/// Every error the core can return.
#[derive(Clone, Copy, Debug, PartialEq, Eq, Structural)]
pub enum RegistryError {
    /// No patch with the given id exists.
    PatchNotFound,
    /// No contract with the given id exists.
    ContractNotFound,
    /// The explicit target artifact could not be resolved.
    ArtifactNotFound,
    /// The severity string matched none of the known severities.
    InvalidSeverity,
    /// A rollout percentage outside [0, 100].
    InvalidRollout,
    /// An attempt to lower a patch's rollout percentage.
    RolloutRegression,
    /// The contract is outside the patch's current rollout cohort.
    NotInRolloutCohort,
    /// The patch was withdrawn and takes part in no further operation.
    PatchWithdrawn,
    /// A conditional contract write lost to a concurrent migration that
    /// targeted a different artifact.
    ConcurrentMigrationConflict,
    /// The backing registry store could not be reached; safe to retry.
    RegistryUnavailable,
}

/// The stable name of an error, as printed on the error stream.
pub open spec fn error_code(e: RegistryError) -> Seq<char> {
    match e {
        RegistryError::PatchNotFound => "PatchNotFound"@,
        RegistryError::ContractNotFound => "ContractNotFound"@,
        RegistryError::ArtifactNotFound => "ArtifactNotFound"@,
        RegistryError::InvalidSeverity => "InvalidSeverity"@,
        RegistryError::InvalidRollout => "InvalidRollout"@,
        RegistryError::RolloutRegression => "RolloutRegression"@,
        RegistryError::NotInRolloutCohort => "NotInRolloutCohort"@,
        RegistryError::PatchWithdrawn => "PatchWithdrawn"@,
        RegistryError::ConcurrentMigrationConflict => "ConcurrentMigrationConflict"@,
        RegistryError::RegistryUnavailable => "RegistryUnavailable"@,
    }
}

impl RegistryError {
    /// The stable name of this error kind.
    pub fn code(&self) -> (r: &'static str)
        ensures
            r@ == error_code(*self),
    {
        match self {
            RegistryError::PatchNotFound => "PatchNotFound",
            RegistryError::ContractNotFound => "ContractNotFound",
            RegistryError::ArtifactNotFound => "ArtifactNotFound",
            RegistryError::InvalidSeverity => "InvalidSeverity",
            RegistryError::InvalidRollout => "InvalidRollout",
            RegistryError::RolloutRegression => "RolloutRegression",
            RegistryError::NotInRolloutCohort => "NotInRolloutCohort",
            RegistryError::PatchWithdrawn => "PatchWithdrawn",
            RegistryError::ConcurrentMigrationConflict => "ConcurrentMigrationConflict",
            RegistryError::RegistryUnavailable => "RegistryUnavailable",
        }
    }

    /// Whether a caller may safely retry the failed operation as it stands.
    pub fn is_transient(&self) -> (r: bool)
        ensures
            r == (*self == RegistryError::RegistryUnavailable),
    {
        match self {
            RegistryError::RegistryUnavailable => true,
            _ => false,
        }
    }
}

} // verus!
