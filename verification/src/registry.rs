//! The patch registry: the only writer of a patch's rollout percentage and
//! status. Creation, staged rollout with the no-regression rule, and
//! withdrawal; every mutation lands in the store before the call returns.

use vstd::prelude::*;
use vstd::string::StringSliceAdditionalSpecFns;

use crate::clock::now_rfc3339;
use crate::errors::RegistryError;
use crate::lookup::lemma_find_key;
use crate::model::{Patch, PatchStatus};
use crate::severity::severity_of_bytes;
use crate::store::{patch_key, RegistryStore};

verus! {

/// The status a patch starts in, decided by its initial rollout percentage.
pub open spec fn initial_status(rollout: u8) -> PatchStatus {
    if rollout == 0 {
        PatchStatus::Draft
    } else {
        PatchStatus::RollingOut
    }
}

/// The status a rollout change moves a patch to: Complete at 100, Draft at
/// 0, RollingOut in between.
pub open spec fn rollout_status(rollout: u8) -> PatchStatus {
    if rollout == 100 {
        PatchStatus::Complete
    } else if rollout == 0 {
        PatchStatus::Draft
    } else {
        PatchStatus::RollingOut
    }
}

/// Creates a patch under the next free id and persists it. Fails with
/// `InvalidSeverity` when the severity string names no severity, then with
/// `InvalidRollout` when the rollout percentage is above 100; a failed call
/// leaves the store unchanged.
pub fn create_patch(
    store: &mut RegistryStore,
    target_version: &str,
    bytecode_hash: &str,
    severity: &str,
    rollout: u8,
) -> (r: Result<Patch, RegistryError>)
    requires
        old(store).inv(),
        old(store).next_patch_id < u64::MAX,
    ensures
        final(store).inv(),
        final(store).contracts@ == old(store).contracts@,
        final(store).migrations@ == old(store).migrations@,
        final(store).notices@ == old(store).notices@,
        match severity_of_bytes(severity.spec_bytes()) {
            None => r == Err::<Patch, RegistryError>(RegistryError::InvalidSeverity) && *final(store) == *old(store),
            Some(sv) => {
                if rollout > 100 {
                    r == Err::<Patch, RegistryError>(RegistryError::InvalidRollout) && *final(store) == *old(store)
                } else {
                    r is Ok && {
                        let p = r->Ok_0;
                        &&& p.id == old(store).next_patch_id
                        &&& p.target_version@ == target_version@
                        &&& p.bytecode_hash@ == bytecode_hash@
                        &&& p.severity == sv
                        &&& p.rollout_percentage == rollout
                        &&& p.status == initial_status(rollout)
                        &&& final(store).patches@ == old(store).patches@.push(p)
                        &&& final(store).next_patch_id == old(store).next_patch_id + 1
                        &&& forall|x: u64|
                            final(store).spec_patch(x) == if x == p.id {
                                Some(p)
                            } else {
                                old(store).spec_patch(x)
                            }
                    }
                }
            },
        },
{
    let sv = match crate::severity::parse_severity(severity) {
        Ok(sv) => sv,
        Err(e) => {
            return Err(e);
        },
    };
    if rollout > 100 {
        return Err(RegistryError::InvalidRollout);
    }
    let status = if rollout == 0 {
        PatchStatus::Draft
    } else {
        PatchStatus::RollingOut
    };
    let p = Patch {
        id: store.next_patch_id,
        target_version: target_version.to_owned(),
        bytecode_hash: bytecode_hash.to_owned(),
        severity: sv,
        rollout_percentage: rollout,
        status,
        created_at: now_rfc3339(),
    };
    let stored = p.clone();
    store.push_patch(stored);
    Ok(p)
}

/// Raises a patch's rollout percentage. Fails with `PatchNotFound` for an
/// unknown id, `InvalidRollout` above 100, `RolloutRegression` when the new
/// percentage is below the current one — cohort membership must only ever
/// grow — and `PatchWithdrawn` when a withdrawn patch would otherwise be
/// raised. A failed call leaves the store unchanged. At 100 the patch's
/// status becomes Complete.
pub fn set_rollout(store: &mut RegistryStore, patch_id: u64, new_rollout: u8) -> (r: Result<
    Patch,
    RegistryError,
>)
    requires
        old(store).inv(),
    ensures
        final(store).inv(),
        final(store).contracts@ == old(store).contracts@,
        final(store).migrations@ == old(store).migrations@,
        final(store).notices@ == old(store).notices@,
        final(store).next_patch_id == old(store).next_patch_id,
        match old(store).spec_patch(patch_id) {
            None => r == Err::<Patch, RegistryError>(RegistryError::PatchNotFound) && *final(store)
                == *old(store),
            Some(p0) => {
                if new_rollout > 100 {
                    r == Err::<Patch, RegistryError>(RegistryError::InvalidRollout) && *final(store)
                        == *old(store)
                } else if new_rollout < p0.rollout_percentage {
                    r == Err::<Patch, RegistryError>(RegistryError::RolloutRegression) && *final(store) == *old(store)
                } else if p0.status == PatchStatus::Withdrawn {
                    r == Err::<Patch, RegistryError>(RegistryError::PatchWithdrawn) && *final(store)
                        == *old(store)
                } else {
                    r is Ok && {
                        let p = r->Ok_0;
                        &&& p.id == p0.id
                        &&& p.target_version == p0.target_version
                        &&& p.bytecode_hash == p0.bytecode_hash
                        &&& p.severity == p0.severity
                        &&& p.created_at == p0.created_at
                        &&& p.rollout_percentage == new_rollout
                        &&& p.status == rollout_status(new_rollout)
                        &&& forall|x: u64|
                            final(store).spec_patch(x) == if x == patch_id {
                                Some(p)
                            } else {
                                old(store).spec_patch(x)
                            }
                    }
                }
            },
        },
{
    let p0 = match store.get_patch(patch_id) {
        Ok(p0) => p0,
        Err(e) => {
            return Err(e);
        },
    };
    proof {
        lemma_find_key(store.patches@, patch_key(), patch_id);
    }
    if new_rollout > 100 {
        return Err(RegistryError::InvalidRollout);
    }
    if new_rollout < p0.rollout_percentage {
        return Err(RegistryError::RolloutRegression);
    }
    if let PatchStatus::Withdrawn = p0.status {
        return Err(RegistryError::PatchWithdrawn);
    }
    let status = if new_rollout == 100 {
        PatchStatus::Complete
    } else if new_rollout == 0 {
        PatchStatus::Draft
    } else {
        PatchStatus::RollingOut
    };
    let p = Patch {
        id: p0.id,
        target_version: p0.target_version,
        bytecode_hash: p0.bytecode_hash,
        severity: p0.severity,
        rollout_percentage: new_rollout,
        status,
        created_at: p0.created_at,
    };
    let stored = p.clone();
    store.update_patch(stored);
    Ok(p)
}

/// Withdraws a patch: a soft disable that excludes it from cohort, notify
/// and apply operations. Fails with `PatchNotFound` for an unknown id;
/// withdrawing twice is a no-op that succeeds again.
pub fn withdraw(store: &mut RegistryStore, patch_id: u64) -> (r: Result<Patch, RegistryError>)
    requires
        old(store).inv(),
    ensures
        final(store).inv(),
        final(store).contracts@ == old(store).contracts@,
        final(store).migrations@ == old(store).migrations@,
        final(store).notices@ == old(store).notices@,
        final(store).next_patch_id == old(store).next_patch_id,
        match old(store).spec_patch(patch_id) {
            None => r == Err::<Patch, RegistryError>(RegistryError::PatchNotFound) && *final(store)
                == *old(store),
            Some(p0) => r is Ok && {
                let p = r->Ok_0;
                &&& p.id == p0.id
                &&& p.target_version == p0.target_version
                &&& p.bytecode_hash == p0.bytecode_hash
                &&& p.severity == p0.severity
                &&& p.created_at == p0.created_at
                &&& p.rollout_percentage == p0.rollout_percentage
                &&& p.status == PatchStatus::Withdrawn
                &&& forall|x: u64|
                    final(store).spec_patch(x) == if x == patch_id {
                        Some(p)
                    } else {
                        old(store).spec_patch(x)
                    }
            },
        },
{
    let p0 = match store.get_patch(patch_id) {
        Ok(p0) => p0,
        Err(e) => {
            return Err(e);
        },
    };
    proof {
        lemma_find_key(store.patches@, patch_key(), patch_id);
        crate::lookup::lemma_find_member(store.patches@, patch_key(), patch_id);
        assert(p0.valid());
    }
    let p = Patch {
        id: p0.id,
        target_version: p0.target_version,
        bytecode_hash: p0.bytecode_hash,
        severity: p0.severity,
        rollout_percentage: p0.rollout_percentage,
        status: PatchStatus::Withdrawn,
        created_at: p0.created_at,
    };
    let stored = p.clone();
    store.update_patch(stored);
    Ok(p)
}

} // verus!


