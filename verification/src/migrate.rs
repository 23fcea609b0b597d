//! The migration engine: drives one contract through the
//! validate/apply state machine for a patch or an explicit target artifact.
//!
//! The engine is idempotent — re-applying an already-applied (contract,
//! patch) pair returns the existing record without re-executing anything —
//! and fails before effect: the conditional contract write is the last
//! step, so every failure (including the simulated one) leaves the contract
//! record exactly as it was.

use vstd::prelude::*;
use vstd::string::StringSliceAdditionalSpecFns;

use crate::clock::now_rfc3339;
use crate::cohort::{in_cohort, spec_in_cohort};
use crate::errors::RegistryError;
use crate::model::{Contract, MigrationOutcome, MigrationRecord, MigrationTarget, PatchStatus};
use crate::store::RegistryStore;

verus! {

/// The patch a migration target names, if it names one.
pub open spec fn spec_target_patch(t: MigrationTarget) -> Option<u64> {
    match t {
        MigrationTarget::ToPatch(pid) => Some(pid),
        MigrationTarget::ToArtifact { hash, version } => None,
    }
}

/// What a successful migration call did, for each mode. `th` and `tv` are
/// the hash and version of the resolved target artifact.
pub open spec fn migrate_success(
    s0: RegistryStore,
    s1: RegistryStore,
    r: Result<MigrationRecord, RegistryError>,
    cid: Seq<char>,
    t: MigrationTarget,
    c0: Contract,
    th: Seq<char>,
    tv: Seq<char>,
    dry_run: bool,
    simulate_fail: bool,
) -> bool {
    r is Ok && {
        let m = r->Ok_0;
        &&& m.contract_id@ == cid
        &&& m.patch_id == spec_target_patch(t)
        &&& m.dry_run == dry_run
        &&& m.simulate_fail == simulate_fail
        &&& s1.migrations@ == s0.migrations@.push(m)
        &&& if dry_run {
            // a preview never mutates contract state
            &&& m.outcome == MigrationOutcome::Previewed
            &&& s1.contracts@ == s0.contracts@
        } else if simulate_fail {
            // the injected failure strikes after validation, before the
            // write, so contract state stays exactly as it was
            &&& m.outcome == MigrationOutcome::Failed
            &&& s1.contracts@ == s0.contracts@
        } else {
            &&& m.outcome == MigrationOutcome::Applied
            &&& s1.contracts@.len() == s0.contracts@.len()
            &&& (forall|x: Seq<char>|
                x != cid ==> s1.spec_contract(x) == s0.spec_contract(x))
            &&& s1.spec_contract(cid) is Some
            &&& {
                let c1 = s1.spec_contract(cid)->Some_0;
                &&& c1.id == c0.id
                &&& c1.current_wasm_hash@ == th
                &&& c1.current_version@ == tv
                &&& c1.publisher_id == c0.publisher_id
            }
            &&& (spec_target_patch(t) is Some ==> s1.spec_applied(
                cid,
                spec_target_patch(t)->Some_0,
            ) == Some(m))
        }
    }
}

/// Migrates one contract to a patch's artifact or to an explicit artifact.
///
/// Fails with `ContractNotFound` or `PatchNotFound` when validation cannot
/// resolve its inputs, and `PatchWithdrawn` for a withdrawn patch. If a
/// non-dry-run Applied record already exists for the (contract, patch)
/// pair, that record is returned unchanged and nothing is re-executed. A
/// non-dry-run patch application outside the patch's current cohort fails
/// with `NotInRolloutCohort`; previews are always allowed. A dry run writes
/// nothing but a Previewed audit record; a simulated failure writes nothing
/// but a Failed audit record; a real application writes the target hash and
/// version to the contract as its last step and appends an Applied record.
/// Every failure leaves the contract record untouched.
#[verifier::rlimit(100)]
pub fn migrate(
    store: &mut RegistryStore,
    contract_id: &str,
    target: &MigrationTarget,
    dry_run: bool,
    simulate_fail: bool,
) -> (r: Result<MigrationRecord, RegistryError>)
    requires
        old(store).inv(),
    ensures
        final(store).inv(),
        final(store).patches@ == old(store).patches@,
        final(store).notices@ == old(store).notices@,
        final(store).next_patch_id == old(store).next_patch_id,
        match old(store).spec_contract(contract_id@) {
            None => r == Err::<MigrationRecord, RegistryError>(RegistryError::ContractNotFound)
                && *final(store) == *old(store),
            Some(c0) => match *target {
                MigrationTarget::ToPatch(pid) => match old(store).spec_patch(pid) {
                    None => r == Err::<MigrationRecord, RegistryError>(
                        RegistryError::PatchNotFound,
                    ) && *final(store) == *old(store),
                    Some(p) => {
                        if p.status == PatchStatus::Withdrawn {
                            r == Err::<MigrationRecord, RegistryError>(
                                RegistryError::PatchWithdrawn,
                            ) && *final(store) == *old(store)
                        } else if old(store).spec_applied(contract_id@, pid) is Some {
                            r == Ok::<MigrationRecord, RegistryError>(
                                old(store).spec_applied(contract_id@, pid)->Some_0,
                            ) && *final(store) == *old(store)
                        } else if !dry_run && !spec_in_cohort(
                            vstd::utf8::encode_utf8(contract_id@),
                            pid,
                            p.rollout_percentage,
                        ) {
                            r == Err::<MigrationRecord, RegistryError>(
                                RegistryError::NotInRolloutCohort,
                            ) && *final(store) == *old(store)
                        } else {
                            migrate_success(
                                *old(store),
                                *final(store),
                                r,
                                contract_id@,
                                *target,
                                c0,
                                p.bytecode_hash@,
                                p.target_version@,
                                dry_run,
                                simulate_fail,
                            )
                        }
                    },
                },
                MigrationTarget::ToArtifact { hash, version } => migrate_success(
                    *old(store),
                    *final(store),
                    r,
                    contract_id@,
                    *target,
                    c0,
                    hash@,
                    version@,
                    dry_run,
                    simulate_fail,
                ),
            },
        },
{
    let c0 = match store.get_contract(contract_id) {
        Ok(c0) => c0,
        Err(e) => {
            return Err(e);
        },
    };
    let (target_hash, target_version, record_pid): (String, String, Option<u64>) = match target {
        MigrationTarget::ToPatch(pid) => {
            let p = match store.get_patch(*pid) {
                Ok(p) => p,
                Err(e) => {
                    return Err(e);
                },
            };
            if let PatchStatus::Withdrawn = p.status {
                return Err(RegistryError::PatchWithdrawn);
            }
            if let Some(m) = store.find_migration(contract_id, *pid) {
                return Ok(m);
            }
            if !dry_run && !in_cohort(contract_id, *pid, p.rollout_percentage) {
                return Err(RegistryError::NotInRolloutCohort);
            }
            (p.bytecode_hash, p.target_version, Some(*pid))
        },
        MigrationTarget::ToArtifact { hash, version } => (hash.clone(), version.clone(), None),
    };
    let m = apply_target(
        store,
        contract_id,
        c0,
        target_hash,
        target_version,
        record_pid,
        dry_run,
        simulate_fail,
    );
    Ok(m)
}

/// The transition out of Validating: Previewed for a dry run, Failed for an
/// injected failure, otherwise the conditional contract write followed by
/// the Applied record. The write is the last step before the record, so a
/// non-applying outcome leaves contract state untouched.
fn apply_target(
    store: &mut RegistryStore,
    contract_id: &str,
    c0: Contract,
    target_hash: String,
    target_version: String,
    record_pid: Option<u64>,
    dry_run: bool,
    simulate_fail: bool,
) -> (m: MigrationRecord)
    requires
        old(store).inv(),
        old(store).spec_contract(contract_id@) == Some(c0),
        record_pid is Some ==> old(store).spec_applied(
            contract_id@,
            record_pid->Some_0,
        ) is None,
    ensures
        final(store).inv(),
        final(store).patches@ == old(store).patches@,
        final(store).notices@ == old(store).notices@,
        final(store).next_patch_id == old(store).next_patch_id,
        m.contract_id@ == contract_id@,
        m.patch_id == record_pid,
        m.dry_run == dry_run,
        m.simulate_fail == simulate_fail,
        final(store).migrations@ == old(store).migrations@.push(m),
        dry_run ==> m.outcome == MigrationOutcome::Previewed && final(store).contracts@ == old(store).contracts@,
        !dry_run && simulate_fail ==> m.outcome == MigrationOutcome::Failed && final(store).contracts@ == old(store).contracts@,
        !dry_run && !simulate_fail ==> {
            &&& m.outcome == MigrationOutcome::Applied
            &&& final(store).contracts@.len() == old(store).contracts@.len()
            &&& (forall|x: Seq<char>|
                x != contract_id@ ==> final(store).spec_contract(x) == old(store).spec_contract(x))
            &&& final(store).spec_contract(contract_id@) is Some
            &&& {
                let c1 = final(store).spec_contract(contract_id@)->Some_0;
                &&& c1.id == c0.id
                &&& c1.current_wasm_hash@ == target_hash@
                &&& c1.current_version@ == target_version@
                &&& c1.publisher_id == c0.publisher_id
            }
            &&& (record_pid is Some ==> final(store).spec_applied(
                contract_id@,
                record_pid->Some_0,
            ) == Some(m))
        },
{
    let outcome = if dry_run {
        MigrationOutcome::Previewed
    } else if simulate_fail {
        MigrationOutcome::Failed
    } else {
        let res = store.write_contract_version(
            contract_id,
            c0.current_wasm_hash.as_str(),
            target_hash,
            target_version,
        );
        match res {
            Ok(u) => {},
            Err(e) => {
                // unreachable: the expected hash was read from this same
                // store state, so the conditional write cannot lose
                proof {
                    assert(false);
                }
            },
        }
        MigrationOutcome::Applied
    };
    let ghost mid = *store;
    let m = MigrationRecord {
        contract_id: contract_id.to_owned(),
        patch_id: record_pid,
        dry_run,
        simulate_fail,
        outcome,
        timestamp: now_rfc3339(),
    };
    let stored = m.clone();
    store.record_migration(stored);
    proof {
        if !dry_run && !simulate_fail {
            assert forall|x: Seq<char>|
                x != contract_id@ implies store.spec_contract(x) == old(store).spec_contract(
                x,
            ) by {
                assert(store.contracts@ == mid.contracts@);
                assert(mid.spec_contract(x) == old(store).spec_contract(x));
            }
            assert(store.contracts@ == mid.contracts@);
            assert(mid.spec_contract(contract_id@) is Some);
            assert(store.spec_contract(contract_id@) == mid.spec_contract(contract_id@));
        }
    }
    m
}

} // verus!
