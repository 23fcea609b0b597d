use patch_rollout::cohort::in_cohort;
use patch_rollout::errors::RegistryError;
use patch_rollout::migrate::migrate;
use patch_rollout::model::{Contract, MigrationOutcome, MigrationTarget, PatchStatus};
use patch_rollout::notify::notify;
use patch_rollout::registry::{create_patch, set_rollout, withdraw};
use patch_rollout::store::RegistryStore;

fn seeded_store(n: u64) -> RegistryStore {
    let mut store = RegistryStore::new();
    for i in 0..n {
        store.put_contract(Contract {
            id: format!("contract-{}", i),
            current_wasm_hash: format!("hash-{}", i),
            current_version: String::from("1.0.0"),
            publisher_id: format!("publisher-{}", i % 7),
        });
    }
    store
}

#[test]
fn migrate_not_found_errors() {
    let mut store = seeded_store(2);
    let p = create_patch(&mut store, "1.2.0", "abc123", "high", 100).unwrap();
    assert!(matches!(migrate(&mut store, "nobody", &MigrationTarget::ToPatch(p.id), false, false), Err(RegistryError::ContractNotFound)));
    assert!(matches!(migrate(&mut store, "contract-0", &MigrationTarget::ToPatch(99), false, false), Err(RegistryError::PatchNotFound)));
}

#[test]
fn migrate_withdrawn_patch_is_refused() {
    let mut store = seeded_store(2);
    let p = create_patch(&mut store, "1.2.0", "abc123", "high", 100).unwrap();
    withdraw(&mut store, p.id).unwrap();
    assert!(matches!(migrate(&mut store, "contract-0", &MigrationTarget::ToPatch(p.id), false, false), Err(RegistryError::PatchWithdrawn)));
}

#[test]
fn dry_run_never_mutates_contract_state() {
    let mut store = seeded_store(3);
    let p = create_patch(&mut store, "1.2.0", "abc123", "high", 100).unwrap();
    for simulate in [false, true] {
        let rec = migrate(
            &mut store,
            "contract-1",
            &MigrationTarget::ToPatch(p.id),
            true,
            simulate,
        )
        .unwrap();
        assert_eq!(rec.outcome, MigrationOutcome::Previewed);
        assert!(rec.dry_run);
        assert_eq!(rec.simulate_fail, simulate);
        let c = store.get_contract("contract-1").unwrap();
        assert_eq!(c.current_wasm_hash, "hash-1");
        assert_eq!(c.current_version, "1.0.0");
    }
    assert_eq!(store.migrations.len(), 2);
}

#[test]
fn dry_run_is_allowed_outside_the_cohort() {
    let mut store = seeded_store(200);
    let p = create_patch(&mut store, "1.2.0", "abc123", "high", 1).unwrap();
    // find a contract outside the 1% cohort
    let mut outsider = None;
    for i in 0..200u64 {
        let id = format!("contract-{}", i);
        if !in_cohort(id.as_str(), p.id, 1) {
            outsider = Some(id);
            break;
        }
    }
    let outsider = outsider.expect("some contract lies outside a 1% cohort");
    let rec = migrate(
        &mut store,
        outsider.as_str(),
        &MigrationTarget::ToPatch(p.id),
        true,
        false,
    )
    .unwrap();
    assert_eq!(rec.outcome, MigrationOutcome::Previewed);
    // the same contract is refused without dry run
    assert!(matches!(migrate(&mut store, outsider.as_str(), &MigrationTarget::ToPatch(p.id), false, false), Err(RegistryError::NotInRolloutCohort)));
}

#[test]
fn simulated_failure_leaves_contract_untouched() {
    let mut store = seeded_store(3);
    let p = create_patch(&mut store, "1.2.0", "abc123", "high", 100).unwrap();
    let rec = migrate(
        &mut store,
        "contract-2",
        &MigrationTarget::ToPatch(p.id),
        false,
        true,
    )
    .unwrap();
    assert_eq!(rec.outcome, MigrationOutcome::Failed);
    assert!(rec.simulate_fail);
    assert!(!rec.dry_run);
    let c = store.get_contract("contract-2").unwrap();
    assert_eq!(c.current_wasm_hash, "hash-2");
    assert_eq!(c.current_version, "1.0.0");
    // the failed attempt left an audit record but no Applied record, so a
    // later real application still proceeds
    let rec2 = migrate(
        &mut store,
        "contract-2",
        &MigrationTarget::ToPatch(p.id),
        false,
        false,
    )
    .unwrap();
    assert_eq!(rec2.outcome, MigrationOutcome::Applied);
}

#[test]
fn apply_twice_returns_the_same_record_and_writes_once() {
    let mut store = seeded_store(3);
    let p = create_patch(&mut store, "1.2.0", "abc123", "high", 100).unwrap();
    let first = migrate(
        &mut store,
        "contract-0",
        &MigrationTarget::ToPatch(p.id),
        false,
        false,
    )
    .unwrap();
    assert_eq!(first.outcome, MigrationOutcome::Applied);
    let written = store.get_contract("contract-0").unwrap();
    assert_eq!(written.current_wasm_hash, "abc123");
    assert_eq!(written.current_version, "1.2.0");
    let records_after_first = store.migrations.len();
    let second = migrate(
        &mut store,
        "contract-0",
        &MigrationTarget::ToPatch(p.id),
        false,
        false,
    )
    .unwrap();
    // identical record, field by field, timestamp included
    assert_eq!(second.contract_id, first.contract_id);
    assert_eq!(second.patch_id, first.patch_id);
    assert_eq!(second.dry_run, first.dry_run);
    assert_eq!(second.simulate_fail, first.simulate_fail);
    assert_eq!(second.outcome, first.outcome);
    assert_eq!(second.timestamp, first.timestamp);
    // no new audit record, no second write
    assert_eq!(store.migrations.len(), records_after_first);
    let still = store.get_contract("contract-0").unwrap();
    assert_eq!(still.current_wasm_hash, "abc123");
}

#[test]
fn migrate_to_explicit_artifact() {
    let mut store = seeded_store(2);
    let target = MigrationTarget::ToArtifact {
        hash: String::from("fedcba"),
        version: String::from("3.1.4"),
    };
    let rec = migrate(&mut store, "contract-1", &target, false, false).unwrap();
    assert_eq!(rec.outcome, MigrationOutcome::Applied);
    assert_eq!(rec.patch_id, None);
    let c = store.get_contract("contract-1").unwrap();
    assert_eq!(c.current_wasm_hash, "fedcba");
    assert_eq!(c.current_version, "3.1.4");
}

#[test]
fn rollout_scenario_from_draft_to_applied() {
    let mut store = seeded_store(250);
    let p = create_patch(&mut store, "1.2.0", "abc123", "High", 0).unwrap();
    assert_eq!(p.status, PatchStatus::Draft);
    let p = set_rollout(&mut store, p.id, 25).unwrap();
    assert_eq!(p.status, PatchStatus::RollingOut);

    let report = notify(&mut store, p.id).unwrap();
    let total = report.notified.len() + report.skipped.len();
    assert_eq!(total, 250);
    // about 25% of 250, tolerance of ten percentage points either way
    assert!(report.notified.len() >= 37, "notified {}", report.notified.len());
    assert!(report.notified.len() <= 88, "notified {}", report.notified.len());

    // a cohort member applies successfully
    let member = report.notified[0].clone();
    let rec = migrate(&mut store, member.as_str(), &MigrationTarget::ToPatch(p.id), false, false)
        .unwrap();
    assert_eq!(rec.outcome, MigrationOutcome::Applied);

    // an outsider is refused
    let mut outsider = None;
    for id in report.skipped.iter() {
        if !in_cohort(id.as_str(), p.id, 25) {
            outsider = Some(id.clone());
            break;
        }
    }
    let outsider = outsider.expect("some contract lies outside a 25% cohort");
    assert!(matches!(migrate(&mut store, outsider.as_str(), &MigrationTarget::ToPatch(p.id), false, false), Err(RegistryError::NotInRolloutCohort)));

    // re-running apply for the member returns the original record unchanged
    let again = migrate(&mut store, member.as_str(), &MigrationTarget::ToPatch(p.id), false, false)
        .unwrap();
    assert_eq!(again.outcome, MigrationOutcome::Applied);
    assert_eq!(again.timestamp, rec.timestamp);
    assert_eq!(again.contract_id, rec.contract_id);
}

#[test]
fn notify_is_idempotent_and_cohorts_only_grow() {
    let mut store = seeded_store(200);
    let p = create_patch(&mut store, "1.2.0", "abc123", "low", 25).unwrap();
    let first = notify(&mut store, p.id).unwrap();
    assert!(!first.notified.is_empty());

    // a second pass at the same percentage notifies nobody again
    let second = notify(&mut store, p.id).unwrap();
    assert_eq!(second.notified.len(), 0);
    assert_eq!(second.skipped.len(), 200);

    // raising the percentage keeps every earlier member in the cohort
    set_rollout(&mut store, p.id, 75).unwrap();
    for id in first.notified.iter() {
        assert!(in_cohort(id.as_str(), p.id, 75));
    }
    let third = notify(&mut store, p.id).unwrap();
    // the new pass never re-notifies anyone from the first pass
    for id in third.notified.iter() {
        assert!(!first.notified.contains(id));
    }
    assert!(first.notified.len() + third.notified.len() <= 200);
}

#[test]
fn notify_errors() {
    let mut store = seeded_store(5);
    assert!(matches!(notify(&mut store, 42), Err(RegistryError::PatchNotFound)));
    let p = create_patch(&mut store, "1.0.0", "aa", "medium", 50).unwrap();
    withdraw(&mut store, p.id).unwrap();
    assert!(matches!(notify(&mut store, p.id), Err(RegistryError::PatchWithdrawn)));
}
