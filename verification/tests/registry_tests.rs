use patch_rollout::command::PatchCommands;
use patch_rollout::errors::RegistryError;
use patch_rollout::model::{Contract, PatchStatus};
use patch_rollout::registry::{create_patch, set_rollout, withdraw};
use patch_rollout::severity::Severity;
use patch_rollout::store::RegistryStore;

fn seeded_store(n: u64) -> RegistryStore {
    let mut store = RegistryStore::new();
    for i in 0..n {
        store.put_contract(Contract {
            id: format!("contract-{}", i),
            current_wasm_hash: format!("hash-{}", i),
            current_version: String::from("1.0.0"),
            publisher_id: format!("publisher-{}", i % 7),
        });
    }
    store
}

#[test]
fn create_starts_draft_at_zero_rollout() {
    let mut store = RegistryStore::new();
    let p = create_patch(&mut store, "1.2.0", "abc123", "High", 0).unwrap();
    assert_eq!(p.status, PatchStatus::Draft);
    assert_eq!(p.rollout_percentage, 0);
    assert_eq!(p.severity, Severity::High);
    assert_eq!(p.target_version, "1.2.0");
    assert_eq!(p.bytecode_hash, "abc123");
    let got = store.get_patch(p.id).unwrap();
    assert_eq!(got.id, p.id);
    assert_eq!(got.status, PatchStatus::Draft);
}

#[test]
fn create_starts_rolling_out_at_positive_rollout() {
    let mut store = RegistryStore::new();
    let p = create_patch(&mut store, "2.0.0", "feed01", "low", 10).unwrap();
    assert_eq!(p.status, PatchStatus::RollingOut);
}

#[test]
fn create_rejects_bad_severity_and_rollout() {
    let mut store = RegistryStore::new();
    assert!(matches!(create_patch(&mut store, "1.0.0", "aa", "urgent", 10), Err(RegistryError::InvalidSeverity)));
    assert!(matches!(create_patch(&mut store, "1.0.0", "aa", "high", 101), Err(RegistryError::InvalidRollout)));
    // nothing was stored by the failed calls
    assert!(matches!(
        store.get_patch(1),
        Err(RegistryError::PatchNotFound)
    ));
}

#[test]
fn create_assigns_fresh_ids() {
    let mut store = RegistryStore::new();
    let a = create_patch(&mut store, "1.0.0", "aa", "low", 0).unwrap();
    let b = create_patch(&mut store, "1.0.1", "bb", "high", 5).unwrap();
    assert_ne!(a.id, b.id);
}

#[test]
fn set_rollout_rejects_regression_and_keeps_state() {
    let mut store = RegistryStore::new();
    let p = create_patch(&mut store, "1.2.0", "abc123", "High", 50).unwrap();
    let r = set_rollout(&mut store, p.id, 25);
    assert!(matches!(
        r,
        Err(RegistryError::RolloutRegression)
    ));
    let unchanged = store.get_patch(p.id).unwrap();
    assert_eq!(unchanged.rollout_percentage, 50);
    assert_eq!(unchanged.status, PatchStatus::RollingOut);
}

#[test]
fn set_rollout_reaching_100_completes() {
    let mut store = RegistryStore::new();
    let p = create_patch(&mut store, "1.2.0", "abc123", "medium", 0).unwrap();
    let p2 = set_rollout(&mut store, p.id, 60).unwrap();
    assert_eq!(p2.status, PatchStatus::RollingOut);
    assert_eq!(p2.rollout_percentage, 60);
    let p3 = set_rollout(&mut store, p.id, 100).unwrap();
    assert_eq!(p3.status, PatchStatus::Complete);
    // equal percentage is allowed (non-decreasing)
    let p4 = set_rollout(&mut store, p.id, 100).unwrap();
    assert_eq!(p4.rollout_percentage, 100);
}

#[test]
fn set_rollout_errors() {
    let mut store = RegistryStore::new();
    assert!(matches!(set_rollout(&mut store, 9, 10), Err(RegistryError::PatchNotFound)));
    let p = create_patch(&mut store, "1.0.0", "aa", "low", 10).unwrap();
    assert!(matches!(set_rollout(&mut store, p.id, 101), Err(RegistryError::InvalidRollout)));
    withdraw(&mut store, p.id).unwrap();
    // raising a withdrawn patch is refused
    assert!(matches!(set_rollout(&mut store, p.id, 50), Err(RegistryError::PatchWithdrawn)));
    // lowering always fails as a regression, withdrawn or not
    assert!(matches!(set_rollout(&mut store, p.id, 5), Err(RegistryError::RolloutRegression)));
    let unchanged = store.get_patch(p.id).unwrap();
    assert_eq!(unchanged.rollout_percentage, 10);
    assert_eq!(unchanged.status, PatchStatus::Withdrawn);
}

#[test]
fn withdraw_is_idempotent() {
    let mut store = RegistryStore::new();
    let p = create_patch(&mut store, "1.0.0", "aa", "critical", 30).unwrap();
    let w1 = withdraw(&mut store, p.id).unwrap();
    assert_eq!(w1.status, PatchStatus::Withdrawn);
    assert_eq!(w1.rollout_percentage, 30);
    let w2 = withdraw(&mut store, p.id).unwrap();
    assert_eq!(w2.status, PatchStatus::Withdrawn);
    assert!(matches!(withdraw(&mut store, 77), Err(RegistryError::PatchNotFound)));
}

#[test]
fn store_contract_reads_and_conditional_write() {
    let mut store = seeded_store(3);
    let c = store.get_contract("contract-1").unwrap();
    assert_eq!(c.current_wasm_hash, "hash-1");
    assert!(matches!(
        store.get_contract("contract-9"),
        Err(RegistryError::ContractNotFound)
    ));
    // stale expected hash loses the conditional write
    let conflict = store.write_contract_version(
        "contract-1",
        "stale-hash",
        String::from("new-hash"),
        String::from("2.0.0"),
    );
    assert!(matches!(
        conflict,
        Err(RegistryError::ConcurrentMigrationConflict)
    ));
    let untouched = store.get_contract("contract-1").unwrap();
    assert_eq!(untouched.current_wasm_hash, "hash-1");
    assert_eq!(untouched.current_version, "1.0.0");
    // matching expected hash wins
    store
        .write_contract_version(
            "contract-1",
            "hash-1",
            String::from("new-hash"),
            String::from("2.0.0"),
        )
        .unwrap();
    let updated = store.get_contract("contract-1").unwrap();
    assert_eq!(updated.current_wasm_hash, "new-hash");
    assert_eq!(updated.current_version, "2.0.0");
    assert_eq!(
        store.write_contract_version("nobody", "x", String::from("y"), String::from("z")),
        Err(RegistryError::ContractNotFound)
    );
}

#[test]
fn patch_commands_carry_their_arguments() {
    let cmd = PatchCommands::Create {
        version: String::from("1.2.0"),
        hash: String::from("abc123"),
        severity: String::from("High"),
        rollout: 25,
    };
    match cmd {
        PatchCommands::Create { version, hash, severity, rollout } => {
            assert_eq!(version, "1.2.0");
            assert_eq!(hash, "abc123");
            assert_eq!(severity, "High");
            assert_eq!(rollout, 25);
        }
        _ => panic!("wrong variant"),
    }
    let apply = PatchCommands::Apply {
        contract_id: String::from("contract-1"),
        patch_id: String::from("7"),
    };
    match apply {
        PatchCommands::Apply { contract_id, patch_id } => {
            assert_eq!(contract_id, "contract-1");
            assert_eq!(patch_rollout::command::parse_u64(patch_id.as_str()), Some(7));
        }
        _ => panic!("wrong variant"),
    }
}
