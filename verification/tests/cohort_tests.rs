use patch_rollout::cohort::{bucket, in_cohort};
use patch_rollout::command::parse_u64;
use patch_rollout::errors::RegistryError;
use patch_rollout::severity::{parse_severity, Severity};

#[test]
fn in_cohort_is_deterministic() {
    let ids = ["contract-a", "contract-b", "contract-c", ""];
    for id in ids.iter() {
        for pct in [0u8, 1, 37, 99, 100] {
            let first = in_cohort(id, 7, pct);
            let second = in_cohort(id, 7, pct);
            assert_eq!(first, second);
        }
    }
}

#[test]
fn in_cohort_monotone_in_percentage() {
    for i in 0..50u64 {
        let id = format!("contract-{}", i);
        let mut seen = false;
        for pct in 0..=100u8 {
            let now = in_cohort(id.as_str(), 3, pct);
            if seen {
                assert!(now, "membership lost when percentage rose");
            }
            if now {
                seen = true;
            }
        }
        assert!(in_cohort(id.as_str(), 3, 100));
        assert!(!in_cohort(id.as_str(), 3, 0));
    }
}

#[test]
fn bucket_is_stable_and_below_100() {
    let b1 = bucket("some-contract", 42);
    let b2 = bucket("some-contract", 42);
    assert_eq!(b1, b2);
    assert!(b1 < 100);
    // a different patch id generally lands elsewhere; at minimum it is
    // computed independently
    let _ = bucket("some-contract", 43);
}

#[test]
fn cohort_fraction_roughly_tracks_percentage() {
    let total = 1000u64;
    let mut count = 0u64;
    for i in 0..total {
        let id = format!("contract-{}", i);
        if in_cohort(id.as_str(), 11, 25) {
            count += 1;
        }
    }
    // 25% of 1000 with a generous statistical tolerance
    assert!(count >= 150, "cohort too small: {}", count);
    assert!(count <= 350, "cohort too large: {}", count);
}

#[test]
fn parse_severity_accepts_all_names_case_insensitively() {
    assert_eq!(parse_severity("low"), Ok(Severity::Low));
    assert_eq!(parse_severity("LOW"), Ok(Severity::Low));
    assert_eq!(parse_severity("Medium"), Ok(Severity::Medium));
    assert_eq!(parse_severity("mEdIuM"), Ok(Severity::Medium));
    assert_eq!(parse_severity("high"), Ok(Severity::High));
    assert_eq!(parse_severity("HiGh"), Ok(Severity::High));
    assert_eq!(parse_severity("critical"), Ok(Severity::Critical));
    assert_eq!(parse_severity("CRITICAL"), Ok(Severity::Critical));
}

#[test]
fn parse_severity_rejects_everything_else() {
    for bad in ["", "severe", "lo", "loww", "med", "critical!", " high", "high "] {
        assert_eq!(parse_severity(bad), Err(RegistryError::InvalidSeverity));
    }
}

#[test]
fn severity_order_and_names() {
    assert!(Severity::Low.le(&Severity::Medium));
    assert!(Severity::Medium.le(&Severity::High));
    assert!(Severity::High.le(&Severity::Critical));
    assert!(!Severity::Critical.le(&Severity::High));
    assert!(Severity::High.le(&Severity::High));
    assert_eq!(Severity::Low.rank(), 0);
    assert_eq!(Severity::Critical.rank(), 3);
    assert_eq!(Severity::High.name(), "high");
    assert_eq!(parse_severity(Severity::Critical.name()), Ok(Severity::Critical));
}

#[test]
fn parse_u64_accepts_decimal_numbers() {
    assert_eq!(parse_u64("0"), Some(0));
    assert_eq!(parse_u64("42"), Some(42));
    assert_eq!(parse_u64("0042"), Some(42));
    assert_eq!(parse_u64("18446744073709551615"), Some(u64::MAX));
}

#[test]
fn parse_u64_rejects_bad_input() {
    assert_eq!(parse_u64(""), None);
    assert_eq!(parse_u64("12a"), None);
    assert_eq!(parse_u64("-1"), None);
    assert_eq!(parse_u64(" 7"), None);
    assert_eq!(parse_u64("18446744073709551616"), None);
    assert_eq!(parse_u64("99999999999999999999999"), None);
}

#[test]
fn error_codes_are_stable() {
    assert_eq!(RegistryError::PatchNotFound.code(), "PatchNotFound");
    assert_eq!(RegistryError::ContractNotFound.code(), "ContractNotFound");
    assert_eq!(RegistryError::ArtifactNotFound.code(), "ArtifactNotFound");
    assert_eq!(RegistryError::InvalidSeverity.code(), "InvalidSeverity");
    assert_eq!(RegistryError::InvalidRollout.code(), "InvalidRollout");
    assert_eq!(RegistryError::RolloutRegression.code(), "RolloutRegression");
    assert_eq!(RegistryError::NotInRolloutCohort.code(), "NotInRolloutCohort");
    assert_eq!(RegistryError::PatchWithdrawn.code(), "PatchWithdrawn");
    assert_eq!(
        RegistryError::ConcurrentMigrationConflict.code(),
        "ConcurrentMigrationConflict"
    );
    assert_eq!(RegistryError::RegistryUnavailable.code(), "RegistryUnavailable");
    assert!(RegistryError::RegistryUnavailable.is_transient());
    assert!(!RegistryError::ConcurrentMigrationConflict.is_transient());
}
