//! Patch severity: a closed, totally ordered set of four levels, parsed
//! case-insensitively from its ASCII name.

use vstd::prelude::*;
use vstd::string::StrSliceExecFns;
use vstd::string::StringSliceAdditionalSpecFns;

use crate::errors::RegistryError;

verus! {

/// Severity of a security patch. The order Low < Medium < High < Critical
/// is used for display and sorting only, never for cohort decisions.
#[derive(Clone, Copy, Debug, PartialEq, Eq, Structural)]
pub enum Severity {
    Low,
    Medium,
    High,
    Critical,
}

/// Rank of a severity in the total order: Low is 0, Critical is 3.
pub open spec fn severity_rank(s: Severity) -> int {
    match s {
        Severity::Low => 0,
        Severity::Medium => 1,
        Severity::High => 2,
        Severity::Critical => 3,
    }
}

/// ASCII lowercasing of one byte; other bytes pass through unchanged.
pub open spec fn lower_byte(b: u8) -> u8 {
    if 65 <= b <= 90 {
        (b + 32) as u8
    } else {
        b
    }
}

/// ASCII lowercasing of a byte sequence.
pub open spec fn lower_bytes(s: Seq<u8>) -> Seq<u8> {
    s.map_values(|b: u8| lower_byte(b))
}

/// The lower-case display name of a severity.
pub open spec fn severity_name(s: Severity) -> Seq<char> {
    match s {
        Severity::Low => "low"@,
        Severity::Medium => "medium"@,
        Severity::High => "high"@,
        Severity::Critical => "critical"@,
    }
}

/// The severity denoted by a byte string (the UTF-8 bytes of the input),
/// compared case-insensitively; None for anything else.
pub open spec fn severity_of_bytes(s: Seq<u8>) -> Option<Severity> {
    if lower_bytes(s) == seq!['l' as u8, 'o' as u8, 'w' as u8] {
        Some(Severity::Low)
    } else if lower_bytes(s) == seq!['m' as u8, 'e' as u8, 'd' as u8, 'i' as u8, 'u' as u8, 'm' as u8] {
        Some(Severity::Medium)
    } else if lower_bytes(s) == seq!['h' as u8, 'i' as u8, 'g' as u8, 'h' as u8] {
        Some(Severity::High)
    } else if lower_bytes(s) == seq!['c' as u8, 'r' as u8, 'i' as u8, 't' as u8, 'i' as u8, 'c' as u8, 'a' as u8, 'l' as u8] {
        Some(Severity::Critical)
    } else {
        None
    }
}

impl Severity {
    /// Rank in the total order; injective, so it decides `le`.
    pub fn rank(&self) -> (r: u8)
        ensures
            r as int == severity_rank(*self),
    {
        match self {
            Severity::Low => 0,
            Severity::Medium => 1,
            Severity::High => 2,
            Severity::Critical => 3,
        }
    }

    /// Total order on severities: true iff `self` is at most `other`.
    pub fn le(&self, other: &Severity) -> (r: bool)
        ensures
            r == (severity_rank(*self) <= severity_rank(*other)),
    {
        self.rank() <= other.rank()
    }

    /// The display name of this severity.
    pub fn name(&self) -> (r: &'static str)
        ensures
            r@ == severity_name(*self),
    {
        match self {
            Severity::Low => "low",
            Severity::Medium => "medium",
            Severity::High => "high",
            Severity::Critical => "critical",
        }
    }
}

/// True iff lowering `v` elementwise yields exactly `pat`.
fn lower_eq(v: &Vec<u8>, pat: &Vec<u8>) -> (r: bool)
    ensures
        r == (lower_bytes(v@) == pat@),
{
    if v.len() != pat.len() {
        proof {
            assert(lower_bytes(v@).len() == v@.len());
        }
        return false;
    }
    let n = v.len();
    let mut i: usize = 0;
    while i < n
        invariant
            n == v@.len() == pat@.len(),
            i <= n,
            forall|j: int| 0 <= j < i ==> lower_byte(v@[j]) == pat@[j],
        decreases n - i,
    {
        let b = v[i];
        let lb: u8 = if 65 <= b && b <= 90 {
            b + 32
        } else {
            b
        };
        if lb != pat[i] {
            proof {
                assert(lower_bytes(v@)[i as int] == lower_byte(v@[i as int]));
            }
            return false;
        }
        i = i + 1;
    }
    proof {
        assert(lower_bytes(v@) =~= pat@);
    }
    true
}

/// Parses a severity name case-insensitively: exactly the strings whose
/// ASCII-lowered bytes read `low`, `medium`, `high` or `critical` are
/// accepted; every other input fails with `InvalidSeverity`.
pub fn parse_severity(s: &str) -> (r: Result<Severity, RegistryError>)
    ensures
        match severity_of_bytes(s.spec_bytes()) {
            Some(sv) => r == Ok::<Severity, RegistryError>(sv),
            None => r == Err::<Severity, RegistryError>(RegistryError::InvalidSeverity),
        },
{
    let v = s.as_bytes_vec();
    let low: Vec<u8> = vec!['l' as u8, 'o' as u8, 'w' as u8];
    let medium: Vec<u8> = vec!['m' as u8, 'e' as u8, 'd' as u8, 'i' as u8, 'u' as u8, 'm' as u8];
    let high: Vec<u8> = vec!['h' as u8, 'i' as u8, 'g' as u8, 'h' as u8];
    let critical: Vec<u8> = vec![
        'c' as u8,
        'r' as u8,
        'i' as u8,
        't' as u8,
        'i' as u8,
        'c' as u8,
        'a' as u8,
        'l' as u8,
    ];
    if lower_eq(&v, &low) {
        Ok(Severity::Low)
    } else if lower_eq(&v, &medium) {
        Ok(Severity::Medium)
    } else if lower_eq(&v, &high) {
        Ok(Severity::High)
    } else if lower_eq(&v, &critical) {
        Ok(Severity::Critical)
    } else {
        Err(RegistryError::InvalidSeverity)
    }
}

} // verus!
