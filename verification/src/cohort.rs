//! Rollout cohort calculator: a pure, deterministic decision of whether a
//! contract belongs to a patch's cohort at a given rollout percentage.
//!
//! A stable 64-bit digest (FNV-1a) over the contract id's bytes followed by
//! the patch id's little-endian bytes is reduced modulo 100 to a bucket in
//! [0, 100); the contract is in the cohort iff its bucket is below the
//! rollout percentage. The function has no hidden state: membership is
//! reproducible across processes and retries, and raising the percentage
//! only ever adds contracts to the cohort.

use vstd::prelude::*;
use vstd::string::StrSliceExecFns;
use vstd::string::StringSliceAdditionalSpecFns;

verus! {

/// FNV-1a 64-bit offset basis.
pub const FNV_OFFSET: u64 = 0xcbf29ce484222325;

/// FNV-1a 64-bit prime.
pub const FNV_PRIME: u64 = 0x100000001b3;

/// FNV-1a 64-bit digest of a byte sequence.
pub open spec fn fnv1a(s: Seq<u8>) -> u64
    decreases s.len(),
{
    if s.len() == 0 {
        FNV_OFFSET
    } else {
        vstd::wrapping::u64_specs::wrapping_mul(fnv1a(s.drop_last()) ^ (s.last() as u64), FNV_PRIME)
    }
}

/// The bytes the cohort digest is computed over: the contract id's UTF-8
/// bytes followed by the patch id's eight little-endian bytes.
pub open spec fn cohort_bytes(contract_id: Seq<u8>, patch_id: u64) -> Seq<u8> {
    contract_id + vstd::bytes::spec_u64_to_le_bytes(patch_id)
}

/// The stable bucket in [0, 100) of a (contract, patch) pair.
pub open spec fn bucket_of(contract_id: Seq<u8>, patch_id: u64) -> u64 {
    fnv1a(cohort_bytes(contract_id, patch_id)) % 100
}

/// Cohort membership: the pair's bucket lies below the rollout percentage.
pub open spec fn spec_in_cohort(contract_id: Seq<u8>, patch_id: u64, rollout_percentage: u8) -> bool {
    bucket_of(contract_id, patch_id) < rollout_percentage as u64
}

/// The cohort of a population of contract ids at a given percentage.
pub open spec fn cohort_set(population: Set<Seq<u8>>, patch_id: u64, rollout_percentage: u8) -> Set<
    Seq<u8>,
> {
    Set::new(
        |c: Seq<u8>| population.contains(c) && spec_in_cohort(c, patch_id, rollout_percentage),
    )
}

/// FNV-1a 64-bit digest of a byte vector.
fn fnv1a_bytes(v: &Vec<u8>) -> (h: u64)
    ensures
        h == fnv1a(v@),
{
    let n = v.len();
    let mut h: u64 = FNV_OFFSET;
    proof {
        assert(v@.take(0) =~= Seq::<u8>::empty());
    }
    let mut i: usize = 0;
    while i < n
        invariant
            n == v@.len(),
            i <= n,
            h == fnv1a(v@.take(i as int)),
        decreases n - i,
    {
        h = (h ^ (v[i] as u64)).wrapping_mul(FNV_PRIME);
        proof {
            assert(v@.take(i + 1).drop_last() =~= v@.take(i as int));
            assert(v@.take(i + 1).last() == v@[i as int]);
        }
        i = i + 1;
    }
    proof {
        assert(v@.take(n as int) =~= v@);
    }
    h
}

/// The stable bucket of a (contract, patch) pair, in [0, 100).
pub fn bucket(contract_id: &str, patch_id: u64) -> (b: u64)
    ensures
        b == bucket_of(contract_id.spec_bytes(), patch_id),
        b < 100,
{
    let mut v = contract_id.as_bytes_vec();
    let mut tail = vstd::bytes::u64_to_le_bytes(patch_id);
    v.append(&mut tail);
    let h = fnv1a_bytes(&v);
    h % 100
}

/// Deterministic cohort membership of a contract for a patch at a rollout
/// percentage: true iff the pair's stable bucket is below the percentage.
/// The result is a pure function of the three arguments — no hidden state,
/// no randomness — so repeated calls with identical arguments return
/// identical results.
pub fn in_cohort(contract_id: &str, patch_id: u64, rollout_percentage: u8) -> (r: bool)
    ensures
        r == spec_in_cohort(contract_id.spec_bytes(), patch_id, rollout_percentage),
{
    bucket(contract_id, patch_id) < rollout_percentage as u64
}

/// Monotonicity of cohort membership: a pair in the cohort at percentage
/// `p1` stays in the cohort at every percentage `p2 >= p1`; raising the
/// rollout percentage only ever adds contracts, never removes them.
pub proof fn lemma_cohort_monotonic(contract_id: Seq<u8>, patch_id: u64, p1: u8, p2: u8)
    requires
        p1 <= p2,
    ensures
        spec_in_cohort(contract_id, patch_id, p1) ==> spec_in_cohort(contract_id, patch_id, p2),
{
}

/// Monotonicity over a whole population: for any set of contract ids, the
/// cohort at percentage `p1` is a subset of the cohort at `p2 >= p1`.
pub proof fn lemma_cohort_superset(population: Set<Seq<u8>>, patch_id: u64, p1: u8, p2: u8)
    requires
        p1 <= p2,
    ensures
        cohort_set(population, patch_id, p1).subset_of(cohort_set(population, patch_id, p2)),
{
    assert forall|c: Seq<u8>| cohort_set(population, patch_id, p1).contains(c) implies cohort_set(
        population,
        patch_id,
        p2,
    ).contains(c) by {
        lemma_cohort_monotonic(c, patch_id, p1, p2);
    }
}

/// Determinism of cohort membership: any two results that satisfy
/// `in_cohort`'s postcondition for the same arguments are equal, since each
/// equals the same pure function of those arguments.
pub proof fn lemma_in_cohort_deterministic(
    contract_id: Seq<u8>,
    patch_id: u64,
    rollout_percentage: u8,
    r1: bool,
    r2: bool,
)
    requires
        r1 == spec_in_cohort(contract_id, patch_id, rollout_percentage),
        r2 == spec_in_cohort(contract_id, patch_id, rollout_percentage),
    ensures
        r1 == r2,
{
}

} // verus!
