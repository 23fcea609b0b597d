//! The patch command surface of the command line: the commands an operator
//! can issue, and the decimal parser that turns a patch id argument into
//! the registry's numeric id.

use vstd::prelude::*;
use vstd::string::StrSliceExecFns;
use vstd::string::StringSliceAdditionalSpecFns;

verus! {

/// The patch subcommands of the command line client.
pub enum PatchCommands {
    /// Register a new security patch.
    Create {
        /// Semantic version the patch upgrades contracts to.
        version: String,
        /// Hex digest of the patch artifact.
        hash: String,
        /// Severity name, matched case-insensitively.
        severity: String,
        /// Initial rollout percentage in [0, 100].
        rollout: u8,
    },
    /// Notify the owners of the patch's current cohort members.
    Notify {
        /// Decimal id of the patch.
        patch_id: String,
    },
    /// Apply the patch to one contract.
    Apply {
        /// Id of the contract to migrate.
        contract_id: String,
        /// Decimal id of the patch.
        patch_id: String,
    },
}

/// The value of a decimal digit string folded onto an accumulator; None on
/// a non-digit byte or on overflow past `u64::MAX`.
pub open spec fn dec_value(s: Seq<u8>, acc: u64) -> Option<u64>
    decreases s.len(),
{
    if s.len() == 0 {
        Some(acc)
    } else if !(48 <= s[0] <= 57) {
        None
    } else if acc * 10 + (s[0] - 48) > u64::MAX {
        None
    } else {
        dec_value(s.drop_first(), (acc * 10 + (s[0] - 48)) as u64)
    }
}

/// The number a byte string denotes in decimal: at least one digit, digits
/// only, and a value that fits in a u64; None otherwise.
pub open spec fn spec_parse_u64(s: Seq<u8>) -> Option<u64> {
    if s.len() == 0 {
        None
    } else {
        dec_value(s, 0)
    }
}

/// Parses a decimal u64: exactly the non-empty all-digit strings whose
/// value fits yield a number; everything else yields None.
pub fn parse_u64(s: &str) -> (r: Option<u64>)
    ensures
        r == spec_parse_u64(s.spec_bytes()),
{
    let v = s.as_bytes_vec();
    let n = v.len();
    if n == 0 {
        return None;
    }
    let mut acc: u64 = 0;
    let mut i: usize = 0;
    proof {
        assert(v@.skip(0) =~= v@);
    }
    while i < n
        invariant
            v@ == s.spec_bytes(),
            n == v@.len(),
            1 <= n,
            i <= n,
            dec_value(v@.skip(i as int), acc) == dec_value(v@, 0),
        decreases n - i,
    {
        let b = v[i];
        proof {
            assert(v@.skip(i as int).drop_first() =~= v@.skip(i + 1));
            assert(v@.skip(i as int)[0] == v@[i as int]);
        }
        if b < 48 || b > 57 {
            return None;
        }
        let d = (b - 48) as u64;
        let prod = match acc.checked_mul(10) {
            Some(p) => p,
            None => {
                return None;
            },
        };
        let sum = match prod.checked_add(d) {
            Some(q) => q,
            None => {
                return None;
            },
        };
        acc = sum;
        i = i + 1;
    }
    proof {
        assert(v@.skip(n as int) =~= Seq::<u8>::empty());
    }
    Some(acc)
}

} // verus!
