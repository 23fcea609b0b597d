//! The backing registry store: patches, contracts, the append-only migration
//! audit trail, and the record of sent notifications.
//!
//! The store owns all authoritative state. Every mutation goes through a
//! method here, and every method preserves the store invariant: patch ids
//! are unique and below the allocation counter, rollout percentages are in
//! range, contract ids are unique, and at most one non-dry-run Applied
//! migration record exists per (contract, patch) pair.

use vstd::prelude::*;
use crate::errors::RegistryError;
use crate::lookup::{find_assoc, lemma_find_at, lemma_find_none, lemma_find_push, lemma_find_update};
use crate::model::{Contract, MigrationOutcome, MigrationRecord, Notice, Patch};

verus! {

/// Key of a patch record: its id.
pub open spec fn patch_key() -> spec_fn(Patch) -> u64 {
    |p: Patch| p.id
}

/// Key of a contract record: its id.
pub open spec fn contract_key() -> spec_fn(Contract) -> Seq<char> {
    |c: Contract| c.id@
}

/// Key a migration record is looked up by for the idempotence check:
/// contract, patch, dry-run flag and outcome together.
pub open spec fn migration_key() -> spec_fn(MigrationRecord) -> (
    Seq<char>,
    Option<u64>,
    bool,
    MigrationOutcome,
) {
    |m: MigrationRecord| (m.contract_id@, m.patch_id, m.dry_run, m.outcome)
}

/// Key of a notice: the (patch, contract) pair it was sent for.
pub open spec fn notice_key() -> spec_fn(Notice) -> (u64, Seq<char>) {
    |n: Notice| (n.patch_id, n.contract_id@)
}

/// A non-dry-run record of a successful application; the audit trail holds
/// at most one per (contract, patch) pair.
pub open spec fn is_applied_record(m: MigrationRecord) -> bool {
    &&& m.outcome == MigrationOutcome::Applied
    &&& !m.dry_run
    &&& m.patch_id is Some
}

/// The registry store.
pub struct RegistryStore {
    /// All patches ever created; never removed, only transitioned.
    pub patches: Vec<Patch>,
    /// The deployed contracts known to the registry.
    pub contracts: Vec<Contract>,
    /// Append-only audit trail of migration attempts.
    pub migrations: Vec<MigrationRecord>,
    /// Which (patch, contract) pairs were already notified.
    pub notices: Vec<Notice>,
    /// The next patch id to assign; above every existing patch id.
    pub next_patch_id: u64,
}

impl RegistryStore {
    /// The patch with the given id, if any.
    pub open spec fn spec_patch(self, id: u64) -> Option<Patch> {
        find_assoc(self.patches@, patch_key(), id)
    }

    /// The contract with the given id, if any.
    pub open spec fn spec_contract(self, id: Seq<char>) -> Option<Contract> {
        find_assoc(self.contracts@, contract_key(), id)
    }

    /// The non-dry-run Applied record for a (contract, patch) pair, if any.
    pub open spec fn spec_applied(self, contract_id: Seq<char>, patch_id: u64) -> Option<
        MigrationRecord,
    > {
        find_assoc(
            self.migrations@,
            migration_key(),
            (contract_id, Some(patch_id), false, MigrationOutcome::Applied),
        )
    }

    /// Whether the (patch, contract) pair was already notified.
    pub open spec fn spec_notified(self, patch_id: u64, contract_id: Seq<char>) -> bool {
        find_assoc(self.notices@, notice_key(), (patch_id, contract_id)) is Some
    }

    /// The store invariant; established by `new` and preserved by every
    /// method.
    pub open spec fn inv(self) -> bool {
        &&& forall|i: int, j: int|
            #![trigger self.patches@[i].id, self.patches@[j].id]
            0 <= i < j < self.patches@.len() ==> self.patches@[i].id != self.patches@[j].id
        &&& forall|i: int|
            0 <= i < self.patches@.len() ==> #[trigger] self.patches@[i].id < self.next_patch_id
        &&& forall|i: int| 0 <= i < self.patches@.len() ==> (#[trigger] self.patches@[i]).valid()
        &&& forall|i: int, j: int|
            #![trigger self.contracts@[i].id, self.contracts@[j].id]
            0 <= i < j < self.contracts@.len() ==> self.contracts@[i].id@ != self.contracts@[j].id@
        &&& forall|i: int, j: int|
            #![trigger self.migrations@[i], self.migrations@[j]]
            0 <= i < j < self.migrations@.len() ==> !(is_applied_record(self.migrations@[i])
                && is_applied_record(self.migrations@[j]) && self.migrations@[i].contract_id@
                == self.migrations@[j].contract_id@ && self.migrations@[i].patch_id
                == self.migrations@[j].patch_id)
    }

    /// An empty store.
    pub fn new() -> (r: Self)
        ensures
            r.inv(),
            r.patches@ == Seq::<Patch>::empty(),
            r.contracts@ == Seq::<Contract>::empty(),
            r.migrations@ == Seq::<MigrationRecord>::empty(),
            r.notices@ == Seq::<Notice>::empty(),
            r.next_patch_id == 1,
    {
        RegistryStore {
            patches: Vec::new(),
            contracts: Vec::new(),
            migrations: Vec::new(),
            notices: Vec::new(),
            next_patch_id: 1,
        }
    }

    /// The patch with the given id, or `PatchNotFound`.
    pub fn get_patch(&self, id: u64) -> (r: Result<Patch, RegistryError>)
        ensures
            match r {
                Ok(p) => self.spec_patch(id) == Some(p),
                Err(e) => e == RegistryError::PatchNotFound && self.spec_patch(id) is None,
            },
    {
        let n = self.patches.len();
        let mut i: usize = 0;
        while i < n
            invariant
                n == self.patches@.len(),
                i <= n,
                forall|t: int| 0 <= t < i ==> #[trigger] self.patches@[t].id != id,
            decreases n - i,
        {
            if self.patches[i].id == id {
                proof {
                    lemma_find_at(self.patches@, patch_key(), i as int);
                }
                return Ok(self.patches[i].clone());
            }
            i = i + 1;
        }
        proof {
            lemma_find_none(self.patches@, patch_key(), id);
        }
        Err(RegistryError::PatchNotFound)
    }

    /// The contract with the given id, or `ContractNotFound`.
    pub fn get_contract(&self, id: &str) -> (r: Result<Contract, RegistryError>)
        ensures
            match r {
                Ok(c) => self.spec_contract(id@) == Some(c),
                Err(e) => e == RegistryError::ContractNotFound && self.spec_contract(id@) is None,
            },
    {
        let key = id.to_owned();
        let n = self.contracts.len();
        let mut i: usize = 0;
        while i < n
            invariant
                n == self.contracts@.len(),
                key@ == id@,
                i <= n,
                forall|t: int| 0 <= t < i ==> #[trigger] self.contracts@[t].id@ != id@,
            decreases n - i,
        {
            if self.contracts[i].id == key {
                proof {
                    lemma_find_at(self.contracts@, contract_key(), i as int);
                }
                return Ok(self.contracts[i].clone());
            }
            i = i + 1;
        }
        proof {
            lemma_find_none(self.contracts@, contract_key(), id@);
        }
        Err(RegistryError::ContractNotFound)
    }

    /// The ids of all contracts known to the registry, in store order.
    pub fn list_contract_ids(&self) -> (r: Vec<String>)
        ensures
            r@.len() == self.contracts@.len(),
            forall|i: int| 0 <= i < r@.len() ==> (#[trigger] r@[i])@ == self.contracts@[i].id@,
    {
        let n = self.contracts.len();
        let mut out: Vec<String> = Vec::new();
        let mut i: usize = 0;
        while i < n
            invariant
                n == self.contracts@.len(),
                i <= n,
                out@.len() == i,
                forall|t: int| 0 <= t < i ==> (#[trigger] out@[t])@ == self.contracts@[t].id@,
            decreases n - i,
        {
            out.push(self.contracts[i].id.clone());
            i = i + 1;
        }
        out
    }

    /// Inserts a contract, or replaces the contract carrying the same id.
    pub fn put_contract(&mut self, c: Contract)
        requires
            old(self).inv(),
        ensures
            final(self).inv(),
            forall|x: Seq<char>|
                final(self).spec_contract(x) == if x == c.id@ {
                    Some(c)
                } else {
                    old(self).spec_contract(x)
                },
            old(self).spec_contract(c.id@) is None ==> final(self).contracts@ == old(
                self,
            ).contracts@.push(c),
            old(self).spec_contract(c.id@) is Some ==> final(self).contracts@.len() == old(
                self,
            ).contracts@.len(),
            final(self).patches@ == old(self).patches@,
            final(self).migrations@ == old(self).migrations@,
            final(self).notices@ == old(self).notices@,
            final(self).next_patch_id == old(self).next_patch_id,
    {
        let n = self.contracts.len();
        let mut i: usize = 0;
        while i < n
            invariant
                *self == *old(self),
                self.inv(),
                n == self.contracts@.len(),
                i <= n,
                forall|t: int| 0 <= t < i ==> #[trigger] self.contracts@[t].id@ != c.id@,
            decreases n - i,
        {
            if self.contracts[i].id == c.id {
                proof {
                    lemma_find_at(self.contracts@, contract_key(), i as int);
                    assert forall|x: Seq<char>|
                        find_assoc(self.contracts@.update(i as int, c), contract_key(), x) == if x
                            == c.id@ {
                            Some(c)
                        } else {
                            find_assoc(self.contracts@, contract_key(), x)
                        } by {
                        lemma_find_update(self.contracts@, contract_key(), i as int, c, x);
                    }
                }
                self.contracts[i] = c;
                return ;
            }
            i = i + 1;
        }
        proof {
            lemma_find_none(self.contracts@, contract_key(), c.id@);
            assert forall|x: Seq<char>|
                find_assoc(self.contracts@.push(c), contract_key(), x) == if x == c.id@ {
                    Some(c)
                } else {
                    find_assoc(self.contracts@, contract_key(), x)
                } by {
                lemma_find_push(self.contracts@, contract_key(), c, x);
                if x != c.id@ && find_assoc(self.contracts@, contract_key(), x) is None {
                }
            }
        }
        self.contracts.push(c);
    }

    /// Appends a freshly created patch under the next free id and advances
    /// the allocation counter.
    pub fn push_patch(&mut self, p: Patch)
        requires
            old(self).inv(),
            p.id == old(self).next_patch_id,
            p.valid(),
            old(self).next_patch_id < u64::MAX,
        ensures
            final(self).inv(),
            final(self).patches@ == old(self).patches@.push(p),
            final(self).next_patch_id == old(self).next_patch_id + 1,
            forall|x: u64|
                final(self).spec_patch(x) == if x == p.id {
                    Some(p)
                } else {
                    old(self).spec_patch(x)
                },
            final(self).contracts@ == old(self).contracts@,
            final(self).migrations@ == old(self).migrations@,
            final(self).notices@ == old(self).notices@,
    {
        proof {
            assert forall|x: u64|
                find_assoc(self.patches@.push(p), patch_key(), x) == if x == p.id {
                    Some(p)
                } else {
                    find_assoc(self.patches@, patch_key(), x)
                } by {
                lemma_find_push(self.patches@, patch_key(), p, x);
                if x == p.id {
                    lemma_find_none(self.patches@, patch_key(), x);
                }
            }
        }
        self.patches.push(p);
        self.next_patch_id = self.next_patch_id + 1;
    }

    /// Replaces the patch that carries `p.id`; the caller owns the lifecycle
    /// rules on what may change.
    pub fn update_patch(&mut self, p: Patch)
        requires
            old(self).inv(),
            p.valid(),
            old(self).spec_patch(p.id) is Some,
        ensures
            final(self).inv(),
            final(self).patches@.len() == old(self).patches@.len(),
            final(self).next_patch_id == old(self).next_patch_id,
            forall|x: u64|
                final(self).spec_patch(x) == if x == p.id {
                    Some(p)
                } else {
                    old(self).spec_patch(x)
                },
            final(self).contracts@ == old(self).contracts@,
            final(self).migrations@ == old(self).migrations@,
            final(self).notices@ == old(self).notices@,
    {
        let n = self.patches.len();
        let mut i: usize = 0;
        while i < n
            invariant
                *self == *old(self),
                self.inv(),
                p.valid(),
                n == self.patches@.len(),
                i <= n,
                forall|t: int| 0 <= t < i ==> #[trigger] self.patches@[t].id != p.id,
            decreases n - i,
        {
            if self.patches[i].id == p.id {
                proof {
                    let s0 = self.patches@;
                    let s1 = s0.update(i as int, p);
                    assert forall|t: int, u: int|
                        0 <= t < u < s1.len() implies s1[t].id != s1[u].id by {
                        assert(s0[t].id != s0[u].id);
                        assert(s1[t] == if t == i { p } else { s0[t] });
                        assert(s1[u] == if u == i { p } else { s0[u] });
                    }
                    assert forall|t: int|
                        0 <= t < s1.len() implies s1[t].id < self.next_patch_id by {
                        assert(s0[t].id < self.next_patch_id);
                        assert(s1[t] == if t == i { p } else { s0[t] });
                    }
                    assert forall|t: int| 0 <= t < s1.len() implies s1[t].valid() by {
                        assert(s0[t].valid());
                        assert(s1[t] == if t == i { p } else { s0[t] });
                    }
                    assert forall|x: u64|
                        find_assoc(self.patches@.update(i as int, p), patch_key(), x) == if x
                            == p.id {
                            Some(p)
                        } else {
                            find_assoc(self.patches@, patch_key(), x)
                        } by {
                        lemma_find_update(self.patches@, patch_key(), i as int, p, x);
                    }
                }
                self.patches[i] = p;
                return ;
            }
            i = i + 1;
        }
        proof {
            lemma_find_none(self.patches@, patch_key(), p.id);
        }
    }

    /// The conditional contract write: replaces the contract's hash and
    /// version only when the caller's expected hash still matches; a
    /// mismatch reports the concurrent-migration conflict and writes
    /// nothing.
    pub fn write_contract_version(
        &mut self,
        id: &str,
        expected_current_hash: &str,
        new_hash: String,
        new_version: String,
    ) -> (r: Result<(), RegistryError>)
        requires
            old(self).inv(),
        ensures
            final(self).inv(),
            final(self).patches@ == old(self).patches@,
            final(self).migrations@ == old(self).migrations@,
            final(self).notices@ == old(self).notices@,
            final(self).next_patch_id == old(self).next_patch_id,
            final(self).contracts@.len() == old(self).contracts@.len(),
            match old(self).spec_contract(id@) {
                None => r == Err::<(), RegistryError>(RegistryError::ContractNotFound)
                    && *final(self) == *old(self),
                Some(c) => {
                    if c.current_wasm_hash@ != expected_current_hash@ {
                        r == Err::<(), RegistryError>(RegistryError::ConcurrentMigrationConflict)
                            && *final(self) == *old(self)
                    } else {
                        r == Ok::<(), RegistryError>(()) && (forall|x: Seq<char>|
                            final(self).spec_contract(x) == if x == id@ {
                                Some(
                                    (Contract {
                                        id: c.id,
                                        current_wasm_hash: new_hash,
                                        current_version: new_version,
                                        publisher_id: c.publisher_id,
                                    }),
                                )
                            } else {
                                old(self).spec_contract(x)
                            })
                    }
                },
            },
    {
        let key = id.to_owned();
        let expected = expected_current_hash.to_owned();
        let n = self.contracts.len();
        let mut i: usize = 0;
        while i < n
            invariant
                *self == *old(self),
                self.inv(),
                n == self.contracts@.len(),
                key@ == id@,
                expected@ == expected_current_hash@,
                i <= n,
                forall|t: int| 0 <= t < i ==> #[trigger] self.contracts@[t].id@ != id@,
            decreases n - i,
        {
            if self.contracts[i].id == key {
                proof {
                    lemma_find_at(self.contracts@, contract_key(), i as int);
                }
                if self.contracts[i].current_wasm_hash == expected {
                    let c = self.contracts[i].clone();
                    let updated = Contract {
                        id: c.id,
                        current_wasm_hash: new_hash,
                        current_version: new_version,
                        publisher_id: c.publisher_id,
                    };
                    proof {
                        assert forall|x: Seq<char>|
                            find_assoc(
                                self.contracts@.update(i as int, updated),
                                contract_key(),
                                x,
                            ) == if x == id@ {
                                Some(updated)
                            } else {
                                find_assoc(self.contracts@, contract_key(), x)
                            } by {
                            lemma_find_update(self.contracts@, contract_key(), i as int, updated, x);
                        }
                    }
                    self.contracts[i] = updated;
                    return Ok(());
                } else {
                    return Err(RegistryError::ConcurrentMigrationConflict);
                }
            }
            i = i + 1;
        }
        proof {
            lemma_find_none(self.contracts@, contract_key(), id@);
        }
        Err(RegistryError::ContractNotFound)
    }

    /// The non-dry-run Applied record for the (contract, patch) pair, if
    /// one exists.
    pub fn find_migration(&self, contract_id: &str, patch_id: u64) -> (r: Option<MigrationRecord>)
        ensures
            match r {
                Some(m) => self.spec_applied(contract_id@, patch_id) == Some(m),
                None => self.spec_applied(contract_id@, patch_id) is None,
            },
    {
        let ghost k = (contract_id@, Some(patch_id), false, MigrationOutcome::Applied);
        let key = contract_id.to_owned();
        let n = self.migrations.len();
        let mut i: usize = 0;
        while i < n
            invariant
                n == self.migrations@.len(),
                key@ == contract_id@,
                i <= n,
                k == (contract_id@, Some(patch_id), false, MigrationOutcome::Applied),
                forall|t: int| 0 <= t < i ==> migration_key()(#[trigger] self.migrations@[t]) != k,
            decreases n - i,
        {
            let m = &self.migrations[i];
            let pid_matches = match m.patch_id {
                Some(q) => q == patch_id,
                None => false,
            };
            if !m.dry_run && pid_matches && m.outcome == MigrationOutcome::Applied && m.contract_id
                == key {
                proof {
                    lemma_find_at(self.migrations@, migration_key(), i as int);
                }
                return Some(self.migrations[i].clone());
            }
            i = i + 1;
        }
        proof {
            lemma_find_none(self.migrations@, migration_key(), k);
        }
        None
    }

    /// Appends a migration record to the audit trail. A non-dry-run Applied
    /// record may only be added while the pair has none (the engine checks
    /// first), which keeps the at-most-one invariant.
    pub fn record_migration(&mut self, m: MigrationRecord)
        requires
            old(self).inv(),
            is_applied_record(m) ==> old(self).spec_applied(
                m.contract_id@,
                m.patch_id->Some_0,
            ) is None,
        ensures
            final(self).inv(),
            final(self).migrations@ == old(self).migrations@.push(m),
            forall|cid: Seq<char>, pid: u64|
                #![trigger final(self).spec_applied(cid, pid)]
                final(self).spec_applied(cid, pid) == if is_applied_record(m) && m.contract_id@
                    == cid && m.patch_id == Some(pid) {
                    Some(m)
                } else {
                    old(self).spec_applied(cid, pid)
                },
            final(self).patches@ == old(self).patches@,
            final(self).contracts@ == old(self).contracts@,
            final(self).notices@ == old(self).notices@,
            final(self).next_patch_id == old(self).next_patch_id,
    {
        proof {
            assert forall|cid: Seq<char>, pid: u64|
                find_assoc(
                    self.migrations@.push(m),
                    migration_key(),
                    (cid, Some(pid), false, MigrationOutcome::Applied),
                ) == if is_applied_record(m) && m.contract_id@ == cid && m.patch_id == Some(pid) {
                    Some(m)
                } else {
                    find_assoc(
                        self.migrations@,
                        migration_key(),
                        (cid, Some(pid), false, MigrationOutcome::Applied),
                    )
                } by {
                lemma_find_push(
                    self.migrations@,
                    migration_key(),
                    m,
                    (cid, Some(pid), false, MigrationOutcome::Applied),
                );
            }
            assert forall|i: int|
                0 <= i < self.migrations@.len() && is_applied_record(
                    #[trigger] self.migrations@[i],
                ) && is_applied_record(m) && self.migrations@[i].contract_id@ == m.contract_id@
                && self.migrations@[i].patch_id == m.patch_id implies false by {
                lemma_find_at_applied(self.migrations@, i);
            }
        }
        self.migrations.push(m);
    }

    /// Whether the (patch, contract) pair was already notified.
    pub fn is_notified(&self, patch_id: u64, contract_id: &str) -> (r: bool)
        ensures
            r == self.spec_notified(patch_id, contract_id@),
    {
        let ghost k = (patch_id, contract_id@);
        let key = contract_id.to_owned();
        let n = self.notices.len();
        let mut i: usize = 0;
        while i < n
            invariant
                n == self.notices@.len(),
                key@ == contract_id@,
                i <= n,
                k == (patch_id, contract_id@),
                forall|t: int| 0 <= t < i ==> notice_key()(#[trigger] self.notices@[t]) != k,
            decreases n - i,
        {
            let nt = &self.notices[i];
            if nt.patch_id == patch_id && nt.contract_id == key {
                proof {
                    assert(notice_key()(self.notices@[i as int]) == k);
                    lemma_find_at(self.notices@, notice_key(), i as int);
                }
                return true;
            }
            i = i + 1;
        }
        proof {
            lemma_find_none(self.notices@, notice_key(), k);
        }
        false
    }

    /// Records that the (patch, contract) pair was notified.
    pub fn record_notice(&mut self, patch_id: u64, contract_id: String)
        requires
            old(self).inv(),
        ensures
            final(self).inv(),
            final(self).notices@ == old(self).notices@.push(
                (Notice { patch_id: patch_id, contract_id: contract_id }),
            ),
            forall|p: u64, c: Seq<char>|
                #![trigger final(self).spec_notified(p, c)]
                final(self).spec_notified(p, c) == (old(self).spec_notified(p, c) || (p == patch_id
                    && c == contract_id@)),
            final(self).patches@ == old(self).patches@,
            final(self).contracts@ == old(self).contracts@,
            final(self).migrations@ == old(self).migrations@,
            final(self).next_patch_id == old(self).next_patch_id,
    {
        let nt = Notice { patch_id, contract_id };
        proof {
            assert forall|p: u64, c: Seq<char>|
                (find_assoc(self.notices@.push(nt), notice_key(), (p, c)) is Some) == ((find_assoc(
                    self.notices@,
                    notice_key(),
                    (p, c),
                ) is Some) || (p == patch_id && c == nt.contract_id@)) by {
                lemma_find_push(self.notices@, notice_key(), nt, (p, c));
            }
        }
        self.notices.push(nt);
    }
}

/// Helper for the at-most-one-Applied invariant: if some position holds an
/// Applied record for a pair, the lookup for that pair finds a record.
proof fn lemma_find_at_applied(s: Seq<MigrationRecord>, i: int)
    requires
        0 <= i < s.len(),
        is_applied_record(s[i]),
    ensures
        find_assoc(
            s,
            migration_key(),
            (s[i].contract_id@, s[i].patch_id, s[i].dry_run, s[i].outcome),
        ) is Some,
    decreases i,
{
    let k = (s[i].contract_id@, s[i].patch_id, s[i].dry_run, s[i].outcome);
    if migration_key()(s[0]) == k {
    } else {
        assert(i != 0);
        assert(s.drop_first()[i - 1] == s[i]);
        lemma_find_at_applied(s.drop_first(), i - 1);
    }
}

} // verus!
