//! The notification dispatcher: computes, for a patch, which contracts
//! newly entered its rollout cohort, records them as notified, and returns
//! the partition. Delivery over the external channel is the caller's side;
//! the delta here is what it delivers.
//!
//! The operation is idempotent per contract: a contract already recorded as
//! notified for a patch lands in `skipped`, never twice in `notified`.

use vstd::prelude::*;
use vstd::string::StringSliceAdditionalSpecFns;

use crate::cohort::{in_cohort, spec_in_cohort};
use crate::errors::RegistryError;
use crate::model::{Contract, PatchStatus};
use crate::store::RegistryStore;

verus! {

/// What a notify run reports back: the contracts newly notified in this
/// pass, and everyone else (cohort outsiders and the already-notified).
pub struct NotificationReport {
    /// Cohort members notified in this pass, in registry order.
    pub notified: Vec<String>,
    /// Contracts not notified in this pass, in registry order.
    pub skipped: Vec<String>,
}

/// Cohort membership of a stored contract record.
pub open spec fn contract_in_cohort(c: Contract, patch_id: u64, pct: u8) -> bool {
    spec_in_cohort(vstd::utf8::encode_utf8(c.id@), patch_id, pct)
}

/// A contract to notify in this pass: a cohort member whose owner was not
/// notified for this patch before.
pub open spec fn newly_notified(c: Contract, st: RegistryStore, patch_id: u64, pct: u8) -> bool {
    contract_in_cohort(c, patch_id, pct) && !st.spec_notified(patch_id, c.id@)
}

/// The ids of the contracts a notify pass notifies, in registry order.
pub open spec fn spec_notify_delta(
    s: Seq<Contract>,
    st: RegistryStore,
    patch_id: u64,
    pct: u8,
) -> Seq<Seq<char>>
    decreases s.len(),
{
    if s.len() == 0 {
        Seq::empty()
    } else {
        spec_notify_delta(s.drop_last(), st, patch_id, pct) + (if newly_notified(
            s.last(),
            st,
            patch_id,
            pct,
        ) {
            seq![s.last().id@]
        } else {
            Seq::<Seq<char>>::empty()
        })
    }
}

/// The ids of the contracts a notify pass skips, in registry order.
pub open spec fn spec_notify_skipped(
    s: Seq<Contract>,
    st: RegistryStore,
    patch_id: u64,
    pct: u8,
) -> Seq<Seq<char>>
    decreases s.len(),
{
    if s.len() == 0 {
        Seq::empty()
    } else {
        spec_notify_skipped(s.drop_last(), st, patch_id, pct) + (if !newly_notified(
            s.last(),
            st,
            patch_id,
            pct,
        ) {
            seq![s.last().id@]
        } else {
            Seq::<Seq<char>>::empty()
        })
    }
}

/// The view of each id in a report list.
pub open spec fn id_views(v: Seq<String>) -> Seq<Seq<char>> {
    v.map_values(|s: String| s@)
}

/// The notify partition is total: every registered contract lands in
/// exactly one of the two report lists.
pub proof fn lemma_notify_partition(s: Seq<Contract>, st: RegistryStore, patch_id: u64, pct: u8)
    ensures
        spec_notify_delta(s, st, patch_id, pct).len() + spec_notify_skipped(
            s,
            st,
            patch_id,
            pct,
        ).len() == s.len(),
    decreases s.len(),
{
    if s.len() == 0 {
    } else {
        lemma_notify_partition(s.drop_last(), st, patch_id, pct);
    }
}

/// Partitions all registered contracts by cohort membership at the patch's
/// current rollout percentage, records every cohort member not notified
/// before as notified, and returns the partition. Fails with
/// `PatchNotFound` for an unknown patch and `PatchWithdrawn` for a
/// withdrawn one; a failed call changes nothing.
pub fn notify(store: &mut RegistryStore, patch_id: u64) -> (r: Result<
    NotificationReport,
    RegistryError,
>)
    requires
        old(store).inv(),
    ensures
        final(store).inv(),
        final(store).patches@ == old(store).patches@,
        final(store).contracts@ == old(store).contracts@,
        final(store).migrations@ == old(store).migrations@,
        final(store).next_patch_id == old(store).next_patch_id,
        match old(store).spec_patch(patch_id) {
            None => r == Err::<NotificationReport, RegistryError>(RegistryError::PatchNotFound)
                && *final(store) == *old(store),
            Some(p) => {
                if p.status == PatchStatus::Withdrawn {
                    r == Err::<NotificationReport, RegistryError>(RegistryError::PatchWithdrawn)
                        && *final(store) == *old(store)
                } else {
                    r is Ok && {
                        let rep = r->Ok_0;
                        let delta = spec_notify_delta(
                            old(store).contracts@,
                            *old(store),
                            patch_id,
                            p.rollout_percentage,
                        );
                        &&& id_views(rep.notified@) == delta
                        &&& id_views(rep.skipped@) == spec_notify_skipped(
                            old(store).contracts@,
                            *old(store),
                            patch_id,
                            p.rollout_percentage,
                        )
                        &&& forall|q: u64, c: Seq<char>|
                            #![trigger final(store).spec_notified(q, c)]
                            final(store).spec_notified(q, c) == (old(store).spec_notified(q, c) || (
                            q == patch_id && delta.contains(c)))
                    }
                }
            },
        },
{
    let p = match store.get_patch(patch_id) {
        Ok(p) => p,
        Err(e) => {
            return Err(e);
        },
    };
    if let PatchStatus::Withdrawn = p.status {
        return Err(RegistryError::PatchWithdrawn);
    }
    let pct = p.rollout_percentage;
    let n = store.contracts.len();
    let mut notified: Vec<String> = Vec::new();
    let mut skipped: Vec<String> = Vec::new();
    let mut i: usize = 0;
    while i < n
        invariant
            *store == *old(store),
            store.inv(),
            n == store.contracts@.len(),
            i <= n,
            id_views(notified@) == spec_notify_delta(
                store.contracts@.take(i as int),
                *store,
                patch_id,
                pct,
            ),
            id_views(skipped@) == spec_notify_skipped(
                store.contracts@.take(i as int),
                *store,
                patch_id,
                pct,
            ),
        decreases n - i,
    {
        let cid = store.contracts[i].id.clone();
        let included = in_cohort(cid.as_str(), patch_id, pct);
        let already = store.is_notified(patch_id, cid.as_str());
        proof {
            assert(store.contracts@.take(i + 1).drop_last() =~= store.contracts@.take(i as int));
            assert(store.contracts@.take(i + 1).last() == store.contracts@[i as int]);
        }
        if included && !already {
            let ghost before = id_views(notified@);
            notified.push(cid);
            proof {
                assert(id_views(notified@) =~= before.push(store.contracts@[i as int].id@));
                assert(id_views(skipped@) + Seq::<Seq<char>>::empty() =~= id_views(skipped@));
                assert(before.push(store.contracts@[i as int].id@) =~= before + seq![
                    store.contracts@[i as int].id@,
                ]);
            }
        } else {
            let ghost before = id_views(skipped@);
            skipped.push(cid);
            proof {
                assert(id_views(skipped@) =~= before.push(store.contracts@[i as int].id@));
                assert(id_views(notified@) + Seq::<Seq<char>>::empty() =~= id_views(notified@));
                assert(before.push(store.contracts@[i as int].id@) =~= before + seq![
                    store.contracts@[i as int].id@,
                ]);
            }
        }
        i = i + 1;
    }
    proof {
        assert(store.contracts@.take(n as int) =~= store.contracts@);
    }
    let ghost delta = spec_notify_delta(old(store).contracts@, *old(store), patch_id, pct);
    let m = notified.len();
    let mut j: usize = 0;
    while j < m
        invariant
            store.inv(),
            store.patches@ == old(store).patches@,
            store.contracts@ == old(store).contracts@,
            store.migrations@ == old(store).migrations@,
            store.next_patch_id == old(store).next_patch_id,
            m == notified@.len(),
            j <= m,
            id_views(notified@) == delta,
            forall|q: u64, c: Seq<char>|
                #![trigger store.spec_notified(q, c)]
                store.spec_notified(q, c) == (old(store).spec_notified(q, c) || (q == patch_id
                    && id_views(notified@.take(j as int)).contains(c))),
        decreases m - j,
    {
        let ghost tk = id_views(notified@.take(j as int));
        store.record_notice(patch_id, notified[j].clone());
        proof {
            assert(notified@.take(j + 1) =~= notified@.take(j as int).push(notified@[j as int]));
            assert(id_views(notified@.take(j + 1)) =~= tk.push(notified@[j as int]@));
            assert forall|c: Seq<char>|
                id_views(notified@.take(j + 1)).contains(c) == (tk.contains(c) || c
                    == notified@[j as int]@) by {
                vstd::seq_lib::lemma_seq_contains_after_push(tk, notified@[j as int]@, c);
            }
        }
        j = j + 1;
    }
    proof {
        assert(notified@.take(m as int) =~= notified@);
    }
    Ok(NotificationReport { notified, skipped })
}

} // verus!
