//! First-match association lookup over sequences, with the lemmas that relate
//! it to indexed search, in-place update and append. The registry store keys
//! each of its record collections with it.

use vstd::prelude::*;

verus! {

/// The first element of `s` whose key is `k`, if any.
pub open spec fn find_assoc<T, K>(s: Seq<T>, key: spec_fn(T) -> K, k: K) -> Option<T>
    decreases s.len(),
{
    if s.len() == 0 {
        None
    } else if key(s[0]) == k {
        Some(s[0])
    } else {
        find_assoc(s.drop_first(), key, k)
    }
}

/// If position `j` holds the first element with its key, the lookup for that
/// key finds exactly `s[j]`.
pub proof fn lemma_find_at<T, K>(s: Seq<T>, key: spec_fn(T) -> K, j: int)
    requires
        0 <= j < s.len(),
        forall|t: int| 0 <= t < j ==> #[trigger] key(s[t]) != key(s[j]),
    ensures
        find_assoc(s, key, key(s[j])) == Some(s[j]),
    decreases j,
{
    if j == 0 {
    } else {
        assert(key(s[0]) != key(s[j]));
        let d = s.drop_first();
        assert(d =~= s.subrange(1, s.len() as int));
        assert(d[j - 1] == s[j]);
        assert(forall|t: int| 0 <= t < j - 1 ==> #[trigger] key(d[t]) != key(d[j - 1]));
        lemma_find_at(d, key, j - 1);
    }
}

/// If no element of `s` has key `k`, the lookup for `k` finds nothing.
pub proof fn lemma_find_none<T, K>(s: Seq<T>, key: spec_fn(T) -> K, k: K)
    requires
        forall|t: int| 0 <= t < s.len() ==> #[trigger] key(s[t]) != k,
    ensures
        find_assoc(s, key, k) is None,
    decreases s.len(),
{
    if s.len() == 0 {
    } else {
        lemma_find_none(s.drop_first(), key, k);
    }
}

/// Whatever the lookup finds carries the key it was looked up by.
pub proof fn lemma_find_key<T, K>(s: Seq<T>, key: spec_fn(T) -> K, k: K)
    requires
        find_assoc(s, key, k) is Some,
    ensures
        key(find_assoc(s, key, k)->Some_0) == k,
    decreases s.len(),
{
    if s.len() == 0 {
    } else if key(s[0]) == k {
    } else {
        lemma_find_key(s.drop_first(), key, k);
    }
}

/// Whatever the lookup finds is an element of the sequence.
pub proof fn lemma_find_member<T, K>(s: Seq<T>, key: spec_fn(T) -> K, k: K)
    requires
        find_assoc(s, key, k) is Some,
    ensures
        exists|i: int| 0 <= i < s.len() && s[i] == find_assoc(s, key, k)->Some_0,
    decreases s.len(),
{
    if s.len() == 0 {
    } else if key(s[0]) == k {
        assert(s[0] == find_assoc(s, key, k)->Some_0);
    } else {
        lemma_find_member(s.drop_first(), key, k);
        let i = choose|i: int|
            0 <= i < s.drop_first().len() && s.drop_first()[i] == find_assoc(
                s.drop_first(),
                key,
                k,
            )->Some_0;
        assert(s[i + 1] == find_assoc(s, key, k)->Some_0);
    }
}

/// Replacing the first element that carries a key with another element of
/// the same key changes the lookup only at that key.
pub proof fn lemma_find_update<T, K>(s: Seq<T>, key: spec_fn(T) -> K, j: int, p: T, k: K)
    requires
        0 <= j < s.len(),
        key(p) == key(s[j]),
        forall|t: int| 0 <= t < j ==> #[trigger] key(s[t]) != key(s[j]),
    ensures
        find_assoc(s.update(j, p), key, k) == if k == key(p) {
            Some(p)
        } else {
            find_assoc(s, key, k)
        },
    decreases j,
{
    let u = s.update(j, p);
    assert(u.len() == s.len());
    if j == 0 {
        assert(u[0] == p);
        assert(u.drop_first() =~= s.drop_first());
    } else {
        assert(u[0] == s[0]);
        let d = s.drop_first();
        assert(u.drop_first() =~= d.update(j - 1, p));
        assert(d[j - 1] == s[j]);
        assert(forall|t: int| 0 <= t < j - 1 ==> #[trigger] key(d[t]) != key(d[j - 1]));
        lemma_find_update(d, key, j - 1, p, k);
    }
}

/// Appending an element changes the lookup only at its key, and only where
/// the key was absent before.
pub proof fn lemma_find_push<T, K>(s: Seq<T>, key: spec_fn(T) -> K, p: T, k: K)
    ensures
        find_assoc(s.push(p), key, k) == if find_assoc(s, key, k) is Some {
            find_assoc(s, key, k)
        } else if key(p) == k {
            Some(p)
        } else {
            None::<T>
        },
    decreases s.len(),
{
    let u = s.push(p);
    if s.len() == 0 {
        assert(u[0] == p);
        assert(u.drop_first() =~= Seq::<T>::empty());
    } else {
        assert(u[0] == s[0]);
        assert(u.drop_first() =~= s.drop_first().push(p));
        lemma_find_push(s.drop_first(), key, p, k);
    }
}

} // verus!
