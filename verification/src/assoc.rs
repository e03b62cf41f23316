//! Association sequences: the mathematical model behind the configuration
//! snapshot (an ordered mapping of strings) and the correlation registry (a
//! mapping of identifiers to waiters). A mapping is a sequence of key/value
//! pairs; lookup finds the first pair with the key.

use vstd::prelude::*;

verus! {

/// Whether some pair carries the key.
pub open spec fn has_key<K, V>(m: Seq<(K, V)>, k: K) -> bool {
    exists|i: int| 0 <= i < m.len() && m[i].0 == k
}

/// The value of the first pair with the key (arbitrary when absent).
pub open spec fn lookup<K, V>(m: Seq<(K, V)>, k: K) -> V
    decreases m.len(),
{
    if m.len() == 0 {
        arbitrary()
    } else if m[0].0 == k {
        m[0].1
    } else {
        lookup(m.skip(1), k)
    }
}

/// The mapping with every pair carrying the key set to the value.
pub open spec fn with_value<K, V>(m: Seq<(K, V)>, k: K, v: V) -> Seq<(K, V)> {
    m.map_values(
        |p: (K, V)|
            if p.0 == k {
                (p.0, v)
            } else {
                p
            },
    )
}

/// The mapping with the key bound to the value: replaced where present,
/// appended where absent.
pub open spec fn upsert<K, V>(m: Seq<(K, V)>, k: K, v: V) -> Seq<(K, V)> {
    if has_key(m, k) {
        with_value(m, k, v)
    } else {
        m.push((k, v))
    }
}

/// The mapping without its first pair carrying the key.
pub open spec fn remove_first<K, V>(m: Seq<(K, V)>, k: K) -> Seq<(K, V)>
    decreases m.len(),
{
    if m.len() == 0 {
        m
    } else if m[0].0 == k {
        m.skip(1)
    } else {
        seq![m[0]] + remove_first(m.skip(1), k)
    }
}

/// The value of the last pair with the key (arbitrary when absent): what a
/// reader that lets later entries win observes.
pub open spec fn lookup_last<K, V>(m: Seq<(K, V)>, k: K) -> V
    decreases m.len(),
{
    if m.len() == 0 {
        arbitrary()
    } else if m.last().0 == k {
        m.last().1
    } else {
        lookup_last(m.drop_last(), k)
    }
}

/// The base mapping overridden by every pair of `over` in order, later
/// pairs winning.
pub open spec fn merged<K, V>(base: Seq<(K, V)>, over: Seq<(K, V)>) -> Seq<(K, V)>
    decreases over.len(),
{
    if over.len() == 0 {
        base
    } else {
        upsert(merged(base, over.drop_last()), over.last().0, over.last().1)
    }
}

/// No two pairs share a key.
pub open spec fn distinct_keys<K, V>(m: Seq<(K, V)>) -> bool {
    forall|i: int, j: int| 0 <= i < j < m.len() ==> m[i].0 != m[j].0
}

/// How `with_value` affects lookups: the chosen key now reads the new
/// value, every other key reads as before, and no key appears or
/// disappears.
pub proof fn lemma_with_value<K, V>(m: Seq<(K, V)>, k: K, v: V, q: K)
    ensures
        has_key(with_value(m, k, v), q) == has_key(m, q),
        q == k && has_key(m, k) ==> lookup(with_value(m, k, v), q) == v,
        q != k ==> lookup(with_value(m, k, v), q) == lookup(m, q),
    decreases m.len(),
{
    let w = with_value(m, k, v);
    assert(w.len() == m.len());
    assert(forall|i: int| 0 <= i < m.len() ==> w[i].0 == m[i].0);
    assert(has_key(w, q) == has_key(m, q));
    if m.len() > 0 {
        lemma_with_value(m.skip(1), k, v, q);
        assert(with_value(m.skip(1), k, v) =~= w.skip(1));
        lemma_has_key_cons(m, q);
        assert(w[0].0 == m[0].0);
        if m[0].0 == q {
            if q == k {
                assert(w[0] == (m[0].0, v));
            } else {
                assert(w[0] == m[0]);
            }
        } else {
            assert(lookup(w, q) == lookup(w.skip(1), q));
            assert(lookup(m, q) == lookup(m.skip(1), q));
        }
    }
}

/// How appending a pair affects lookups: keys already present read as
/// before; the appended key reads the appended value where it was absent.
pub proof fn lemma_push<K, V>(m: Seq<(K, V)>, k: K, v: V, q: K)
    ensures
        has_key(m.push((k, v)), q) == (has_key(m, q) || q == k),
        has_key(m, q) ==> lookup(m.push((k, v)), q) == lookup(m, q),
        !has_key(m, q) && q == k ==> lookup(m.push((k, v)), q) == v,
    decreases m.len(),
{
    let w = m.push((k, v));
    assert(forall|i: int| 0 <= i < m.len() ==> w[i] == m[i]);
    assert(w[m.len() as int] == (k, v));
    if has_key(w, q) {
        let i = choose|i: int| 0 <= i < w.len() && w[i].0 == q;
        if i < m.len() {
            assert(m[i].0 == q);
        }
    }
    if has_key(m, q) {
        let i = choose|i: int| 0 <= i < m.len() && m[i].0 == q;
        assert(w[i].0 == q);
    }
    if m.len() == 0 {
        assert(w[0] == (k, v));
    } else {
        lemma_push(m.skip(1), k, v, q);
        assert(m.skip(1).push((k, v)) =~= w.skip(1));
        lemma_has_key_cons(m, q);
        if m[0].0 != q {
            assert(lookup(w, q) == lookup(w.skip(1), q));
            assert(lookup(m, q) == lookup(m.skip(1), q));
        }
    }
}

/// `upsert` in terms of lookups, for any key.
pub proof fn lemma_upsert<K, V>(m: Seq<(K, V)>, k: K, v: V, q: K)
    ensures
        has_key(upsert(m, k, v), q) == (has_key(m, q) || q == k),
        q == k ==> lookup(upsert(m, k, v), q) == v,
        q != k && has_key(m, q) ==> lookup(upsert(m, k, v), q) == lookup(m, q),
    decreases m.len(),
{
    lemma_with_value(m, k, v, q);
    lemma_push(m, k, v, q);
}

/// Lookup resolves to the first matching pair.
pub proof fn lemma_lookup_at<K, V>(m: Seq<(K, V)>, k: K, i: int)
    requires
        0 <= i < m.len(),
        m[i].0 == k,
        forall|j: int| 0 <= j < i ==> m[j].0 != k,
    ensures
        has_key(m, k),
        lookup(m, k) == m[i].1,
    decreases i,
{
    if i > 0 {
        lemma_lookup_at(m.skip(1), k, i - 1);
    }
}

/// A key is in a non-empty mapping exactly when the head carries it or the
/// tail does.
pub proof fn lemma_has_key_cons<K, V>(m: Seq<(K, V)>, q: K)
    requires
        m.len() > 0,
    ensures
        has_key(m, q) == (m[0].0 == q || has_key(m.skip(1), q)),
{
    if has_key(m, q) {
        let i = choose|i: int| 0 <= i < m.len() && m[i].0 == q;
        if i > 0 {
            assert(m.skip(1)[i - 1].0 == q);
        }
    }
    if has_key(m.skip(1), q) {
        let i = choose|i: int| 0 <= i < m.skip(1).len() && m.skip(1)[i].0 == q;
        assert(m[i + 1].0 == q);
    }
}

/// Every pair left by `remove_first` was a pair of the original mapping.
proof fn lemma_remove_first_subset<K, V>(m: Seq<(K, V)>, k: K)
    ensures
        forall|i: int|
            0 <= i < remove_first(m, k).len() ==> exists|j: int|
                0 <= j < m.len() && #[trigger] remove_first(m, k)[i] == m[j],
    decreases m.len(),
{
    let r = remove_first(m, k);
    if m.len() == 0 {
    } else if m[0].0 == k {
        assert forall|i: int| 0 <= i < r.len() implies exists|j: int|
            0 <= j < m.len() && #[trigger] r[i] == m[j] by {
            assert(r[i] == m[i + 1]);
        }
    } else {
        lemma_remove_first_subset(m.skip(1), k);
        let tail = remove_first(m.skip(1), k);
        assert forall|i: int| 0 <= i < r.len() implies exists|j: int|
            0 <= j < m.len() && #[trigger] r[i] == m[j] by {
            if i == 0 {
                assert(r[0] == m[0]);
            } else {
                assert(r[i] == tail[i - 1]);
                let w = choose|w: int| 0 <= w < m.skip(1).len() && tail[i - 1] == m.skip(1)[w];
                assert(m.skip(1)[w] == m[w + 1]);
            }
        }
    }
}

/// How removing the first pair with a key affects the rest: under distinct
/// keys the key is gone, every other key keeps its value, and distinctness
/// is preserved. Removing an absent key changes nothing.
pub proof fn lemma_remove_first<K, V>(m: Seq<(K, V)>, k: K, q: K)
    ensures
        !has_key(m, k) ==> remove_first(m, k) == m,
        distinct_keys(m) ==> !has_key(remove_first(m, k), k),
        q != k ==> has_key(remove_first(m, k), q) == has_key(m, q),
        q != k && has_key(m, q) ==> lookup(remove_first(m, k), q) == lookup(m, q),
        distinct_keys(m) ==> distinct_keys(remove_first(m, k)),
        has_key(m, k) ==> remove_first(m, k).len() == m.len() - 1,
    decreases m.len(),
{
    let r = remove_first(m, k);
    if m.len() == 0 {
    } else if m[0].0 == k {
        if distinct_keys(m) {
            assert forall|i: int| 0 <= i < r.len() implies r[i].0 != k by {
                assert(r[i] == m[i + 1]);
            }
        }
        if q != k {
            if has_key(r, q) {
                let i = choose|i: int| 0 <= i < r.len() && r[i].0 == q;
                assert(m[i + 1].0 == q);
            }
            if has_key(m, q) {
                let i = choose|i: int| 0 <= i < m.len() && m[i].0 == q;
                assert(r[i - 1].0 == q);
            }
        }
    } else {
        lemma_remove_first(m.skip(1), k, q);
        let tail = remove_first(m.skip(1), k);
        assert(r == seq![m[0]] + tail);
        assert(r[0] == m[0]);
        assert(r.skip(1) =~= tail);
        lemma_has_key_cons(m, k);
        assert(r.len() == 1 + tail.len());
        if !has_key(m, k) {
            assert forall|i: int| 0 <= i < m.skip(1).len() implies m.skip(1)[i].0 != k by {
                assert(m.skip(1)[i] == m[i + 1]);
            }
            assert(!has_key(m.skip(1), k));
            assert(r =~= m);
        }
        if distinct_keys(m) {
            assert(distinct_keys(m.skip(1))) by {
                assert(forall|i: int, j: int|
                    0 <= i < j < m.skip(1).len() ==> m.skip(1)[i] == m[i + 1] && m.skip(1)[j]
                        == m[j + 1]);
            }
            if has_key(r, k) {
                let i = choose|i: int| 0 <= i < r.len() && r[i].0 == k;
                assert(i > 0);
                assert(tail[i - 1].0 == k);
                assert(false);
            }
            assert forall|i: int, j: int| 0 <= i < j < r.len() implies r[i].0 != r[j].0 by {
                if i > 0 {
                    assert(r[i] == tail[i - 1] && r[j] == tail[j - 1]);
                } else {
                    assert(r[j] == tail[j - 1]);
                    lemma_remove_first_subset(m.skip(1), k);
                    let w = choose|w: int|
                        0 <= w < m.skip(1).len() && tail[j - 1] == m.skip(1)[w];
                    assert(m.skip(1)[w] == m[w + 1]);
                    assert(m[0].0 != m[w + 1].0);
                }
            }
        }
        if q != k {
            lemma_has_key_cons(m, q);
            lemma_has_key_cons(r, q);
            assert(has_key(r, q) == has_key(m, q));
            if has_key(m, q) && m[0].0 != q {
                assert(lookup(r, q) == lookup(tail, q));
                assert(lookup(m, q) == lookup(m.skip(1), q));
            }
        }
    }
}

/// A key is in a non-empty mapping exactly when the last pair carries it
/// or the rest does.
proof fn lemma_has_key_snoc<K, V>(m: Seq<(K, V)>, q: K)
    requires
        m.len() > 0,
    ensures
        has_key(m, q) == (m.last().0 == q || has_key(m.drop_last(), q)),
{
    if has_key(m, q) {
        let i = choose|i: int| 0 <= i < m.len() && m[i].0 == q;
        if i < m.len() - 1 {
            assert(m.drop_last()[i].0 == q);
        }
    }
    if has_key(m.drop_last(), q) {
        let i = choose|i: int| 0 <= i < m.drop_last().len() && m.drop_last()[i].0 == q;
        assert(m[i].0 == q);
    }
}

/// What `merged` reads at any key: every key of either side is present;
/// keys of the overriding side read their last overriding value; the rest
/// read from the base.
pub proof fn lemma_merged_lookup<K, V>(base: Seq<(K, V)>, over: Seq<(K, V)>, q: K)
    ensures
        has_key(merged(base, over), q) == (has_key(base, q) || has_key(over, q)),
        has_key(over, q) ==> lookup(merged(base, over), q) == lookup_last(over, q),
        !has_key(over, q) && has_key(base, q) ==> lookup(merged(base, over), q) == lookup(base, q),
    decreases over.len(),
{
    if over.len() > 0 {
        let rest = over.drop_last();
        lemma_merged_lookup(base, rest, q);
        lemma_upsert(merged(base, rest), over.last().0, over.last().1, q);
        lemma_has_key_snoc(over, q);
    }
}

/// The distinct-keys invariant survives `with_value` and `upsert`.
pub proof fn lemma_distinct_preserved<K, V>(m: Seq<(K, V)>, k: K, v: V)
    requires
        distinct_keys(m),
    ensures
        distinct_keys(with_value(m, k, v)),
        distinct_keys(upsert(m, k, v)),
{
    let w = with_value(m, k, v);
    assert(forall|i: int| 0 <= i < m.len() ==> w[i].0 == m[i].0);
    if !has_key(m, k) {
        let p = m.push((k, v));
        assert forall|i: int, j: int| 0 <= i < j < p.len() implies p[i].0 != p[j].0 by {
            if j == m.len() {
                assert(p[i].0 == m[i].0);
                if m[i].0 == k {
                    assert(has_key(m, k));
                }
            }
        }
    }
}

} // verus!
