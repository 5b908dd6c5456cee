use vstd::prelude::*;

verus! {

/// The map that results from entering a list of `(key, value)` records into `m`
/// in order: a later record for a key replaces an earlier one.
pub open spec fn fold_records<K, V>(m: Map<K, V>, s: Seq<(K, V)>) -> Map<K, V>
    decreases s.len(),
{
    if s.len() == 0 {
        m
    } else {
        fold_records(m, s.drop_last()).insert(s.last().0, s.last().1)
    }
}

/// Whether some record of `s` has key `k`.
pub open spec fn has_key<K, V>(s: Seq<(K, V)>, k: K) -> bool {
    exists|i: int| 0 <= i < s.len() && (#[trigger] s[i]).0 == k
}

/// A key is in the folded map exactly when it was in the base map or some record has it.
pub proof fn lemma_fold_dom<K, V>(m: Map<K, V>, s: Seq<(K, V)>, k: K)
    ensures
        fold_records(m, s).contains_key(k) <==> (m.contains_key(k) || has_key(s, k)),
    decreases s.len(),
{
    if s.len() > 0 {
        lemma_fold_dom(m, s.drop_last(), k);
        if has_key(s.drop_last(), k) {
            let i = choose|i: int| 0 <= i < s.drop_last().len() && (#[trigger] s.drop_last()[i]).0 == k;
            assert(s[i].0 == k);
        }
        if has_key(s, k) && s.last().0 != k {
            let i = choose|i: int| 0 <= i < s.len() && (#[trigger] s[i]).0 == k;
            assert(s.drop_last()[i].0 == k);
        }
    }
}

/// The last record for a key gives its value in the folded map.
pub proof fn lemma_fold_last<K, V>(m: Map<K, V>, s: Seq<(K, V)>, i: int)
    requires
        0 <= i < s.len(),
        forall|j: int| i < j < s.len() ==> (#[trigger] s[j]).0 != s[i].0,
    ensures
        fold_records(m, s).contains_key(s[i].0),
        fold_records(m, s)[s[i].0] == s[i].1,
    decreases s.len(),
{
    if i < s.len() - 1 {
        assert(s.last() == s[s.len() - 1]);
        assert(s.drop_last()[i] == s[i]);
        assert forall|j: int| i < j < s.drop_last().len() implies (#[trigger] s.drop_last()[j]).0
            != s.drop_last()[i].0 by {
            assert(s[j].0 != s[i].0);
        }
        lemma_fold_last(m, s.drop_last(), i);
    }
}

/// Every key that some record has is given the value of one of its records.
pub proof fn lemma_fold_from_record<K, V>(m: Map<K, V>, s: Seq<(K, V)>, k: K)
    requires
        has_key(s, k),
    ensures
        exists|i: int|
            0 <= i < s.len() && (#[trigger] s[i]).0 == k && s[i].1 == fold_records(m, s)[k],
    decreases s.len(),
{
    if s.last().0 == k {
        assert(s[s.len() - 1].0 == k);
    } else {
        let i = choose|i: int| 0 <= i < s.len() && (#[trigger] s[i]).0 == k;
        assert(s.drop_last()[i].0 == k);
        lemma_fold_from_record(m, s.drop_last(), k);
        let j = choose|j: int|
            0 <= j < s.drop_last().len() && (#[trigger] s.drop_last()[j]).0 == k && s.drop_last()[j].1
                == fold_records(m, s.drop_last())[k];
        assert(s[j] == s.drop_last()[j]);
    }
}

/// Folding a concatenation folds the second list into the result of the first.
pub proof fn lemma_fold_concat<K, V>(m: Map<K, V>, s: Seq<(K, V)>, t: Seq<(K, V)>)
    ensures
        fold_records(m, s + t) == fold_records(fold_records(m, s), t),
    decreases t.len(),
{
    if t.len() == 0 {
        assert(s + t == s);
    } else {
        assert((s + t).drop_last() == s + t.drop_last());
        assert((s + t).last() == t.last());
        lemma_fold_concat(m, s, t.drop_last());
    }
}

/// Appending one record inserts it.
pub proof fn lemma_fold_push<K, V>(m: Map<K, V>, s: Seq<(K, V)>, k: K, v: V)
    ensures
        fold_records(m, s.push((k, v))) == fold_records(m, s).insert(k, v),
{
    assert(s.push((k, v)).drop_last() == s);
}

/// Whether no two records share a key.
pub open spec fn unique_keys<K, V>(s: Seq<(K, V)>) -> bool {
    forall|i: int, j: int| 0 <= i < j < s.len() ==> (#[trigger] s[i]).0 != (#[trigger] s[j]).0
}

/// With unique keys, replacing the value of one record replaces it in the map.
pub proof fn lemma_fold_unique_update<K, V>(s: Seq<(K, V)>, p: int, v: V)
    requires
        unique_keys(s),
        0 <= p < s.len(),
    ensures
        fold_records(Map::empty(), s.update(p, (s[p].0, v))) == fold_records(Map::empty(), s).insert(
            s[p].0,
            v,
        ),
{
    let t = s.update(p, (s[p].0, v));
    let a = fold_records(Map::empty(), t);
    let b = fold_records(Map::empty(), s).insert(s[p].0, v);
    assert forall|j: int| p < j < t.len() implies (#[trigger] t[j]).0 != t[p].0 by {
        assert(s[p].0 != s[j].0);
    }
    lemma_fold_last(Map::empty(), t, p);
    assert forall|k: K| #[trigger] a.contains_key(k) == b.contains_key(k) by {
        lemma_fold_dom(Map::empty(), t, k);
        lemma_fold_dom(Map::empty(), s, k);
        if has_key(s, k) {
            let i = choose|i: int| 0 <= i < s.len() && (#[trigger] s[i]).0 == k;
            assert(t[i].0 == k);
        }
        if has_key(t, k) {
            let i = choose|i: int| 0 <= i < t.len() && (#[trigger] t[i]).0 == k;
            assert(s[i].0 == k);
        }
    }
    assert forall|k: K| a.contains_key(k) implies #[trigger] a[k] == b[k] by {
        if k != s[p].0 {
            lemma_fold_dom(Map::empty(), t, k);
            lemma_fold_from_record(Map::empty(), t, k);
            let i = choose|i: int|
                0 <= i < t.len() && (#[trigger] t[i]).0 == k && t[i].1 == a[k];
            assert(t[i] == s[i]);
            assert forall|j: int| i < j < s.len() implies (#[trigger] s[j]).0 != s[i].0 by {}
            lemma_fold_last(Map::empty(), s, i);
        }
    }
    assert(a =~= b);
}

} // verus!
