use vstd::prelude::*;

verus! {

/// No key occurs twice.
pub open spec fn keys_unique<K, V>(s: Seq<(K, V)>) -> bool {
    forall|i: int, j: int| 0 <= i < s.len() && 0 <= j < s.len() && i != j ==> s[i].0 != s[j].0
}

/// Some entry has key `k`.
pub open spec fn has_key<K, V>(s: Seq<(K, V)>, k: K) -> bool {
    exists|i: int| 0 <= i < s.len() && s[i].0 == k
}

/// The map that a sequence of entries with unique keys stands for.
pub open spec fn table_map<K, V>(s: Seq<(K, V)>) -> Map<K, V> {
    Map::new(|k: K| has_key(s, k), |k: K| s[choose|i: int| 0 <= i < s.len() && s[i].0 == k].1)
}

/// The value at `k`, if any.
pub open spec fn lookup<K, V>(m: Map<K, V>, k: K) -> Option<V> {
    if m.contains_key(k) {
        Some(m[k])
    } else {
        None
    }
}

pub proof fn lemma_table_at<K, V>(s: Seq<(K, V)>, i: int)
    requires
        keys_unique(s),
        0 <= i < s.len(),
    ensures
        table_map(s).contains_key(s[i].0),
        table_map(s)[s[i].0] == s[i].1,
{
    let k = s[i].0;
    assert(has_key(s, k));
    let j = choose|j: int| 0 <= j < s.len() && s[j].0 == k;
    assert(j == i);
}

pub proof fn lemma_table_update<K, V>(s: Seq<(K, V)>, i: int, v: V)
    requires
        keys_unique(s),
        0 <= i < s.len(),
    ensures
        keys_unique(s.update(i, (s[i].0, v))),
        table_map(s.update(i, (s[i].0, v))) == table_map(s).insert(s[i].0, v),
{
    let k = s[i].0;
    let t = s.update(i, (k, v));
    assert(keys_unique(t));
    assert forall|k2: K| has_key(t, k2) <==> has_key(s, k2) by {
        if has_key(t, k2) {
            let j = choose|j: int| 0 <= j < t.len() && t[j].0 == k2;
            assert(s[j].0 == k2);
        }
        if has_key(s, k2) {
            let j = choose|j: int| 0 <= j < s.len() && s[j].0 == k2;
            assert(t[j].0 == k2);
        }
    }
    assert forall|k2: K| #[trigger] table_map(t).contains_key(k2) implies table_map(t)[k2]
        == table_map(s).insert(k, v)[k2] by {
        let j = choose|j: int| 0 <= j < t.len() && t[j].0 == k2;
        lemma_table_at(t, j);
        if j != i {
            lemma_table_at(s, j);
        }
    }
    assert(table_map(t) =~= table_map(s).insert(k, v));
}

pub proof fn lemma_table_push<K, V>(s: Seq<(K, V)>, k: K, v: V)
    requires
        keys_unique(s),
        !table_map(s).contains_key(k),
    ensures
        keys_unique(s.push((k, v))),
        table_map(s.push((k, v))) == table_map(s).insert(k, v),
{
    let t = s.push((k, v));
    assert forall|i: int| 0 <= i < s.len() implies s[i].0 != k by {
        if s[i].0 == k {
            assert(has_key(s, k));
        }
    }
    assert(keys_unique(t));
    assert forall|k2: K| has_key(t, k2) <==> (has_key(s, k2) || k2 == k) by {
        if has_key(t, k2) {
            let j = choose|j: int| 0 <= j < t.len() && t[j].0 == k2;
            if j < s.len() {
                assert(s[j].0 == k2);
            }
        }
        if has_key(s, k2) {
            let j = choose|j: int| 0 <= j < s.len() && s[j].0 == k2;
            assert(t[j].0 == k2);
        }
        if k2 == k {
            assert(t[s.len() as int].0 == k2);
        }
    }
    assert forall|k2: K| #[trigger] table_map(t).contains_key(k2) implies table_map(t)[k2]
        == table_map(s).insert(k, v)[k2] by {
        let j = choose|j: int| 0 <= j < t.len() && t[j].0 == k2;
        lemma_table_at(t, j);
        if j < s.len() {
            lemma_table_at(s, j);
        }
    }
    assert(table_map(t) =~= table_map(s).insert(k, v));
}

} // verus!
