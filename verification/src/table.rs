//! Tables kept as parallel lists of distinct keys and their values.

use vstd::prelude::*;

verus! {

/// The table that distinct `keys` with their `values` describe.
pub open spec fn keyed_table<V>(keys: Seq<Seq<char>>, values: Seq<V>) -> Map<Seq<char>, V> {
    Map::new(|k: Seq<char>| keys.contains(k), |k: Seq<char>| values[keys.index_of(k)])
}

/// The value of the key at `i` is the value at `i`.
pub proof fn lemma_keyed_lookup<V>(keys: Seq<Seq<char>>, values: Seq<V>, i: int)
    requires
        keys.no_duplicates(),
        0 <= i < keys.len(),
    ensures
        keyed_table(keys, values).contains_key(keys[i]),
        keyed_table(keys, values)[keys[i]] == values[i],
        keys.index_of(keys[i]) == i,
{
    assert(keys.contains(keys[i]));
    let j = keys.index_of(keys[i]);
    assert(keys[j] == keys[i]);
}

/// A key found at some position is in the table with the value at that position.
pub proof fn lemma_keyed_find<V>(keys: Seq<Seq<char>>, values: Seq<V>, k: Seq<char>)
    requires
        keys.no_duplicates(),
        keyed_table(keys, values).contains_key(k),
    ensures
        0 <= keys.index_of(k) < keys.len(),
        keys[keys.index_of(k)] == k,
{
}

/// Adding a new key at the end adds it to the table.
pub proof fn lemma_keyed_push<V>(keys: Seq<Seq<char>>, values: Seq<V>, k: Seq<char>, v: V)
    requires
        keys.no_duplicates(),
        !keys.contains(k),
        values.len() == keys.len(),
    ensures
        keys.push(k).no_duplicates(),
        keyed_table(keys.push(k), values.push(v)) == keyed_table(keys, values).insert(k, v),
{
    let ks = keys.push(k);
    assert forall|i: int, j: int| 0 <= i < ks.len() && 0 <= j < ks.len() && i != j implies ks[i]
        != ks[j] by {
        if i < keys.len() && j < keys.len() {
            assert(ks[i] == keys[i] && ks[j] == keys[j]);
        } else if i < keys.len() {
            assert(keys.contains(ks[i]));
        } else {
            assert(keys.contains(ks[j]));
        }
    }
    let a = keyed_table(ks, values.push(v));
    let b = keyed_table(keys, values).insert(k, v);
    assert forall|x: Seq<char>| #[trigger] a.contains_key(x) <==> b.contains_key(x) by {
        if keys.contains(x) {
            let j = keys.index_of(x);
            assert(ks[j] == x);
        }
        if x == k {
            assert(ks[keys.len() as int] == k);
        }
        if ks.contains(x) && x != k {
            let j = ks.index_of(x);
            assert(j < keys.len());
            assert(keys[j] == x);
        }
    }
    assert forall|x: Seq<char>| #[trigger] a.contains_key(x) implies a[x] == b[x] by {
        if x == k {
            lemma_keyed_lookup(ks, values.push(v), keys.len() as int);
        } else {
            let j = keys.index_of(x);
            assert(keys[j] == x);
            lemma_keyed_lookup(keys, values, j);
            assert(ks[j] == x);
            lemma_keyed_lookup(ks, values.push(v), j);
        }
    }
    assert(a =~= b);
}

/// Changing the value at `i` changes the value of the key at `i`.
pub proof fn lemma_keyed_update<V>(keys: Seq<Seq<char>>, values: Seq<V>, i: int, v: V)
    requires
        keys.no_duplicates(),
        0 <= i < keys.len(),
        values.len() == keys.len(),
    ensures
        keyed_table(keys, values.update(i, v)) == keyed_table(keys, values).insert(keys[i], v),
{
    let a = keyed_table(keys, values.update(i, v));
    let b = keyed_table(keys, values).insert(keys[i], v);
    lemma_keyed_lookup(keys, values, i);
    assert forall|x: Seq<char>| #[trigger] a.contains_key(x) implies a[x] == b[x] by {
        let j = keys.index_of(x);
        assert(keys[j] == x);
        lemma_keyed_lookup(keys, values, j);
    }
    assert(a =~= b);
}

} // verus!
