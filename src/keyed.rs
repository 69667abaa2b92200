use vstd::prelude::*;

use crate::primitives::AccountId;

verus! {

/// One row of a table keyed by an owner and a number.
#[derive(Debug)]
pub struct Keyed<V> {
    pub owner: AccountId,
    pub key: u128,
    pub value: V,
}

/// The full key of a row.
pub open spec fn key_of<V>(e: Keyed<V>) -> (AccountId, u128) {
    (e.owner, e.key)
}

/// No two rows share a key.
pub open spec fn keys_unique<V>(s: Seq<Keyed<V>>) -> bool {
    forall|i: int, j: int|
        #![trigger s[i], s[j]]
        0 <= i < s.len() && 0 <= j < s.len() && i != j ==> key_of(s[i]) != key_of(s[j])
}

/// The map from key to value that the rows describe.
pub open spec fn table_map<V>(s: Seq<Keyed<V>>) -> Map<(AccountId, u128), V>
    decreases s.len(),
{
    if s.len() == 0 {
        Map::empty()
    } else {
        table_map(s.drop_last()).insert(key_of(s.last()), s.last().value)
    }
}

/// A key is in the map exactly when some row carries it.
pub proof fn lemma_table_map_contains<V>(s: Seq<Keyed<V>>, k: (AccountId, u128))
    ensures
        table_map(s).contains_key(k) <==> exists|i: int| 0 <= i < s.len() && key_of(s[i]) == k,
    decreases s.len(),
{
    if s.len() > 0 {
        let d = s.drop_last();
        lemma_table_map_contains(d, k);
        if table_map(s).contains_key(k) {
            if key_of(s.last()) == k {
                assert(key_of(s[s.len() - 1]) == k);
            } else {
                let i = choose|i: int| 0 <= i < d.len() && key_of(d[i]) == k;
                assert(key_of(s[i]) == k);
            }
        }
        if exists|i: int| 0 <= i < s.len() && key_of(s[i]) == k {
            let i = choose|i: int| 0 <= i < s.len() && key_of(s[i]) == k;
            if i < s.len() - 1 {
                assert(key_of(d[i]) == k);
            }
        }
    }
}

/// With unique keys, the map sends the key of each row to that row's value.
pub proof fn lemma_table_map_index<V>(s: Seq<Keyed<V>>, i: int)
    requires
        keys_unique(s),
        0 <= i < s.len(),
    ensures
        table_map(s).contains_key(key_of(s[i])),
        table_map(s)[key_of(s[i])] == s[i].value,
    decreases s.len(),
{
    if i < s.len() - 1 {
        let d = s.drop_last();
        assert(keys_unique(d)) by {
            assert forall|a: int, b: int|
                0 <= a < d.len() && 0 <= b < d.len() && a != b implies key_of(d[a]) != key_of(
                d[b],
            ) by {
                assert(d[a] == s[a] && d[b] == s[b]);
            }
        }
        lemma_table_map_index(d, i);
        assert(s[i] == d[i]);
        assert(key_of(s[i]) != key_of(s[s.len() - 1]));
    }
}

/// Appending a row adds its key to the map.
pub proof fn lemma_table_map_push<V>(s: Seq<Keyed<V>>, e: Keyed<V>)
    ensures
        table_map(s.push(e)) == table_map(s).insert(key_of(e), e.value),
        !table_map(s).contains_key(key_of(e)) && keys_unique(s) ==> keys_unique(s.push(e)),
{
    assert(s.push(e).drop_last() =~= s);
    if !table_map(s).contains_key(key_of(e)) && keys_unique(s) {
        let t = s.push(e);
        assert forall|a: int, b: int|
            0 <= a < t.len() && 0 <= b < t.len() && a != b implies key_of(t[a]) != key_of(t[b]) by {
            if a == s.len() {
                lemma_table_map_contains(s, key_of(e));
                assert(t[b] == s[b]);
            } else if b == s.len() {
                lemma_table_map_contains(s, key_of(e));
                assert(t[a] == s[a]);
            } else {
                assert(t[a] == s[a] && t[b] == s[b]);
            }
        }
    }
}

/// Removing the row at `i` removes its key from the map and keeps keys unique.
pub proof fn lemma_table_map_remove<V>(s: Seq<Keyed<V>>, i: int)
    requires
        keys_unique(s),
        0 <= i < s.len(),
    ensures
        table_map(s.remove(i)) == table_map(s).remove(key_of(s[i])),
        keys_unique(s.remove(i)),
    decreases s.len(),
{
    let r = s.remove(i);
    let d = s.drop_last();
    assert forall|a: int, b: int|
        0 <= a < r.len() && 0 <= b < r.len() && a != b implies key_of(r[a]) != key_of(r[b]) by {
        let sa = if a < i {
            a
        } else {
            a + 1
        };
        let sb = if b < i {
            b
        } else {
            b + 1
        };
        assert(r[a] == s[sa] && r[b] == s[sb]);
    }
    assert(keys_unique(d)) by {
        assert forall|a: int, b: int|
            0 <= a < d.len() && 0 <= b < d.len() && a != b implies key_of(d[a]) != key_of(d[b]) by {
            assert(d[a] == s[a] && d[b] == s[b]);
        }
    }
    if i == s.len() - 1 {
        assert(r =~= d);
        lemma_table_map_contains(d, key_of(s[i]));
        if table_map(d).contains_key(key_of(s[i])) {
            let j = choose|j: int| 0 <= j < d.len() && key_of(d[j]) == key_of(s[i]);
            assert(d[j] == s[j]);
        }
        assert(table_map(r) =~= table_map(s).remove(key_of(s[i])));
    } else {
        lemma_table_map_remove(d, i);
        assert(r.drop_last() =~= d.remove(i));
        assert(r.last() == s.last());
        assert(d[i] == s[i]);
        assert(key_of(s[i]) != key_of(s[s.len() - 1]));
        assert(table_map(r) =~= table_map(s).remove(key_of(s[i])));
    }
}

/// Replacing the row at `i` by one with the same key rebinds that key and
/// keeps keys unique.
pub proof fn lemma_table_map_update<V>(s: Seq<Keyed<V>>, i: int, e: Keyed<V>)
    requires
        keys_unique(s),
        0 <= i < s.len(),
        key_of(e) == key_of(s[i]),
    ensures
        table_map(s.update(i, e)) == table_map(s).insert(key_of(e), e.value),
        keys_unique(s.update(i, e)),
    decreases s.len(),
{
    let u = s.update(i, e);
    let d = s.drop_last();
    assert forall|a: int, b: int|
        0 <= a < u.len() && 0 <= b < u.len() && a != b implies key_of(u[a]) != key_of(u[b]) by {
        assert(key_of(u[a]) == key_of(s[a]) && key_of(u[b]) == key_of(s[b]));
    }
    if i == s.len() - 1 {
        assert(u.drop_last() =~= d);
        assert(table_map(u) =~= table_map(s).insert(key_of(e), e.value));
    } else {
        assert(keys_unique(d)) by {
            assert forall|a: int, b: int|
                0 <= a < d.len() && 0 <= b < d.len() && a != b implies key_of(d[a]) != key_of(
                d[b],
            ) by {
                assert(d[a] == s[a] && d[b] == s[b]);
            }
        }
        assert(d[i] == s[i]);
        lemma_table_map_update(d, i, e);
        assert(u.drop_last() =~= d.update(i, e));
        assert(u.last() == s.last());
        assert(key_of(s[i]) != key_of(s[s.len() - 1]));
        assert(table_map(u) =~= table_map(s).insert(key_of(e), e.value));
    }
}

/// Looks for the row with the given key.
pub fn find<V>(rows: &Vec<Keyed<V>>, owner: &AccountId, key: u128) -> (r: Option<usize>)
    requires
        keys_unique(rows@),
    ensures
        r is None <==> !table_map(rows@).contains_key((*owner, key)),
        r matches Some(i) ==> i < rows@.len() && key_of(rows@[i as int]) == (*owner, key)
            && table_map(rows@)[(*owner, key)] == rows@[i as int].value,
{
    let mut i: usize = 0;
    while i < rows.len()
        invariant
            i <= rows@.len(),
            keys_unique(rows@),
            forall|j: int| 0 <= j < i ==> key_of(#[trigger] rows@[j]) != (*owner, key),
        decreases rows@.len() - i,
    {
        let row = &rows[i];
        if row.key == key && row.owner.same(owner) {
            proof {
                lemma_table_map_index(rows@, i as int);
            }
            return Some(i);
        }
        i = i + 1;
    }
    proof {
        lemma_table_map_contains(rows@, (*owner, key));
    }
    None
}

} // verus!
