//! Tables keyed by name, kept as sequences of (name, value) pairs. A lookup
//! finds the first entry with the name.
use vstd::prelude::*;
use vstd::utf8::{encode_utf8, encode_utf8_decode_utf8};

verus! {

/// The index of the first entry named `k`.
pub open spec fn key_index<V>(s: Seq<(Seq<char>, V)>, k: Seq<char>) -> Option<nat>
    decreases s.len(),
{
    if s.len() == 0 {
        None
    } else {
        match key_index(s.drop_last(), k) {
            Some(i) => Some(i),
            None => if s.last().0 == k {
                Some((s.len() - 1) as nat)
            } else {
                None
            },
        }
    }
}

/// No two entries share a name.
pub open spec fn unique_keys<V>(s: Seq<(Seq<char>, V)>) -> bool {
    forall|i: int, j: int| 0 <= i < j < s.len() ==> s[i].0 != s[j].0
}

/// The table as a map from names to the value of the first entry of each.
pub open spec fn table_map<V>(s: Seq<(Seq<char>, V)>) -> Map<Seq<char>, V> {
    Map::new(|k: Seq<char>| key_index(s, k) is Some, |k: Seq<char>| s[key_index(s, k)->0 as int].1)
}

/// The table with its names seen as character sequences.
pub open spec fn keyed<V>(s: Seq<(String, V)>) -> Seq<(Seq<char>, V)> {
    s.map_values(|p: (String, V)| (p.0@, p.1))
}

/// `key_index` finds the first entry with the name, and only that.
pub proof fn lemma_key_index<V>(s: Seq<(Seq<char>, V)>, k: Seq<char>)
    ensures
        match key_index(s, k) {
            Some(i) => i < s.len() && s[i as int].0 == k && forall|j: int|
                0 <= j < i ==> s[j].0 != k,
            None => forall|j: int| 0 <= j < s.len() ==> s[j].0 != k,
        },
    decreases s.len(),
{
    if s.len() > 0 {
        lemma_key_index(s.drop_last(), k);
        assert(forall|j: int| 0 <= j < s.len() - 1 ==> s.drop_last()[j] == s[j]);
    }
}

/// An entry that is the first with its name is what `key_index` finds.
pub proof fn lemma_key_index_at<V>(s: Seq<(Seq<char>, V)>, k: Seq<char>, i: int)
    requires
        0 <= i < s.len(),
        s[i].0 == k,
        forall|j: int| 0 <= j < i ==> s[j].0 != k,
    ensures
        key_index(s, k) == Some(i as nat),
{
    lemma_key_index(s, k);
}

/// With no entry named `k`, `key_index` finds none.
pub proof fn lemma_key_index_none<V>(s: Seq<(Seq<char>, V)>, k: Seq<char>)
    requires
        forall|j: int| 0 <= j < s.len() ==> s[j].0 != k,
    ensures
        key_index(s, k) is None,
{
    lemma_key_index(s, k);
}

/// In a table with unique names, the entry named `k` is the one found.
pub proof fn lemma_unique_index<V>(s: Seq<(Seq<char>, V)>, k: Seq<char>)
    requires
        unique_keys(s),
    ensures
        forall|i: int| 0 <= i < s.len() && s[i].0 == k ==> key_index(s, k) == Some(i as nat),
        key_index(s, k) is None <==> forall|j: int| 0 <= j < s.len() ==> s[j].0 != k,
{
    lemma_key_index(s, k);
    assert forall|i: int| 0 <= i < s.len() && s[i].0 == k implies key_index(s, k) == Some(i as nat) by {
        lemma_key_index_at(s, k, i);
    }
}

/// Replacing the value of an entry sets the map at its name.
pub proof fn lemma_table_update<V>(s: Seq<(Seq<char>, V)>, i: int, v: V)
    requires
        unique_keys(s),
        0 <= i < s.len(),
    ensures
        unique_keys(s.update(i, (s[i].0, v))),
        table_map(s.update(i, (s[i].0, v))) == table_map(s).insert(s[i].0, v),
{
    let t = s.update(i, (s[i].0, v));
    assert(forall|j: int| 0 <= j < s.len() ==> t[j].0 == s[j].0);
    assert(unique_keys(t));
    assert forall|k: Seq<char>| true implies key_index(t, k) == key_index(s, k) by {
        lemma_unique_index(s, k);
        lemma_unique_index(t, k);
        lemma_key_index(s, k);
        match key_index(s, k) {
            Some(j) => {
                assert(t[j as int].0 == k);
            },
            None => {},
        }
    }
    let m = table_map(s).insert(s[i].0, v);
    assert forall|k: Seq<char>| #[trigger] table_map(t).contains_key(k) == m.contains_key(k) && (m.contains_key(k) ==> table_map(t)[k] == m[k]) by {
        lemma_unique_index(s, k);
        lemma_key_index(s, k);
        if k == s[i].0 {
            assert(key_index(s, k) == Some(i as nat));
        } else {
            match key_index(s, k) {
                Some(j) => {
                    assert(j != i);
                    assert(t[j as int] == s[j as int]);
                },
                None => {},
            }
        }
    }
    assert(table_map(t) =~= m);
}

/// Appending an entry under a new name sets the map at that name.
pub proof fn lemma_table_push<V>(s: Seq<(Seq<char>, V)>, k: Seq<char>, v: V)
    requires
        unique_keys(s),
        key_index(s, k) is None,
    ensures
        unique_keys(s.push((k, v))),
        table_map(s.push((k, v))) == table_map(s).insert(k, v),
{
    let t = s.push((k, v));
    lemma_unique_index(s, k);
    assert(forall|j: int| 0 <= j < s.len() ==> t[j] == s[j]);
    assert(unique_keys(t));
    assert forall|q: Seq<char>| true implies (if q == k {
        key_index(t, q) == Some(s.len())
    } else {
        key_index(t, q) == key_index(s, q)
    }) by {
        lemma_unique_index(s, q);
        lemma_unique_index(t, q);
        lemma_key_index(s, q);
        if q == k {
            assert(t[s.len() as int].0 == q);
        } else {
            match key_index(s, q) {
                Some(j) => {
                    assert(t[j as int].0 == q);
                },
                None => {
                    assert(forall|j: int| 0 <= j < t.len() ==> t[j].0 != q);
                },
            }
        }
    }
    let m = table_map(s).insert(k, v);
    assert forall|q: Seq<char>| #[trigger] table_map(t).contains_key(q) == m.contains_key(q) && (m.contains_key(q) ==> table_map(t)[q] == m[q]) by {
        lemma_key_index(s, q);
        if q != k {
            match key_index(s, q) {
                Some(j) => {
                    assert(t[j as int] == s[j as int]);
                },
                None => {},
            }
        }
    }
    assert(table_map(t) =~= m);
}

/// Removing an entry removes its name from the map.
pub proof fn lemma_table_remove<V>(s: Seq<(Seq<char>, V)>, i: int)
    requires
        unique_keys(s),
        0 <= i < s.len(),
    ensures
        unique_keys(s.remove(i)),
        table_map(s.remove(i)) == table_map(s).remove(s[i].0),
{
    let t = s.remove(i);
    assert forall|a: int, b: int| 0 <= a < b < t.len() implies t[a].0 != t[b].0 by {
        let a1 = if a < i { a } else { a + 1 };
        let b1 = if b < i { b } else { b + 1 };
        assert(0 <= a1 < b1 < s.len());
        assert(t[a] == s[a1] && t[b] == s[b1]);
    }
    assert(unique_keys(t));
    let m = table_map(s).remove(s[i].0);
    assert forall|q: Seq<char>| #[trigger] table_map(t).contains_key(q) == m.contains_key(q) && (m.contains_key(q) ==> table_map(t)[q] == m[q]) by {
        lemma_unique_index(s, q);
        lemma_unique_index(t, q);
        lemma_key_index(s, q);
        lemma_key_index(t, q);
        if q == s[i].0 {
            assert forall|x: int| 0 <= x < t.len() implies t[x].0 != q by {
                if x < i {
                    assert(t[x] == s[x]);
                } else {
                    assert(t[x] == s[x + 1]);
                }
            }
        } else {
            match key_index(s, q) {
                Some(j) => {
                    if j < i {
                        assert(t[j as int] == s[j as int]);
                        assert(key_index(t, q) == Some(j));
                    } else {
                        assert(j != i);
                        assert(t[j - 1] == s[j as int]);
                        assert(key_index(t, q) == Some((j - 1) as nat));
                    }
                },
                None => {
                    assert forall|x: int| 0 <= x < t.len() implies t[x].0 != q by {
                        if x < i {
                            assert(t[x] == s[x]);
                        } else {
                            assert(t[x] == s[x + 1]);
                        }
                    }
                },
            }
        }
    }
    assert(table_map(t) =~= m);
}

/// Whether two strings hold the same characters.
pub fn str_eq(a: &str, b: &str) -> (r: bool)
    ensures
        r == (a@ == b@),
{
    let x = a.as_bytes();
    let y = b.as_bytes();
    proof {
        encode_utf8_decode_utf8(a@);
        encode_utf8_decode_utf8(b@);
    }
    if x.len() != y.len() {
        return false;
    }
    let mut i: usize = 0;
    while i < x.len()
        invariant
            i <= x@.len(),
            x@.len() == y@.len(),
            x@ == encode_utf8(a@),
            y@ == encode_utf8(b@),
            forall|j: int| 0 <= j < i ==> x@[j] == y@[j],
        decreases x@.len() - i,
    {
        if x[i] != y[i] {
            assert(x@[i as int] != y@[i as int]);
            return false;
        }
        i += 1;
    }
    assert(x@ =~= y@);
    true
}

/// The index of the first entry named `k`.
pub fn find_key<V>(s: &Vec<(String, V)>, k: &str) -> (r: Option<usize>)
    ensures
        match r {
            Some(i) => key_index(keyed(s@), k@) == Some(i as nat) && i < s@.len(),
            None => key_index(keyed(s@), k@) is None,
        },
{
    let ghost t = keyed(s@);
    let mut i: usize = 0;
    while i < s.len()
        invariant
            i <= s@.len(),
            t == keyed(s@),
            forall|j: int| 0 <= j < i ==> t[j].0 != k@,
        decreases s@.len() - i,
    {
        if str_eq(s[i].0.as_str(), k) {
            proof {
                lemma_key_index_at(t, k@, i as int);
            }
            return Some(i);
        }
        i += 1;
    }
    proof {
        lemma_key_index_none(t, k@);
    }
    None
}

} // verus!
