//! The ordered string maps (`IndexMap<String, String>`) that hold extra links,
//! reached through a few trusted calls into `indexmap`.
use indexmap::IndexMap;
use vstd::prelude::*;

verus! {

/// `indexmap::IndexMap`, carried through the library as an opaque value.
#[verifier::external_type_specification]
#[verifier::external_body]
#[verifier::reject_recursive_types(K)]
#[verifier::reject_recursive_types(V)]
#[verifier::reject_recursive_types(S)]
pub struct ExIndexMap<K, V, S>(IndexMap<K, V, S>);

/// The entries of a link map, as (key, value) pairs in insertion order.
pub uninterp spec fn link_entries(m: IndexMap<String, String>) -> Seq<(Seq<char>, Seq<char>)>;

/// The plain (key, value) view of a list of string pairs.
pub open spec fn pairs_view(v: Seq<(String, String)>) -> Seq<(Seq<char>, Seq<char>)> {
    v.map_values(|p: (String, String)| (p.0@, p.1@))
}

/// No key occurs twice.
pub open spec fn keys_distinct(e: Seq<(Seq<char>, Seq<char>)>) -> bool {
    forall|i: int, j: int| 0 <= i < e.len() && 0 <= j < e.len() && i != j ==> e[i].0 != e[j].0
}

/// The position of key `k` among the entries, if present.
pub open spec fn key_index(e: Seq<(Seq<char>, Seq<char>)>, k: Seq<char>) -> Option<int> {
    if exists|i: int| 0 <= i < e.len() && e[i].0 == k {
        Some(choose|i: int| 0 <= i < e.len() && e[i].0 == k)
    } else {
        None
    }
}

/// The entries after inserting `(k, v)`: an existing key keeps its place and
/// takes the new value; a new key goes to the end.
pub open spec fn entries_inserted(
    e: Seq<(Seq<char>, Seq<char>)>,
    k: Seq<char>,
    v: Seq<char>,
) -> Seq<(Seq<char>, Seq<char>)> {
    match key_index(e, k) {
        Some(i) => e.update(i, (k, v)),
        None => e.push((k, v)),
    }
}

/// `IndexMap::new`: a map with no entries.
#[verifier::external_body]
pub(crate) fn links_new() -> (m: IndexMap<String, String>)
    ensures
        link_entries(m) == Seq::<(Seq<char>, Seq<char>)>::empty(),
{
    IndexMap::new()
}

/// `IndexMap::insert`: an existing key keeps its position and gets the new
/// value; a new key is appended at the end (as the `indexmap` documentation says).
#[verifier::external_body]
pub(crate) fn links_insert(m: &mut IndexMap<String, String>, k: String, v: String)
    ensures
        keys_distinct(link_entries(*old(m))) ==> link_entries(*final(m)) == entries_inserted(
            link_entries(*old(m)),
            k@,
            v@,
        ),
{
    m.insert(k, v);
}

/// `IndexMap::iter`, each entry copied out as a pair of strings, in order;
/// the keys of an `IndexMap` are distinct.
#[verifier::external_body]
pub(crate) fn links_entries(m: &IndexMap<String, String>) -> (r: Vec<(String, String)>)
    ensures
        pairs_view(r@) == link_entries(*m),
        keys_distinct(pairs_view(r@)),
{
    m.iter().map(|(k, v)| (k.clone(), v.clone())).collect()
}

/// The value stored under `key`, looked up among the entries.
pub fn links_get(m: &IndexMap<String, String>, key: &str) -> (r: Option<String>)
    ensures
        r is Some <==> key_index(link_entries(*m), key@) is Some,
        r matches Some(v) ==> v@ == link_entries(*m)[key_index(link_entries(*m), key@)->0].1,
{
    let entries = links_entries(m);
    let ghost e = link_entries(*m);
    let mut i: usize = 0;
    while i < entries.len()
        invariant
            pairs_view(entries@) == e,
            e == link_entries(*m),
            keys_distinct(e),
            i <= entries.len(),
            forall|j: int| 0 <= j < i ==> e[j].0 != key@,
        decreases entries.len() - i,
    {
        assert(e[i as int] == (entries@[i as int].0@, entries@[i as int].1@));
        if crate::text::str_eq(entries[i].0.as_str(), key) {
            proof {
                assert(e[i as int].0 == key@);
                let j = key_index(e, key@)->0;
                assert(e[j].0 == key@);
            }
            return Some(entries[i].1.clone());
        }
        i = i + 1;
    }
    None
}

/// The number of entries.
pub fn links_len(m: &IndexMap<String, String>) -> (r: usize)
    ensures
        r == link_entries(*m).len(),
{
    let entries = links_entries(m);
    entries.len()
}

/// Inserting keeps the keys distinct.
pub proof fn lemma_inserted_distinct(e: Seq<(Seq<char>, Seq<char>)>, k: Seq<char>, v: Seq<char>)
    requires
        keys_distinct(e),
    ensures
        keys_distinct(entries_inserted(e, k, v)),
{
    match key_index(e, k) {
        Some(i) => {
            let u = e.update(i, (k, v));
            assert forall|a: int, b: int| 0 <= a < u.len() && 0 <= b < u.len() && a != b implies u[a].0 != u[b].0 by {
                if a == i {
                    assert(e[i].0 == k);
                } else if b == i {
                    assert(e[i].0 == k);
                }
            }
        },
        None => {
            let u = e.push((k, v));
            assert forall|a: int, b: int| 0 <= a < u.len() && 0 <= b < u.len() && a != b implies u[a].0 != u[b].0 by {
                if a == e.len() {
                    assert(u[b] == e[b]);
                } else if b == e.len() {
                    assert(u[a] == e[a]);
                }
            }
        },
    }
}

/// The text of an optional value, empty when there is none.
pub open spec fn text_of(o: Option<String>) -> Seq<char> {
    match o {
        Some(s) => s@,
        None => Seq::empty(),
    }
}

/// The entries of a map built by inserting `pairs` in order into an empty
/// one, a missing value read as empty.
pub open spec fn entries_of_pairs(pairs: Seq<(String, Option<String>)>) -> Seq<(Seq<char>, Seq<char>)>
    decreases pairs.len(),
{
    if pairs.len() == 0 {
        Seq::empty()
    } else {
        entries_inserted(entries_of_pairs(pairs.drop_last()), pairs.last().0@, text_of(pairs.last().1))
    }
}

/// Builds a link map from `(key, value)` pairs in order, a missing value read
/// as empty (a later pair with the same key replaces the value in place).
pub fn links_from_pairs(pairs: Vec<(String, Option<String>)>) -> (m: IndexMap<String, String>)
    ensures
        link_entries(m) == entries_of_pairs(pairs@),
        keys_distinct(link_entries(m)),
{
    let mut m = links_new();
    let mut i: usize = 0;
    let n = pairs.len();
    while i < n
        invariant
            n == pairs@.len(),
            i <= n,
            link_entries(m) == entries_of_pairs(pairs@.subrange(0, i as int)),
            keys_distinct(link_entries(m)),
        decreases n - i,
    {
        let k = pairs[i].0.clone();
        let v = match &pairs[i].1 {
            Some(s) => s.clone(),
            None => String::new(),
        };
        proof {
            assert(pairs@.subrange(0, i + 1).drop_last() =~= pairs@.subrange(0, i as int));
            lemma_inserted_distinct(link_entries(m), k@, v@);
        }
        links_insert(&mut m, k, v);
        i = i + 1;
    }
    proof {
        assert(pairs@.subrange(0, n as int) =~= pairs@);
    }
    m
}

} // verus!
