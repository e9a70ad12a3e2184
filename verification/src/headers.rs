//! Header maps: lists of (name, value) pairs in which a name occurs at most once, filled in
//! order so that a later value for a name replaces an earlier one.
use vstd::prelude::*;
use crate::text::{lowercase, to_lowercase};

verus! {

/// The text of each header.
pub open spec fn header_views(h: Seq<(String, String)>) -> Seq<(Seq<char>, Seq<char>)> {
    h.map_values(|p: (String, String)| (p.0@, p.1@))
}

/// The first position, from `i` on, of a header named `k`.
pub open spec fn key_index_from(h: Seq<(Seq<char>, Seq<char>)>, k: Seq<char>, i: int) -> Option<int>
    decreases h.len() - i,
{
    if i < 0 || i >= h.len() {
        None
    } else if h[i].0 == k {
        Some(i)
    } else {
        key_index_from(h, k, i + 1)
    }
}

/// `h` with header `k` set to `v`: its value replaced where the name is present, appended
/// otherwise (as inserting into a map).
pub open spec fn insert_header_spec(h: Seq<(Seq<char>, Seq<char>)>, k: Seq<char>, v: Seq<char>) -> Seq<(Seq<char>, Seq<char>)> {
    match key_index_from(h, k, 0) {
        Some(i) => h.update(i, (k, v)),
        None => h.push((k, v)),
    }
}

/// Whether no name occurs twice.
pub open spec fn unique_names(h: Seq<(Seq<char>, Seq<char>)>) -> bool {
    forall|i: int, j: int| 0 <= i < j < h.len() ==> h[i].0 != h[j].0
}

/// The value of the last header named `name` (headers are collected in order, so a later
/// occurrence replaces an earlier one, as in a map filled in that order).
pub open spec fn header_lookup(headers: Seq<(Seq<char>, Seq<char>)>, name: Seq<char>) -> Option<Seq<char>>
    decreases headers.len(),
{
    if headers.len() == 0 {
        None
    } else if headers.last().0 == name {
        Some(headers.last().1)
    } else {
        header_lookup(headers.drop_last(), name)
    }
}

/// Headers after position `i` that do not carry `name` leave its lookup unchanged.
pub proof fn lemma_header_lookup_suffix(h: Seq<(Seq<char>, Seq<char>)>, name: Seq<char>, i: int)
    requires
        0 <= i <= h.len(),
        forall|j: int| i <= j < h.len() ==> (#[trigger] h[j]).0 != name,
    ensures
        header_lookup(h, name) == header_lookup(h.take(i), name),
    decreases h.len() - i,
{
    if i < h.len() {
        assert forall|j: int| i <= j < h.drop_last().len() implies (#[trigger] h.drop_last()[j]).0 != name by {
            assert(h.drop_last()[j] == h[j]);
        }
        lemma_header_lookup_suffix(h.drop_last(), name, i);
        assert(h.drop_last().take(i) == h.take(i));
    } else {
        assert(h.take(i) == h);
    }
}


/// Sets header `key` to `value`: replaces the value where the name is present, appends the
/// header otherwise.
pub fn insert_header(headers: &mut Vec<(String, String)>, key: String, value: String)
    ensures
        header_views(final(headers)@) == insert_header_spec(header_views(old(headers)@), key@, value@),
{
    let ghost hv = header_views(old(headers)@);
    let n = headers.len();
    let mut i: usize = 0;
    while i < n
        invariant
            i <= n,
            n == headers@.len(),
            headers@ == old(headers)@,
            hv == header_views(headers@),
            key_index_from(hv, key@, 0) == key_index_from(hv, key@, i as int),
        decreases n - i,
    {
        if headers[i].0 == key {
            assert(hv[i as int].0 == key@);
            let ghost before = headers@;
            headers.set(i, (key, value));
            proof {
                assert(header_views(headers@) =~= hv.update(i as int, (key@, value@)));
            }
            return;
        }
        assert(hv[i as int].0 != key@);
        i = i + 1;
    }
    headers.push((key, value));
    proof {
        assert(header_views(headers@) =~= hv.push((key@, value@)));
    }
}

/// A copy of a header list.
pub fn clone_headers(h: &Vec<(String, String)>) -> (r: Vec<(String, String)>)
    ensures
        r@ == h@,
{
    let mut r: Vec<(String, String)> = Vec::new();
    let mut i: usize = 0;
    while i < h.len()
        invariant
            i <= h@.len(),
            r@ == h@.subrange(0, i as int),
        decreases h@.len() - i,
    {
        let k = h[i].0.clone();
        let v = h[i].1.clone();
        r.push((k, v));
        proof {
            assert(h@[i as int] == (k, v));
        }
        i = i + 1;
    }
    r
}

/// The header map a sequence of (name, value) pairs gives when names are lower-cased and the
/// pairs inserted in order.
pub open spec fn lowercase_header_map(pairs: Seq<(Seq<char>, Seq<char>)>) -> Seq<(Seq<char>, Seq<char>)>
    decreases pairs.len(),
{
    if pairs.len() == 0 {
        Seq::empty()
    } else {
        insert_header_spec(lowercase_header_map(pairs.drop_last()), lowercase(pairs.last().0), pairs.last().1)
    }
}

/// Collects request headers into a map with lower-cased names; a later value for a name
/// replaces an earlier one.
pub fn collect_lowercase_headers(pairs: &Vec<(String, String)>) -> (r: Vec<(String, String)>)
    ensures
        header_views(r@) == lowercase_header_map(header_views(pairs@)),
{
    let mut r: Vec<(String, String)> = Vec::new();
    let n = pairs.len();
    let mut i: usize = 0;
    assert(header_views(r@) =~= Seq::<(Seq<char>, Seq<char>)>::empty());
    while i < n
        invariant
            i <= n,
            n == pairs@.len(),
            header_views(r@) == lowercase_header_map(header_views(pairs@).take(i as int)),
        decreases n - i,
    {
        let name = to_lowercase(pairs[i].0.as_str());
        let value = pairs[i].1.clone();
        insert_header(&mut r, name, value);
        proof {
            let t = header_views(pairs@).take(i + 1);
            assert(t.drop_last() == header_views(pairs@).take(i as int));
            assert(t.last() == (pairs@[i as int].0@, pairs@[i as int].1@));
        }
        i = i + 1;
    }
    assert(header_views(pairs@).take(n as int) == header_views(pairs@));
    r
}

/// Setting a header keeps every name unique, and a lookup of the name then gives the value
/// set: what a read gives back of a write.
pub proof fn lemma_insert_header_read_back(h: Seq<(Seq<char>, Seq<char>)>, k: Seq<char>, v: Seq<char>)
    requires
        unique_names(h),
    ensures
        unique_names(insert_header_spec(h, k, v)),
        header_lookup(insert_header_spec(h, k, v), k) == Some(v),
{
    let r = insert_header_spec(h, k, v);
    match key_index_from(h, k, 0) {
        Some(i) => {
            lemma_key_index_found(h, k, 0);
            assert forall|a: int, b: int| 0 <= a < b < r.len() implies r[a].0 != r[b].0 by {
                if a != i && b != i {
                    assert(r[a] == h[a] && r[b] == h[b]);
                }
            }
            assert forall|j: int| i + 1 <= j < r.len() implies (#[trigger] r[j]).0 != k by {
                assert(r[j] == h[j]);
            }
            lemma_header_lookup_suffix(r, k, i + 1);
            assert(r.take(i + 1).last() == (k, v));
        },
        None => {
            lemma_key_index_absent(h, k, 0);
            assert forall|a: int, b: int| 0 <= a < b < r.len() implies r[a].0 != r[b].0 by {
                if b == h.len() {
                    assert(r[a] == h[a]);
                }
            }
        },
    }
}

proof fn lemma_key_index_found(h: Seq<(Seq<char>, Seq<char>)>, k: Seq<char>, i: int)
    requires
        0 <= i,
        key_index_from(h, k, i) is Some,
    ensures
        ({
            let j = key_index_from(h, k, i)->0;
            i <= j < h.len() && h[j].0 == k
        }),
    decreases h.len() - i,
{
    if i < h.len() && h[i].0 != k {
        lemma_key_index_found(h, k, i + 1);
    }
}

proof fn lemma_key_index_absent(h: Seq<(Seq<char>, Seq<char>)>, k: Seq<char>, i: int)
    requires
        0 <= i,
        key_index_from(h, k, i) is None,
    ensures
        forall|j: int| i <= j < h.len() ==> h[j].0 != k,
    decreases h.len() - i,
{
    if i < h.len() {
        lemma_key_index_absent(h, k, i + 1);
    }
}

/// The header map of lower-cased names has no name twice.
pub proof fn lemma_lowercase_header_map_unique(pairs: Seq<(Seq<char>, Seq<char>)>)
    ensures
        unique_names(lowercase_header_map(pairs)),
    decreases pairs.len(),
{
    if pairs.len() > 0 {
        lemma_lowercase_header_map_unique(pairs.drop_last());
        lemma_insert_header_read_back(
            lowercase_header_map(pairs.drop_last()),
            lowercase(pairs.last().0),
            pairs.last().1,
        );
    }
}


proof fn lemma_lookup_same_named(h: Seq<(Seq<char>, Seq<char>)>, r: Seq<(Seq<char>, Seq<char>)>, n: Seq<char>)
    requires
        h.len() == r.len(),
        forall|j: int| 0 <= j < h.len() ==> ((#[trigger] h[j]).0 == n) == (r[j].0 == n),
        forall|j: int| 0 <= j < h.len() && (#[trigger] h[j]).0 == n ==> h[j] == r[j],
    ensures
        header_lookup(h, n) == header_lookup(r, n),
    decreases h.len(),
{
    if h.len() > 0 {
        let a = h.drop_last();
        let b = r.drop_last();
        assert forall|j: int| 0 <= j < a.len() implies ((#[trigger] a[j]).0 == n) == (b[j].0 == n) by {
            assert(a[j] == h[j] && b[j] == r[j]);
        }
        assert forall|j: int| 0 <= j < a.len() && (#[trigger] a[j]).0 == n implies a[j] == b[j] by {
            assert(a[j] == h[j] && b[j] == r[j]);
        }
        lemma_lookup_same_named(a, b, n);
        assert(h.last() == h[h.len() - 1] && r.last() == r[r.len() - 1]);
    }
}

/// Setting header `k` leaves the lookup of every other name as it was.
pub proof fn lemma_insert_header_keeps_others(
    h: Seq<(Seq<char>, Seq<char>)>,
    k: Seq<char>,
    v: Seq<char>,
    n: Seq<char>,
)
    requires
        n != k,
    ensures
        header_lookup(insert_header_spec(h, k, v), n) == header_lookup(h, n),
{
    let r = insert_header_spec(h, k, v);
    match key_index_from(h, k, 0) {
        Some(i) => {
            lemma_key_index_found(h, k, 0);
            assert forall|j: int| 0 <= j < h.len() implies ((#[trigger] h[j]).0 == n) == (r[j].0 == n) by {
                if j != i {
                    assert(r[j] == h[j]);
                }
            }
            assert forall|j: int| 0 <= j < h.len() && (#[trigger] h[j]).0 == n implies h[j] == r[j] by {
                if j != i {
                    assert(r[j] == h[j]);
                }
            }
            lemma_lookup_same_named(h, r, n);
        },
        None => {
            assert(r.drop_last() == h);
        },
    }
}

/// The pairs with their names lower-cased.
pub open spec fn lowercased_names(pairs: Seq<(Seq<char>, Seq<char>)>) -> Seq<(Seq<char>, Seq<char>)> {
    pairs.map_values(|p: (Seq<char>, Seq<char>)| (lowercase(p.0), p.1))
}

/// Collecting headers with lower-cased names gives, for every name, the value of the last
/// header sent under that name in any case, and no value for a name never sent.
pub proof fn lemma_lowercase_header_map_lookup(pairs: Seq<(Seq<char>, Seq<char>)>, n: Seq<char>)
    ensures
        header_lookup(lowercase_header_map(pairs), n) == header_lookup(lowercased_names(pairs), n),
    decreases pairs.len(),
{
    if pairs.len() > 0 {
        let m = lowercase_header_map(pairs.drop_last());
        let l = lowercased_names(pairs);
        assert(l.drop_last() == lowercased_names(pairs.drop_last()));
        assert(l.last() == (lowercase(pairs.last().0), pairs.last().1));
        lemma_lowercase_header_map_lookup(pairs.drop_last(), n);
        if lowercase(pairs.last().0) == n {
            lemma_lowercase_header_map_unique(pairs.drop_last());
            lemma_insert_header_read_back(m, n, pairs.last().1);
        } else {
            lemma_insert_header_keeps_others(m, lowercase(pairs.last().0), pairs.last().1, n);
        }
    }
}

} // verus!
