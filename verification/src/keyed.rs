//! First-match lookup by string key over vectors, shared by property lists,
//! diagram mirrors, the window registry and the resource type catalog.

use vstd::prelude::*;

verus! {

/// An element addressed by a string key.
pub trait Keyed: Sized {
    /// The element's key.
    spec fn key(&self) -> Seq<char>;

    /// Whether the element's key equals `k`.
    fn matches(&self, k: &str) -> (r: bool)
        ensures
            r == (self.key() == k@),
    ;
}

/// Some element of `s` has key `k`.
pub open spec fn has_key<T: Keyed>(s: Seq<T>, k: Seq<char>) -> bool {
    exists|i: int| 0 <= i < s.len() && (#[trigger] s[i]).key() == k
}

/// Index of the first element with key `k`, or `s.len()` if there is none.
pub open spec fn key_index<T: Keyed>(s: Seq<T>, k: Seq<char>) -> int
    decreases s.len(),
{
    if s.len() == 0 {
        0
    } else if s[0].key() == k {
        0
    } else {
        1 + key_index(s.drop_first(), k)
    }
}

/// The first element with key `k`, if any.
pub open spec fn lookup<T: Keyed>(s: Seq<T>, k: Seq<char>) -> Option<T> {
    if has_key(s, k) {
        Some(s[key_index(s, k)])
    } else {
        None
    }
}

pub proof fn lemma_key_index<T: Keyed>(s: Seq<T>, k: Seq<char>)
    ensures
        0 <= key_index(s, k) <= s.len(),
        forall|j: int| 0 <= j < key_index(s, k) ==> (#[trigger] s[j]).key() != k,
        key_index(s, k) < s.len() ==> s[key_index(s, k)].key() == k,
        has_key(s, k) <==> key_index(s, k) < s.len(),
    decreases s.len(),
{
    if s.len() > 0 && s[0].key() != k {
        lemma_key_index(s.drop_first(), k);
        assert forall|j: int| 0 <= j < key_index(s, k) implies (#[trigger] s[j]).key() != k by {
            if j > 0 {
                assert(s.drop_first()[j - 1] == s[j]);
            }
        }
        if key_index(s, k) < s.len() {
            assert(s.drop_first()[key_index(s.drop_first(), k)] == s[key_index(s, k)]);
        }
        if has_key(s.drop_first(), k) {
            let i = choose|i: int|
                0 <= i < s.drop_first().len() && (#[trigger] s.drop_first()[i]).key() == k;
            assert(s[i + 1].key() == k);
        }
        if has_key(s, k) {
            let i = choose|i: int| 0 <= i < s.len() && (#[trigger] s[i]).key() == k;
            assert(i > 0);
            assert(s.drop_first()[i - 1].key() == k);
        }
    }
}

/// Index of the first element of `v` whose key is `k`, scanning from the front.
pub fn find_index<T: Keyed>(v: &Vec<T>, k: &str) -> (r: Option<usize>)
    ensures
        match r {
            Some(i) => i == key_index(v@, k@) && i < v@.len() && v@[i as int].key() == k@ && has_key(
                v@,
                k@,
            ),
            None => !has_key(v@, k@),
        },
{
    let n = v.len();
    let mut i: usize = 0;
    while i < n
        invariant
            n == v@.len(),
            i <= n,
            forall|j: int| 0 <= j < i ==> (#[trigger] v@[j]).key() != k@,
        decreases n - i,
    {
        if v[i].matches(k) {
            proof {
                lemma_key_index(v@, k@);
            }
            return Some(i);
        }
        i = i + 1;
    }
    proof {
        lemma_key_index(v@, k@);
    }
    None
}

/// Whether some element of `v` has key `k`.
pub fn contains_key<T: Keyed>(v: &Vec<T>, k: &str) -> (r: bool)
    ensures
        r == has_key(v@, k@),
{
    match find_index(v, k) {
        Some(_) => true,
        None => false,
    }
}

/// Two sequences with pointwise equal keys have equal first-match indices.
pub proof fn lemma_key_index_same_keys<T: Keyed>(s1: Seq<T>, s2: Seq<T>, k: Seq<char>)
    requires
        s1.len() == s2.len(),
        forall|i: int| 0 <= i < s1.len() ==> (#[trigger] s1[i]).key() == (#[trigger] s2[i]).key(),
    ensures
        key_index(s1, k) == key_index(s2, k),
        has_key(s1, k) == has_key(s2, k),
    decreases s1.len(),
{
    lemma_key_index(s1, k);
    lemma_key_index(s2, k);
    if s1.len() > 0 && s1[0].key() != k {
        assert(forall|i: int|
            0 <= i < s1.drop_first().len() ==> (#[trigger] s1.drop_first()[i]).key() == s1[i + 1].key()
                && (#[trigger] s2.drop_first()[i]).key() == s2[i + 1].key());
        lemma_key_index_same_keys(s1.drop_first(), s2.drop_first(), k);
    }
}

/// What a push does to first-match lookup.
pub proof fn lemma_lookup_push<T: Keyed>(s: Seq<T>, e: T, k: Seq<char>)
    ensures
        lookup(s.push(e), k) == (if has_key(s, k) {
            lookup(s, k)
        } else if e.key() == k {
            Some(e)
        } else {
            None::<T>
        }),
{
    lemma_key_index(s, k);
    lemma_key_index(s.push(e), k);
    let t = s.push(e);
    if has_key(s, k) {
        let i1 = key_index(s, k);
        assert(t[i1].key() == k);
        assert(has_key(t, k));
        let i2 = key_index(t, k);
        if i2 < i1 {
            assert(t[i2] == s[i2]);
            assert(false);
        }
        if i2 > i1 {
            assert(false);
        }
        assert(t[i2] == s[i1]);
    } else {
        if e.key() == k {
            assert(t[s.len() as int].key() == k);
            assert(has_key(t, k));
            let i2 = key_index(t, k);
            if i2 < s.len() {
                assert(t[i2] == s[i2]);
                assert(false);
            }
            assert(t[i2] == e);
        } else {
            if has_key(t, k) {
                let i = choose|i: int| 0 <= i < t.len() && (#[trigger] t[i]).key() == k;
                if i < s.len() {
                    assert(s[i].key() == k);
                } else {
                    assert(t[i] == e);
                }
                assert(false);
            }
        }
    }
}

/// Filtering with a predicate that keeps every element of key `k` does not
/// change the first-match lookup of `k`.
pub proof fn lemma_lookup_filter_keep<T: Keyed>(s: Seq<T>, pred: spec_fn(T) -> bool, k: Seq<char>)
    requires
        forall|e: T| (#[trigger] pred(e)) || e.key() != k,
    ensures
        lookup(s.filter(pred), k) == lookup(s, k),
    decreases s.len(),
{
    reveal(Seq::filter);
    if s.len() == 0 {
        assert(s.filter(pred) =~= s);
        lemma_key_index(s, k);
    } else {
        let d = s.drop_last();
        let x = s.last();
        lemma_lookup_filter_keep(d, pred, k);
        assert(s =~= d.push(x));
        lemma_lookup_push(d, x, k);
        if pred(x) {
            assert(s.filter(pred) == d.filter(pred).push(x));
            lemma_lookup_push(d.filter(pred), x, k);
        } else {
            assert(s.filter(pred) == d.filter(pred));
            assert(x.key() != k);
        }
    }
}

/// Filtering with a predicate that drops every element of key `k` removes
/// the key entirely.
pub proof fn lemma_lookup_filter_drop<T: Keyed>(s: Seq<T>, pred: spec_fn(T) -> bool, k: Seq<char>)
    requires
        forall|e: T| !(#[trigger] pred(e)) || e.key() != k,
    ensures
        lookup(s.filter(pred), k) is None,
    decreases s.len(),
{
    reveal(Seq::filter);
    if s.len() == 0 {
        assert(s.filter(pred) =~= s);
        lemma_key_index(s.filter(pred), k);
    } else {
        let d = s.drop_last();
        let x = s.last();
        lemma_lookup_filter_drop(d, pred, k);
        lemma_key_index(d.filter(pred), k);
        if pred(x) {
            assert(s.filter(pred) == d.filter(pred).push(x));
            lemma_lookup_push(d.filter(pred), x, k);
            assert(x.key() != k);
        } else {
            assert(s.filter(pred) == d.filter(pred));
        }
        lemma_key_index(s.filter(pred), k);
    }
}

/// Every element of a filtered sequence occurs in the sequence it was
/// filtered from.
pub proof fn lemma_filter_membership<T>(s: Seq<T>, pred: spec_fn(T) -> bool)
    ensures
        forall|i: int|
            0 <= i < s.filter(pred).len() ==> exists|j: int|
                0 <= j < s.len() && #[trigger] s.filter(pred)[i] == s[j],
    decreases s.len(),
{
    reveal(Seq::filter);
    if s.len() > 0 {
        let d = s.drop_last();
        lemma_filter_membership(d, pred);
        let out = s.filter(pred);
        assert forall|i: int| 0 <= i < out.len() implies exists|j: int|
            0 <= j < s.len() && #[trigger] out[i] == s[j] by {
            if pred(s.last()) && i == out.len() - 1 {
                assert(out[i] == s[s.len() - 1]);
            } else {
                assert(out[i] == d.filter(pred)[i]);
                let j = choose|j: int| 0 <= j < d.len() && #[trigger] d.filter(pred)[i] == d[j];
                assert(out[i] == s[j]);
            }
        }
    }
}

/// Filtering preserves pairwise-distinct keys.
pub proof fn lemma_filter_unique_keys<T: Keyed>(s: Seq<T>, pred: spec_fn(T) -> bool)
    requires
        unique_keys(s),
    ensures
        unique_keys(s.filter(pred)),
    decreases s.len(),
{
    reveal(Seq::filter);
    if s.len() > 0 {
        let d = s.drop_last();
        assert(forall|i: int| 0 <= i < d.len() ==> #[trigger] d[i] == s[i]);
        lemma_filter_unique_keys(d, pred);
        let out = s.filter(pred);
        if pred(s.last()) {
            lemma_filter_membership(d, pred);
            assert forall|i: int, j: int| 0 <= i < j < out.len() implies (#[trigger] out[i]).key()
                != (#[trigger] out[j]).key() by {
                if j == out.len() - 1 {
                    assert(out[i] == d.filter(pred)[i]);
                    let q = choose|q: int|
                        0 <= q < d.len() && #[trigger] d.filter(pred)[i] == d[q];
                    assert(out[j] == s[s.len() - 1]);
                    assert(s[q].key() != s[s.len() - 1].key());
                } else {
                    assert(out[i] == d.filter(pred)[i]);
                    assert(out[j] == d.filter(pred)[j]);
                }
            }
        }
    }
}

/// Keys of `s` are pairwise distinct.
pub open spec fn unique_keys<T: Keyed>(s: Seq<T>) -> bool {
    forall|i: int, j: int|
        0 <= i < j < s.len() ==> (#[trigger] s[i]).key() != (#[trigger] s[j]).key()
}

} // verus!
