//! Operations on property maps: classifying keys as plain or reference
//! against the catalog, splitting incoming properties, and merging updates
//! into a node's stored maps.

use vstd::prelude::*;

use crate::keyed::{
    has_key, key_index, lemma_key_index, lemma_key_index_same_keys, lemma_lookup_filter_drop,
    lemma_lookup_filter_keep, lemma_lookup_push, lookup, Keyed,
};
use crate::model::{merged_plain, merged_refs, prop_value_of, PropEntry, PropValue,
    PropertyDescriptor};
use crate::text::str_eq;

verus! {

/// The descriptors declare `k` as a reference property.
pub open spec fn is_ref_key(descs: Seq<PropertyDescriptor>, k: Seq<char>) -> bool {
    exists|i: int|
        0 <= i < descs.len() && (#[trigger] descs[i]).key@ == k && descs[i].is_reference
}

/// Whether the descriptors declare `k` as a reference property.
pub fn key_is_reference(descs: &Vec<PropertyDescriptor>, k: &str) -> (r: bool)
    ensures
        r == is_ref_key(descs@, k@),
{
    let n = descs.len();
    let mut i: usize = 0;
    while i < n
        invariant
            n == descs@.len(),
            i <= n,
            forall|j: int|
                0 <= j < i ==> !((#[trigger] descs@[j]).key@ == k@ && descs@[j].is_reference),
        decreases n - i,
    {
        if descs[i].is_reference && str_eq(descs[i].key.as_str(), k) {
            return true;
        }
        i = i + 1;
    }
    false
}

/// The plain half of an incoming property map: entries whose keys the
/// descriptors do not declare as references, in order.
pub open spec fn plain_part(incoming: Seq<PropEntry>, descs: Seq<PropertyDescriptor>) -> Seq<
    PropEntry,
> {
    incoming.filter(|e: PropEntry| !is_ref_key(descs, e.key@))
}

/// The reference half of an incoming property map, in order.
pub open spec fn ref_part(incoming: Seq<PropEntry>, descs: Seq<PropertyDescriptor>) -> Seq<
    PropEntry,
> {
    incoming.filter(|e: PropEntry| is_ref_key(descs, e.key@))
}

/// The reference half of an incoming property map with `Null` entries
/// dropped, as a freshly added node stores it.
pub open spec fn ref_part_non_null(
    incoming: Seq<PropEntry>,
    descs: Seq<PropertyDescriptor>,
) -> Seq<PropEntry> {
    incoming.filter(|e: PropEntry| is_ref_key(descs, e.key@) && !(e.value is Null))
}

/// Splits an incoming property map into its plain and reference halves.
/// When `drop_null_refs` is set, `Null` reference entries are discarded,
/// as when a node is first created.
pub fn split_properties(
    incoming: &Vec<PropEntry>,
    descs: &Vec<PropertyDescriptor>,
    drop_null_refs: bool,
) -> (r: (Vec<PropEntry>, Vec<PropEntry>))
    ensures
        r.0@ == plain_part(incoming@, descs@),
        drop_null_refs ==> r.1@ == ref_part_non_null(incoming@, descs@),
        !drop_null_refs ==> r.1@ == ref_part(incoming@, descs@),
{
    let ghost plain_pred = |e: PropEntry| !is_ref_key(descs@, e.key@);
    let ghost keep_ref_pred = if drop_null_refs {
        |e: PropEntry| is_ref_key(descs@, e.key@) && !(e.value is Null)
    } else {
        |e: PropEntry| is_ref_key(descs@, e.key@)
    };
    let mut plain: Vec<PropEntry> = Vec::new();
    let mut refs: Vec<PropEntry> = Vec::new();
    let n = incoming.len();
    let mut i: usize = 0;
    proof {
        reveal(Seq::filter);
        assert(incoming@.subrange(0, 0) =~= Seq::<PropEntry>::empty());
    }
    while i < n
        invariant
            n == incoming@.len(),
            i <= n,
            plain@ == incoming@.subrange(0, i as int).filter(plain_pred),
            refs@ == incoming@.subrange(0, i as int).filter(keep_ref_pred),
            plain_pred == (|e: PropEntry| !is_ref_key(descs@, e.key@)),
            keep_ref_pred == if drop_null_refs {
                |e: PropEntry| is_ref_key(descs@, e.key@) && !(e.value is Null)
            } else {
                |e: PropEntry| is_ref_key(descs@, e.key@)
            },
        decreases n - i,
    {
        let e = &incoming[i];
        let is_ref = key_is_reference(descs, e.key.as_str());
        if is_ref {
            if drop_null_refs {
                match &e.value {
                    PropValue::Null => {},
                    _ => refs.push(e.clone()),
                }
            } else {
                refs.push(e.clone());
            }
        } else {
            plain.push(e.clone());
        }
        proof {
            reveal(Seq::filter);
            let pre = incoming@.subrange(0, i as int);
            let post = incoming@.subrange(0, i + 1);
            assert(post.drop_last() =~= pre);
            assert(post.last() == incoming@[i as int]);
        }
        i = i + 1;
    }
    proof {
        assert(incoming@.subrange(0, n as int) =~= incoming@);
    }
    (plain, refs)
}

/// Inserts or replaces the value stored under `key`.
pub fn upsert(map: &mut Vec<PropEntry>, key: &str, value: PropValue)
    ensures
        prop_value_of(final(map)@, key@) == Some(value),
        forall|k: Seq<char>|
            k != key@ ==> #[trigger] prop_value_of(final(map)@, k) == prop_value_of(old(map)@, k),
        final(map)@.len() <= old(map)@.len() + 1,
{
    let found = crate::keyed::find_index(map, key);
    match found {
        Some(i) => {
            let entry = PropEntry { key: map[i].key.clone(), value };
            let ghost prev = map@;
            map[i] = entry;
            proof {
                lemma_key_index(prev, key@);
                assert forall|k: Seq<char>| true implies #[trigger] prop_value_of(map@, k) == (
                if k == key@ {
                    Some(value)
                } else {
                    prop_value_of(prev, k)
                }) by {
                    lemma_key_index_same_keys(map@, prev, k);
                    lemma_key_index(prev, k);
                }
            }
        },
        None => {
            let entry = PropEntry { key: clone_str(key), value };
            let ghost prev = map@;
            map.push(entry);
            proof {
                assert forall|k: Seq<char>| true implies #[trigger] prop_value_of(map@, k) == (
                if k == key@ {
                    Some(value)
                } else {
                    prop_value_of(prev, k)
                }) by {
                    lemma_lookup_push(prev, map@[prev.len() as int], k);
                }
            }
        },
    }
}

/// A `String` copy of a `&str`.
pub fn clone_str(s: &str) -> (r: String)
    ensures
        r@ == s@,
{
    String::from_str(s)
}

/// Merges plain-property updates into a stored map: every updated key takes
/// its new value, every other key keeps its old one.
pub fn merge_plain_into(map: &mut Vec<PropEntry>, updates: &Vec<PropEntry>)
    requires
        crate::keyed::unique_keys(updates@),
    ensures
        forall|k: Seq<char>|
            #[trigger] prop_value_of(final(map)@, k) == merged_plain(old(map)@, updates@, k),
{
    let n = updates.len();
    let mut i: usize = 0;
    while i < n
        invariant
            n == updates@.len(),
            i <= n,
            crate::keyed::unique_keys(updates@),
            forall|j: int|
                0 <= j < i ==> #[trigger] prop_value_of(map@, updates@[j].key@) == Some(
                    updates@[j].value,
                ),
            forall|k: Seq<char>|
                !has_key(updates@.subrange(0, i as int), k) ==> #[trigger] prop_value_of(map@, k)
                    == prop_value_of(old(map)@, k),
        decreases n - i,
    {
        let e = &updates[i];
        upsert(map, e.key.as_str(), e.value.clone());
        proof {
            assert forall|j: int| 0 <= j < i + 1 implies #[trigger] prop_value_of(
                map@,
                updates@[j].key@,
            ) == Some(updates@[j].value) by {
                if j < i {
                    assert(updates@[j].key@ != updates@[i as int].key@);
                }
            }
            assert forall|k: Seq<char>| !has_key(updates@.subrange(0, i + 1), k) implies #[trigger]
            prop_value_of(map@, k) == prop_value_of(old(map)@, k) by {
                assert(!has_key(updates@.subrange(0, i as int), k)) by {
                    if has_key(updates@.subrange(0, i as int), k) {
                        let j = choose|j: int|
                            0 <= j < i && (#[trigger] updates@.subrange(0, i as int)[j]).key() == k;
                        assert(updates@.subrange(0, i + 1)[j].key() == k);
                    }
                }
                assert(updates@.subrange(0, i + 1)[i as int].key() != k);
                assert(k != updates@[i as int].key@);
            }
        }
        i = i + 1;
    }
    proof {
        assert(updates@.subrange(0, n as int) =~= updates@);
        assert forall|k: Seq<char>| true implies #[trigger] prop_value_of(map@, k) == merged_plain(
            old(map)@,
            updates@,
            k,
        ) by {
            lemma_key_index(updates@, k);
            if has_key(updates@, k) {
                let j = key_index(updates@, k);
                assert(prop_value_of(map@, updates@[j].key@) == Some(updates@[j].value));
            }
        }
    }
}

/// Merges reference-property updates into a stored map: a `Null` update
/// deletes the key, any other update replaces it, untouched keys are kept.
pub fn merge_refs_into(map: &mut Vec<PropEntry>, updates: &Vec<PropEntry>)
    requires
        crate::keyed::unique_keys(updates@),
    ensures
        forall|k: Seq<char>|
            #[trigger] prop_value_of(final(map)@, k) == merged_refs(old(map)@, updates@, k),
{
    let n = updates.len();
    let mut i: usize = 0;
    while i < n
        invariant
            n == updates@.len(),
            i <= n,
            crate::keyed::unique_keys(updates@),
            forall|j: int|
                0 <= j < i ==> #[trigger] prop_value_of(map@, updates@[j].key@) == (
                if updates@[j].value is Null {
                    None::<PropValue>
                } else {
                    Some(updates@[j].value)
                }),
            forall|k: Seq<char>|
                !has_key(updates@.subrange(0, i as int), k) ==> #[trigger] prop_value_of(map@, k)
                    == prop_value_of(old(map)@, k),
        decreases n - i,
    {
        let e = &updates[i];
        let is_null = match &e.value {
            PropValue::Null => true,
            _ => false,
        };
        if is_null {
            remove_key(map, e.key.as_str());
        } else {
            upsert(map, e.key.as_str(), e.value.clone());
        }
        proof {
            assert forall|j: int| 0 <= j < i + 1 implies #[trigger] prop_value_of(
                map@,
                updates@[j].key@,
            ) == (if updates@[j].value is Null {
                None::<PropValue>
            } else {
                Some(updates@[j].value)
            }) by {
                if j < i {
                    assert(updates@[j].key@ != updates@[i as int].key@);
                }
            }
            assert forall|k: Seq<char>| !has_key(updates@.subrange(0, i + 1), k) implies #[trigger]
            prop_value_of(map@, k) == prop_value_of(old(map)@, k) by {
                assert(!has_key(updates@.subrange(0, i as int), k)) by {
                    if has_key(updates@.subrange(0, i as int), k) {
                        let j = choose|j: int|
                            0 <= j < i && (#[trigger] updates@.subrange(0, i as int)[j]).key() == k;
                        assert(updates@.subrange(0, i + 1)[j].key() == k);
                    }
                }
                assert(updates@.subrange(0, i + 1)[i as int].key() != k);
                assert(k != updates@[i as int].key@);
            }
        }
        i = i + 1;
    }
    proof {
        assert(updates@.subrange(0, n as int) =~= updates@);
        assert forall|k: Seq<char>| true implies #[trigger] prop_value_of(map@, k) == merged_refs(
            old(map)@,
            updates@,
            k,
        ) by {
            lemma_key_index(updates@, k);
            if has_key(updates@, k) {
                let j = key_index(updates@, k);
                assert(prop_value_of(map@, updates@[j].key@) == (if updates@[j].value is Null {
                    None::<PropValue>
                } else {
                    Some(updates@[j].value)
                }));
            }
        }
    }
}

/// Removes every entry stored under `key`.
pub fn remove_key(map: &mut Vec<PropEntry>, key: &str)
    ensures
        prop_value_of(final(map)@, key@) is None,
        forall|k: Seq<char>|
            k != key@ ==> #[trigger] prop_value_of(final(map)@, k) == prop_value_of(old(map)@, k),
{
    let ghost keep = |e: PropEntry| e.key@ != key@;
    let mut out: Vec<PropEntry> = Vec::new();
    let n = map.len();
    let mut i: usize = 0;
    proof {
        reveal(Seq::filter);
        assert(map@.subrange(0, 0) =~= Seq::<PropEntry>::empty());
    }
    while i < n
        invariant
            n == map@.len(),
            i <= n,
            out@ == map@.subrange(0, i as int).filter(keep),
            keep == (|e: PropEntry| e.key@ != key@),
        decreases n - i,
    {
        let e = &map[i];
        if !str_eq(e.key.as_str(), key) {
            out.push(e.clone());
        }
        proof {
            reveal(Seq::filter);
            let pre = map@.subrange(0, i as int);
            let post = map@.subrange(0, i + 1);
            assert(post.drop_last() =~= pre);
            assert(post.last() == map@[i as int]);
        }
        i = i + 1;
    }
    proof {
        assert(map@.subrange(0, n as int) =~= map@);
        lemma_lookup_filter_drop(map@, keep, key@);
        assert forall|k: Seq<char>| k != key@ implies #[trigger] lookup(out@, k) == lookup(
            map@,
            k,
        ) by {
            lemma_lookup_filter_keep(map@, keep, k);
        }
    }
    *map = out;
}

} // verus!
