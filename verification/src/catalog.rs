//! Catalog queries: type existence, containment validation and fuzzy
//! suggestions for unknown type ids.

use vstd::prelude::*;

use crate::keyed::{find_index, has_key, key_index, lemma_key_index, lookup};
use crate::model::{clone_strings, Catalog, ResourceTypeDescriptor};
use crate::text::{contains_sub, is_substring_of, lower, slash_segments, split_slash, to_lower};

verus! {

/// The catalog's first descriptor for `tid`, if any.
pub open spec fn catalog_lookup(types: Seq<ResourceTypeDescriptor>, tid: Seq<char>) -> Option<
    ResourceTypeDescriptor,
> {
    lookup(types, tid)
}

/// The catalog knows the type.
pub open spec fn catalog_has(types: Seq<ResourceTypeDescriptor>, tid: Seq<char>) -> bool {
    has_key(types, tid)
}

/// The type is declared and flagged as a container.
pub open spec fn is_container_type(types: Seq<ResourceTypeDescriptor>, tid: Seq<char>) -> bool {
    match lookup(types, tid) {
        Some(d) => d.is_container,
        None => false,
    }
}

/// The allowed-parent list of `tid`, if the type is declared and has one.
pub open spec fn allowed_parents_of(types: Seq<ResourceTypeDescriptor>, tid: Seq<char>) -> Option<
    Seq<String>,
> {
    match lookup(types, tid) {
        Some(d) => match d.can_be_child_of {
            Some(v) => Some(v@),
            None => None,
        },
        None => None,
    }
}

/// The views of the allowed-parent type ids of `tid`; empty when the type
/// is unknown or has no list.
pub open spec fn allowed_names(types: Seq<ResourceTypeDescriptor>, tid: Seq<char>) -> Seq<
    Seq<char>,
> {
    match allowed_parents_of(types, tid) {
        Some(a) => a.map_values(|s: String| s@),
        None => Seq::empty(),
    }
}

/// The containment rule: the parent type must be a declared container and
/// the child type's allowed-parent list must name the parent type.
pub open spec fn containment_ok(
    types: Seq<ResourceTypeDescriptor>,
    child_tid: Seq<char>,
    parent_tid: Seq<char>,
) -> bool {
    &&& is_container_type(types, parent_tid)
    &&& allowed_parents_of(types, child_tid) is Some
    &&& allowed_names(types, child_tid).contains(parent_tid)
}

/// Why a containment check rejected a nesting.
#[derive(Debug)]
pub enum ContainmentFault {
    /// The parent type is not a declared container.
    NotAContainer,
    /// The child type has no allowed-parent list and can never be nested.
    NeverNestable,
    /// The child type's allowed-parent list does not name the parent type.
    NotAllowed(Vec<String>),
}

/// Index of the catalog's first descriptor for `tid`.
pub fn find_type(catalog: &Catalog, tid: &str) -> (r: Option<usize>)
    ensures
        match r {
            Some(i) => i < catalog.types@.len() && catalog_lookup(catalog.types@, tid@) == Some(
                catalog.types@[i as int],
            ),
            None => !catalog_has(catalog.types@, tid@),
        },
{
    let r = find_index(&catalog.types, tid);
    proof {
        lemma_key_index(catalog.types@, tid@);
    }
    r
}

/// Checks the containment rule for nesting a `child_tid` node under a
/// `parent_tid` node, reporting why it fails when it does.
pub fn validate_containment(catalog: &Catalog, child_tid: &str, parent_tid: &str) -> (r: Result<
    (),
    ContainmentFault,
>)
    ensures
        r is Ok <==> containment_ok(catalog.types@, child_tid@, parent_tid@),
        match r {
            Ok(_) => true,
            Err(f) => match f {
                ContainmentFault::NotAContainer => !is_container_type(
                    catalog.types@,
                    parent_tid@,
                ),
                ContainmentFault::NeverNestable => is_container_type(catalog.types@, parent_tid@)
                    && allowed_parents_of(catalog.types@, child_tid@) is None,
                ContainmentFault::NotAllowed(allowed) => is_container_type(
                    catalog.types@,
                    parent_tid@,
                ) && allowed_parents_of(catalog.types@, child_tid@) == Some(allowed@),
            },
        },
{
    let parent_ix = find_type(catalog, parent_tid);
    let parent_is_container = match parent_ix {
        Some(i) => catalog.types[i].is_container,
        None => false,
    };
    if !parent_is_container {
        return Err(ContainmentFault::NotAContainer);
    }
    let child_ix = find_type(catalog, child_tid);
    match child_ix {
        None => Err(ContainmentFault::NeverNestable),
        Some(ci) => {
            match &catalog.types[ci].can_be_child_of {
                None => Err(ContainmentFault::NeverNestable),
                Some(allowed) => {
                    let n = allowed.len();
                    let mut i: usize = 0;
                    while i < n
                        invariant
                            n == allowed@.len(),
                            i <= n,
                            is_container_type(catalog.types@, parent_tid@),
                            allowed_parents_of(catalog.types@, child_tid@) == Some(allowed@),
                            forall|j: int| 0 <= j < i ==> (#[trigger] allowed@[j])@ != parent_tid@,
                        decreases n - i,
                    {
                        if crate::text::str_eq(allowed[i].as_str(), parent_tid) {
                            proof {
                                let names = allowed_names(catalog.types@, child_tid@);
                                assert(names[i as int] == parent_tid@);
                                assert(names.contains(parent_tid@));
                            }
                            return Ok(());
                        }
                        i = i + 1;
                    }
                    proof {
                        let names = allowed_names(catalog.types@, child_tid@);
                        assert forall|j: int| 0 <= j < names.len() implies names[j] != parent_tid@
                            by {
                            assert(names[j] == allowed@[j]@);
                        }
                        assert(!names.contains(parent_tid@));
                    }
                    Err(ContainmentFault::NotAllowed(clone_strings(allowed)))
                },
            }
        },
    }
}

/// The unknown id matches a catalog id when the whole lowered id, or any of
/// its `/`-separated segments, occurs in the lowered catalog id.
pub open spec fn suggestion_match(tid: Seq<char>, needle_lower: Seq<char>) -> bool {
    ||| is_substring_of(needle_lower, lower(tid))
    ||| exists|i: int|
        0 <= i < slash_segments(needle_lower).len() && is_substring_of(
            #[trigger] slash_segments(needle_lower)[i],
            lower(tid),
        )
}

/// At most the first five elements of a sequence.
pub open spec fn take_five<A>(s: Seq<A>) -> Seq<A> {
    if s.len() <= 5 {
        s
    } else {
        s.subrange(0, 5)
    }
}

/// The suggestion list for an unknown type id: the first five catalog ids
/// matching it, in catalog order.
pub open spec fn suggestions_spec(
    types: Seq<ResourceTypeDescriptor>,
    needle_lower: Seq<char>,
) -> Seq<Seq<char>> {
    take_five(
        types.map_values(|d: ResourceTypeDescriptor| d.type_id@).filter(
            |t: Seq<char>| suggestion_match(t, needle_lower),
        ),
    )
}

/// Whether any of the given segments occurs inside the lowered type id.
fn any_segment_matches(tid_lower: &str, segments: &Vec<String>) -> (r: bool)
    ensures
        r == exists|q: int|
            0 <= q < segments@.len() && is_substring_of((#[trigger] segments@[q])@, tid_lower@),
{
    let m = segments.len();
    let mut j: usize = 0;
    while j < m
        invariant
            m == segments@.len(),
            j <= m,
            forall|q: int|
                0 <= q < j ==> !is_substring_of((#[trigger] segments@[q])@, tid_lower@),
        decreases m - j,
    {
        if contains_sub(tid_lower, segments[j].as_str()) {
            return true;
        }
        j = j + 1;
    }
    false
}

/// Collects up to five known type ids that fuzzily match the unknown id:
/// case-insensitive substring match of the whole id or of any of its path
/// segments.
pub fn suggestions_for(catalog: &Catalog, unknown: &str) -> (r: Vec<String>)
    ensures
        r@.map_values(|s: String| s@) == suggestions_spec(catalog.types@, lower(unknown@)),
{
    let needle = to_lower(unknown);
    let segments = split_slash(needle.as_str());
    let ghost pred = |t: Seq<char>| suggestion_match(t, lower(unknown@));
    let ghost tid_of = |d: ResourceTypeDescriptor| d.type_id@;
    let mut out: Vec<String> = Vec::new();
    let n = catalog.types.len();
    let mut i: usize = 0;
    proof {
        reveal(Seq::filter);
        assert(catalog.types@.subrange(0, 0) =~= Seq::<ResourceTypeDescriptor>::empty());
        assert(catalog.types@.subrange(0, 0).map_values(tid_of) =~= Seq::<Seq<char>>::empty());
    }
    while i < n
        invariant
            n == catalog.types@.len(),
            i <= n,
            segments@.map_values(|p: String| p@) == slash_segments(lower(unknown@)),
            needle@ == lower(unknown@),
            pred == (|t: Seq<char>| suggestion_match(t, lower(unknown@))),
            tid_of == (|d: ResourceTypeDescriptor| d.type_id@),
            out@.map_values(|s: String| s@) == take_five(
                catalog.types@.subrange(0, i as int).map_values(tid_of).filter(pred),
            ),
            out@.len() <= 5,
        decreases n - i,
    {
        let tid = &catalog.types[i].type_id;
        let tid_lower = to_lower(tid.as_str());
        let whole = contains_sub(tid_lower.as_str(), needle.as_str());
        let seg = any_segment_matches(tid_lower.as_str(), &segments);
        let is_match = whole || seg;
        proof {
            let needle_l = lower(unknown@);
            let mapped_segs = segments@.map_values(|p: String| p@);
            if seg {
                let q = choose|q: int|
                    0 <= q < segments@.len() && is_substring_of(
                        (#[trigger] segments@[q])@,
                        tid_lower@,
                    );
                assert(slash_segments(needle_l)[q] == mapped_segs[q]);
                assert(is_substring_of(slash_segments(needle_l)[q], lower(tid@)));
            }
            if exists|q: int|
                0 <= q < slash_segments(needle_l).len() && is_substring_of(
                    #[trigger] slash_segments(needle_l)[q],
                    lower(tid@),
                ) {
                let q = choose|q: int|
                    0 <= q < slash_segments(needle_l).len() && is_substring_of(
                        #[trigger] slash_segments(needle_l)[q],
                        lower(tid@),
                    );
                assert(mapped_segs[q] == segments@[q]@);
                assert(is_substring_of(segments@[q]@, tid_lower@));
                assert(seg);
            }
            assert(is_match == pred(catalog.types@[i as int].type_id@));
        }
        let ghost pre_mapped = catalog.types@.subrange(0, i as int).map_values(tid_of);
        let ghost post_mapped = catalog.types@.subrange(0, i + 1).map_values(tid_of);
        proof {
            assert(post_mapped =~= pre_mapped.push(catalog.types@[i as int].type_id@));
            reveal(Seq::filter);
            assert(post_mapped.drop_last() =~= pre_mapped);
        }
        if is_match && out.len() < 5 {
            let ghost prev_out = out@;
            out.push(tid.clone());
            proof {
                assert(out@.map_values(|s: String| s@) =~= prev_out.map_values(
                    |s: String| s@,
                ).push(tid@));
                assert(out@.map_values(|s: String| s@) =~= take_five(post_mapped.filter(pred)));
            }
        } else {
            proof {
                if is_match {
                    assert(post_mapped.filter(pred) == pre_mapped.filter(pred).push(
                        catalog.types@[i as int].type_id@,
                    ));
                    assert(take_five(post_mapped.filter(pred)) =~= take_five(
                        pre_mapped.filter(pred),
                    ));
                } else {
                    assert(post_mapped.filter(pred) == pre_mapped.filter(pred));
                }
            }
        }
        i = i + 1;
    }
    proof {
        assert(catalog.types@.subrange(0, n as int) =~= catalog.types@);
    }
    out
}

} // verus!
