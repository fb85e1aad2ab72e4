//! Diagram mirror operations: node and edge lookup, insertion, removal with
//! cascading deletion of descendants, and edge cleanup.

use vstd::prelude::*;

use crate::keyed::{find_index, has_key, lemma_key_index, lookup, Keyed};
use crate::model::{Diagram, Edge, Node};
use crate::text::str_eq;

verus! {

/// The views of a vector of strings.
pub open spec fn string_views(ids: Seq<String>) -> Seq<Seq<char>> {
    ids.map_values(|s: String| s@)
}

/// The first node with this id, if any.
pub open spec fn node_lookup(nodes: Seq<Node>, id: Seq<char>) -> Option<Node> {
    lookup(nodes, id)
}

/// A node with this id exists.
pub open spec fn has_node(nodes: Seq<Node>, id: Seq<char>) -> bool {
    has_key(nodes, id)
}

/// The type id of the first node with this id, if any.
pub open spec fn node_type_of(nodes: Seq<Node>, id: Seq<char>) -> Option<Seq<char>> {
    match lookup(nodes, id) {
        Some(n) => Some(n.type_id@),
        None => None,
    }
}

/// The parent id the node carries, if any.
pub open spec fn parent_of(n: Node) -> Option<Seq<char>> {
    match n.parent_id {
        Some(p) => Some(p@),
        None => None,
    }
}

/// Whether a node with the given id exists in the diagram.
pub fn node_exists(d: &Diagram, id: &str) -> (r: bool)
    ensures
        r == has_node(d.nodes@, id@),
{
    crate::keyed::contains_key(&d.nodes, id)
}

/// Index of the first node with the given id.
pub fn node_index(d: &Diagram, id: &str) -> (r: Option<usize>)
    ensures
        match r {
            Some(i) => i < d.nodes@.len() && node_lookup(d.nodes@, id@) == Some(
                d.nodes@[i as int],
            ) && i == crate::keyed::key_index(d.nodes@, id@),
            None => !has_node(d.nodes@, id@),
        },
{
    let r = find_index(&d.nodes, id);
    proof {
        lemma_key_index(d.nodes@, id@);
    }
    r
}

/// The type id of the node with the given id, if the node exists.
pub fn get_node_type(d: &Diagram, id: &str) -> (r: Option<String>)
    ensures
        match r {
            Some(t) => node_type_of(d.nodes@, id@) == Some(t@),
            None => node_type_of(d.nodes@, id@) is None,
        },
{
    match node_index(d, id) {
        Some(i) => Some(d.nodes[i].type_id.clone()),
        None => None,
    }
}

/// An edge with this id exists.
pub open spec fn has_edge(edges: Seq<Edge>, id: Seq<char>) -> bool {
    has_key(edges, id)
}

/// Whether an edge with the given id exists in the diagram.
pub fn edge_exists(d: &Diagram, id: &str) -> (r: bool)
    ensures
        r == has_edge(d.edges@, id@),
{
    crate::keyed::contains_key(&d.edges, id)
}

/// Whether the id list contains the given id.
pub fn ids_contain(ids: &Vec<String>, id: &str) -> (r: bool)
    ensures
        r == string_views(ids@).contains(id@),
{
    let n = ids.len();
    let mut i: usize = 0;
    while i < n
        invariant
            n == ids@.len(),
            i <= n,
            forall|j: int| 0 <= j < i ==> (#[trigger] ids@[j])@ != id@,
        decreases n - i,
    {
        if str_eq(ids[i].as_str(), id) {
            proof {
                assert(string_views(ids@)[i as int] == id@);
            }
            return true;
        }
        i = i + 1;
    }
    proof {
        let mapped = string_views(ids@);
        if mapped.contains(id@) {
            let j = choose|j: int| 0 <= j < mapped.len() && mapped[j] == id@;
            assert(ids@[j]@ == id@);
        }
    }
    false
}

/// A set of ids is closed under parent links: whenever it contains a node's
/// parent, it contains that node's id too.
pub open spec fn set_closed(nodes: Seq<Node>, s: Set<Seq<char>>) -> bool {
    forall|i: int|
        0 <= i < nodes.len() && (match (#[trigger] nodes[i]).parent_id {
            Some(p) => s.contains(p@),
            None => false,
        }) ==> s.contains(nodes[i].id@)
}

/// The ids as a set.
pub open spec fn ids_set(ids: Seq<Seq<char>>) -> Set<Seq<char>> {
    Set::new(|x: Seq<char>| ids.contains(x))
}

/// `ids` is exactly the transitive-descendant closure of `root` over parent
/// links: it contains the root, is closed under parent links, and is
/// contained in every closed set that holds the root.
pub open spec fn removal_set_ok(nodes: Seq<Node>, root: Seq<char>, ids: Seq<Seq<char>>) -> bool {
    &&& ids.contains(root)
    &&& set_closed(nodes, ids_set(ids))
    &&& forall|s: Set<Seq<char>>|
        s.contains(root) && set_closed(nodes, s) ==> forall|j: int|
            0 <= j < ids.len() ==> s.contains(#[trigger] ids[j])
}

/// How many nodes have an id outside the given id list.
pub open spec fn count_missing(nodes: Seq<Node>, ids: Seq<Seq<char>>) -> nat
    decreases nodes.len(),
{
    if nodes.len() == 0 {
        0
    } else {
        (if ids.contains(nodes.last().id@) {
            0nat
        } else {
            1nat
        }) + count_missing(nodes.drop_last(), ids)
    }
}

/// Growing the id list cannot increase the number of missing nodes.
proof fn lemma_count_missing_mono(nodes: Seq<Node>, ids1: Seq<Seq<char>>, ids2: Seq<Seq<char>>)
    requires
        forall|x: Seq<char>| ids1.contains(x) ==> ids2.contains(x),
    ensures
        count_missing(nodes, ids2) <= count_missing(nodes, ids1),
    decreases nodes.len(),
{
    if nodes.len() > 0 {
        lemma_count_missing_mono(nodes.drop_last(), ids1, ids2);
    }
}

/// Adding the id of a node that was missing strictly shrinks the count.
proof fn lemma_count_missing_strict(
    nodes: Seq<Node>,
    ids1: Seq<Seq<char>>,
    ids2: Seq<Seq<char>>,
    i: int,
)
    requires
        forall|x: Seq<char>| ids1.contains(x) ==> ids2.contains(x),
        0 <= i < nodes.len(),
        !ids1.contains(nodes[i].id@),
        ids2.contains(nodes[i].id@),
    ensures
        count_missing(nodes, ids2) < count_missing(nodes, ids1),
    decreases nodes.len(),
{
    if i == nodes.len() - 1 {
        lemma_count_missing_mono(nodes.drop_last(), ids1, ids2);
    } else {
        lemma_count_missing_strict(nodes.drop_last(), ids1, ids2, i);
        assert(nodes.drop_last()[i] == nodes[i]);
    }
}

/// Computes the transitive closure of descendants of `root` via parent
/// links, iterated to a fixpoint.
pub fn compute_removal_set(nodes: &Vec<Node>, root: &str) -> (ids: Vec<String>)
    ensures
        removal_set_ok(nodes@, root@, string_views(ids@)),
{
    let mut ids: Vec<String> = Vec::new();
    ids.push(crate::props::clone_str(root));
    proof {
        assert(string_views(ids@)[0] == root@);
    }
    let mut changed = true;
    while changed
        invariant
            string_views(ids@).contains(root@),
            !changed ==> set_closed(nodes@, ids_set(string_views(ids@))),
            forall|s: Set<Seq<char>>|
                s.contains(root@) && set_closed(nodes@, s) ==> forall|j: int|
                    0 <= j < ids@.len() ==> s.contains(
                        #[trigger] string_views(ids@)[j],
                    ),
        decreases count_missing(nodes@, string_views(ids@)), (if changed {
            1int
        } else {
            0int
        }),
    {
        changed = false;
        let ghost ids_start = string_views(ids@);
        let n = nodes.len();
        let mut i: usize = 0;
        while i < n
            invariant
                n == nodes@.len(),
                i <= n,
                string_views(ids@).contains(root@),
                forall|x: Seq<char>|
                    ids_start.contains(x) ==> string_views(ids@).contains(x),
                changed ==> count_missing(nodes@, string_views(ids@))
                    < count_missing(nodes@, ids_start),
                !changed ==> string_views(ids@) == ids_start,
                !changed ==> forall|j: int|
                    0 <= j < i ==> !(match (#[trigger] nodes@[j]).parent_id {
                        Some(p) => ids_start.contains(p@),
                        None => false,
                    } && !ids_start.contains(nodes@[j].id@)),
                forall|s: Set<Seq<char>>|
                    s.contains(root@) && set_closed(nodes@, s) ==> forall|j: int|
                        0 <= j < ids@.len() ==> s.contains(
                            #[trigger] string_views(ids@)[j],
                        ),
            decreases n - i,
        {
            let node = &nodes[i];
            let in_set = ids_contain(&ids, node.id.as_str());
            if !in_set {
                let parent_in = match &node.parent_id {
                    Some(p) => ids_contain(&ids, p.as_str()),
                    None => false,
                };
                if parent_in {
                    let ghost pre = string_views(ids@);
                    ids.push(node.id.clone());
                    changed = true;
                    proof {
                        let post = string_views(ids@);
                        assert(post =~= pre.push(nodes@[i as int].id@));
                        assert forall|x: Seq<char>| pre.contains(x) implies post.contains(x) by {
                            let j = choose|j: int| 0 <= j < pre.len() && pre[j] == x;
                            assert(post[j] == x);
                        }
                        assert(post.contains(nodes@[i as int].id@)) by {
                            assert(post[post.len() - 1] == nodes@[i as int].id@);
                        }
                        lemma_count_missing_strict(nodes@, pre, post, i as int);
                        lemma_count_missing_mono(nodes@, ids_start, pre);
                        assert forall|s: Set<Seq<char>>|
                            s.contains(root@) && set_closed(nodes@, s) implies forall|j: int|
                            0 <= j < ids@.len() ==> s.contains(
                                #[trigger] string_views(ids@)[j],
                            ) by {
                            assert forall|j: int| 0 <= j < ids@.len() implies s.contains(
                                #[trigger] string_views(ids@)[j],
                            ) by {
                                if j < pre.len() {
                                    assert(string_views(ids@)[j] == pre[j]);
                                } else {
                                    let p: String = match nodes@[i as int].parent_id {
                                        Some(p) => p,
                                        None => arbitrary(),
                                    };
                                    let pj = choose|pj: int|
                                        0 <= pj < pre.len() && pre[pj] == p@;
                                    assert(s.contains(pre[pj]));
                                    assert(s.contains(nodes@[i as int].id@));
                                }
                            }
                        }
                    }
                }
            }
            i = i + 1;
        }
        proof {
            if !changed {
                let cur = string_views(ids@);
                assert(cur == ids_start);
                assert forall|j: int|
                    0 <= j < nodes@.len() && (match (#[trigger] nodes@[j]).parent_id {
                        Some(p) => ids_set(cur).contains(p@),
                        None => false,
                    }) implies ids_set(cur).contains(nodes@[j].id@) by {
                    match nodes@[j].parent_id {
                        Some(p) => {
                            assert(ids_start.contains(p@));
                            assert(ids_start.contains(nodes@[j].id@));
                        },
                        None => {},
                    }
                }
                assert(set_closed(nodes@, ids_set(cur)));
            }
        }
    }
    ids
}

/// Empties the vector into a new one in reverse order, preserving values.
fn vec_reversed<T>(v: &mut Vec<T>) -> (r: Vec<T>)
    ensures
        final(v)@.len() == 0,
        r@ == old(v)@.reverse(),
{
    let ghost orig = v@;
    let ghost n = v@.len() as int;
    let mut r: Vec<T> = Vec::new();
    while v.len() > 0
        invariant
            v@ == orig.subrange(0, v@.len() as int),
            r@.len() + v@.len() == orig.len(),
            forall|i: int| 0 <= i < r@.len() ==> #[trigger] r@[i] == orig[orig.len() - 1 - i],
        decreases v@.len(),
    {
        let x = v.pop().unwrap();
        r.push(x);
    }
    proof {
        assert(r@ =~= orig.reverse());
    }
    r
}

/// Keeps only the nodes whose ids are not listed.
pub fn retain_nodes_not_in(d: &mut Diagram, ids: &Vec<String>)
    ensures
        final(d).nodes@ == old(d).nodes@.filter(
            |n: Node| !string_views(ids@).contains(n.id@),
        ),
        final(d).edges@ == old(d).edges@,
{
    let ghost keep = |n: Node| !string_views(ids@).contains(n.id@);
    let mut tmp: Vec<Node> = Vec::new();
    core::mem::swap(&mut d.nodes, &mut tmp);
    let ghost orig = tmp@;
    let mut rev = vec_reversed(&mut tmp);
    let n = rev.len();
    let mut j: usize = 0;
    proof {
        reveal(Seq::filter);
        assert(orig.subrange(0, 0) =~= Seq::<Node>::empty());
    }
    while j < n
        invariant
            n == orig.len(),
            j <= n,
            rev@.len() == n - j,
            forall|i: int| 0 <= i < rev@.len() ==> #[trigger] rev@[i] == orig[n - 1 - i],
            d.nodes@ == orig.subrange(0, j as int).filter(keep),
            d.edges@ == old(d).edges@,
            keep == (|nd: Node| !string_views(ids@).contains(nd.id@)),
        decreases n - j,
    {
        let nd = rev.pop().unwrap();
        proof {
            assert(nd == orig[j as int]);
        }
        let keep_it = !ids_contain(ids, nd.id.as_str());
        if keep_it {
            d.nodes.push(nd);
        }
        proof {
            reveal(Seq::filter);
            let pre = orig.subrange(0, j as int);
            let post = orig.subrange(0, j + 1);
            assert(post.drop_last() =~= pre);
            assert(post.last() == orig[j as int]);
        }
        j = j + 1;
    }
    proof {
        assert(orig.subrange(0, n as int) =~= orig);
    }
}

/// Keeps only the edges touching no listed id.
pub fn retain_edges_not_touching(d: &mut Diagram, ids: &Vec<String>)
    ensures
        final(d).edges@ == old(d).edges@.filter(
            |e: Edge|
                !string_views(ids@).contains(e.source@) && !string_views(ids@).contains(
                    e.target@,
                ),
        ),
        final(d).nodes@ == old(d).nodes@,
{
    let ghost keep = |e: Edge|
        !string_views(ids@).contains(e.source@) && !string_views(ids@).contains(e.target@);
    let mut out: Vec<Edge> = Vec::new();
    let n = d.edges.len();
    let mut j: usize = 0;
    proof {
        reveal(Seq::filter);
        assert(d.edges@.subrange(0, 0) =~= Seq::<Edge>::empty());
    }
    while j < n
        invariant
            n == d.edges@.len(),
            j <= n,
            d.edges@ == old(d).edges@,
            d.nodes@ == old(d).nodes@,
            out@ == d.edges@.subrange(0, j as int).filter(keep),
            keep == (|e: Edge|
                !string_views(ids@).contains(e.source@) && !string_views(ids@).contains(
                    e.target@,
                )),
        decreases n - j,
    {
        let src_in = ids_contain(ids, d.edges[j].source.as_str());
        let tgt_in = ids_contain(ids, d.edges[j].target.as_str());
        if !src_in && !tgt_in {
            let e = d.edges[j].clone();
            out.push(e);
        }
        proof {
            reveal(Seq::filter);
            let pre = d.edges@.subrange(0, j as int);
            let post = d.edges@.subrange(0, j + 1);
            assert(post.drop_last() =~= pre);
            assert(post.last() == d.edges@[j as int]);
        }
        j = j + 1;
    }
    proof {
        assert(d.edges@.subrange(0, n as int) =~= d.edges@);
    }
    d.edges = out;
}

/// Keeps only the edges whose id differs from the given one.
pub fn remove_edge_by_id(d: &mut Diagram, edge_id: &str)
    ensures
        final(d).edges@ == old(d).edges@.filter(|e: Edge| e.id@ != edge_id@),
        final(d).nodes@ == old(d).nodes@,
{
    let ghost keep = |e: Edge| e.id@ != edge_id@;
    let mut out: Vec<Edge> = Vec::new();
    let n = d.edges.len();
    let mut j: usize = 0;
    proof {
        reveal(Seq::filter);
        assert(d.edges@.subrange(0, 0) =~= Seq::<Edge>::empty());
    }
    while j < n
        invariant
            n == d.edges@.len(),
            j <= n,
            d.edges@ == old(d).edges@,
            d.nodes@ == old(d).nodes@,
            out@ == d.edges@.subrange(0, j as int).filter(keep),
            keep == (|e: Edge| e.id@ != edge_id@),
        decreases n - j,
    {
        if !str_eq(d.edges[j].id.as_str(), edge_id) {
            let e = d.edges[j].clone();
            out.push(e);
        }
        proof {
            reveal(Seq::filter);
            let pre = d.edges@.subrange(0, j as int);
            let post = d.edges@.subrange(0, j + 1);
            assert(post.drop_last() =~= pre);
            assert(post.last() == d.edges@[j as int]);
        }
        j = j + 1;
    }
    proof {
        assert(d.edges@.subrange(0, n as int) =~= d.edges@);
    }
    d.edges = out;
}

} // verus!
