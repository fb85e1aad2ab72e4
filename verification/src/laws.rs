//! Cross-cutting laws of the bridge, proved from the engine's contracts:
//! referential integrity of the mirror after a cascading removal, and the
//! global uniqueness of freshly added instance ids.

use vstd::prelude::*;

use crate::diagram::{has_node, ids_set, removal_set_ok, set_closed, string_views};
use crate::engine::{
    add_success_ok, diagram_of, entry_with_node_added, mirror_node_added, mirror_updated,
    remove_success_ok,
};
use crate::ids::id_in_use;
use crate::keyed::{has_key, key_index, lemma_key_index, lemma_key_index_same_keys, Keyed};
use crate::model::{node_eqv, Node};
use crate::protocol::{CmdResult, Mutation, Params, UiEvent};
use crate::registry::{has_window, BridgeState};
use crate::resolver::resolve_spec;

verus! {

/// The id is the root or one of its transitive descendants via parent
/// links: it lies in every parent-closed id set that holds the root.
pub open spec fn in_closure(nodes: Seq<Node>, root: Seq<char>, id: Seq<char>) -> bool {
    forall|s: Set<Seq<char>>|
        s.contains(root) && #[trigger] set_closed(nodes, s) ==> s.contains(id)
}

/// No edge ever references a removed node: after a successful removal of
/// `X`, no surviving edge of the window's mirror mentions `X` or any id
/// descended from `X`.
pub proof fn lemma_remove_referential_integrity(
    pre: BridgeState,
    post: BridgeState,
    p: Params,
    res: CmdResult,
    ev: UiEvent,
    x: Seq<char>,
)
    requires
        remove_success_ok(pre, post, p, res, ev),
        in_closure(
            diagram_of(pre.registry, resolve_spec(pre.registry, p.hint())->Ok_0)->0.nodes@,
            p.instance_id->0@,
            x,
        ),
    ensures
        ({
            let label = resolve_spec(pre.registry, p.hint())->Ok_0;
            match diagram_of(post.registry, label) {
                Some(dn) => (forall|i: int|
                    0 <= i < dn.edges@.len() ==> (#[trigger] dn.edges@[i]).source@ != x
                        && dn.edges@[i].target@ != x) && (forall|i: int|
                    0 <= i < dn.nodes@.len() ==> (#[trigger] dn.nodes@[i]).id@ != x),
                None => true,
            }
        }),
{
    let label = resolve_spec(pre.registry, p.hint())->Ok_0;
    let d = diagram_of(pre.registry, label)->0;
    match ev {
        UiEvent::DiagramMutated { window, mutation } => {
            match mutation {
                Mutation::RemoveNode { instance_id } => {
                    let ids = choose|ids: Seq<Seq<char>>|
                        #[trigger] removal_set_ok(d.nodes@, instance_id@, ids) && mirror_updated(
                            pre.registry,
                            post.registry,
                            label,
                            d.nodes@.filter(|n: Node| !ids.contains(n.id@)),
                            d.edges@.filter(
                                |ed: crate::model::Edge|
                                    !ids.contains(ed.source@) && !ids.contains(ed.target@),
                            ),
                        );
                    // The removal set, as a set, holds the root and is closed,
                    // so the closure member x lies in it.
                    assert(ids_set(ids).contains(instance_id@));
                    assert(set_closed(d.nodes@, ids_set(ids)));
                    assert(ids_set(ids).contains(x));
                    assert(ids.contains(x));
                    // The window keeps its place in the registry.
                    let i = key_index(pre.registry.windows@, label);
                    lemma_key_index(pre.registry.windows@, label);
                    assert(has_window(pre.registry, label));
                    lemma_key_index_same_keys(post.registry.windows@, pre.registry.windows@, label);
                    lemma_key_index(post.registry.windows@, label);
                    let edges_new = d.edges@.filter(
                        |ed: crate::model::Edge|
                            !ids.contains(ed.source@) && !ids.contains(ed.target@),
                    );
                    let nodes_new = d.nodes@.filter(|n: Node| !ids.contains(n.id@));
                    match diagram_of(post.registry, label) {
                        Some(dn) => {
                            assert(dn.edges@ == edges_new);
                            assert forall|k: int| 0 <= k < dn.edges@.len() implies (
                            #[trigger] dn.edges@[k]).source@ != x && dn.edges@[k].target@ != x by {
                                d.edges@.lemma_filter_pred(
                                    |ed: crate::model::Edge|
                                        !ids.contains(ed.source@) && !ids.contains(ed.target@),
                                    k,
                                );
                            }
                            assert(dn.nodes@ == nodes_new);
                            assert forall|k: int| 0 <= k < dn.nodes@.len() implies (
                            #[trigger] dn.nodes@[k]).id@ != x by {
                                d.nodes@.lemma_filter_pred(
                                    |n: Node| !ids.contains(n.id@),
                                    k,
                                );
                            }
                        },
                        None => {},
                    }
                },
                _ => {
                    assert(false);
                },
            }
        },
        _ => {
            assert(false);
        },
    }
}

/// Container cascade: the removal closure of a container reaches its
/// children and grandchildren, so a chain nested under the removed root is
/// wiped with it.
pub proof fn lemma_closure_reaches_children(nodes: Seq<Node>, root: Seq<char>, j: int)
    requires
        0 <= j < nodes.len(),
        (match nodes[j].parent_id {
            Some(q) => in_closure(nodes, root, q@),
            None => false,
        }),
    ensures
        in_closure(nodes, root, nodes[j].id@),
{
    assert forall|s: Set<Seq<char>>|
        s.contains(root) && #[trigger] set_closed(nodes, s) implies s.contains(
        nodes[j].id@,
    ) by {
        match nodes[j].parent_id {
            Some(q) => {
                assert(s.contains(q@));
            },
            None => {},
        }
    }
}

/// Concurrent `add_resource` calls are serialized by the mutation token;
/// two successive successful adds never hand out the same instance id,
/// window-local or global, as long as the first add's window had a mirror
/// to record the id in.
pub proof fn lemma_add_ids_unique(
    s0: BridgeState,
    s1: BridgeState,
    s2: BridgeState,
    p1: Params,
    p2: Params,
    res1: CmdResult,
    ev1: UiEvent,
    res2: CmdResult,
    ev2: UiEvent,
)
    requires
        add_success_ok(s0, s1, p1, res1, ev1),
        add_success_ok(s1, s2, p2, res2, ev2),
        diagram_of(s0.registry, resolve_spec(s0.registry, p1.hint())->Ok_0) is Some,
    ensures
        (match (res1, res2) {
            (
                CmdResult::Added { instance_id: a, .. },
                CmdResult::Added { instance_id: b, .. },
            ) => a@ != b@,
            _ => true,
        }),
{
    let label1 = resolve_spec(s0.registry, p1.hint())->Ok_0;
    match (res1, ev1) {
        (
            CmdResult::Added { instance_id: a, terraform_name: _t, position: _q },
            UiEvent::DiagramMutated { window: _w, mutation },
        ) => {
            match mutation {
                Mutation::AddNode(n1) => {
                    let nm = choose|nm: Node|
                        node_eqv(nm, n1) && #[trigger] mirror_node_added(
                            s0.registry,
                            s1.registry,
                            label1,
                            nm,
                        );
                    let i = key_index(s0.registry.windows@, label1);
                    lemma_key_index(s0.registry.windows@, label1);
                    assert(has_window(s0.registry, label1));
                    let e_new = s1.registry.windows@[i];
                    assert(entry_with_node_added(s0.registry.windows@[i], e_new, nm));
                    let nodes1 = e_new.diagram->0.nodes@;
                    assert(nodes1[nodes1.len() - 1] == nm);
                    assert(nm.id@ == a@);
                    assert(has_node(nodes1, a@)) by {
                        assert(nodes1[nodes1.len() - 1].key() == a@);
                    }
                    assert(id_in_use(s1.registry, a@)) by {
                        assert(0 <= i < s1.registry.windows@.len() && (
                        match s1.registry.windows@[i].diagram {
                            Some(dd) => has_node(dd.nodes@, a@),
                            None => false,
                        }));
                    }
                    match (res2, ev2) {
                        (
                            CmdResult::Added { instance_id: b, terraform_name: _t2, position: _q2 },
                            UiEvent::DiagramMutated { window: _w2, mutation: m2 },
                        ) => {
                            match m2 {
                                Mutation::AddNode(_n2) => {
                                    assert(!id_in_use(s1.registry, b@));
                                },
                                _ => {
                                    assert(false);
                                },
                            }
                        },
                        _ => {
                            assert(false);
                        },
                    }
                },
                _ => {
                    assert(false);
                },
            }
        },
        _ => {
            assert(false);
        },
    }
}

} // verus!
