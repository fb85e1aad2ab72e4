//! The mutation engine: validated operations against the addressed window's
//! mirror. Each operation validates its preconditions against the catalog
//! and the registry, produces the event for the UI layer to push, and
//! applies the identical transformation to the local mirror.

use vstd::prelude::*;
use vstd::string::*;

use crate::catalog::{
    catalog_has, containment_ok, suggestions_for, suggestions_spec, validate_containment,
    ContainmentFault,
};
use crate::diagram::{has_node, node_type_of, string_views};
use crate::ids::{fresh_instance_id, generate_terraform_name, id_in_use, tf_name_ok};
use crate::keyed::{key_index, lemma_key_index, lookup};
use crate::model::{
    clone_strings, node_eqv, Diagram, Node, NodeData, Position, PropEntry, PropValue,
    PropertyDescriptor,
};
use crate::names::display_name_of;
use crate::props::{plain_part, ref_part_non_null, split_properties};
use crate::protocol::{
    fault_code, BridgeError, CmdResult, ErrorCode, Mutation, Params, UiEvent,
};
use crate::registry::{
    has_window, put_entry, take_entry, window_index, window_lookup, BridgeState, Registry,
    WindowEntry,
};
use crate::resolver::{resolve_spec, resolve_window_label, ResolveFault};
use crate::text::lower;

verus! {

/// The largest grid row whose y coordinate still fits an `i64`.
pub const MAX_GRID_ROW: u64 = 46116860184273878;

/// The grid auto-layout position for the next node when `count` nodes
/// already exist: column `count % 4`, row `count / 4`, origin `(100, 100)`,
/// spacing `(250, 200)`. A row beyond any representable coordinate
/// saturates.
pub open spec fn auto_position_spec(count: nat) -> Position {
    Position {
        x: (100 + 250 * ((count % 4) as int)) as i64,
        y: if count / 4 <= MAX_GRID_ROW as nat {
            (100 + 200 * ((count / 4) as int)) as i64
        } else {
            i64::MAX
        },
    }
}

/// Computes the grid auto-layout position after `count` existing nodes.
pub fn auto_position(count: usize) -> (p: Position)
    ensures
        p == auto_position_spec(count as nat),
{
    let col = count % 4;
    let row = count / 4;
    let x: i64 = 100 + 250 * (col as i64);
    let y: i64 = if (row as u64) <= MAX_GRID_ROW {
        100 + 200 * (row as i64)
    } else {
        i64::MAX
    };
    Position { x, y }
}

/// The diagram mirror of the window registered under `label`, if any.
pub open spec fn diagram_of(reg: Registry, label: Seq<char>) -> Option<Diagram> {
    match window_lookup(reg, label) {
        Some(e) => e.diagram,
        None => None,
    }
}

/// How many nodes the window's mirror holds (zero without a mirror).
pub open spec fn node_count_of(reg: Registry, label: Seq<char>) -> nat {
    match diagram_of(reg, label) {
        Some(d) => d.nodes@.len(),
        None => 0,
    }
}

/// The property descriptors the catalog declares for a type (empty when the
/// type is unknown).
pub open spec fn descs_of(cat: Seq<crate::model::ResourceTypeDescriptor>, tid: Seq<char>) -> Seq<
    PropertyDescriptor,
> {
    match lookup(cat, tid) {
        Some(d) => d.properties@,
        None => Seq::empty(),
    }
}

/// The incoming properties, or an empty map.
pub open spec fn props_or_empty(p: Params) -> Seq<PropEntry> {
    match p.properties {
        Some(v) => v@,
        None => Seq::empty(),
    }
}

/// The incoming enabled-outputs list, or an empty one.
pub open spec fn outputs_or_empty(p: Params) -> Seq<String> {
    match p.enabled_outputs {
        Some(v) => v@,
        None => Seq::empty(),
    }
}

/// The display label of a new node: the incoming `name` property when it is
/// a non-empty string, else the type id humanized.
pub open spec fn display_label_spec(tid: Seq<char>, plain: Seq<PropEntry>) -> Seq<char> {
    match crate::model::prop_value_of(plain, "name"@) {
        Some(PropValue::Text(s)) => if s@.len() > 0 {
            s@
        } else {
            display_name_of(tid)
        },
        _ => display_name_of(tid),
    }
}

/// The given parent id exists in the window's mirror and the containment
/// rule allows nesting the child type under the parent node's type.
pub open spec fn parent_ok(pre: BridgeState, label: Seq<char>, ctid: Seq<char>, pid: Seq<char>) -> bool {
    match diagram_of(pre.registry, label) {
        Some(d) => has_node(d.nodes@, pid) && (match node_type_of(d.nodes@, pid) {
            Some(pt) => containment_ok(pre.catalog.types@, ctid, pt),
            None => false,
        }),
        None => false,
    }
}

/// Every field of a freshly built node, as a function of the parameters and
/// the catalog, except its random id and name suffix.
pub open spec fn new_node_ok(
    p: Params,
    cat: Seq<crate::model::ResourceTypeDescriptor>,
    tid: Seq<char>,
    n: Node,
    pos: Position,
) -> bool {
    &&& n.type_id@ == tid
    &&& n.position == pos
    &&& n.width is None
    &&& n.height is None
    &&& (match p.parent_flat() {
        Some(pid) => n.parent_id is Some && n.parent_id->0@ == pid && n.contained,
        None => n.parent_id is None && !n.contained,
    })
    &&& n.data.label@ == display_label_spec(tid, plain_part(props_or_empty(p), descs_of(cat, tid)))
    &&& tf_name_ok(tid, n.data.terraform_name@)
    &&& n.data.properties@ == plain_part(props_or_empty(p), descs_of(cat, tid))
    &&& n.data.references@ == ref_part_non_null(props_or_empty(p), descs_of(cat, tid))
    &&& n.data.validation_errors@.len() == 0
    &&& n.data.deployment_status@ == "pending"@
    &&& n.data.enabled_outputs@ == outputs_or_empty(p)
}

/// The entry after a node is appended to its mirror; a window without a
/// mirror is left untouched: there is nothing to update.
pub open spec fn entry_with_node_added(e_old: WindowEntry, e_new: WindowEntry, n: Node) -> bool {
    &&& e_new.label == e_old.label
    &&& e_new.project_name == e_old.project_name
    &&& e_new.project_path == e_old.project_path
    &&& e_new.artifacts == e_old.artifacts
    &&& (match e_old.diagram {
        Some(d) => e_new.diagram is Some && e_new.diagram->0.nodes@ == d.nodes@.push(n)
            && e_new.diagram->0.edges@ == d.edges@,
        None => e_new.diagram is None,
    })
}

/// The registry after a node is appended to one window's mirror.
pub open spec fn mirror_node_added(pre: Registry, post: Registry, label: Seq<char>, n: Node) -> bool {
    &&& post.last_active == pre.last_active
    &&& has_window(pre, label) ==> {
        let i = key_index(pre.windows@, label);
        &&& post.windows@.len() == pre.windows@.len()
        &&& (forall|j: int|
            0 <= j < pre.windows@.len() && j != i ==> post.windows@[j] == pre.windows@[j])
        &&& entry_with_node_added(pre.windows@[i], post.windows@[i], n)
    }
    &&& !has_window(pre, label) ==> post.windows@ == pre.windows@
}

/// The details owed on a containment rejection: when the parent type is a
/// declared container and the child type has an allowed-parent list (so the
/// rejection is a not-allowed nesting), the details carry exactly that
/// list; on any other containment fault there are none.
pub open spec fn containment_details_ok(
    cat: Seq<crate::model::ResourceTypeDescriptor>,
    child_tid: Seq<char>,
    parent_tid: Seq<char>,
    e: BridgeError,
) -> bool {
    if crate::catalog::is_container_type(cat, parent_tid) && crate::catalog::allowed_parents_of(
        cat,
        child_tid,
    ) is Some {
        e.details is Some && e.details->0@ == crate::catalog::allowed_parents_of(
            cat,
            child_tid,
        )->0
    } else {
        e.details is None
    }
}

/// Why `add_resource` failed, with the exact error code owed on each input.
pub open spec fn add_error_ok(pre: BridgeState, p: Params, e: BridgeError) -> bool {
    match resolve_spec(pre.registry, p.hint()) {
        Err(f) => e.code == fault_code(f),
        Ok(label) => if p.type_id is None {
            e.code == ErrorCode::ValidationError
        } else {
            let tid = p.type_id->0@;
            if !catalog_has(pre.catalog.types@, tid) {
                &&& e.code == ErrorCode::NotFound
                &&& e.details is Some
                &&& string_views(e.details->0@) == suggestions_spec(
                    pre.catalog.types@,
                    lower(tid),
                )
            } else {
                match p.parent_flat() {
                    Some(pid) => {
                        let parent_found = match diagram_of(pre.registry, label) {
                            Some(d) => has_node(d.nodes@, pid),
                            None => false,
                        };
                        if !parent_found {
                            e.code == ErrorCode::NotFound
                        } else {
                            let pt = node_type_of(
                                diagram_of(pre.registry, label)->0.nodes@,
                                pid,
                            )->0;
                            &&& !parent_ok(pre, label, tid, pid)
                            &&& e.code == ErrorCode::ContainmentError
                            &&& containment_details_ok(pre.catalog.types@, tid, pt, e)
                        }
                    },
                    None => false,
                }
            }
        },
    }
}

/// What a successful `add_resource` must have done: validated everything,
/// produced a fresh globally unique id and a generated name, chosen the
/// given or auto-layout position, built the node from the split property
/// map, pushed the add event for the resolved window, and appended an
/// equivalent node to that window's mirror.
pub open spec fn add_success_ok(
    pre: BridgeState,
    post: BridgeState,
    p: Params,
    res: CmdResult,
    ev: UiEvent,
) -> bool {
    match resolve_spec(pre.registry, p.hint()) {
        Ok(label) => {
            &&& p.type_id is Some
            &&& catalog_has(pre.catalog.types@, p.type_id->0@)
            &&& (match p.parent_flat() {
                Some(pid) => parent_ok(pre, label, p.type_id->0@, pid),
                None => true,
            })
            &&& post.catalog == pre.catalog
            &&& (match (res, ev) {
                (
                    CmdResult::Added { instance_id, terraform_name, position },
                    UiEvent::DiagramMutated { window, mutation },
                ) => {
                    &&& window@ == label
                    &&& (match mutation {
                        Mutation::AddNode(n) => {
                            &&& !id_in_use(pre.registry, instance_id@)
                            &&& n.id@ == instance_id@
                            &&& n.data.terraform_name@ == terraform_name@
                            &&& n.position == position
                            &&& position == (match p.position {
                                Some(q) => q,
                                None => auto_position_spec(node_count_of(pre.registry, label)),
                            })
                            &&& new_node_ok(p, pre.catalog.types@, p.type_id->0@, n, position)
                            &&& (exists|nm: Node|
                                node_eqv(nm, n) && #[trigger] mirror_node_added(
                                    pre.registry,
                                    post.registry,
                                    label,
                                    nm,
                                ))
                        },
                        _ => false,
                    })
                },
                _ => false,
            })
        },
        Err(_) => false,
    }
}

/// Adds a resource to the addressed window: validates the type against the
/// catalog (with fuzzy suggestions on an unknown type), checks the optional
/// parent and the containment rule, generates a globally unique instance id
/// and a resource name, positions the node, splits the incoming properties
/// into plain and reference maps, pushes the mutation event and appends the
/// node to the mirror.
pub fn add_resource(state: &mut BridgeState, p: &Params) -> (r: Result<
    (CmdResult, UiEvent),
    BridgeError,
>)
    requires
        p.wf(),
    ensures
        match r {
            Ok((res, ev)) => add_success_ok(*old(state), *final(state), *p, res, ev),
            Err(e) => *final(state) == *old(state) && add_error_ok(*old(state), *p, e),
        },
{
    let label = match resolve_window_label(&state.registry, p.project.as_ref()) {
        Ok(l) => l,
        Err(f) => {
            let code = match f {
                ResolveFault::ProjectNotFound => ErrorCode::ProjectNotFound,
                ResolveFault::NoProject => ErrorCode::NoProject,
            };
            return Err(BridgeError::new(code, String::from_str("no window matches the request")));
        },
    };
    let type_id = match &p.type_id {
        Some(t) => t,
        None => {
            return Err(
                BridgeError::new(
                    ErrorCode::ValidationError,
                    String::from_str("typeId is required"),
                ),
            );
        },
    };
    let type_ix = crate::catalog::find_type(&state.catalog, type_id.as_str());
    if type_ix.is_none() {
        let sugg = suggestions_for(&state.catalog, type_id.as_str());
        let mut e = BridgeError::new(
            ErrorCode::NotFound,
            crate::protocol::msg2("Unknown resource type: ", type_id.as_str()),
        );
        e.details = Some(sugg);
        return Err(e);
    }
    let parent_given: Option<&String> = match &p.parent_id {
        Some(Some(pid)) => Some(pid),
        _ => None,
    };
    if let Some(pid) = parent_given {
        let wix = window_index(&state.registry, label.as_str());
        let parent_found = match wix {
            Some(i) => match &state.registry.windows[i].diagram {
                Some(d) => crate::diagram::node_exists(d, pid.as_str()),
                None => false,
            },
            None => false,
        };
        if !parent_found {
            return Err(
                BridgeError::new(
                    ErrorCode::NotFound,
                    crate::protocol::msg2("Parent node not found: ", pid.as_str()),
                ),
            );
        }
        let parent_type = match wix {
            Some(i) => match &state.registry.windows[i].diagram {
                Some(d) => crate::diagram::get_node_type(d, pid.as_str()),
                None => None,
            },
            None => None,
        };
        if let Some(pt) = parent_type {
            match validate_containment(&state.catalog, type_id.as_str(), pt.as_str()) {
                Ok(_) => {},
                Err(fault) => {
                    let mut e = BridgeError::new(
                        ErrorCode::ContainmentError,
                        containment_message(&fault, type_id.as_str(), pt.as_str()),
                    );
                    if let ContainmentFault::NotAllowed(allowed) = fault {
                        e.details = Some(allowed);
                    }
                    return Err(e);
                },
            }
        }
    }
    let instance_id = fresh_instance_id(&state.registry);
    let tf_name = generate_terraform_name(type_id.as_str());
    let wix = window_index(&state.registry, label.as_str());
    let position = match &p.position {
        Some(q) => *q,
        None => {
            let count = match wix {
                Some(i) => match &state.registry.windows[i].diagram {
                    Some(d) => d.nodes.len(),
                    None => 0,
                },
                None => 0,
            };
            auto_position(count)
        },
    };
    let empty_props: Vec<PropEntry> = Vec::new();
    let incoming: &Vec<PropEntry> = match &p.properties {
        Some(v) => v,
        None => &empty_props,
    };
    let empty_descs: Vec<PropertyDescriptor> = Vec::new();
    let descs: &Vec<PropertyDescriptor> = match type_ix {
        Some(ti) => &state.catalog.types[ti].properties,
        None => &empty_descs,
    };
    let (plain, refs) = split_properties(incoming, descs, true);
    let display_label = pick_display_label(&plain, type_id.as_str());
    let outputs: Vec<String> = match &p.enabled_outputs {
        Some(v) => clone_strings(v),
        None => Vec::new(),
    };
    let node = Node {
        id: instance_id.clone(),
        type_id: type_id.clone(),
        position,
        width: None,
        height: None,
        parent_id: match parent_given {
            Some(pid) => Some(pid.clone()),
            None => None,
        },
        contained: match parent_given {
            Some(_) => true,
            None => false,
        },
        data: NodeData {
            label: display_label,
            terraform_name: tf_name.clone(),
            properties: plain,
            references: refs,
            validation_errors: Vec::new(),
            deployment_status: String::from_str("pending"),
            enabled_outputs: outputs,
        },
    };
    let mirror_node = node.clone();
    let ghost nmg = mirror_node;
    let ghost ng = node;
    let ghost lab = label@;
    let ghost pre = *state;
    match wix {
        Some(i) => {
            let ghost pre_windows = state.registry.windows@;
            let mut entry = take_entry(&mut state.registry.windows, i);
            let ghost entry_pre = entry;
            match &mut entry.diagram {
                Some(d) => {
                    d.nodes.push(mirror_node);
                },
                None => {},
            };
            proof {
                assert(entry_with_node_added(entry_pre, entry, nmg));
            }
            put_entry(&mut state.registry.windows, i, entry);
            proof {
                assert(state.registry.windows@ =~= pre_windows.update(
                    i as int,
                    state.registry.windows@[i as int],
                ));
                assert(mirror_node_added(pre.registry, state.registry, lab, nmg));
            }
        },
        None => {
            proof {
                assert(mirror_node_added(pre.registry, state.registry, lab, nmg));
            }
        },
    }
    let ev = UiEvent::DiagramMutated { window: label, mutation: Mutation::AddNode(node) };
    let res = CmdResult::Added { instance_id, terraform_name: tf_name, position };
    proof {
        assert(node_eqv(nmg, ng));
        assert(mirror_node_added(pre.registry, state.registry, lab, nmg));
    }
    Ok((res, ev))
}

/// The display label for a new node, from its split plain properties.
fn pick_display_label(plain: &Vec<PropEntry>, type_id: &str) -> (r: String)
    ensures
        r@ == display_label_spec(type_id@, plain@),
{
    let name_val = crate::keyed::find_index(plain, "name");
    proof {
        crate::keyed::lemma_key_index(plain@, "name"@);
    }
    match name_val {
        Some(i) => match &plain[i].value {
            PropValue::Text(s) => {
                if s.as_str().unicode_len() > 0 {
                    s.clone()
                } else {
                    crate::names::get_display_name(type_id)
                }
            },
            _ => crate::names::get_display_name(type_id),
        },
        None => crate::names::get_display_name(type_id),
    }
}

/// A human-readable message for a containment rejection.
fn containment_message(f: &ContainmentFault, child: &str, parent: &str) -> (r: String) {
    match f {
        ContainmentFault::NotAContainer => crate::protocol::msg2(
            parent,
            " is not a container and cannot have children",
        ),
        ContainmentFault::NeverNestable => crate::protocol::msg2(
            child,
            " cannot be placed inside any container",
        ),
        ContainmentFault::NotAllowed(_) => {
            let mut m = crate::protocol::msg2(child, " cannot be placed inside ");
            m.append(parent);
            m
        },
    }
}


/// Resolves the addressed window or produces the owed resolution error.
fn resolve_or_err(reg: &Registry, p: &Params) -> (r: Result<String, BridgeError>)
    ensures
        match r {
            Ok(label) => resolve_spec(*reg, p.hint()) == Ok::<Seq<char>, ResolveFault>(label@),
            Err(e) => resolve_spec(*reg, p.hint()) is Err && e.code == fault_code(
                resolve_spec(*reg, p.hint())->Err_0,
            ),
        },
{
    match resolve_window_label(reg, p.project.as_ref()) {
        Ok(l) => Ok(l),
        Err(f) => {
            let code = match f {
                ResolveFault::ProjectNotFound => ErrorCode::ProjectNotFound,
                ResolveFault::NoProject => ErrorCode::NoProject,
            };
            Err(BridgeError::new(code, String::from_str("no window matches the request")))
        },
    }
}

/// The entry after its diagram mirror is replaced by the given node and
/// edge sequences; every other field is untouched.
pub open spec fn entry_diagram_updated(
    e_old: WindowEntry,
    e_new: WindowEntry,
    nodes_new: Seq<Node>,
    edges_new: Seq<crate::model::Edge>,
) -> bool {
    &&& e_new.label == e_old.label
    &&& e_new.project_name == e_old.project_name
    &&& e_new.project_path == e_old.project_path
    &&& e_new.artifacts == e_old.artifacts
    &&& e_new.diagram is Some
    &&& e_new.diagram->0.nodes@ == nodes_new
    &&& e_new.diagram->0.edges@ == edges_new
}

/// The registry after exactly one window's mirror changed to the given
/// node and edge sequences.
pub open spec fn mirror_updated(
    pre: Registry,
    post: Registry,
    label: Seq<char>,
    nodes_new: Seq<Node>,
    edges_new: Seq<crate::model::Edge>,
) -> bool {
    &&& post.last_active == pre.last_active
    &&& has_window(pre, label)
    &&& post.windows@.len() == pre.windows@.len()
    &&& (forall|j: int|
        0 <= j < pre.windows@.len() && j != key_index(pre.windows@, label)
            ==> post.windows@[j] == pre.windows@[j])
    &&& entry_diagram_updated(
        pre.windows@[key_index(pre.windows@, label)],
        post.windows@[key_index(pre.windows@, label)],
        nodes_new,
        edges_new,
    )
}

/// The node the addressed window's mirror holds under this id, if any.
pub open spec fn mirror_node(pre: BridgeState, label: Seq<char>, iid: Seq<char>) -> Option<Node> {
    match diagram_of(pre.registry, label) {
        Some(d) => crate::diagram::node_lookup(d.nodes@, iid),
        None => None,
    }
}

/// Fields of a node untouched by a data-block update.
pub open spec fn node_shell_same(a: Node, b: Node) -> bool {
    &&& b.id == a.id
    &&& b.type_id == a.type_id
    &&& b.position == a.position
    &&& b.width == a.width
    &&& b.height == a.height
    &&& b.parent_id == a.parent_id
    &&& b.contained == a.contained
}

/// The node after a property update: plain updates merged by upsert,
/// reference updates merged with null deleting, and the label following
/// the merged `name` when plain properties were updated and the merged
/// name is a non-empty string.
pub open spec fn node_props_updated(
    n_old: Node,
    n_new: Node,
    plain_upd: Seq<PropEntry>,
    refs_upd: Seq<PropEntry>,
) -> bool {
    &&& node_shell_same(n_old, n_new)
    &&& n_new.data.terraform_name == n_old.data.terraform_name
    &&& n_new.data.validation_errors == n_old.data.validation_errors
    &&& n_new.data.deployment_status == n_old.data.deployment_status
    &&& n_new.data.enabled_outputs == n_old.data.enabled_outputs
    &&& (forall|k: Seq<char>|
        #[trigger] crate::model::prop_value_of(n_new.data.properties@, k) == crate::model::merged_plain(
            n_old.data.properties@,
            plain_upd,
            k,
        ))
    &&& (forall|k: Seq<char>|
        #[trigger] crate::model::prop_value_of(n_new.data.references@, k) == crate::model::merged_refs(
            n_old.data.references@,
            refs_upd,
            k,
        ))
    &&& n_new.data.label@ == (match label_after_update(n_old, n_new, plain_upd) {
        Some(l) => l,
        None => n_old.data.label@,
    })
}

/// The new display label an update implies, if any: when plain properties
/// were updated and the merged `name` is a non-empty string.
pub open spec fn label_after_update(n_old: Node, n_new: Node, plain_upd: Seq<PropEntry>) -> Option<
    Seq<char>,
> {
    if plain_upd.len() > 0 {
        match crate::model::prop_value_of(n_new.data.properties@, "name"@) {
            Some(PropValue::Text(s)) => if s@.len() > 0 {
                Some(s@)
            } else {
                None
            },
            _ => None,
        }
    } else {
        None
    }
}

/// Why `update_resource` failed, with the exact error code owed.
pub open spec fn update_error_ok(pre: BridgeState, p: Params, e: BridgeError) -> bool {
    match resolve_spec(pre.registry, p.hint()) {
        Err(f) => e.code == fault_code(f),
        Ok(label) => if p.instance_id is None {
            e.code == ErrorCode::ValidationError
        } else if p.properties is None {
            e.code == ErrorCode::ValidationError
        } else if mirror_node(pre, label, p.instance_id->0@) is None {
            e.code == ErrorCode::NotFound
        } else {
            false
        },
    }
}

/// What a successful `update_resource` must have done.
pub open spec fn update_success_ok(
    pre: BridgeState,
    post: BridgeState,
    p: Params,
    res: CmdResult,
    ev: UiEvent,
) -> bool {
    match resolve_spec(pre.registry, p.hint()) {
        Ok(label) => {
            &&& p.instance_id is Some
            &&& p.properties is Some
            &&& post.catalog == pre.catalog
            &&& match mirror_node(pre, label, p.instance_id->0@) {
                Some(n_old) => {
                    let d = diagram_of(pre.registry, label)->0;
                    let k = key_index(d.nodes@, p.instance_id->0@);
                    let descs = descs_of(pre.catalog.types@, n_old.type_id@);
                    let plain_upd = plain_part(p.properties->0@, descs);
                    let refs_upd = crate::props::ref_part(p.properties->0@, descs);
                    &&& res is Ack
                    &&& (match ev {
                        UiEvent::DiagramMutated { window, mutation } => {
                            &&& window@ == label
                            &&& (match mutation {
                                Mutation::UpdateNodeData {
                                    instance_id,
                                    properties,
                                    references,
                                    label: lbl,
                                } => {
                                    exists|n_new: Node|
                                        {
                                            &&& #[trigger] node_props_updated(
                                                n_old,
                                                n_new,
                                                plain_upd,
                                                refs_upd,
                                            )
                                            &&& mirror_updated(
                                                pre.registry,
                                                post.registry,
                                                label,
                                                d.nodes@.update(k, n_new),
                                                d.edges@,
                                            )
                                            &&& instance_id@ == p.instance_id->0@
                                            &&& (if plain_upd.len() > 0 {
                                                properties is Some && properties->0@
                                                    == n_new.data.properties@
                                            } else {
                                                properties is None
                                            })
                                            &&& (if refs_upd.len() > 0 {
                                                references is Some && references->0@
                                                    == n_new.data.references@
                                            } else {
                                                references is None
                                            })
                                            &&& (match label_after_update(n_old, n_new, plain_upd) {
                                                Some(l) => lbl is Some && lbl->0@ == l,
                                                None => lbl is None,
                                            })
                                        }
                                },
                                _ => false,
                            })
                        },
                        _ => false,
                    })
                },
                None => false,
            }
        },
        Err(_) => false,
    }
}

/// Updates a resource's properties: plain properties are merged by upsert,
/// reference properties are merged with null meaning deletion, and the
/// display label follows a non-empty merged `name`.
pub fn update_resource(state: &mut BridgeState, p: &Params) -> (r: Result<
    (CmdResult, UiEvent),
    BridgeError,
>)
    requires
        p.wf(),
    ensures
        match r {
            Ok((res, ev)) => update_success_ok(*old(state), *final(state), *p, res, ev),
            Err(e) => *final(state) == *old(state) && update_error_ok(*old(state), *p, e),
        },
{
    let label = match resolve_or_err(&state.registry, p) {
        Ok(l) => l,
        Err(e) => {
            return Err(e);
        },
    };
    let instance_id = match &p.instance_id {
        Some(i) => i,
        None => {
            return Err(
                BridgeError::new(
                    ErrorCode::ValidationError,
                    String::from_str("instanceId is required"),
                ),
            );
        },
    };
    let incoming = match &p.properties {
        Some(v) => v,
        None => {
            return Err(
                BridgeError::new(
                    ErrorCode::ValidationError,
                    String::from_str("properties is required"),
                ),
            );
        },
    };
    let wix = match window_index(&state.registry, label.as_str()) {
        Some(i) => i,
        None => {
            return Err(
                BridgeError::new(
                    ErrorCode::NotFound,
                    crate::protocol::msg2("Resource not found: ", instance_id.as_str()),
                ),
            );
        },
    };
    let node_ix: usize = match &state.registry.windows[wix].diagram {
        Some(d) => match crate::diagram::node_index(d, instance_id.as_str()) {
            Some(k) => k,
            None => {
                return Err(
                    BridgeError::new(
                        ErrorCode::NotFound,
                        crate::protocol::msg2("Resource not found: ", instance_id.as_str()),
                    ),
                );
            },
        },
        None => {
            return Err(
                BridgeError::new(
                    ErrorCode::NotFound,
                    crate::protocol::msg2("Resource not found: ", instance_id.as_str()),
                ),
            );
        },
    };
    let node_type = match &state.registry.windows[wix].diagram {
        Some(d) => d.nodes[node_ix].type_id.clone(),
        None => String::new(),
    };
    let empty_descs: Vec<PropertyDescriptor> = Vec::new();
    let descs: &Vec<PropertyDescriptor> = match crate::catalog::find_type(
        &state.catalog,
        node_type.as_str(),
    ) {
        Some(ti) => &state.catalog.types[ti].properties,
        None => &empty_descs,
    };
    let (plain_upd, refs_upd) = split_properties(incoming, descs, false);
    proof {
        crate::keyed::lemma_filter_unique_keys(
            incoming@,
            |e: PropEntry| !crate::props::is_ref_key(descs@, e.key@),
        );
        crate::keyed::lemma_filter_unique_keys(
            incoming@,
            |e: PropEntry| crate::props::is_ref_key(descs@, e.key@),
        );
    }
    let ghost pre = *state;
    let ghost pre_windows = state.registry.windows@;
    let mut entry = take_entry(&mut state.registry.windows, wix);
    let ghost entry_pre = entry;
    let mut result: Option<(CmdResult, UiEvent)> = None;
    match &mut entry.diagram {
        Some(d) => {
            let ghost nodes_pre = d.nodes@;
            let mut nd = d.nodes.remove(node_ix);
            let ghost nd_pre = nd;
            crate::props::merge_plain_into(&mut nd.data.properties, &plain_upd);
            crate::props::merge_refs_into(&mut nd.data.references, &refs_upd);
            let mut new_label: Option<String> = None;
            if plain_upd.len() > 0 {
                match crate::keyed::find_index(&nd.data.properties, "name") {
                    Some(ni) => match &nd.data.properties[ni].value {
                        PropValue::Text(sv) => {
                            if sv.as_str().unicode_len() > 0 {
                                new_label = Some(sv.clone());
                            }
                        },
                        _ => {},
                    },
                    None => {},
                }
                proof {
                    crate::keyed::lemma_key_index(nd.data.properties@, "name"@);
                }
            }
            match &new_label {
                Some(l) => {
                    nd.data.label = l.clone();
                },
                None => {},
            }
            let ghost nd_new = nd;
            let ev_props: Option<Vec<PropEntry>> = if plain_upd.len() > 0 {
                Some(crate::model::clone_props(&nd.data.properties))
            } else {
                None
            };
            let ev_refs: Option<Vec<PropEntry>> = if refs_upd.len() > 0 {
                Some(crate::model::clone_props(&nd.data.references))
            } else {
                None
            };
            d.nodes.insert(node_ix, nd);
            proof {
                assert(d.nodes@ =~= nodes_pre.update(node_ix as int, nd_new));
                assert(node_props_updated(nd_pre, nd_new, plain_upd@, refs_upd@));
            }
            let mutation = Mutation::UpdateNodeData {
                instance_id: instance_id.clone(),
                properties: ev_props,
                references: ev_refs,
                label: new_label,
            };
            result = Some(
                (CmdResult::Ack, UiEvent::DiagramMutated { window: label.clone(), mutation }),
            );
        },
        None => {},
    }
    put_entry(&mut state.registry.windows, wix, entry);
    proof {
        assert(state.registry.windows@ =~= pre_windows.update(
            wix as int,
            state.registry.windows@[wix as int],
        ));
    }
    match result {
        Some(r) => Ok(r),
        None => Err(
            BridgeError::new(
                ErrorCode::InternalError,
                String::from_str("mirror changed during update"),
            ),
        ),
    }
}


/// The deterministic edge id: `e-{source}-{sourceHandle}-{target}`.
pub open spec fn edge_id_spec(src: Seq<char>, sh: Seq<char>, tgt: Seq<char>) -> Seq<char> {
    "e-"@ + src + "-"@ + sh + "-"@ + tgt
}

/// Why `remove_resource` failed, with the exact error code owed.
pub open spec fn remove_error_ok(pre: BridgeState, p: Params, e: BridgeError) -> bool {
    match resolve_spec(pre.registry, p.hint()) {
        Err(f) => e.code == fault_code(f),
        Ok(label) => if p.instance_id is None {
            e.code == ErrorCode::ValidationError
        } else if mirror_node(pre, label, p.instance_id->0@) is None {
            e.code == ErrorCode::NotFound
        } else {
            false
        },
    }
}

/// What a successful `remove_resource` must have done: removed the node,
/// every transitive descendant via parent links, and every edge touching
/// any removed id, and pushed the remove event.
pub open spec fn remove_success_ok(
    pre: BridgeState,
    post: BridgeState,
    p: Params,
    res: CmdResult,
    ev: UiEvent,
) -> bool {
    match resolve_spec(pre.registry, p.hint()) {
        Ok(label) => {
            &&& p.instance_id is Some
            &&& mirror_node(pre, label, p.instance_id->0@) is Some
            &&& post.catalog == pre.catalog
            &&& res is Ack
            &&& (match ev {
                UiEvent::DiagramMutated { window, mutation } => {
                    &&& window@ == label
                    &&& (match mutation {
                        Mutation::RemoveNode { instance_id } => {
                            let d = diagram_of(pre.registry, label)->0;
                            &&& instance_id@ == p.instance_id->0@
                            &&& (exists|ids: Seq<Seq<char>>|
                                {
                                    &&& #[trigger] crate::diagram::removal_set_ok(
                                        d.nodes@,
                                        instance_id@,
                                        ids,
                                    )
                                    &&& mirror_updated(
                                        pre.registry,
                                        post.registry,
                                        label,
                                        d.nodes@.filter(|n: Node| !ids.contains(n.id@)),
                                        d.edges@.filter(
                                            |ed: crate::model::Edge|
                                                !ids.contains(ed.source@) && !ids.contains(
                                                    ed.target@,
                                                ),
                                        ),
                                    )
                                })
                        },
                        _ => false,
                    })
                },
                _ => false,
            })
        },
        Err(_) => false,
    }
}

/// Removes a resource, cascading to every transitive descendant via parent
/// links and dropping every edge that touches a removed id.
#[verifier::rlimit(50)]
pub fn remove_resource(state: &mut BridgeState, p: &Params) -> (r: Result<
    (CmdResult, UiEvent),
    BridgeError,
>)
    ensures
        match r {
            Ok((res, ev)) => remove_success_ok(*old(state), *final(state), *p, res, ev),
            Err(e) => *final(state) == *old(state) && remove_error_ok(*old(state), *p, e),
        },
{
    let label = match resolve_or_err(&state.registry, p) {
        Ok(l) => l,
        Err(e) => {
            return Err(e);
        },
    };
    let instance_id = match &p.instance_id {
        Some(i) => i,
        None => {
            return Err(
                BridgeError::new(
                    ErrorCode::ValidationError,
                    String::from_str("instanceId is required"),
                ),
            );
        },
    };
    let wix = match window_index(&state.registry, label.as_str()) {
        Some(i) => i,
        None => {
            return Err(
                BridgeError::new(
                    ErrorCode::NotFound,
                    crate::protocol::msg2("Resource not found: ", instance_id.as_str()),
                ),
            );
        },
    };
    let found = match &state.registry.windows[wix].diagram {
        Some(d) => crate::diagram::node_exists(d, instance_id.as_str()),
        None => false,
    };
    if !found {
        return Err(
            BridgeError::new(
                ErrorCode::NotFound,
                crate::protocol::msg2("Resource not found: ", instance_id.as_str()),
            ),
        );
    }
    let ids = match &state.registry.windows[wix].diagram {
        Some(d) => crate::diagram::compute_removal_set(&d.nodes, instance_id.as_str()),
        None => Vec::new(),
    };
    let ghost pre = *state;
    let ghost pre_windows = state.registry.windows@;
    let mut entry = take_entry(&mut state.registry.windows, wix);
    match &mut entry.diagram {
        Some(d) => {
            crate::diagram::retain_nodes_not_in(d, &ids);
            crate::diagram::retain_edges_not_touching(d, &ids);
        },
        None => {},
    }
    put_entry(&mut state.registry.windows, wix, entry);
    proof {
        assert(state.registry.windows@ =~= pre_windows.update(
            wix as int,
            state.registry.windows@[wix as int],
        ));
    }
    let ev = UiEvent::DiagramMutated {
        window: label,
        mutation: Mutation::RemoveNode { instance_id: instance_id.clone() },
    };
    proof {
        let w = string_views(ids@);
        let d = diagram_of(pre.registry, label@)->0;
        assert(crate::diagram::removal_set_ok(d.nodes@, instance_id@, w));
        assert(mirror_updated(
            pre.registry,
            state.registry,
            label@,
            d.nodes@.filter(|n: Node| !w.contains(n.id@)),
            d.edges@.filter(
                |ed: crate::model::Edge| !w.contains(ed.source@) && !w.contains(ed.target@),
            ),
        ));
        assert(remove_success_ok(pre, *state, *p, CmdResult::Ack, ev));
    }
    Ok((CmdResult::Ack, ev))
}

/// Why `connect_resources` failed, with the exact error code owed.
pub open spec fn connect_error_ok(pre: BridgeState, p: Params, e: BridgeError) -> bool {
    match resolve_spec(pre.registry, p.hint()) {
        Err(f) => e.code == fault_code(f),
        Ok(label) => if p.source_instance_id is None {
            e.code == ErrorCode::ValidationError
        } else if p.source_handle is None {
            e.code == ErrorCode::ValidationError
        } else if p.target_instance_id is None {
            e.code == ErrorCode::ValidationError
        } else if p.target_handle is None {
            e.code == ErrorCode::ValidationError
        } else if mirror_node(pre, label, p.source_instance_id->0@) is None {
            e.code == ErrorCode::NotFound
        } else if mirror_node(pre, label, p.target_instance_id->0@) is None {
            e.code == ErrorCode::NotFound
        } else {
            false
        },
    }
}

/// What a successful `connect_resources` must have done: both endpoints
/// exist, the edge id is deterministic, the edge was pushed to the mirror
/// and the add-edge event produced.
pub open spec fn connect_success_ok(
    pre: BridgeState,
    post: BridgeState,
    p: Params,
    res: CmdResult,
    ev: UiEvent,
) -> bool {
    match resolve_spec(pre.registry, p.hint()) {
        Ok(label) => {
            &&& p.source_instance_id is Some
            &&& p.source_handle is Some
            &&& p.target_instance_id is Some
            &&& p.target_handle is Some
            &&& mirror_node(pre, label, p.source_instance_id->0@) is Some
            &&& mirror_node(pre, label, p.target_instance_id->0@) is Some
            &&& post.catalog == pre.catalog
            &&& (match (res, ev) {
                (CmdResult::EdgeAdded { edge_id }, UiEvent::DiagramMutated { window, mutation }) => {
                    &&& window@ == label
                    &&& edge_id@ == edge_id_spec(
                        p.source_instance_id->0@,
                        p.source_handle->0@,
                        p.target_instance_id->0@,
                    )
                    &&& (match mutation {
                        Mutation::AddEdge(edge) => {
                            let d = diagram_of(pre.registry, label)->0;
                            &&& edge.id@ == edge_id@
                            &&& edge.source@ == p.source_instance_id->0@
                            &&& edge.target@ == p.target_instance_id->0@
                            &&& edge.source_handle@ == p.source_handle->0@
                            &&& edge.target_handle@ == p.target_handle->0@
                            &&& edge.category@ == "structural"@
                            &&& mirror_updated(
                                pre.registry,
                                post.registry,
                                label,
                                d.nodes@,
                                d.edges@.push(edge),
                            )
                        },
                        _ => false,
                    })
                },
                _ => false,
            })
        },
        Err(_) => false,
    }
}

/// Connects two resources with a deterministic edge id.
pub fn connect_resources(state: &mut BridgeState, p: &Params) -> (r: Result<
    (CmdResult, UiEvent),
    BridgeError,
>)
    ensures
        match r {
            Ok((res, ev)) => connect_success_ok(*old(state), *final(state), *p, res, ev),
            Err(e) => *final(state) == *old(state) && connect_error_ok(*old(state), *p, e),
        },
{
    let label = match resolve_or_err(&state.registry, p) {
        Ok(l) => l,
        Err(e) => {
            return Err(e);
        },
    };
    let source_id = match &p.source_instance_id {
        Some(v) => v,
        None => {
            return Err(
                BridgeError::new(
                    ErrorCode::ValidationError,
                    String::from_str("sourceInstanceId is required"),
                ),
            );
        },
    };
    let source_handle = match &p.source_handle {
        Some(v) => v,
        None => {
            return Err(
                BridgeError::new(
                    ErrorCode::ValidationError,
                    String::from_str("sourceHandle is required"),
                ),
            );
        },
    };
    let target_id = match &p.target_instance_id {
        Some(v) => v,
        None => {
            return Err(
                BridgeError::new(
                    ErrorCode::ValidationError,
                    String::from_str("targetInstanceId is required"),
                ),
            );
        },
    };
    let target_handle = match &p.target_handle {
        Some(v) => v,
        None => {
            return Err(
                BridgeError::new(
                    ErrorCode::ValidationError,
                    String::from_str("targetHandle is required"),
                ),
            );
        },
    };
    let wix = match window_index(&state.registry, label.as_str()) {
        Some(i) => i,
        None => {
            return Err(
                BridgeError::new(
                    ErrorCode::NotFound,
                    crate::protocol::msg2("Source resource not found: ", source_id.as_str()),
                ),
            );
        },
    };
    let src_found = match &state.registry.windows[wix].diagram {
        Some(d) => crate::diagram::node_exists(d, source_id.as_str()),
        None => false,
    };
    if !src_found {
        return Err(
            BridgeError::new(
                ErrorCode::NotFound,
                crate::protocol::msg2("Source resource not found: ", source_id.as_str()),
            ),
        );
    }
    let tgt_found = match &state.registry.windows[wix].diagram {
        Some(d) => crate::diagram::node_exists(d, target_id.as_str()),
        None => false,
    };
    if !tgt_found {
        return Err(
            BridgeError::new(
                ErrorCode::NotFound,
                crate::protocol::msg2("Target resource not found: ", target_id.as_str()),
            ),
        );
    }
    let mut edge_id = String::from_str("e-");
    edge_id.append(source_id.as_str());
    edge_id.append("-");
    edge_id.append(source_handle.as_str());
    edge_id.append("-");
    edge_id.append(target_id.as_str());
    let edge = crate::model::Edge {
        id: edge_id.clone(),
        source: source_id.clone(),
        target: target_id.clone(),
        source_handle: source_handle.clone(),
        target_handle: target_handle.clone(),
        category: String::from_str("structural"),
    };
    let mirror_edge = edge.clone();
    let ghost pre = *state;
    let ghost pre_windows = state.registry.windows@;
    let mut entry = take_entry(&mut state.registry.windows, wix);
    match &mut entry.diagram {
        Some(d) => {
            d.edges.push(mirror_edge);
        },
        None => {},
    }
    put_entry(&mut state.registry.windows, wix, entry);
    proof {
        assert(state.registry.windows@ =~= pre_windows.update(
            wix as int,
            state.registry.windows@[wix as int],
        ));
    }
    let ev = UiEvent::DiagramMutated { window: label, mutation: Mutation::AddEdge(edge) };
    Ok((CmdResult::EdgeAdded { edge_id }, ev))
}

/// Why `disconnect_resources` failed, with the exact error code owed.
pub open spec fn disconnect_error_ok(pre: BridgeState, p: Params, e: BridgeError) -> bool {
    match resolve_spec(pre.registry, p.hint()) {
        Err(f) => e.code == fault_code(f),
        Ok(label) => if p.edge_id is None {
            e.code == ErrorCode::ValidationError
        } else if !(match diagram_of(pre.registry, label) {
            Some(d) => crate::diagram::has_edge(d.edges@, p.edge_id->0@),
            None => false,
        }) {
            e.code == ErrorCode::NotFound
        } else {
            false
        },
    }
}

/// What a successful `disconnect_resources` must have done.
pub open spec fn disconnect_success_ok(
    pre: BridgeState,
    post: BridgeState,
    p: Params,
    res: CmdResult,
    ev: UiEvent,
) -> bool {
    match resolve_spec(pre.registry, p.hint()) {
        Ok(label) => {
            &&& p.edge_id is Some
            &&& (match diagram_of(pre.registry, label) {
                Some(d) => crate::diagram::has_edge(d.edges@, p.edge_id->0@),
                None => false,
            })
            &&& post.catalog == pre.catalog
            &&& res is Ack
            &&& (match ev {
                UiEvent::DiagramMutated { window, mutation } => {
                    &&& window@ == label
                    &&& (match mutation {
                        Mutation::RemoveEdge { edge_id } => {
                            let d = diagram_of(pre.registry, label)->0;
                            &&& edge_id@ == p.edge_id->0@
                            &&& mirror_updated(
                                pre.registry,
                                post.registry,
                                label,
                                d.nodes@,
                                d.edges@.filter(
                                    |ed: crate::model::Edge| ed.id@ != p.edge_id->0@,
                                ),
                            )
                        },
                        _ => false,
                    })
                },
                _ => false,
            })
        },
        Err(_) => false,
    }
}

/// Disconnects an edge by id.
pub fn disconnect_resources(state: &mut BridgeState, p: &Params) -> (r: Result<
    (CmdResult, UiEvent),
    BridgeError,
>)
    ensures
        match r {
            Ok((res, ev)) => disconnect_success_ok(*old(state), *final(state), *p, res, ev),
            Err(e) => *final(state) == *old(state) && disconnect_error_ok(*old(state), *p, e),
        },
{
    let label = match resolve_or_err(&state.registry, p) {
        Ok(l) => l,
        Err(e) => {
            return Err(e);
        },
    };
    let edge_id = match &p.edge_id {
        Some(v) => v,
        None => {
            return Err(
                BridgeError::new(
                    ErrorCode::ValidationError,
                    String::from_str("edgeId is required"),
                ),
            );
        },
    };
    let wix = match window_index(&state.registry, label.as_str()) {
        Some(i) => i,
        None => {
            return Err(
                BridgeError::new(
                    ErrorCode::NotFound,
                    crate::protocol::msg2("Edge not found: ", edge_id.as_str()),
                ),
            );
        },
    };
    let found = match &state.registry.windows[wix].diagram {
        Some(d) => crate::diagram::edge_exists(d, edge_id.as_str()),
        None => false,
    };
    if !found {
        return Err(
            BridgeError::new(
                ErrorCode::NotFound,
                crate::protocol::msg2("Edge not found: ", edge_id.as_str()),
            ),
        );
    }
    let ghost pre = *state;
    let ghost pre_windows = state.registry.windows@;
    let mut entry = take_entry(&mut state.registry.windows, wix);
    match &mut entry.diagram {
        Some(d) => {
            crate::diagram::remove_edge_by_id(d, edge_id.as_str());
        },
        None => {},
    }
    put_entry(&mut state.registry.windows, wix, entry);
    proof {
        assert(state.registry.windows@ =~= pre_windows.update(
            wix as int,
            state.registry.windows@[wix as int],
        ));
    }
    let ev = UiEvent::DiagramMutated {
        window: label,
        mutation: Mutation::RemoveEdge { edge_id: edge_id.clone() },
    };
    Ok((CmdResult::Ack, ev))
}


/// Why `set_enabled_outputs` failed, with the exact error code owed.
pub open spec fn outputs_error_ok(pre: BridgeState, p: Params, e: BridgeError) -> bool {
    match resolve_spec(pre.registry, p.hint()) {
        Err(f) => e.code == fault_code(f),
        Ok(label) => if p.instance_id is None {
            e.code == ErrorCode::ValidationError
        } else if p.enabled_outputs is None {
            e.code == ErrorCode::ValidationError
        } else if mirror_node(pre, label, p.instance_id->0@) is None {
            e.code == ErrorCode::NotFound
        } else {
            false
        },
    }
}

/// The node after only its enabled-outputs list changed.
pub open spec fn node_outputs_set(n_old: Node, n_new: Node, outputs: Seq<String>) -> bool {
    &&& node_shell_same(n_old, n_new)
    &&& n_new.data.label == n_old.data.label
    &&& n_new.data.terraform_name == n_old.data.terraform_name
    &&& n_new.data.properties == n_old.data.properties
    &&& n_new.data.references == n_old.data.references
    &&& n_new.data.validation_errors == n_old.data.validation_errors
    &&& n_new.data.deployment_status == n_old.data.deployment_status
    &&& n_new.data.enabled_outputs@ == outputs
}

/// What a successful `set_enabled_outputs` must have done.
pub open spec fn outputs_success_ok(
    pre: BridgeState,
    post: BridgeState,
    p: Params,
    res: CmdResult,
    ev: UiEvent,
) -> bool {
    match resolve_spec(pre.registry, p.hint()) {
        Ok(label) => {
            &&& p.instance_id is Some
            &&& p.enabled_outputs is Some
            &&& post.catalog == pre.catalog
            &&& res is Ack
            &&& (match mirror_node(pre, label, p.instance_id->0@) {
                Some(n_old) => {
                    let d = diagram_of(pre.registry, label)->0;
                    let k = key_index(d.nodes@, p.instance_id->0@);
                    match ev {
                        UiEvent::DiagramMutated { window, mutation } => {
                            &&& window@ == label
                            &&& (match mutation {
                                Mutation::SetEnabledOutputs { instance_id, enabled_outputs } => {
                                    &&& instance_id@ == p.instance_id->0@
                                    &&& enabled_outputs@ == p.enabled_outputs->0@
                                    &&& (exists|n_new: Node|
                                        #[trigger] node_outputs_set(
                                            n_old,
                                            n_new,
                                            p.enabled_outputs->0@,
                                        ) && mirror_updated(
                                            pre.registry,
                                            post.registry,
                                            label,
                                            d.nodes@.update(k, n_new),
                                            d.edges@,
                                        ))
                                },
                                _ => false,
                            })
                        },
                        _ => false,
                    }
                },
                None => false,
            })
        },
        Err(_) => false,
    }
}

/// Replaces a resource's enabled-outputs list.
pub fn set_enabled_outputs(state: &mut BridgeState, p: &Params) -> (r: Result<
    (CmdResult, UiEvent),
    BridgeError,
>)
    ensures
        match r {
            Ok((res, ev)) => outputs_success_ok(*old(state), *final(state), *p, res, ev),
            Err(e) => *final(state) == *old(state) && outputs_error_ok(*old(state), *p, e),
        },
{
    let label = match resolve_or_err(&state.registry, p) {
        Ok(l) => l,
        Err(e) => {
            return Err(e);
        },
    };
    let instance_id = match &p.instance_id {
        Some(i) => i,
        None => {
            return Err(
                BridgeError::new(
                    ErrorCode::ValidationError,
                    String::from_str("instanceId is required"),
                ),
            );
        },
    };
    let outputs = match &p.enabled_outputs {
        Some(v) => v,
        None => {
            return Err(
                BridgeError::new(
                    ErrorCode::ValidationError,
                    String::from_str("enabledOutputs is required"),
                ),
            );
        },
    };
    let wix = match window_index(&state.registry, label.as_str()) {
        Some(i) => i,
        None => {
            return Err(
                BridgeError::new(
                    ErrorCode::NotFound,
                    crate::protocol::msg2("Resource not found: ", instance_id.as_str()),
                ),
            );
        },
    };
    let node_ix: usize = match &state.registry.windows[wix].diagram {
        Some(d) => match crate::diagram::node_index(d, instance_id.as_str()) {
            Some(k) => k,
            None => {
                return Err(
                    BridgeError::new(
                        ErrorCode::NotFound,
                        crate::protocol::msg2("Resource not found: ", instance_id.as_str()),
                    ),
                );
            },
        },
        None => {
            return Err(
                BridgeError::new(
                    ErrorCode::NotFound,
                    crate::protocol::msg2("Resource not found: ", instance_id.as_str()),
                ),
            );
        },
    };
    let ghost pre = *state;
    let ghost pre_windows = state.registry.windows@;
    let mut entry = take_entry(&mut state.registry.windows, wix);
    let ghost mut n_new_g: Node = arbitrary();
    match &mut entry.diagram {
        Some(d) => {
            let ghost nodes_pre = d.nodes@;
            let mut nd = d.nodes.remove(node_ix);
            nd.data.enabled_outputs = clone_strings(outputs);
            proof {
                n_new_g = nd;
            }
            d.nodes.insert(node_ix, nd);
            proof {
                assert(d.nodes@ =~= nodes_pre.update(node_ix as int, n_new_g));
            }
        },
        None => {},
    }
    put_entry(&mut state.registry.windows, wix, entry);
    proof {
        assert(state.registry.windows@ =~= pre_windows.update(
            wix as int,
            state.registry.windows@[wix as int],
        ));
    }
    let ev = UiEvent::DiagramMutated {
        window: label,
        mutation: Mutation::SetEnabledOutputs {
            instance_id: instance_id.clone(),
            enabled_outputs: clone_strings(outputs),
        },
    };
    proof {
        let d = diagram_of(pre.registry, label@)->0;
        let k = key_index(d.nodes@, instance_id@);
        assert(node_outputs_set(d.nodes@[k], n_new_g, p.enabled_outputs->0@));
        assert(mirror_updated(
            pre.registry,
            state.registry,
            label@,
            d.nodes@.update(k, n_new_g),
            d.edges@,
        ));
    }
    Ok((CmdResult::Ack, ev))
}

/// Why `resize_resource` failed, with the exact error code owed.
pub open spec fn resize_error_ok(pre: BridgeState, p: Params, e: BridgeError) -> bool {
    match resolve_spec(pre.registry, p.hint()) {
        Err(f) => e.code == fault_code(f),
        Ok(label) => if p.instance_id is None {
            e.code == ErrorCode::ValidationError
        } else if p.width is None {
            e.code == ErrorCode::ValidationError
        } else if p.height is None {
            e.code == ErrorCode::ValidationError
        } else if mirror_node(pre, label, p.instance_id->0@) is None {
            e.code == ErrorCode::NotFound
        } else {
            false
        },
    }
}

/// The node after only its width and height changed.
pub open spec fn node_resized(n_old: Node, n_new: Node, w: i64, h: i64) -> bool {
    &&& n_new.id == n_old.id
    &&& n_new.type_id == n_old.type_id
    &&& n_new.position == n_old.position
    &&& n_new.width == Some(w)
    &&& n_new.height == Some(h)
    &&& n_new.parent_id == n_old.parent_id
    &&& n_new.contained == n_old.contained
    &&& n_new.data == n_old.data
}

/// What a successful `resize_resource` must have done.
pub open spec fn resize_success_ok(
    pre: BridgeState,
    post: BridgeState,
    p: Params,
    res: CmdResult,
    ev: UiEvent,
) -> bool {
    match resolve_spec(pre.registry, p.hint()) {
        Ok(label) => {
            &&& p.instance_id is Some
            &&& p.width is Some
            &&& p.height is Some
            &&& post.catalog == pre.catalog
            &&& res is Ack
            &&& (match mirror_node(pre, label, p.instance_id->0@) {
                Some(n_old) => {
                    let d = diagram_of(pre.registry, label)->0;
                    let k = key_index(d.nodes@, p.instance_id->0@);
                    match ev {
                        UiEvent::DiagramMutated { window, mutation } => {
                            &&& window@ == label
                            &&& (match mutation {
                                Mutation::ResizeNode { instance_id, width, height } => {
                                    &&& instance_id@ == p.instance_id->0@
                                    &&& width == p.width->0
                                    &&& height == p.height->0
                                    &&& (exists|n_new: Node|
                                        #[trigger] node_resized(
                                            n_old,
                                            n_new,
                                            p.width->0,
                                            p.height->0,
                                        ) && mirror_updated(
                                            pre.registry,
                                            post.registry,
                                            label,
                                            d.nodes@.update(k, n_new),
                                            d.edges@,
                                        ))
                                },
                                _ => false,
                            })
                        },
                        _ => false,
                    }
                },
                None => false,
            })
        },
        Err(_) => false,
    }
}

/// Resizes a resource.
pub fn resize_resource(state: &mut BridgeState, p: &Params) -> (r: Result<
    (CmdResult, UiEvent),
    BridgeError,
>)
    ensures
        match r {
            Ok((res, ev)) => resize_success_ok(*old(state), *final(state), *p, res, ev),
            Err(e) => *final(state) == *old(state) && resize_error_ok(*old(state), *p, e),
        },
{
    let label = match resolve_or_err(&state.registry, p) {
        Ok(l) => l,
        Err(e) => {
            return Err(e);
        },
    };
    let instance_id = match &p.instance_id {
        Some(i) => i,
        None => {
            return Err(
                BridgeError::new(
                    ErrorCode::ValidationError,
                    String::from_str("instanceId is required"),
                ),
            );
        },
    };
    let width = match &p.width {
        Some(w) => *w,
        None => {
            return Err(
                BridgeError::new(
                    ErrorCode::ValidationError,
                    String::from_str("width is required"),
                ),
            );
        },
    };
    let height = match &p.height {
        Some(h) => *h,
        None => {
            return Err(
                BridgeError::new(
                    ErrorCode::ValidationError,
                    String::from_str("height is required"),
                ),
            );
        },
    };
    let wix = match window_index(&state.registry, label.as_str()) {
        Some(i) => i,
        None => {
            return Err(
                BridgeError::new(
                    ErrorCode::NotFound,
                    crate::protocol::msg2("Resource not found: ", instance_id.as_str()),
                ),
            );
        },
    };
    let node_ix: usize = match &state.registry.windows[wix].diagram {
        Some(d) => match crate::diagram::node_index(d, instance_id.as_str()) {
            Some(k) => k,
            None => {
                return Err(
                    BridgeError::new(
                        ErrorCode::NotFound,
                        crate::protocol::msg2("Resource not found: ", instance_id.as_str()),
                    ),
                );
            },
        },
        None => {
            return Err(
                BridgeError::new(
                    ErrorCode::NotFound,
                    crate::protocol::msg2("Resource not found: ", instance_id.as_str()),
                ),
            );
        },
    };
    let ghost pre = *state;
    let ghost pre_windows = state.registry.windows@;
    let mut entry = take_entry(&mut state.registry.windows, wix);
    let ghost mut n_new_g: Node = arbitrary();
    match &mut entry.diagram {
        Some(d) => {
            let ghost nodes_pre = d.nodes@;
            let mut nd = d.nodes.remove(node_ix);
            nd.width = Some(width);
            nd.height = Some(height);
            proof {
                n_new_g = nd;
            }
            d.nodes.insert(node_ix, nd);
            proof {
                assert(d.nodes@ =~= nodes_pre.update(node_ix as int, n_new_g));
            }
        },
        None => {},
    }
    put_entry(&mut state.registry.windows, wix, entry);
    proof {
        assert(state.registry.windows@ =~= pre_windows.update(
            wix as int,
            state.registry.windows@[wix as int],
        ));
    }
    let ev = UiEvent::DiagramMutated {
        window: label,
        mutation: Mutation::ResizeNode { instance_id: instance_id.clone(), width, height },
    };
    proof {
        let d = diagram_of(pre.registry, label@)->0;
        let k = key_index(d.nodes@, instance_id@);
        assert(node_resized(d.nodes@[k], n_new_g, width, height));
        assert(mirror_updated(
            pre.registry,
            state.registry,
            label@,
            d.nodes@.update(k, n_new_g),
            d.edges@,
        ));
    }
    Ok((CmdResult::Ack, ev))
}

/// Why `move_resource` failed, with the exact error code owed. A reparent
/// request first checks the new parent's existence, then the containment
/// rule, then the moved node's existence.
pub open spec fn move_error_ok(pre: BridgeState, p: Params, e: BridgeError) -> bool {
    match resolve_spec(pre.registry, p.hint()) {
        Err(f) => e.code == fault_code(f),
        Ok(label) => if p.instance_id is None {
            e.code == ErrorCode::ValidationError
        } else if p.position is None {
            e.code == ErrorCode::ValidationError
        } else {
            let iid = p.instance_id->0@;
            match p.parent_id {
                Some(Some(np)) => {
                    if mirror_node(pre, label, np@) is None {
                        e.code == ErrorCode::NotFound
                    } else if mirror_node(pre, label, iid) is Some && !containment_ok(
                        pre.catalog.types@,
                        mirror_node(pre, label, iid)->0.type_id@,
                        mirror_node(pre, label, np@)->0.type_id@,
                    ) {
                        &&& e.code == ErrorCode::ContainmentError
                        &&& containment_details_ok(
                            pre.catalog.types@,
                            mirror_node(pre, label, iid)->0.type_id@,
                            mirror_node(pre, label, np@)->0.type_id@,
                            e,
                        )
                    } else if mirror_node(pre, label, iid) is None {
                        e.code == ErrorCode::NotFound
                    } else {
                        false
                    }
                },
                _ => {
                    if mirror_node(pre, label, iid) is None {
                        e.code == ErrorCode::NotFound
                    } else {
                        false
                    }
                },
            }
        },
    }
}

/// The node after a move (and possibly a reparent): the position changes;
/// an explicit new parent sets the parent link and the containment flag; an
/// explicit null clears both; an absent parent parameter leaves them.
pub open spec fn node_moved(
    n_old: Node,
    n_new: Node,
    pos: Position,
    reparent: Option<Option<Seq<char>>>,
) -> bool {
    &&& n_new.id == n_old.id
    &&& n_new.type_id == n_old.type_id
    &&& n_new.position == pos
    &&& n_new.width == n_old.width
    &&& n_new.height == n_old.height
    &&& n_new.data == n_old.data
    &&& (match reparent {
        None => n_new.parent_id == n_old.parent_id && n_new.contained == n_old.contained,
        Some(None) => n_new.parent_id is None && !n_new.contained,
        Some(Some(np)) => n_new.parent_id is Some && n_new.parent_id->0@ == np
            && n_new.contained,
    })
}

/// The parent parameter as view sequences.
pub open spec fn reparent_views(p: Params) -> Option<Option<Seq<char>>> {
    match p.parent_id {
        None => None,
        Some(None) => Some(None),
        Some(Some(np)) => Some(Some(np@)),
    }
}

/// What a successful `move_resource` must have done.
pub open spec fn move_success_ok(
    pre: BridgeState,
    post: BridgeState,
    p: Params,
    res: CmdResult,
    ev: UiEvent,
) -> bool {
    match resolve_spec(pre.registry, p.hint()) {
        Ok(label) => {
            &&& p.instance_id is Some
            &&& p.position is Some
            &&& post.catalog == pre.catalog
            &&& res is Ack
            &&& (match p.parent_id {
                Some(Some(np)) => mirror_node(pre, label, np@) is Some && (
                mirror_node(pre, label, p.instance_id->0@) is Some ==> containment_ok(
                    pre.catalog.types@,
                    mirror_node(pre, label, p.instance_id->0@)->0.type_id@,
                    mirror_node(pre, label, np@)->0.type_id@,
                )),
                _ => true,
            })
            &&& (match mirror_node(pre, label, p.instance_id->0@) {
                Some(n_old) => {
                    let d = diagram_of(pre.registry, label)->0;
                    let k = key_index(d.nodes@, p.instance_id->0@);
                    match ev {
                        UiEvent::DiagramMutated { window, mutation } => {
                            &&& window@ == label
                            &&& (exists|n_new: Node|
                                #[trigger] node_moved(
                                    n_old,
                                    n_new,
                                    p.position->0,
                                    reparent_views(p),
                                ) && mirror_updated(
                                    pre.registry,
                                    post.registry,
                                    label,
                                    d.nodes@.update(k, n_new),
                                    d.edges@,
                                ))
                            &&& (match mutation {
                                Mutation::MoveNode { instance_id, position } => {
                                    &&& p.parent_id is None
                                    &&& instance_id@ == p.instance_id->0@
                                    &&& position == p.position->0
                                },
                                Mutation::ReparentNode { instance_id, position, parent_id } => {
                                    &&& p.parent_id is Some
                                    &&& instance_id@ == p.instance_id->0@
                                    &&& position == p.position->0
                                    &&& (match (parent_id, p.parent_id->0) {
                                        (Some(a), Some(b)) => a@ == b@,
                                        (None, None) => true,
                                        _ => false,
                                    })
                                },
                                _ => false,
                            })
                        },
                        _ => false,
                    }
                },
                None => false,
            })
        },
        Err(_) => false,
    }
}

/// Moves a resource, optionally reparenting it (an explicit null parent
/// unparents), validating containment between the moved node's type and the
/// new parent's type.
pub fn move_resource(state: &mut BridgeState, p: &Params) -> (r: Result<
    (CmdResult, UiEvent),
    BridgeError,
>)
    ensures
        match r {
            Ok((res, ev)) => move_success_ok(*old(state), *final(state), *p, res, ev),
            Err(e) => *final(state) == *old(state) && move_error_ok(*old(state), *p, e),
        },
{
    let label = match resolve_or_err(&state.registry, p) {
        Ok(l) => l,
        Err(e) => {
            return Err(e);
        },
    };
    let instance_id = match &p.instance_id {
        Some(i) => i,
        None => {
            return Err(
                BridgeError::new(
                    ErrorCode::ValidationError,
                    String::from_str("instanceId is required"),
                ),
            );
        },
    };
    let position = match &p.position {
        Some(q) => *q,
        None => {
            return Err(
                BridgeError::new(
                    ErrorCode::ValidationError,
                    String::from_str("position is required"),
                ),
            );
        },
    };
    let wix_opt = window_index(&state.registry, label.as_str());
    match &p.parent_id {
        Some(Some(np)) => {
            let parent_found = match wix_opt {
                Some(i) => match &state.registry.windows[i].diagram {
                    Some(d) => crate::diagram::node_exists(d, np.as_str()),
                    None => false,
                },
                None => false,
            };
            if !parent_found {
                return Err(
                    BridgeError::new(
                        ErrorCode::NotFound,
                        crate::protocol::msg2("Parent node not found: ", np.as_str()),
                    ),
                );
            }
            let node_type = match wix_opt {
                Some(i) => match &state.registry.windows[i].diagram {
                    Some(d) => crate::diagram::get_node_type(d, instance_id.as_str()),
                    None => None,
                },
                None => None,
            };
            let parent_type = match wix_opt {
                Some(i) => match &state.registry.windows[i].diagram {
                    Some(d) => crate::diagram::get_node_type(d, np.as_str()),
                    None => None,
                },
                None => None,
            };
            match (node_type, parent_type) {
                (Some(nt), Some(pt)) => {
                    match validate_containment(&state.catalog, nt.as_str(), pt.as_str()) {
                        Ok(_) => {},
                        Err(fault) => {
                            let mut e = BridgeError::new(
                                ErrorCode::ContainmentError,
                                containment_message(&fault, nt.as_str(), pt.as_str()),
                            );
                            if let ContainmentFault::NotAllowed(allowed) = fault {
                                e.details = Some(allowed);
                            }
                            return Err(e);
                        },
                    }
                },
                _ => {},
            }
        },
        _ => {},
    }
    let wix = match wix_opt {
        Some(i) => i,
        None => {
            return Err(
                BridgeError::new(
                    ErrorCode::NotFound,
                    crate::protocol::msg2("Resource not found: ", instance_id.as_str()),
                ),
            );
        },
    };
    let node_ix: usize = match &state.registry.windows[wix].diagram {
        Some(d) => match crate::diagram::node_index(d, instance_id.as_str()) {
            Some(k) => k,
            None => {
                return Err(
                    BridgeError::new(
                        ErrorCode::NotFound,
                        crate::protocol::msg2("Resource not found: ", instance_id.as_str()),
                    ),
                );
            },
        },
        None => {
            return Err(
                BridgeError::new(
                    ErrorCode::NotFound,
                    crate::protocol::msg2("Resource not found: ", instance_id.as_str()),
                ),
            );
        },
    };
    let ghost pre = *state;
    let ghost pre_windows = state.registry.windows@;
    let mut entry = take_entry(&mut state.registry.windows, wix);
    let ghost mut n_new_g: Node = arbitrary();
    match &mut entry.diagram {
        Some(d) => {
            let ghost nodes_pre = d.nodes@;
            let mut nd = d.nodes.remove(node_ix);
            nd.position = position;
            match &p.parent_id {
                Some(Some(np)) => {
                    nd.parent_id = Some(np.clone());
                    nd.contained = true;
                },
                Some(None) => {
                    nd.parent_id = None;
                    nd.contained = false;
                },
                None => {},
            }
            proof {
                n_new_g = nd;
            }
            d.nodes.insert(node_ix, nd);
            proof {
                assert(d.nodes@ =~= nodes_pre.update(node_ix as int, n_new_g));
            }
        },
        None => {},
    }
    put_entry(&mut state.registry.windows, wix, entry);
    proof {
        assert(state.registry.windows@ =~= pre_windows.update(
            wix as int,
            state.registry.windows@[wix as int],
        ));
    }
    let mutation = match &p.parent_id {
        Some(opt_np) => Mutation::ReparentNode {
            instance_id: instance_id.clone(),
            position,
            parent_id: match opt_np {
                Some(np) => Some(np.clone()),
                None => None,
            },
        },
        None => Mutation::MoveNode { instance_id: instance_id.clone(), position },
    };
    let ev = UiEvent::DiagramMutated { window: label, mutation };
    proof {
        let d = diagram_of(pre.registry, label@)->0;
        let k = key_index(d.nodes@, instance_id@);
        assert(node_moved(d.nodes@[k], n_new_g, position, reparent_views(*p)));
        assert(mirror_updated(
            pre.registry,
            state.registry,
            label@,
            d.nodes@.update(k, n_new_g),
            d.edges@,
        ));
    }
    Ok((CmdResult::Ack, ev))
}

} // verus!
