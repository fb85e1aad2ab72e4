//! End-to-end scenarios against the bridge engine, dispatcher, resolver
//! and generation coordinator.

use terrastudio::catalog::ContainmentFault;
use terrastudio::dispatch::{dispatch_bridge_command, Dispatched};
use terrastudio::engine::{
    add_resource, auto_position, connect_resources, disconnect_resources, move_resource,
    remove_resource, resize_resource, set_enabled_outputs, update_resource,
};
use terrastudio::generation::{begin_generation, finish_generation, WaitOutcome};
use terrastudio::model::{
    Diagram, PropEntry, PropValue, PropertyDescriptor, ResourceTypeDescriptor,
};
use terrastudio::protocol::{CmdResult, ErrorCode, Mutation, Params, UiEvent};
use terrastudio::registry::{
    mcp_register_window, mcp_set_active_window, mcp_set_window_project, mcp_sync_diagram,
    mcp_sync_resource_types, BridgeState,
};
use terrastudio::resolver::{resolve_window_label, ResolveFault};

fn descriptor(
    type_id: &str,
    is_container: bool,
    can_be_child_of: Option<Vec<&str>>,
    reference_keys: Vec<&str>,
) -> ResourceTypeDescriptor {
    ResourceTypeDescriptor {
        type_id: type_id.to_string(),
        is_container,
        can_be_child_of: can_be_child_of
            .map(|v| v.into_iter().map(|s| s.to_string()).collect()),
        properties: reference_keys
            .into_iter()
            .map(|k| PropertyDescriptor { key: k.to_string(), is_reference: true })
            .collect(),
    }
}

fn state_with_window(label: &str) -> BridgeState {
    let mut state = BridgeState::new();
    mcp_register_window(&mut state.registry, label.to_string());
    mcp_sync_diagram(&mut state.registry, label.to_string(), Diagram::empty());
    mcp_set_active_window(&mut state.registry, label.to_string());
    state
}

fn catalog_basic() -> Vec<ResourceTypeDescriptor> {
    vec![
        descriptor("azurerm/networking/virtual_network", true, None, vec![]),
        descriptor(
            "azurerm/networking/subnet",
            true,
            Some(vec!["azurerm/networking/virtual_network"]),
            vec!["virtualNetworkId"],
        ),
        descriptor(
            "azurerm/compute/virtual_machine",
            false,
            Some(vec!["azurerm/networking/subnet"]),
            vec!["subnetId"],
        ),
    ]
}

fn add(state: &mut BridgeState, type_id: &str, parent: Option<&str>) -> (String, String) {
    let mut p = Params::empty();
    p.type_id = Some(type_id.to_string());
    p.parent_id = parent.map(|s| Some(s.to_string()));
    match add_resource(state, &p) {
        Ok((CmdResult::Added { instance_id, terraform_name, .. }, _ev)) => {
            (instance_id, terraform_name)
        }
        other => panic!("add_resource did not succeed: {:?}", other.err()),
    }
}

fn mirror(state: &BridgeState, label: &str) -> Diagram {
    for e in &state.registry.windows {
        if e.label == label {
            return e.diagram.clone().expect("window has no mirror");
        }
    }
    panic!("window not registered");
}

#[test]
fn unknown_type_gets_not_found_with_segment_suggestions() {
    let mut state = state_with_window("w1");
    mcp_sync_resource_types(&mut state, catalog_basic());
    let mut p = Params::empty();
    p.type_id = Some("azurerm/foo/bar".to_string());
    let err = add_resource(&mut state, &p).err().expect("unknown type must fail");
    assert_eq!(err.code, ErrorCode::NotFound);
    let suggestions = err.details.expect("suggestions expected");
    assert_eq!(
        suggestions,
        vec![
            "azurerm/networking/virtual_network".to_string(),
            "azurerm/networking/subnet".to_string(),
            "azurerm/compute/virtual_machine".to_string()
        ]
    );
}

#[test]
fn unknown_type_with_no_segment_match_gets_empty_suggestions() {
    let mut state = state_with_window("w1");
    mcp_sync_resource_types(&mut state, vec![descriptor("gcp/storage/bucket", false, None, vec![])]);
    let mut p = Params::empty();
    p.type_id = Some("azurerm/foo/bar".to_string());
    let err = add_resource(&mut state, &p).err().unwrap();
    assert_eq!(err.code, ErrorCode::NotFound);
    assert_eq!(err.details.unwrap(), Vec::<String>::new());
}

#[test]
fn containment_error_lists_allowed_parents() {
    let mut state = state_with_window("w1");
    mcp_sync_resource_types(
        &mut state,
        vec![
            descriptor("x", true, None, vec![]),
            descriptor("y", true, None, vec![]),
            descriptor("t", false, Some(vec!["x"]), vec![]),
        ],
    );
    let (parent_id, _) = add(&mut state, "y", None);
    let mut p = Params::empty();
    p.type_id = Some("t".to_string());
    p.parent_id = Some(Some(parent_id));
    let err = add_resource(&mut state, &p).err().expect("containment must fail");
    assert_eq!(err.code, ErrorCode::ContainmentError);
    assert_eq!(err.details.unwrap(), vec!["x".to_string()]);
}

#[test]
fn containment_rejects_type_that_can_never_be_nested() {
    let mut state = state_with_window("w1");
    mcp_sync_resource_types(
        &mut state,
        vec![descriptor("x", true, None, vec![]), descriptor("loner", false, None, vec![])],
    );
    let (parent_id, _) = add(&mut state, "x", None);
    let mut p = Params::empty();
    p.type_id = Some("loner".to_string());
    p.parent_id = Some(Some(parent_id));
    let err = add_resource(&mut state, &p).err().unwrap();
    assert_eq!(err.code, ErrorCode::ContainmentError);
    assert!(err.details.is_none());
    match terrastudio::catalog::validate_containment(&state.catalog, "loner", "x") {
        Err(ContainmentFault::NeverNestable) => {}
        other => panic!("expected NeverNestable, got {:?}", other),
    }
}

#[test]
fn add_requires_type_id() {
    let mut state = state_with_window("w1");
    let p = Params::empty();
    let err = add_resource(&mut state, &p).err().unwrap();
    assert_eq!(err.code, ErrorCode::ValidationError);
}

#[test]
fn auto_position_after_five_nodes_is_column_one_row_one() {
    let p = auto_position(5);
    assert_eq!((p.x, p.y), (350, 300));
}

#[test]
fn auto_position_grid_walks_columns_then_rows() {
    assert_eq!((auto_position(0).x, auto_position(0).y), (100, 100));
    assert_eq!((auto_position(3).x, auto_position(3).y), (850, 100));
    assert_eq!((auto_position(4).x, auto_position(4).y), (100, 300));
}

#[test]
fn added_node_splits_properties_and_derives_label() {
    let mut state = state_with_window("w1");
    mcp_sync_resource_types(&mut state, catalog_basic());
    let mut p = Params::empty();
    p.type_id = Some("azurerm/networking/subnet".to_string());
    p.properties = Some(vec![
        PropEntry { key: "cidr".to_string(), value: PropValue::Text("10.0.0.0/24".to_string()) },
        PropEntry {
            key: "virtualNetworkId".to_string(),
            value: PropValue::Text("vnet-1".to_string()),
        },
    ]);
    let (res, ev) = add_resource(&mut state, &p).expect("add must succeed");
    let node = match ev {
        UiEvent::DiagramMutated { window, mutation: Mutation::AddNode(n) } => {
            assert_eq!(window, "w1");
            n
        }
        other => panic!("unexpected event {:?}", other),
    };
    assert_eq!(node.data.label, "Subnet");
    assert_eq!(node.data.properties.len(), 1);
    assert_eq!(node.data.properties[0].key, "cidr");
    assert_eq!(node.data.references.len(), 1);
    assert_eq!(node.data.references[0].key, "virtualNetworkId");
    assert_eq!(node.data.deployment_status, "pending");
    match res {
        CmdResult::Added { terraform_name, .. } => {
            assert!(terraform_name.starts_with("subnet_"));
            assert_eq!(terraform_name.len(), "subnet".len() + 9);
        }
        other => panic!("unexpected result {:?}", other),
    }
}

#[test]
fn added_node_uses_name_property_as_label() {
    let mut state = state_with_window("w1");
    mcp_sync_resource_types(&mut state, catalog_basic());
    let mut p = Params::empty();
    p.type_id = Some("azurerm/networking/virtual_network".to_string());
    p.properties = Some(vec![PropEntry {
        key: "name".to_string(),
        value: PropValue::Text("Main VNet".to_string()),
    }]);
    let (_res, ev) = add_resource(&mut state, &p).unwrap();
    match ev {
        UiEvent::DiagramMutated { mutation: Mutation::AddNode(n), .. } => {
            assert_eq!(n.data.label, "Main VNet");
        }
        other => panic!("unexpected event {:?}", other),
    }
}

#[test]
fn concurrent_style_adds_produce_distinct_ids() {
    let mut state = state_with_window("w1");
    mcp_sync_resource_types(&mut state, catalog_basic());
    let (id1, _) = add(&mut state, "azurerm/networking/virtual_network", None);
    let (id2, _) = add(&mut state, "azurerm/networking/virtual_network", None);
    let (id3, _) = add(&mut state, "azurerm/networking/subnet", None);
    assert_ne!(id1, id2);
    assert_ne!(id1, id3);
    assert_ne!(id2, id3);
}

#[test]
fn update_merges_properties_and_null_deletes_references() {
    let mut state = state_with_window("w1");
    mcp_sync_resource_types(&mut state, catalog_basic());
    let mut p = Params::empty();
    p.type_id = Some("azurerm/networking/subnet".to_string());
    p.properties = Some(vec![
        PropEntry { key: "cidr".to_string(), value: PropValue::Text("10.0.0.0/24".to_string()) },
        PropEntry {
            key: "virtualNetworkId".to_string(),
            value: PropValue::Text("vnet-1".to_string()),
        },
    ]);
    let (res, _ev) = add_resource(&mut state, &p).unwrap();
    let id = match res {
        CmdResult::Added { instance_id, .. } => instance_id,
        _ => unreachable!(),
    };
    let mut up = Params::empty();
    up.instance_id = Some(id.clone());
    up.properties = Some(vec![
        PropEntry { key: "name".to_string(), value: PropValue::Text("front".to_string()) },
        PropEntry { key: "virtualNetworkId".to_string(), value: PropValue::Null },
    ]);
    let (_res, ev) = update_resource(&mut state, &up).expect("update must succeed");
    match ev {
        UiEvent::DiagramMutated {
            mutation: Mutation::UpdateNodeData { properties, references, label, .. },
            ..
        } => {
            let props = properties.expect("merged plain map expected");
            assert!(props.iter().any(|e| e.key == "cidr"));
            assert!(props.iter().any(|e| e.key == "name"));
            let refs = references.expect("merged reference map expected");
            assert!(refs.iter().all(|e| e.key != "virtualNetworkId"));
            assert_eq!(label.as_deref(), Some("front"));
        }
        other => panic!("unexpected event {:?}", other),
    }
    let d = mirror(&state, "w1");
    let node = d.nodes.iter().find(|n| n.id == id).unwrap();
    assert_eq!(node.data.label, "front");
    assert!(node.data.references.is_empty());
}

#[test]
fn update_unknown_instance_is_not_found() {
    let mut state = state_with_window("w1");
    mcp_sync_resource_types(&mut state, catalog_basic());
    let mut up = Params::empty();
    up.instance_id = Some("missing".to_string());
    up.properties = Some(vec![]);
    let err = update_resource(&mut state, &up).err().unwrap();
    assert_eq!(err.code, ErrorCode::NotFound);
}

#[test]
fn container_cascade_removal_empties_the_mirror() {
    let mut state = state_with_window("w1");
    mcp_sync_resource_types(
        &mut state,
        vec![
            descriptor("a", true, None, vec![]),
            descriptor("b", true, Some(vec!["a"]), vec![]),
            descriptor("c", false, Some(vec!["b"]), vec![]),
        ],
    );
    let (a, _) = add(&mut state, "a", None);
    let (b, _) = add(&mut state, "b", Some(&a));
    let (c, _) = add(&mut state, "c", Some(&b));
    let mut cp = Params::empty();
    cp.source_instance_id = Some(b.clone());
    cp.source_handle = Some("out".to_string());
    cp.target_instance_id = Some(c.clone());
    cp.target_handle = Some("in".to_string());
    connect_resources(&mut state, &cp).expect("connect must succeed");
    assert_eq!(mirror(&state, "w1").nodes.len(), 3);
    assert_eq!(mirror(&state, "w1").edges.len(), 1);
    let mut rp = Params::empty();
    rp.instance_id = Some(a.clone());
    remove_resource(&mut state, &rp).expect("remove must succeed");
    let d = mirror(&state, "w1");
    assert!(d.nodes.is_empty());
    assert!(d.edges.is_empty());
}

#[test]
fn removal_keeps_unrelated_nodes_and_drops_touching_edges() {
    let mut state = state_with_window("w1");
    mcp_sync_resource_types(
        &mut state,
        vec![descriptor("a", true, None, vec![]), descriptor("b", true, Some(vec!["a"]), vec![])],
    );
    let (a, _) = add(&mut state, "a", None);
    let (b, _) = add(&mut state, "b", Some(&a));
    let (other, _) = add(&mut state, "a", None);
    let mut cp = Params::empty();
    cp.source_instance_id = Some(b.clone());
    cp.source_handle = Some("h".to_string());
    cp.target_instance_id = Some(other.clone());
    cp.target_handle = Some("h".to_string());
    connect_resources(&mut state, &cp).unwrap();
    let mut rp = Params::empty();
    rp.instance_id = Some(a.clone());
    remove_resource(&mut state, &rp).unwrap();
    let d = mirror(&state, "w1");
    assert_eq!(d.nodes.len(), 1);
    assert_eq!(d.nodes[0].id, other);
    assert!(d.edges.is_empty(), "edge touching removed descendant must go");
}

#[test]
fn connect_builds_deterministic_edge_id() {
    let mut state = state_with_window("w1");
    mcp_sync_resource_types(&mut state, catalog_basic());
    let (s, _) = add(&mut state, "azurerm/networking/virtual_network", None);
    let (t, _) = add(&mut state, "azurerm/networking/subnet", None);
    let mut cp = Params::empty();
    cp.source_instance_id = Some(s.clone());
    cp.source_handle = Some("south".to_string());
    cp.target_instance_id = Some(t.clone());
    cp.target_handle = Some("north".to_string());
    let (res, _ev) = connect_resources(&mut state, &cp).unwrap();
    match res {
        CmdResult::EdgeAdded { edge_id } => {
            assert_eq!(edge_id, format!("e-{}-south-{}", s, t));
        }
        other => panic!("unexpected result {:?}", other),
    }
    let d = mirror(&state, "w1");
    assert_eq!(d.edges.len(), 1);
    assert_eq!(d.edges[0].category, "structural");
}

#[test]
fn connect_with_unknown_target_is_not_found() {
    let mut state = state_with_window("w1");
    mcp_sync_resource_types(&mut state, catalog_basic());
    let (s, _) = add(&mut state, "azurerm/networking/virtual_network", None);
    let mut cp = Params::empty();
    cp.source_instance_id = Some(s);
    cp.source_handle = Some("a".to_string());
    cp.target_instance_id = Some("ghost".to_string());
    cp.target_handle = Some("b".to_string());
    let err = connect_resources(&mut state, &cp).err().unwrap();
    assert_eq!(err.code, ErrorCode::NotFound);
}

#[test]
fn disconnect_removes_only_that_edge() {
    let mut state = state_with_window("w1");
    mcp_sync_resource_types(&mut state, catalog_basic());
    let (s, _) = add(&mut state, "azurerm/networking/virtual_network", None);
    let (t, _) = add(&mut state, "azurerm/networking/subnet", None);
    for handle in ["h1", "h2"] {
        let mut cp = Params::empty();
        cp.source_instance_id = Some(s.clone());
        cp.source_handle = Some(handle.to_string());
        cp.target_instance_id = Some(t.clone());
        cp.target_handle = Some("in".to_string());
        connect_resources(&mut state, &cp).unwrap();
    }
    let mut dp = Params::empty();
    dp.edge_id = Some(format!("e-{}-h1-{}", s, t));
    disconnect_resources(&mut state, &dp).unwrap();
    let d = mirror(&state, "w1");
    assert_eq!(d.edges.len(), 1);
    assert_eq!(d.edges[0].id, format!("e-{}-h2-{}", s, t));
    let mut dp2 = Params::empty();
    dp2.edge_id = Some("e-none".to_string());
    assert_eq!(disconnect_resources(&mut state, &dp2).err().unwrap().code, ErrorCode::NotFound);
}

#[test]
fn move_repositions_and_reparents_with_explicit_unset() {
    let mut state = state_with_window("w1");
    mcp_sync_resource_types(
        &mut state,
        vec![descriptor("a", true, None, vec![]), descriptor("b", true, Some(vec!["a"]), vec![])],
    );
    let (a, _) = add(&mut state, "a", None);
    let (b, _) = add(&mut state, "b", Some(&a));
    let mut mp = Params::empty();
    mp.instance_id = Some(b.clone());
    mp.position = Some(terrastudio::model::Position { x: 11, y: 22 });
    mp.parent_id = Some(None);
    let (_res, ev) = move_resource(&mut state, &mp).expect("move must succeed");
    match ev {
        UiEvent::DiagramMutated { mutation: Mutation::ReparentNode { parent_id, .. }, .. } => {
            assert!(parent_id.is_none());
        }
        other => panic!("unexpected event {:?}", other),
    }
    let d = mirror(&state, "w1");
    let node = d.nodes.iter().find(|n| n.id == b).unwrap();
    assert_eq!((node.position.x, node.position.y), (11, 22));
    assert!(node.parent_id.is_none());
    assert!(!node.contained);
}

#[test]
fn move_reparent_checks_containment() {
    let mut state = state_with_window("w1");
    mcp_sync_resource_types(
        &mut state,
        vec![
            descriptor("a", true, None, vec![]),
            descriptor("other", true, None, vec![]),
            descriptor("b", true, Some(vec!["a"]), vec![]),
        ],
    );
    let (_a, _) = add(&mut state, "a", None);
    let (other, _) = add(&mut state, "other", None);
    let (b, _) = add(&mut state, "b", None);
    let mut mp = Params::empty();
    mp.instance_id = Some(b);
    mp.position = Some(terrastudio::model::Position { x: 0, y: 0 });
    mp.parent_id = Some(Some(other));
    let err = move_resource(&mut state, &mp).err().unwrap();
    assert_eq!(err.code, ErrorCode::ContainmentError);
}

#[test]
fn resize_sets_width_and_height() {
    let mut state = state_with_window("w1");
    mcp_sync_resource_types(&mut state, catalog_basic());
    let (id, _) = add(&mut state, "azurerm/networking/virtual_network", None);
    let mut rp = Params::empty();
    rp.instance_id = Some(id.clone());
    rp.width = Some(640);
    rp.height = Some(480);
    resize_resource(&mut state, &rp).expect("resize must succeed");
    let d = mirror(&state, "w1");
    let node = d.nodes.iter().find(|n| n.id == id).unwrap();
    assert_eq!(node.width, Some(640));
    assert_eq!(node.height, Some(480));
}

#[test]
fn set_enabled_outputs_replaces_the_list() {
    let mut state = state_with_window("w1");
    mcp_sync_resource_types(&mut state, catalog_basic());
    let (id, _) = add(&mut state, "azurerm/networking/virtual_network", None);
    let mut op = Params::empty();
    op.instance_id = Some(id.clone());
    op.enabled_outputs = Some(vec!["id".to_string(), "location".to_string()]);
    set_enabled_outputs(&mut state, &op).expect("set outputs must succeed");
    let d = mirror(&state, "w1");
    let node = d.nodes.iter().find(|n| n.id == id).unwrap();
    assert_eq!(node.data.enabled_outputs, vec!["id".to_string(), "location".to_string()]);
}

#[test]
fn resolution_prefers_name_then_label_then_path() {
    let mut state = BridgeState::new();
    mcp_register_window(&mut state.registry, "w1".to_string());
    mcp_register_window(&mut state.registry, "w2".to_string());
    mcp_set_window_project(&mut state.registry, "w1".to_string(), "Prod".to_string(), "/p1".to_string());
    mcp_set_window_project(&mut state.registry, "w2".to_string(), "Dev".to_string(), "/p2".to_string());
    mcp_set_active_window(&mut state.registry, "w1".to_string());
    let by_name = resolve_window_label(&state.registry, Some(&"prod".to_string())).unwrap();
    assert_eq!(by_name, "w1");
    let by_label = resolve_window_label(&state.registry, Some(&"w2".to_string())).unwrap();
    assert_eq!(by_label, "w2");
    let by_path = resolve_window_label(&state.registry, Some(&"/p2".to_string())).unwrap();
    assert_eq!(by_path, "w2");
    let by_active = resolve_window_label(&state.registry, None).unwrap();
    assert_eq!(by_active, "w1");
    let missing = resolve_window_label(&state.registry, Some(&"missing".to_string()));
    assert_eq!(missing.err(), Some(ResolveFault::ProjectNotFound));
}

#[test]
fn resolution_with_no_windows_is_no_project() {
    let state = BridgeState::new();
    let r = resolve_window_label(&state.registry, None);
    assert_eq!(r.err(), Some(ResolveFault::NoProject));
    let mut p = Params::empty();
    p.type_id = Some("whatever".to_string());
    let mut state = BridgeState::new();
    let err = add_resource(&mut state, &p).err().unwrap();
    assert_eq!(err.code, ErrorCode::NoProject);
}

#[test]
fn unregistering_the_active_window_clears_the_pointer() {
    let mut state = BridgeState::new();
    mcp_register_window(&mut state.registry, "w1".to_string());
    mcp_set_active_window(&mut state.registry, "w1".to_string());
    terrastudio::registry::mcp_unregister_window(&mut state.registry, "w1");
    assert!(state.registry.windows.is_empty());
    assert!(state.registry.last_active.is_none());
}

#[test]
fn generation_timeout_leaves_artifacts_empty() {
    let mut state = state_with_window("w1");
    let ev = begin_generation(&mut state, "w1").expect("window exists");
    match ev {
        UiEvent::GenerateRequest { window } => assert_eq!(window, "w1"),
        other => panic!("unexpected event {:?}", other),
    }
    let r = finish_generation(&state, "w1", WaitOutcome::TimedOut);
    assert_eq!(r.err().unwrap().code, ErrorCode::Timeout);
    for e in &state.registry.windows {
        if e.label == "w1" {
            assert!(e.artifacts.is_none(), "artifact mirror must stay empty");
        }
    }
}

#[test]
fn generation_signal_without_files_is_generation_failed() {
    let mut state = state_with_window("w1");
    begin_generation(&mut state, "w1").unwrap();
    let r = finish_generation(&state, "w1", WaitOutcome::Signaled);
    assert_eq!(r.err().unwrap().code, ErrorCode::GenerationFailed);
}

#[test]
fn generation_signal_with_files_returns_them() {
    let mut state = state_with_window("w1");
    begin_generation(&mut state, "w1").unwrap();
    terrastudio::registry::mcp_sync_hcl_files(
        &mut state.registry,
        "w1".to_string(),
        vec![terrastudio::model::ArtifactFile {
            name: "main.tf".to_string(),
            content: "resource {}".to_string(),
        }],
    );
    let files = finish_generation(&state, "w1", WaitOutcome::Signaled).unwrap();
    assert_eq!(files.len(), 1);
    assert_eq!(files[0].name, "main.tf");
}

#[test]
fn generation_for_unknown_window_is_no_project() {
    let mut state = BridgeState::new();
    let err = begin_generation(&mut state, "ghost").err().unwrap();
    assert_eq!(err.code, ErrorCode::NoProject);
}

#[test]
fn dispatch_routes_unknown_command() {
    let mut state = state_with_window("w1");
    let p = Params::empty();
    match dispatch_bridge_command(&mut state, "mcp_frobnicate", &p) {
        Dispatched::Reply(Err(e)) => assert_eq!(e.code, ErrorCode::UnknownCommand),
        other => panic!("unexpected outcome {:?}", other),
    }
}

#[test]
fn dispatch_lists_projects_and_snapshots() {
    let mut state = state_with_window("w1");
    mcp_set_window_project(
        &mut state.registry,
        "w1".to_string(),
        "Prod".to_string(),
        "/p1".to_string(),
    );
    let p = Params::empty();
    match dispatch_bridge_command(&mut state, "mcp_list_projects", &p) {
        Dispatched::Reply(Ok((CmdResult::Projects { projects, active }, None))) => {
            assert_eq!(projects.len(), 1);
            assert_eq!(projects[0].window_label, "w1");
            assert_eq!(projects[0].project_name.as_deref(), Some("Prod"));
            assert!(projects[0].has_diagram);
            assert_eq!(active.as_deref(), Some("w1"));
        }
        other => panic!("unexpected outcome {:?}", other),
    }
    match dispatch_bridge_command(&mut state, "mcp_get_diagram_snapshot", &p) {
        Dispatched::Reply(Ok((CmdResult::Snapshot(d), None))) => {
            assert!(d.nodes.is_empty() && d.edges.is_empty());
        }
        other => panic!("unexpected outcome {:?}", other),
    }
}

#[test]
fn dispatch_generate_hcl_awaits_the_window() {
    let mut state = state_with_window("w1");
    let p = Params::empty();
    match dispatch_bridge_command(&mut state, "mcp_generate_hcl", &p) {
        Dispatched::AwaitGeneration { window, event } => {
            assert_eq!(window, "w1");
            match event {
                UiEvent::GenerateRequest { window } => assert_eq!(window, "w1"),
                other => panic!("unexpected event {:?}", other),
            }
        }
        other => panic!("unexpected outcome {:?}", other),
    }
}

#[test]
fn dispatch_deployment_status_reads_node_statuses() {
    let mut state = state_with_window("w1");
    mcp_sync_resource_types(&mut state, catalog_basic());
    let (id, _) = add(&mut state, "azurerm/networking/virtual_network", None);
    let p = Params::empty();
    match dispatch_bridge_command(&mut state, "mcp_get_deployment_status", &p) {
        Dispatched::Reply(Ok((CmdResult::Statuses(st), None))) => {
            assert_eq!(st.len(), 1);
            assert_eq!(st[0].instance_id, id);
            assert_eq!(st[0].status, "pending");
        }
        other => panic!("unexpected outcome {:?}", other),
    }
}

#[test]
fn dispatch_event_commands_target_the_resolved_window() {
    let mut state = state_with_window("w1");
    let p = Params::empty();
    match dispatch_bridge_command(&mut state, "mcp_save_project", &p) {
        Dispatched::Reply(Ok((CmdResult::Ack, Some(UiEvent::SaveProject { window })))) => {
            assert_eq!(window, "w1");
        }
        other => panic!("unexpected outcome {:?}", other),
    }
    let mut rp = Params::empty();
    rp.command_name = Some("plan".to_string());
    match dispatch_bridge_command(&mut state, "mcp_run_terraform", &rp) {
        Dispatched::Reply(Ok((CmdResult::Ack, Some(UiEvent::RunTerraform { window, command })))) => {
            assert_eq!(window, "w1");
            assert_eq!(command, "plan");
        }
        other => panic!("unexpected outcome {:?}", other),
    }
    let mut op = Params::empty();
    op.project_path = Some("/projects/demo".to_string());
    match dispatch_bridge_command(&mut state, "mcp_open_project", &op) {
        Dispatched::Reply(Ok((CmdResult::Ack, Some(UiEvent::OpenProject { path })))) => {
            assert_eq!(path, "/projects/demo");
        }
        other => panic!("unexpected outcome {:?}", other),
    }
}

#[test]
fn dispatch_write_commands_validate_through_the_engine() {
    let mut state = state_with_window("w1");
    mcp_sync_resource_types(&mut state, catalog_basic());
    let mut p = Params::empty();
    p.type_id = Some("azurerm/networking/virtual_network".to_string());
    match dispatch_bridge_command(&mut state, "mcp_add_resource", &p) {
        Dispatched::Reply(Ok((CmdResult::Added { .. }, Some(_)))) => {}
        other => panic!("unexpected outcome {:?}", other),
    }
    assert_eq!(mirror(&state, "w1").nodes.len(), 1);
    let bad = Params::empty();
    match dispatch_bridge_command(&mut state, "mcp_add_resource", &bad) {
        Dispatched::Reply(Err(e)) => assert_eq!(e.code, ErrorCode::ValidationError),
        other => panic!("unexpected outcome {:?}", other),
    }
}

#[test]
fn add_with_unknown_parent_is_not_found() {
    let mut state = state_with_window("w1");
    mcp_sync_resource_types(&mut state, catalog_basic());
    let mut p = Params::empty();
    p.type_id = Some("azurerm/networking/subnet".to_string());
    p.parent_id = Some(Some("ghost".to_string()));
    let err = add_resource(&mut state, &p).err().expect("unknown parent must fail");
    assert_eq!(err.code, ErrorCode::NotFound);
    assert!(mirror(&state, "w1").nodes.is_empty());
}

#[test]
fn move_containment_error_lists_allowed_parents() {
    let mut state = state_with_window("w1");
    mcp_sync_resource_types(
        &mut state,
        vec![
            descriptor("x", true, None, vec![]),
            descriptor("y", true, None, vec![]),
            descriptor("t", false, Some(vec!["x"]), vec![]),
        ],
    );
    let (y, _) = add(&mut state, "y", None);
    let (t, _) = add(&mut state, "t", None);
    let mut mp = Params::empty();
    mp.instance_id = Some(t);
    mp.position = Some(terrastudio::model::Position { x: 0, y: 0 });
    mp.parent_id = Some(Some(y));
    let err = move_resource(&mut state, &mp).err().expect("containment must fail");
    assert_eq!(err.code, ErrorCode::ContainmentError);
    assert_eq!(err.details.unwrap(), vec!["x".to_string()]);
}
