//! The data model mirrored by the bridge: property values, nodes, edges,
//! diagrams, resource type descriptors and the catalog.

use vstd::prelude::*;

use crate::keyed::{has_key, key_index, lookup, Keyed};
use crate::text::str_eq;

verus! {

/// A property value carried on the wire. `Null` is distinct from absence:
/// on a reference property it means deletion. `Text` holds a JSON string's
/// contents; `Raw` holds any other JSON value in serialized form.
#[derive(Debug)]
pub enum PropValue {
    Null,
    Text(String),
    Raw(String),
}

impl Clone for PropValue {
    fn clone(&self) -> (r: Self)
        ensures
            r == *self,
    {
        match self {
            PropValue::Null => PropValue::Null,
            PropValue::Text(s) => PropValue::Text(s.clone()),
            PropValue::Raw(s) => PropValue::Raw(s.clone()),
        }
    }
}

impl PropValue {
    /// The value is a non-empty string.
    pub open spec fn is_nonempty_text(self) -> bool {
        match self {
            PropValue::Text(s) => s@.len() > 0,
            _ => false,
        }
    }
}

/// One key/value pair of a property map.
#[derive(Debug)]
pub struct PropEntry {
    pub key: String,
    pub value: PropValue,
}

impl Clone for PropEntry {
    fn clone(&self) -> (r: Self)
        ensures
            r == *self,
    {
        PropEntry { key: self.key.clone(), value: self.value.clone() }
    }
}

impl Keyed for PropEntry {
    open spec fn key(&self) -> Seq<char> {
        self.key@
    }

    fn matches(&self, k: &str) -> (r: bool) {
        str_eq(self.key.as_str(), k)
    }
}

/// A position on the canvas, in integer canvas units.
#[derive(Clone, Copy, Debug)]
pub struct Position {
    pub x: i64,
    pub y: i64,
}

/// Clones a vector of strings.
pub fn clone_strings(v: &Vec<String>) -> (r: Vec<String>)
    ensures
        r@ == v@,
{
    let c = v.clone();
    proof {
        assert(c@ =~= v@);
    }
    c
}

/// Clones a property map.
pub fn clone_props(v: &Vec<PropEntry>) -> (r: Vec<PropEntry>)
    ensures
        r@ == v@,
{
    let c = v.clone();
    proof {
        assert(c@ =~= v@);
    }
    c
}

/// The data block of a node: display label, generated name, plain and
/// reference property maps, validation errors, deployment status and
/// enabled outputs.
#[derive(Debug)]
pub struct NodeData {
    pub label: String,
    pub terraform_name: String,
    pub properties: Vec<PropEntry>,
    pub references: Vec<PropEntry>,
    pub validation_errors: Vec<String>,
    pub deployment_status: String,
    pub enabled_outputs: Vec<String>,
}

impl Clone for NodeData {
    fn clone(&self) -> (r: Self)
        ensures
            data_eqv(r, *self),
    {
        NodeData {
            label: self.label.clone(),
            terraform_name: self.terraform_name.clone(),
            properties: clone_props(&self.properties),
            references: clone_props(&self.references),
            validation_errors: clone_strings(&self.validation_errors),
            deployment_status: self.deployment_status.clone(),
            enabled_outputs: clone_strings(&self.enabled_outputs),
        }
    }
}

/// One node of a diagram mirror.
#[derive(Debug)]
pub struct Node {
    pub id: String,
    pub type_id: String,
    pub position: Position,
    pub width: Option<i64>,
    pub height: Option<i64>,
    /// The containing node, if this node is nested inside a container.
    pub parent_id: Option<String>,
    /// The containment flag: the node is constrained to its parent's extent.
    pub contained: bool,
    pub data: NodeData,
}

/// Clones an optional string.
pub fn clone_opt_string(v: &Option<String>) -> (r: Option<String>)
    ensures
        r == *v,
{
    match v {
        Some(s) => Some(s.clone()),
        None => None,
    }
}

impl Clone for Node {
    fn clone(&self) -> (r: Self)
        ensures
            node_eqv(r, *self),
    {
        Node {
            id: self.id.clone(),
            type_id: self.type_id.clone(),
            position: self.position,
            width: self.width,
            height: self.height,
            parent_id: clone_opt_string(&self.parent_id),
            contained: self.contained,
            data: self.data.clone(),
        }
    }
}

impl Keyed for Node {
    open spec fn key(&self) -> Seq<char> {
        self.id@
    }

    fn matches(&self, k: &str) -> (r: bool) {
        str_eq(self.id.as_str(), k)
    }
}

/// One edge of a diagram mirror.
#[derive(Debug)]
pub struct Edge {
    pub id: String,
    pub source: String,
    pub target: String,
    pub source_handle: String,
    pub target_handle: String,
    pub category: String,
}

impl Clone for Edge {
    fn clone(&self) -> (r: Self)
        ensures
            r == *self,
    {
        Edge {
            id: self.id.clone(),
            source: self.source.clone(),
            target: self.target.clone(),
            source_handle: self.source_handle.clone(),
            target_handle: self.target_handle.clone(),
            category: self.category.clone(),
        }
    }
}

impl Keyed for Edge {
    open spec fn key(&self) -> Seq<char> {
        self.id@
    }

    fn matches(&self, k: &str) -> (r: bool) {
        str_eq(self.id.as_str(), k)
    }
}

/// A window's node/edge graph as mirrored by the bridge.
#[derive(Debug)]
pub struct Diagram {
    pub nodes: Vec<Node>,
    pub edges: Vec<Edge>,
}

impl Clone for Diagram {
    fn clone(&self) -> (r: Self)
        ensures
            diagram_eqv(r, *self),
    {
        let nodes = clone_nodes(&self.nodes);
        let edges = self.edges.clone();
        proof {
            assert(edges@ =~= self.edges@);
        }
        Diagram { nodes, edges }
    }
}

/// Clones a vector of nodes.
pub fn clone_nodes(v: &Vec<Node>) -> (r: Vec<Node>)
    ensures
        nodes_eqv(r@, v@),
{
    let c = v.clone();
    proof {
        assert forall|i: int| 0 <= i < c@.len() implies node_eqv(c@[i], v@[i]) by {
            assert(cloned::<Node>(v@[i], c@[i]));
        }
    }
    c
}

impl Diagram {
    /// An empty diagram.
    pub fn empty() -> (d: Diagram)
        ensures
            d.nodes@ =~= Seq::<Node>::empty(),
            d.edges@ =~= Seq::<Edge>::empty(),
    {
        Diagram { nodes: Vec::new(), edges: Vec::new() }
    }
}

/// One property descriptor of a resource type, tagged plain or reference.
#[derive(Debug)]
pub struct PropertyDescriptor {
    pub key: String,
    pub is_reference: bool,
}

impl Clone for PropertyDescriptor {
    fn clone(&self) -> (r: Self)
        ensures
            r == *self,
    {
        PropertyDescriptor { key: self.key.clone(), is_reference: self.is_reference }
    }
}

/// A resource type of the catalog: containment rules and property kinds.
/// An absent `can_be_child_of` list means the type can never be nested.
#[derive(Debug)]
pub struct ResourceTypeDescriptor {
    pub type_id: String,
    pub is_container: bool,
    pub can_be_child_of: Option<Vec<String>>,
    pub properties: Vec<PropertyDescriptor>,
}

impl Clone for ResourceTypeDescriptor {
    fn clone(&self) -> (r: Self)
        ensures
            rtd_eqv(r, *self),
    {
        let can_be_child_of = match &self.can_be_child_of {
            Some(v) => Some(clone_strings(v)),
            None => None,
        };
        let properties = self.properties.clone();
        proof {
            assert(properties@ =~= self.properties@);
        }
        ResourceTypeDescriptor {
            type_id: self.type_id.clone(),
            is_container: self.is_container,
            can_be_child_of,
            properties,
        }
    }
}

impl Keyed for ResourceTypeDescriptor {
    open spec fn key(&self) -> Seq<char> {
        self.type_id@
    }

    fn matches(&self, k: &str) -> (r: bool) {
        str_eq(self.type_id.as_str(), k)
    }
}

/// The global resource type catalog, replaced wholesale by sync calls.
#[derive(Debug)]
pub struct Catalog {
    pub types: Vec<ResourceTypeDescriptor>,
}

impl Clone for Catalog {
    fn clone(&self) -> (r: Self)
        ensures
            catalog_eqv(r, *self),
    {
        let types = clone_types(&self.types);
        Catalog { types }
    }
}

/// Clones a vector of resource type descriptors.
pub fn clone_types(v: &Vec<ResourceTypeDescriptor>) -> (r: Vec<ResourceTypeDescriptor>)
    ensures
        types_eqv(r@, v@),
{
    let c = v.clone();
    proof {
        assert forall|i: int| 0 <= i < c@.len() implies rtd_eqv(c@[i], v@[i]) by {
            assert(cloned::<ResourceTypeDescriptor>(v@[i], c@[i]));
        }
    }
    c
}

impl Catalog {
    /// An empty catalog.
    pub fn empty() -> (c: Catalog)
        ensures
            c.types@ =~= Seq::<ResourceTypeDescriptor>::empty(),
    {
        Catalog { types: Vec::new() }
    }
}

/// One generated artifact file, by name.
#[derive(Debug)]
pub struct ArtifactFile {
    pub name: String,
    pub content: String,
}

impl Clone for ArtifactFile {
    fn clone(&self) -> (r: Self)
        ensures
            r == *self,
    {
        ArtifactFile { name: self.name.clone(), content: self.content.clone() }
    }
}

impl Keyed for ArtifactFile {
    open spec fn key(&self) -> Seq<char> {
        self.name@
    }

    fn matches(&self, k: &str) -> (r: bool) {
        str_eq(self.name.as_str(), k)
    }
}

/// Clones a vector of artifact files.
pub fn clone_artifacts(v: &Vec<ArtifactFile>) -> (r: Vec<ArtifactFile>)
    ensures
        r@ == v@,
{
    let c = v.clone();
    proof {
        assert(c@ =~= v@);
    }
    c
}

/// Field-wise equivalence of node data blocks, down to views.
pub open spec fn data_eqv(a: NodeData, b: NodeData) -> bool {
    &&& a.label@ == b.label@
    &&& a.terraform_name@ == b.terraform_name@
    &&& a.properties@ == b.properties@
    &&& a.references@ == b.references@
    &&& a.validation_errors@ == b.validation_errors@
    &&& a.deployment_status@ == b.deployment_status@
    &&& a.enabled_outputs@ == b.enabled_outputs@
}

/// Field-wise equivalence of nodes, down to views.
pub open spec fn node_eqv(a: Node, b: Node) -> bool {
    &&& a.id@ == b.id@
    &&& a.type_id@ == b.type_id@
    &&& a.position == b.position
    &&& a.width == b.width
    &&& a.height == b.height
    &&& a.parent_id == b.parent_id
    &&& a.contained == b.contained
    &&& data_eqv(a.data, b.data)
}

/// Pointwise equivalence of node sequences.
pub open spec fn nodes_eqv(a: Seq<Node>, b: Seq<Node>) -> bool {
    a.len() == b.len() && forall|i: int| 0 <= i < a.len() ==> node_eqv(#[trigger] a[i], b[i])
}

/// Equivalence of diagrams: nodes pointwise equivalent, edges equal.
pub open spec fn diagram_eqv(a: Diagram, b: Diagram) -> bool {
    nodes_eqv(a.nodes@, b.nodes@) && a.edges@ == b.edges@
}

/// Field-wise equivalence of resource type descriptors.
pub open spec fn rtd_eqv(a: ResourceTypeDescriptor, b: ResourceTypeDescriptor) -> bool {
    &&& a.type_id@ == b.type_id@
    &&& a.is_container == b.is_container
    &&& match (a.can_be_child_of, b.can_be_child_of) {
        (Some(x), Some(y)) => x@ == y@,
        (None, None) => true,
        _ => false,
    }
    &&& a.properties@ == b.properties@
}

/// Pointwise equivalence of descriptor sequences.
pub open spec fn types_eqv(a: Seq<ResourceTypeDescriptor>, b: Seq<ResourceTypeDescriptor>) -> bool {
    a.len() == b.len() && forall|i: int| 0 <= i < a.len() ==> rtd_eqv(#[trigger] a[i], b[i])
}

/// Equivalence of catalogs.
pub open spec fn catalog_eqv(a: Catalog, b: Catalog) -> bool {
    types_eqv(a.types@, b.types@)
}

/// The value of key `k` after merging `upd` into `base` by upsert.
pub open spec fn merged_plain(
    base: Seq<PropEntry>,
    upd: Seq<PropEntry>,
    k: Seq<char>,
) -> Option<PropValue> {
    if has_key(upd, k) {
        Some(upd[key_index(upd, k)].value)
    } else if has_key(base, k) {
        Some(base[key_index(base, k)].value)
    } else {
        None
    }
}

/// The value of key `k` after merging `upd` into `base` where a `Null`
/// update deletes the key.
pub open spec fn merged_refs(
    base: Seq<PropEntry>,
    upd: Seq<PropEntry>,
    k: Seq<char>,
) -> Option<PropValue> {
    if has_key(upd, k) {
        if upd[key_index(upd, k)].value is Null {
            None
        } else {
            Some(upd[key_index(upd, k)].value)
        }
    } else if has_key(base, k) {
        Some(base[key_index(base, k)].value)
    } else {
        None
    }
}

/// The first value stored under key `k`, if any.
pub open spec fn prop_value_of(s: Seq<PropEntry>, k: Seq<char>) -> Option<PropValue> {
    match lookup(s, k) {
        Some(e) => Some(e.value),
        None => None,
    }
}

} // verus!
