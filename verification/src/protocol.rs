//! Wire-level protocol types: error taxonomy, command parameters, command
//! results and the events pushed to the UI layer.

use vstd::prelude::*;
use vstd::string::*;

use crate::keyed::unique_keys;
use crate::model::{ArtifactFile, Diagram, Edge, Node, Position, PropEntry,
    ResourceTypeDescriptor};
use crate::resolver::ResolveFault;

verus! {

/// The error taxonomy of the bridge. Every failure becomes one of these,
/// never a raw exception.
#[derive(Clone, Copy, Debug, PartialEq, Eq, Structural)]
pub enum ErrorCode {
    ValidationError,
    NotFound,
    ProjectNotFound,
    NoProject,
    ContainmentError,
    Timeout,
    GenerationFailed,
    UnknownCommand,
    InternalError,
}

/// The wire string of each error code.
pub open spec fn code_spec(c: ErrorCode) -> Seq<char> {
    match c {
        ErrorCode::ValidationError => "VALIDATION_ERROR"@,
        ErrorCode::NotFound => "NOT_FOUND"@,
        ErrorCode::ProjectNotFound => "PROJECT_NOT_FOUND"@,
        ErrorCode::NoProject => "NO_PROJECT"@,
        ErrorCode::ContainmentError => "CONTAINMENT_ERROR"@,
        ErrorCode::Timeout => "TIMEOUT"@,
        ErrorCode::GenerationFailed => "GENERATION_FAILED"@,
        ErrorCode::UnknownCommand => "UNKNOWN_COMMAND"@,
        ErrorCode::InternalError => "INTERNAL_ERROR"@,
    }
}

impl ErrorCode {
    /// The exact wire string for this code.
    pub fn code_str(&self) -> (r: String)
        ensures
            r@ == code_spec(*self),
    {
        match self {
            ErrorCode::ValidationError => String::from_str("VALIDATION_ERROR"),
            ErrorCode::NotFound => String::from_str("NOT_FOUND"),
            ErrorCode::ProjectNotFound => String::from_str("PROJECT_NOT_FOUND"),
            ErrorCode::NoProject => String::from_str("NO_PROJECT"),
            ErrorCode::ContainmentError => String::from_str("CONTAINMENT_ERROR"),
            ErrorCode::Timeout => String::from_str("TIMEOUT"),
            ErrorCode::GenerationFailed => String::from_str("GENERATION_FAILED"),
            ErrorCode::UnknownCommand => String::from_str("UNKNOWN_COMMAND"),
            ErrorCode::InternalError => String::from_str("INTERNAL_ERROR"),
        }
    }
}

/// The error code a resolution fault maps to.
pub open spec fn fault_code(f: ResolveFault) -> ErrorCode {
    match f {
        ResolveFault::ProjectNotFound => ErrorCode::ProjectNotFound,
        ResolveFault::NoProject => ErrorCode::NoProject,
    }
}

/// A structured, non-fatal error response.
#[derive(Debug)]
pub struct BridgeError {
    pub code: ErrorCode,
    pub message: String,
    /// Extra string details: fuzzy suggestions for an unknown type, or the
    /// allowed-parent list of a containment rejection.
    pub details: Option<Vec<String>>,
}

impl BridgeError {
    /// An error with a code and message and no details.
    pub fn new(code: ErrorCode, message: String) -> (e: BridgeError)
        ensures
            e.code == code,
            e.message == message,
            e.details is None,
    {
        BridgeError { code, message, details: None }
    }
}

/// Concatenation of two strings.
pub fn msg2(a: &str, b: &str) -> (r: String)
    ensures
        r@ == a@ + b@,
{
    let mut r = String::from_str(a);
    r.append(b);
    r
}

/// The parameters of one bridge command, parsed from the wire into plain
/// values at the dispatcher boundary.
#[derive(Debug)]
pub struct Params {
    /// The optional window-addressing hint.
    pub project: Option<String>,
    pub type_id: Option<String>,
    pub instance_id: Option<String>,
    /// `None`: absent. `Some(None)`: present and null (explicit unset).
    /// `Some(Some(id))`: present.
    pub parent_id: Option<Option<String>>,
    pub position: Option<Position>,
    pub properties: Option<Vec<PropEntry>>,
    pub enabled_outputs: Option<Vec<String>>,
    pub source_instance_id: Option<String>,
    pub source_handle: Option<String>,
    pub target_instance_id: Option<String>,
    pub target_handle: Option<String>,
    pub edge_id: Option<String>,
    pub width: Option<i64>,
    pub height: Option<i64>,
    pub command_name: Option<String>,
    pub project_path: Option<String>,
}

impl Params {
    /// Well-formed parameters: a property map parsed from a JSON object has
    /// pairwise distinct keys.
    pub open spec fn wf(self) -> bool {
        match self.properties {
            Some(p) => unique_keys(p@),
            None => true,
        }
    }

    /// Parameters with every field absent.
    pub fn empty() -> (p: Params)
        ensures
            p.wf(),
            p.project is None,
            p.type_id is None,
            p.instance_id is None,
            p.parent_id is None,
            p.position is None,
            p.properties is None,
            p.enabled_outputs is None,
            p.source_instance_id is None,
            p.source_handle is None,
            p.target_instance_id is None,
            p.target_handle is None,
            p.edge_id is None,
            p.width is None,
            p.height is None,
            p.command_name is None,
            p.project_path is None,
    {
        Params {
            project: None,
            type_id: None,
            instance_id: None,
            parent_id: None,
            position: None,
            properties: None,
            enabled_outputs: None,
            source_instance_id: None,
            source_handle: None,
            target_instance_id: None,
            target_handle: None,
            edge_id: None,
            width: None,
            height: None,
            command_name: None,
            project_path: None,
        }
    }

    /// The addressing hint as a sequence, if present.
    pub open spec fn hint(self) -> Option<Seq<char>> {
        match self.project {
            Some(s) => Some(s@),
            None => None,
        }
    }

    /// The parent parameter flattened: present-and-null counts as absent
    /// when adding a resource.
    pub open spec fn parent_flat(self) -> Option<Seq<char>> {
        match self.parent_id {
            Some(Some(p)) => Some(p@),
            _ => None,
        }
    }
}

/// One diagram mutation pushed to the addressed window. The UI re-derives
/// its canonical state from the same event that updates the local mirror.
#[derive(Debug)]
pub enum Mutation {
    AddNode(Node),
    UpdateNodeData {
        instance_id: String,
        /// The merged plain-property map, when plain properties changed.
        properties: Option<Vec<PropEntry>>,
        /// The merged reference map, when reference properties changed.
        references: Option<Vec<PropEntry>>,
        /// The new display label, when the merged `name` is non-empty.
        label: Option<String>,
    },
    SetEnabledOutputs { instance_id: String, enabled_outputs: Vec<String> },
    RemoveNode { instance_id: String },
    AddEdge(Edge),
    RemoveEdge { edge_id: String },
    MoveNode { instance_id: String, position: Position },
    ReparentNode { instance_id: String, position: Position, parent_id: Option<String> },
    ResizeNode { instance_id: String, width: i64, height: i64 },
}

/// An event for the host layer to push: a mutation scoped to one window, a
/// request scoped to one window, or a broadcast.
#[derive(Debug)]
pub enum UiEvent {
    DiagramMutated { window: String, mutation: Mutation },
    GenerateRequest { window: String },
    SaveProject { window: String },
    RunTerraform { window: String, command: String },
    OpenProject { path: String },
    NewProject,
    GetProjectConfig { window: String },
    SetProjectConfig { window: String },
}

/// Basic facts about one open window, for discovery.
#[derive(Debug)]
pub struct ProjectInfo {
    pub window_label: String,
    pub project_name: Option<String>,
    pub project_path: Option<String>,
    pub has_diagram: bool,
}

/// One node's deployment status.
#[derive(Debug)]
pub struct StatusEntry {
    pub instance_id: String,
    pub status: String,
}

/// The successful payload of one bridge command.
#[derive(Debug)]
pub enum CmdResult {
    /// A small acknowledgement.
    Ack,
    Added { instance_id: String, terraform_name: String, position: Position },
    EdgeAdded { edge_id: String },
    Snapshot(Diagram),
    Types(Vec<ResourceTypeDescriptor>),
    Projects { projects: Vec<ProjectInfo>, active: Option<String> },
    Files(Vec<ArtifactFile>),
    Statuses(Vec<StatusEntry>),
}

} // verus!
