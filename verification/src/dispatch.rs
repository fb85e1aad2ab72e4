//! The dispatcher: routes an incoming command name and parsed parameters to
//! the engine, the registry, the resolver or the generation coordinator,
//! converting every failure into a structured error. Read commands never
//! change state.

use vstd::prelude::*;
use vstd::string::*;

use crate::engine::{
    add_error_ok, add_resource, add_success_ok, connect_error_ok, connect_resources,
    connect_success_ok, diagram_of, disconnect_error_ok, disconnect_resources,
    disconnect_success_ok, move_error_ok, move_resource, move_success_ok, outputs_error_ok,
    outputs_success_ok, remove_error_ok, remove_resource, remove_success_ok, resize_error_ok,
    resize_resource, resize_success_ok, set_enabled_outputs, update_error_ok, update_resource,
    update_success_ok,
};
use crate::generation::begin_generation;
use crate::model::{diagram_eqv, types_eqv, Diagram};
use crate::protocol::{
    fault_code, BridgeError, CmdResult, ErrorCode, Params, ProjectInfo, StatusEntry, UiEvent,
};
use crate::registry::{has_window, window_lookup, BridgeState, WindowEntry};
use crate::resolver::{resolve_spec, resolve_window_label, ResolveFault};
use crate::text::str_eq;

verus! {

/// What dispatching returned: a reply to send back, or an instruction to
/// push the generate event and await the window's sync-back under the
/// timeout ceiling before finishing via the generation coordinator.
#[derive(Debug)]
pub enum Dispatched {
    Reply(Result<(CmdResult, Option<UiEvent>), BridgeError>),
    AwaitGeneration { window: String, event: UiEvent },
}

/// One discovery row matches one registry entry.
pub open spec fn project_info_ok(info: ProjectInfo, e: WindowEntry) -> bool {
    &&& info.window_label@ == e.label@
    &&& info.project_name == e.project_name
    &&& info.project_path == e.project_path
    &&& info.has_diagram == (e.diagram is Some)
}

/// The status list matches the nodes of the diagram.
pub open spec fn statuses_ok(st: Seq<StatusEntry>, d: Diagram) -> bool {
    &&& st.len() == d.nodes@.len()
    &&& (forall|i: int|
        0 <= i < st.len() ==> (#[trigger] st[i]).instance_id@ == d.nodes@[i].id@ && st[i].status@
            == d.nodes@[i].data.deployment_status@)
}

/// What one reply-producing read command must return.
pub open spec fn read_reply_ok(
    pre: BridgeState,
    cmd: Seq<char>,
    p: Params,
    r: Result<(CmdResult, Option<UiEvent>), BridgeError>,
) -> bool {
    if cmd == "mcp_list_projects"@ {
        match r {
            Ok((res, ev)) => ev is None && (match res {
                CmdResult::Projects { projects, active } => {
                    &&& projects@.len() == pre.registry.windows@.len()
                    &&& (forall|i: int|
                        0 <= i < projects@.len() ==> project_info_ok(
                            #[trigger] projects@[i],
                            pre.registry.windows@[i],
                        ))
                    &&& active == pre.registry.last_active
                },
                _ => false,
            }),
            Err(_) => false,
        }
    } else if cmd == "mcp_get_resource_types"@ {
        match r {
            Ok((res, ev)) => ev is None && (match res {
                CmdResult::Types(types) => types_eqv(types@, pre.catalog.types@),
                _ => false,
            }),
            Err(_) => false,
        }
    } else if cmd == "mcp_get_diagram_snapshot"@ {
        match resolve_spec(pre.registry, p.hint()) {
            Err(f) => r is Err && r->Err_0.code == fault_code(f),
            Ok(label) => match r {
                Ok((res, ev)) => ev is None && (match res {
                    CmdResult::Snapshot(d) => match diagram_of(pre.registry, label) {
                        Some(m) => diagram_eqv(d, m),
                        None => d.nodes@.len() == 0 && d.edges@.len() == 0,
                    },
                    _ => false,
                }),
                Err(_) => false,
            },
        }
    } else if cmd == "mcp_get_hcl_files"@ {
        match resolve_spec(pre.registry, p.hint()) {
            Err(f) => r is Err && r->Err_0.code == fault_code(f),
            Ok(label) => match r {
                Ok((res, ev)) => ev is None && (match res {
                    CmdResult::Files(files) => match crate::generation::artifacts_of(pre, label) {
                        Some(m) => files@ == m,
                        None => files@.len() == 0,
                    },
                    _ => false,
                }),
                Err(_) => false,
            },
        }
    } else if cmd == "mcp_get_deployment_status"@ {
        match resolve_spec(pre.registry, p.hint()) {
            Err(f) => r is Err && r->Err_0.code == fault_code(f),
            Ok(label) => match r {
                Ok((res, ev)) => ev is None && (match res {
                    CmdResult::Statuses(st) => match diagram_of(pre.registry, label) {
                        Some(m) => statuses_ok(st@, m),
                        None => st@.len() == 0,
                    },
                    _ => false,
                }),
                Err(_) => false,
            },
        }
    } else {
        false
    }
}

/// What one window-scoped event command must return: the resolved window's
/// acknowledgement plus the event for the host to push.
pub open spec fn event_reply_ok(
    pre: BridgeState,
    p: Params,
    r: Result<(CmdResult, Option<UiEvent>), BridgeError>,
    wanted: spec_fn(UiEvent, Seq<char>) -> bool,
) -> bool {
    match resolve_spec(pre.registry, p.hint()) {
        Err(f) => r is Err && r->Err_0.code == fault_code(f),
        Ok(label) => match r {
            Ok((res, ev)) => res is Ack && ev is Some && wanted(ev->0, label),
            Err(_) => false,
        },
    }
}

/// The full routing contract of the dispatcher, case by case on the
/// command name.
pub open spec fn dispatch_ok(
    pre: BridgeState,
    post: BridgeState,
    cmd: Seq<char>,
    p: Params,
    outcome: Dispatched,
) -> bool {
    if cmd == "mcp_list_projects"@ || cmd == "mcp_get_resource_types"@ || cmd
        == "mcp_get_diagram_snapshot"@ || cmd == "mcp_get_hcl_files"@ || cmd
        == "mcp_get_deployment_status"@ {
        &&& post == pre
        &&& (match outcome {
            Dispatched::Reply(r) => read_reply_ok(pre, cmd, p, r),
            _ => false,
        })
    } else if cmd == "mcp_add_resource"@ {
        match outcome {
            Dispatched::Reply(r) => match r {
                Ok((res, ev)) => ev is Some && add_success_ok(pre, post, p, res, ev->0),
                Err(e) => post == pre && add_error_ok(pre, p, e),
            },
            _ => false,
        }
    } else if cmd == "mcp_update_resource"@ {
        match outcome {
            Dispatched::Reply(r) => match r {
                Ok((res, ev)) => ev is Some && update_success_ok(pre, post, p, res, ev->0),
                Err(e) => post == pre && update_error_ok(pre, p, e),
            },
            _ => false,
        }
    } else if cmd == "mcp_remove_resource"@ {
        match outcome {
            Dispatched::Reply(r) => match r {
                Ok((res, ev)) => ev is Some && remove_success_ok(pre, post, p, res, ev->0),
                Err(e) => post == pre && remove_error_ok(pre, p, e),
            },
            _ => false,
        }
    } else if cmd == "mcp_set_enabled_outputs"@ {
        match outcome {
            Dispatched::Reply(r) => match r {
                Ok((res, ev)) => ev is Some && outputs_success_ok(pre, post, p, res, ev->0),
                Err(e) => post == pre && outputs_error_ok(pre, p, e),
            },
            _ => false,
        }
    } else if cmd == "mcp_connect_resources"@ {
        match outcome {
            Dispatched::Reply(r) => match r {
                Ok((res, ev)) => ev is Some && connect_success_ok(pre, post, p, res, ev->0),
                Err(e) => post == pre && connect_error_ok(pre, p, e),
            },
            _ => false,
        }
    } else if cmd == "mcp_disconnect_resources"@ {
        match outcome {
            Dispatched::Reply(r) => match r {
                Ok((res, ev)) => ev is Some && disconnect_success_ok(pre, post, p, res, ev->0),
                Err(e) => post == pre && disconnect_error_ok(pre, p, e),
            },
            _ => false,
        }
    } else if cmd == "mcp_move_resource"@ {
        match outcome {
            Dispatched::Reply(r) => match r {
                Ok((res, ev)) => ev is Some && move_success_ok(pre, post, p, res, ev->0),
                Err(e) => post == pre && move_error_ok(pre, p, e),
            },
            _ => false,
        }
    } else if cmd == "mcp_resize_resource"@ {
        match outcome {
            Dispatched::Reply(r) => match r {
                Ok((res, ev)) => ev is Some && resize_success_ok(pre, post, p, res, ev->0),
                Err(e) => post == pre && resize_error_ok(pre, p, e),
            },
            _ => false,
        }
    } else if cmd == "mcp_save_project"@ {
        &&& post == pre
        &&& (match outcome {
            Dispatched::Reply(r) => event_reply_ok(
                pre,
                p,
                r,
                |ev: UiEvent, label: Seq<char>|
                    match ev {
                        UiEvent::SaveProject { window } => window@ == label,
                        _ => false,
                    },
            ),
            _ => false,
        })
    } else if cmd == "mcp_run_terraform"@ {
        &&& post == pre
        &&& (match outcome {
            Dispatched::Reply(r) => event_reply_ok(
                pre,
                p,
                r,
                |ev: UiEvent, label: Seq<char>|
                    match ev {
                        UiEvent::RunTerraform { window, command } => window@ == label && command@
                            == (match p.command_name {
                            Some(c) => c@,
                            None => Seq::<char>::empty(),
                        }),
                        _ => false,
                    },
            ),
            _ => false,
        })
    } else if cmd == "mcp_get_project_config"@ {
        &&& post == pre
        &&& (match outcome {
            Dispatched::Reply(r) => event_reply_ok(
                pre,
                p,
                r,
                |ev: UiEvent, label: Seq<char>|
                    match ev {
                        UiEvent::GetProjectConfig { window } => window@ == label,
                        _ => false,
                    },
            ),
            _ => false,
        })
    } else if cmd == "mcp_set_project_config"@ {
        &&& post == pre
        &&& (match outcome {
            Dispatched::Reply(r) => event_reply_ok(
                pre,
                p,
                r,
                |ev: UiEvent, label: Seq<char>|
                    match ev {
                        UiEvent::SetProjectConfig { window } => window@ == label,
                        _ => false,
                    },
            ),
            _ => false,
        })
    } else if cmd == "mcp_open_project"@ {
        &&& post == pre
        &&& (match outcome {
            Dispatched::Reply(r) => match r {
                Ok((res, ev)) => res is Ack && (match ev {
                    Some(UiEvent::OpenProject { path }) => path@ == (match p.project_path {
                        Some(q) => q@,
                        None => Seq::<char>::empty(),
                    }),
                    _ => false,
                }),
                Err(_) => false,
            },
            _ => false,
        })
    } else if cmd == "mcp_new_project"@ {
        &&& post == pre
        &&& (match outcome {
            Dispatched::Reply(r) => match r {
                Ok((res, ev)) => res is Ack && ev == Some(UiEvent::NewProject),
                Err(_) => false,
            },
            _ => false,
        })
    } else if cmd == "mcp_generate_hcl"@ {
        match resolve_spec(pre.registry, p.hint()) {
            Err(f) => post == pre && (match outcome {
                Dispatched::Reply(r) => r is Err && r->Err_0.code == fault_code(f),
                _ => false,
            }),
            Ok(label) => match outcome {
                Dispatched::AwaitGeneration { window, event } => {
                    &&& window@ == label
                    &&& (match event {
                        UiEvent::GenerateRequest { window: w2 } => w2@ == label,
                        _ => false,
                    })
                    &&& crate::generation::artifacts_of(post, label) is None
                    &&& has_window(pre.registry, label)
                },
                Dispatched::Reply(r) => post == pre && r is Err && r->Err_0.code
                    == ErrorCode::NoProject && !has_window(pre.registry, label),
            },
        }
    } else {
        &&& post == pre
        &&& (match outcome {
            Dispatched::Reply(r) => r is Err && r->Err_0.code == ErrorCode::UnknownCommand,
            _ => false,
        })
    }
}

/// Routes one bridge command to the component that serves it. Read
/// commands and event-only commands leave the state untouched; mutation
/// commands answer for the exact validation and mirror transformation of
/// the engine; an unrecognized command name is `UNKNOWN_COMMAND`.
pub fn dispatch_bridge_command(state: &mut BridgeState, command: &str, p: &Params) -> (outcome:
    Dispatched)
    requires
        p.wf(),
    ensures
        dispatch_ok(*old(state), *final(state), command@, *p, outcome),
{
    if str_eq(command, "mcp_list_projects") {
        let n = state.registry.windows.len();
        let mut projects: Vec<ProjectInfo> = Vec::new();
        let mut i: usize = 0;
        while i < n
            invariant
                n == state.registry.windows@.len(),
                i <= n,
                projects@.len() == i,
                forall|j: int|
                    0 <= j < i ==> project_info_ok(
                        #[trigger] projects@[j],
                        state.registry.windows@[j],
                    ),
            decreases n - i,
        {
            let e = &state.registry.windows[i];
            let has_diagram = match &e.diagram {
                Some(_) => true,
                None => false,
            };
            projects.push(
                ProjectInfo {
                    window_label: e.label.clone(),
                    project_name: crate::model::clone_opt_string(&e.project_name),
                    project_path: crate::model::clone_opt_string(&e.project_path),
                    has_diagram,
                },
            );
            i = i + 1;
        }
        let active = crate::model::clone_opt_string(&state.registry.last_active);
        Dispatched::Reply(Ok((CmdResult::Projects { projects, active }, None)))
    } else if str_eq(command, "mcp_get_resource_types") {
        let types = crate::model::clone_types(&state.catalog.types);
        Dispatched::Reply(Ok((CmdResult::Types(types), None)))
    } else if str_eq(command, "mcp_get_diagram_snapshot") {
        match resolve_window_label(&state.registry, p.project.as_ref()) {
            Err(f) => Dispatched::Reply(Err(resolve_error(f))),
            Ok(label) => {
                let snapshot = match crate::registry::window_index(
                    &state.registry,
                    label.as_str(),
                ) {
                    Some(i) => match &state.registry.windows[i].diagram {
                        Some(d) => d.clone(),
                        None => Diagram::empty(),
                    },
                    None => Diagram::empty(),
                };
                Dispatched::Reply(Ok((CmdResult::Snapshot(snapshot), None)))
            },
        }
    } else if str_eq(command, "mcp_get_hcl_files") {
        match resolve_window_label(&state.registry, p.project.as_ref()) {
            Err(f) => Dispatched::Reply(Err(resolve_error(f))),
            Ok(label) => {
                let files = match crate::registry::window_index(&state.registry, label.as_str()) {
                    Some(i) => match &state.registry.windows[i].artifacts {
                        Some(files) => crate::model::clone_artifacts(files),
                        None => Vec::new(),
                    },
                    None => Vec::new(),
                };
                Dispatched::Reply(Ok((CmdResult::Files(files), None)))
            },
        }
    } else if str_eq(command, "mcp_get_deployment_status") {
        match resolve_window_label(&state.registry, p.project.as_ref()) {
            Err(f) => Dispatched::Reply(Err(resolve_error(f))),
            Ok(label) => {
                let mut statuses: Vec<StatusEntry> = Vec::new();
                match crate::registry::window_index(&state.registry, label.as_str()) {
                    Some(i) => match &state.registry.windows[i].diagram {
                        Some(d) => {
                            let c = d.nodes.len();
                            let mut k: usize = 0;
                            while k < c
                                invariant
                                    c == d.nodes@.len(),
                                    k <= c,
                                    statuses@.len() == k,
                                    forall|q: int|
                                        0 <= q < k ==> (#[trigger] statuses@[q]).instance_id@
                                            == d.nodes@[q].id@ && statuses@[q].status@
                                            == d.nodes@[q].data.deployment_status@,
                                decreases c - k,
                            {
                                let nd = &d.nodes[k];
                                statuses.push(
                                    StatusEntry {
                                        instance_id: nd.id.clone(),
                                        status: nd.data.deployment_status.clone(),
                                    },
                                );
                                k = k + 1;
                            }
                        },
                        None => {},
                    },
                    None => {},
                }
                Dispatched::Reply(Ok((CmdResult::Statuses(statuses), None)))
            },
        }
    } else if str_eq(command, "mcp_add_resource") {
        Dispatched::Reply(lift(add_resource(state, p)))
    } else if str_eq(command, "mcp_update_resource") {
        Dispatched::Reply(lift(update_resource(state, p)))
    } else if str_eq(command, "mcp_remove_resource") {
        Dispatched::Reply(lift(remove_resource(state, p)))
    } else if str_eq(command, "mcp_set_enabled_outputs") {
        Dispatched::Reply(lift(set_enabled_outputs(state, p)))
    } else if str_eq(command, "mcp_connect_resources") {
        Dispatched::Reply(lift(connect_resources(state, p)))
    } else if str_eq(command, "mcp_disconnect_resources") {
        Dispatched::Reply(lift(disconnect_resources(state, p)))
    } else if str_eq(command, "mcp_move_resource") {
        Dispatched::Reply(lift(move_resource(state, p)))
    } else if str_eq(command, "mcp_resize_resource") {
        Dispatched::Reply(lift(resize_resource(state, p)))
    } else if str_eq(command, "mcp_save_project") {
        match resolve_window_label(&state.registry, p.project.as_ref()) {
            Err(f) => Dispatched::Reply(Err(resolve_error(f))),
            Ok(label) => Dispatched::Reply(
                Ok((CmdResult::Ack, Some(UiEvent::SaveProject { window: label }))),
            ),
        }
    } else if str_eq(command, "mcp_run_terraform") {
        match resolve_window_label(&state.registry, p.project.as_ref()) {
            Err(f) => Dispatched::Reply(Err(resolve_error(f))),
            Ok(label) => {
                let cmd_name = match &p.command_name {
                    Some(c) => c.clone(),
                    None => String::new(),
                };
                Dispatched::Reply(
                    Ok(
                        (
                            CmdResult::Ack,
                            Some(UiEvent::RunTerraform { window: label, command: cmd_name }),
                        ),
                    ),
                )
            },
        }
    } else if str_eq(command, "mcp_get_project_config") {
        match resolve_window_label(&state.registry, p.project.as_ref()) {
            Err(f) => Dispatched::Reply(Err(resolve_error(f))),
            Ok(label) => Dispatched::Reply(
                Ok((CmdResult::Ack, Some(UiEvent::GetProjectConfig { window: label }))),
            ),
        }
    } else if str_eq(command, "mcp_set_project_config") {
        match resolve_window_label(&state.registry, p.project.as_ref()) {
            Err(f) => Dispatched::Reply(Err(resolve_error(f))),
            Ok(label) => Dispatched::Reply(
                Ok((CmdResult::Ack, Some(UiEvent::SetProjectConfig { window: label }))),
            ),
        }
    } else if str_eq(command, "mcp_open_project") {
        let path = match &p.project_path {
            Some(q) => q.clone(),
            None => String::new(),
        };
        Dispatched::Reply(Ok((CmdResult::Ack, Some(UiEvent::OpenProject { path }))))
    } else if str_eq(command, "mcp_new_project") {
        Dispatched::Reply(Ok((CmdResult::Ack, Some(UiEvent::NewProject))))
    } else if str_eq(command, "mcp_generate_hcl") {
        match resolve_window_label(&state.registry, p.project.as_ref()) {
            Err(f) => Dispatched::Reply(Err(resolve_error(f))),
            Ok(label) => match begin_generation(state, label.as_str()) {
                Ok(event) => Dispatched::AwaitGeneration { window: label, event },
                Err(e) => Dispatched::Reply(Err(e)),
            },
        }
    } else {
        Dispatched::Reply(
            Err(
                BridgeError::new(
                    ErrorCode::UnknownCommand,
                    crate::protocol::msg2("Unknown bridge command: ", command),
                ),
            ),
        )
    }
}

/// Wraps an engine result's event into the reply shape.
fn lift(r: Result<(CmdResult, UiEvent), BridgeError>) -> (out: Result<
    (CmdResult, Option<UiEvent>),
    BridgeError,
>)
    ensures
        match r {
            Ok((res, ev)) => out == Ok::<(CmdResult, Option<UiEvent>), BridgeError>(
                (res, Some(ev)),
            ),
            Err(e) => out == Err::<(CmdResult, Option<UiEvent>), BridgeError>(e),
        },
{
    match r {
        Ok((res, ev)) => Ok((res, Some(ev))),
        Err(e) => Err(e),
    }
}

/// The error owed when window resolution fails.
fn resolve_error(f: ResolveFault) -> (e: BridgeError)
    ensures
        e.code == fault_code(f),
        e.details is None,
{
    let code = match f {
        ResolveFault::ProjectNotFound => ErrorCode::ProjectNotFound,
        ResolveFault::NoProject => ErrorCode::NoProject,
    };
    BridgeError::new(code, String::from_str("no window matches the request"))
}

} // verus!
