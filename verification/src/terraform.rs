//! Structured provisioning-tool output: the line-by-line JSON messages the
//! tool streams, and their aggregation into diagnostics and per-resource
//! change results. Spawning the tool and decoding each JSON line are the
//! host layer's concern.

use vstd::prelude::*;
use vstd::string::*;

use crate::keyed::{key_index, Keyed};
use crate::text::str_eq;

verus! {

/// One raw output line, tagged with its stream.
#[derive(Debug)]
pub struct TerraformOutput {
    pub stream: String,
    pub line: String,
}

/// The tool's exit state.
#[derive(Clone, Copy, Debug)]
pub struct TerraformExit {
    pub code: i32,
    pub success: bool,
}

/// A status event around a run.
#[derive(Debug)]
pub struct TerraformStatus {
    pub status: String,
    pub command: String,
}

/// A source position inside a configuration file.
#[derive(Clone, Copy, Debug)]
pub struct TerraformPosition {
    pub line: u32,
    pub column: u32,
    pub byte: u32,
}

/// A source range inside a configuration file.
#[derive(Debug)]
pub struct TerraformRange {
    pub filename: String,
    pub start: TerraformPosition,
    pub end: TerraformPosition,
}

impl Clone for TerraformRange {
    fn clone(&self) -> (r: Self)
        ensures
            r == *self,
    {
        TerraformRange { filename: self.filename.clone(), start: self.start, end: self.end }
    }
}

/// One diagnostic (error or warning) the tool reported.
#[derive(Debug)]
pub struct TerraformDiagnostic {
    pub severity: String,
    pub summary: String,
    pub detail: String,
    pub address: Option<String>,
    pub range: Option<TerraformRange>,
}

impl Clone for TerraformDiagnostic {
    fn clone(&self) -> (r: Self)
        ensures
            r == *self,
    {
        TerraformDiagnostic {
            severity: self.severity.clone(),
            summary: self.summary.clone(),
            detail: self.detail.clone(),
            address: crate::model::clone_opt_string(&self.address),
            range: match &self.range {
                Some(rg) => Some(rg.clone()),
                None => None,
            },
        }
    }
}

/// The resource a change message concerns.
#[derive(Debug)]
pub struct TerraformResourceChange {
    pub addr: String,
    pub resource: String,
    pub resource_type: String,
    pub resource_name: String,
}

impl Clone for TerraformResourceChange {
    fn clone(&self) -> (r: Self)
        ensures
            r == *self,
    {
        TerraformResourceChange {
            addr: self.addr.clone(),
            resource: self.resource.clone(),
            resource_type: self.resource_type.clone(),
            resource_name: self.resource_name.clone(),
        }
    }
}

/// A change message body.
#[derive(Debug)]
pub struct TerraformChange {
    pub resource: Option<TerraformResourceChange>,
    pub action: Option<String>,
}

impl Clone for TerraformChange {
    fn clone(&self) -> (r: Self)
        ensures
            r == *self,
    {
        TerraformChange {
            resource: match &self.resource {
                Some(rc) => Some(rc.clone()),
                None => None,
            },
            action: crate::model::clone_opt_string(&self.action),
        }
    }
}

/// One line of the tool's JSON output stream, as far as the aggregation
/// reads it. Of the hook payload only the resource address matters.
#[derive(Debug)]
pub struct TerraformJsonMessage {
    pub level: String,
    pub message: String,
    pub module: String,
    pub timestamp: String,
    pub msg_type: String,
    pub diagnostic: Option<TerraformDiagnostic>,
    pub hook_resource_addr: Option<String>,
    pub change: Option<TerraformChange>,
}

/// What one resource-level change attempt came to.
#[derive(Debug)]
pub struct ResourceChangeInfo {
    pub address: String,
    pub action: String,
    pub success: bool,
    pub error: Option<String>,
}

impl Clone for ResourceChangeInfo {
    fn clone(&self) -> (r: Self)
        ensures
            r == *self,
    {
        ResourceChangeInfo {
            address: self.address.clone(),
            action: self.action.clone(),
            success: self.success,
            error: crate::model::clone_opt_string(&self.error),
        }
    }
}

impl Keyed for ResourceChangeInfo {
    open spec fn key(&self) -> Seq<char> {
        self.address@
    }

    fn matches(&self, k: &str) -> (r: bool) {
        str_eq(self.address.as_str(), k)
    }
}

/// The aggregated result of a JSON-mode run.
#[derive(Debug)]
pub struct TerraformJsonResult {
    pub success: bool,
    pub code: i32,
    pub diagnostics: Vec<TerraformDiagnostic>,
    pub resource_changes: Vec<ResourceChangeInfo>,
}

/// The message marks a failed apply of one resource.
pub open spec fn is_apply_errored(m: TerraformJsonMessage) -> bool {
    m.msg_type@ == "apply_errored"@
}

/// The running change list after one message's change body is recorded:
/// a change message appends its resource with its action (or `unknown`)
/// and the error state; otherwise the list is unchanged.
pub open spec fn changes_after_record(
    pre: Seq<ResourceChangeInfo>,
    mid: Seq<ResourceChangeInfo>,
    msg: TerraformJsonMessage,
) -> bool {
    match msg.change {
        Some(c) => match c.resource {
            Some(rc) => {
                &&& mid.len() == pre.len() + 1
                &&& mid.subrange(0, pre.len() as int) == pre
                &&& mid.last().address == rc.addr
                &&& (match c.action {
                    Some(a) => mid.last().action == a,
                    None => mid.last().action@ == "unknown"@,
                })
                &&& mid.last().success == !is_apply_errored(msg)
                &&& mid.last().error == (if is_apply_errored(msg) {
                    Some(msg.message)
                } else {
                    None::<String>
                })
            },
            None => mid == pre,
        },
        None => mid == pre,
    }
}

/// The running change list after a failed apply's hook address is applied:
/// the first entry with that address is marked failed with the message, or
/// a fresh failed `create` entry is appended; without a failed apply or a
/// hook address the list is unchanged.
pub open spec fn changes_after_errored(
    mid: Seq<ResourceChangeInfo>,
    post: Seq<ResourceChangeInfo>,
    msg: TerraformJsonMessage,
) -> bool {
    if is_apply_errored(msg) {
        match msg.hook_resource_addr {
            Some(addr) => {
                if crate::keyed::has_key(mid, addr@) {
                    let k = key_index(mid, addr@);
                    &&& post.len() == mid.len()
                    &&& (forall|j: int| 0 <= j < mid.len() && j != k ==> post[j] == mid[j])
                    &&& post[k].address == mid[k].address
                    &&& post[k].action == mid[k].action
                    &&& !post[k].success
                    &&& post[k].error == Some(msg.message)
                } else {
                    &&& post.len() == mid.len() + 1
                    &&& post.subrange(0, mid.len() as int) == mid
                    &&& post.last().address == addr
                    &&& post.last().action@ == "create"@
                    &&& !post.last().success
                    &&& post.last().error == Some(msg.message)
                }
            },
            None => post == mid,
        }
    } else {
        post == mid
    }
}

/// Folds one JSON message into the running diagnostics and change lists.
pub fn fold_terraform_message(
    diagnostics: &mut Vec<TerraformDiagnostic>,
    changes: &mut Vec<ResourceChangeInfo>,
    msg: &TerraformJsonMessage,
)
    ensures
        final(diagnostics)@ == (match msg.diagnostic {
            Some(d) => old(diagnostics)@.push(d),
            None => old(diagnostics)@,
        }),
        exists|mid: Seq<ResourceChangeInfo>|
            #[trigger] changes_after_record(old(changes)@, mid, *msg) && changes_after_errored(
                mid,
                final(changes)@,
                *msg,
            ),
{
    match &msg.diagnostic {
        Some(d) => diagnostics.push(d.clone()),
        None => {},
    }
    let errored = str_eq(msg.msg_type.as_str(), "apply_errored");
    match &msg.change {
        Some(c) => match &c.resource {
            Some(rc) => {
                let action = match &c.action {
                    Some(a) => a.clone(),
                    None => String::from_str("unknown"),
                };
                changes.push(
                    ResourceChangeInfo {
                        address: rc.addr.clone(),
                        action,
                        success: !errored,
                        error: if errored {
                            Some(msg.message.clone())
                        } else {
                            None
                        },
                    },
                );
                proof {
                    assert(changes@.subrange(0, old(changes)@.len() as int) =~= old(changes)@);
                }
            },
            None => {},
        },
        None => {},
    }
    let ghost mid_g = changes@;
    proof {
        assert(changes_after_record(old(changes)@, mid_g, *msg));
    }
    if errored {
        match &msg.hook_resource_addr {
            Some(addr) => {
                let found = crate::keyed::find_index(changes, addr.as_str());
                match found {
                    Some(k) => {
                        let ghost pre_upd = changes@;
                        let mut entry = changes.remove(k);
                        entry.success = false;
                        entry.error = Some(msg.message.clone());
                        changes.insert(k, entry);
                        proof {
                            assert(changes@ =~= pre_upd.update(k as int, changes@[k as int]));
                        }
                    },
                    None => {
                        changes.push(
                            ResourceChangeInfo {
                                address: addr.clone(),
                                action: String::from_str("create"),
                                success: false,
                                error: Some(msg.message.clone()),
                            },
                        );
                        proof {
                            assert(changes@.subrange(0, mid_g.len() as int) =~= mid_g);
                        }
                    },
                }
            },
            None => {},
        }
    }
    proof {
        assert(changes_after_errored(mid_g, changes@, *msg));
    }
}

/// Bundles the aggregated run outcome.
pub fn terraform_json_result(
    exit: TerraformExit,
    diagnostics: Vec<TerraformDiagnostic>,
    resource_changes: Vec<ResourceChangeInfo>,
) -> (r: TerraformJsonResult)
    ensures
        r.success == exit.success,
        r.code == exit.code,
        r.diagnostics == diagnostics,
        r.resource_changes == resource_changes,
{
    TerraformJsonResult { success: exit.success, code: exit.code, diagnostics, resource_changes }
}

} // verus!
