//! Recent-project maintenance, cloud CLI classification and provisioning
//! output aggregation.

use terrastudio::azure::{az_list_result, classify_az_streams, AzProbe, AzSubscription};
use terrastudio::recent::{add_recent, remove_recent, RecentProject};
use terrastudio::terraform::{
    fold_terraform_message, terraform_json_result, ResourceChangeInfo, TerraformChange,
    TerraformDiagnostic, TerraformExit, TerraformJsonMessage, TerraformResourceChange,
};

fn recent(name: &str, path: &str, at: u64) -> RecentProject {
    RecentProject { name: name.to_string(), path: path.to_string(), opened_at: at }
}

#[test]
fn add_recent_prepends_and_dedupes_by_path() {
    let list = vec![recent("a", "/a", 1), recent("b", "/b", 2)];
    let out = add_recent(list, "a2".to_string(), "/a".to_string(), 9);
    assert_eq!(out.len(), 2);
    assert_eq!(out[0].name, "a2");
    assert_eq!(out[0].path, "/a");
    assert_eq!(out[0].opened_at, 9);
    assert_eq!(out[1].path, "/b");
}

#[test]
fn add_recent_caps_at_ten() {
    let mut list = Vec::new();
    for i in 0..12u64 {
        list.push(recent(&format!("p{}", i), &format!("/p{}", i), i));
    }
    let out = add_recent(list, "new".to_string(), "/new".to_string(), 99);
    assert_eq!(out.len(), 10);
    assert_eq!(out[0].path, "/new");
    assert_eq!(out[9].path, "/p8");
}

#[test]
fn remove_recent_drops_every_entry_of_the_path() {
    let list = vec![recent("a", "/a", 1), recent("b", "/b", 2), recent("a2", "/a", 3)];
    let out = remove_recent(list, "/a");
    assert_eq!(out.len(), 1);
    assert_eq!(out[0].path, "/b");
}

#[test]
fn az_stream_classification() {
    assert_eq!(
        classify_az_streams(false, "ERROR: Please run 'az login' to setup account.", ""),
        AzProbe::NotLoggedIn
    );
    assert_eq!(
        classify_az_streams(true, "WARNING: No subscriptions found for user.", "[]"),
        AzProbe::NoSubscriptions
    );
    assert_eq!(classify_az_streams(false, "some warning", "  \n"), AzProbe::NotLoggedIn);
    assert_eq!(classify_az_streams(true, "", "[{}]"), AzProbe::NeedsParse);
    assert_eq!(classify_az_streams(false, "AADSTS50076 mfa required", ""), AzProbe::NotLoggedIn);
}

#[test]
fn az_result_statuses() {
    let r = az_list_result(AzProbe::NotLoggedIn, None, None);
    assert_eq!(r.status, "not_logged_in");
    assert!(r.subscriptions.is_empty());
    let r = az_list_result(AzProbe::NeedsParse, Some(vec![]), None);
    assert_eq!(r.status, "no_subscriptions");
    let subs = vec![AzSubscription {
        id: "s1".to_string(),
        name: "Sub One".to_string(),
        tenant_id: "t".to_string(),
        is_default: true,
        state: "Enabled".to_string(),
    }];
    let r = az_list_result(AzProbe::NeedsParse, Some(subs), None);
    assert_eq!(r.status, "ok");
    assert_eq!(r.subscriptions.len(), 1);
    let r = az_list_result(AzProbe::NeedsParse, None, Some("bad json".to_string()));
    assert_eq!(r.status, "error");
    assert_eq!(r.error.as_deref(), Some("bad json"));
}

fn message(msg_type: &str) -> TerraformJsonMessage {
    TerraformJsonMessage {
        level: "info".to_string(),
        message: "msg".to_string(),
        module: "".to_string(),
        timestamp: "".to_string(),
        msg_type: msg_type.to_string(),
        diagnostic: None,
        hook_resource_addr: None,
        change: None,
    }
}

#[test]
fn fold_collects_diagnostics_and_changes() {
    let mut diagnostics: Vec<TerraformDiagnostic> = Vec::new();
    let mut changes: Vec<ResourceChangeInfo> = Vec::new();
    let mut m = message("apply_complete");
    m.diagnostic = Some(TerraformDiagnostic {
        severity: "error".to_string(),
        summary: "boom".to_string(),
        detail: "".to_string(),
        address: None,
        range: None,
    });
    m.change = Some(TerraformChange {
        resource: Some(TerraformResourceChange {
            addr: "azurerm_subnet.front".to_string(),
            resource: "front".to_string(),
            resource_type: "azurerm_subnet".to_string(),
            resource_name: "front".to_string(),
        }),
        action: Some("create".to_string()),
    });
    fold_terraform_message(&mut diagnostics, &mut changes, &m);
    assert_eq!(diagnostics.len(), 1);
    assert_eq!(changes.len(), 1);
    assert_eq!(changes[0].address, "azurerm_subnet.front");
    assert_eq!(changes[0].action, "create");
    assert!(changes[0].success);
    assert!(changes[0].error.is_none());
}

#[test]
fn fold_apply_errored_updates_existing_entry() {
    let mut diagnostics: Vec<TerraformDiagnostic> = Vec::new();
    let mut changes = vec![ResourceChangeInfo {
        address: "azurerm_subnet.front".to_string(),
        action: "create".to_string(),
        success: true,
        error: None,
    }];
    let mut m = message("apply_errored");
    m.message = "quota exceeded".to_string();
    m.hook_resource_addr = Some("azurerm_subnet.front".to_string());
    fold_terraform_message(&mut diagnostics, &mut changes, &m);
    assert_eq!(changes.len(), 1);
    assert!(!changes[0].success);
    assert_eq!(changes[0].error.as_deref(), Some("quota exceeded"));
}

#[test]
fn fold_apply_errored_records_fresh_failed_create() {
    let mut diagnostics: Vec<TerraformDiagnostic> = Vec::new();
    let mut changes: Vec<ResourceChangeInfo> = Vec::new();
    let mut m = message("apply_errored");
    m.message = "denied".to_string();
    m.hook_resource_addr = Some("azurerm_vnet.main".to_string());
    fold_terraform_message(&mut diagnostics, &mut changes, &m);
    assert_eq!(changes.len(), 1);
    assert_eq!(changes[0].address, "azurerm_vnet.main");
    assert_eq!(changes[0].action, "create");
    assert!(!changes[0].success);
    assert_eq!(changes[0].error.as_deref(), Some("denied"));
}

#[test]
fn fold_change_without_action_is_unknown() {
    let mut diagnostics: Vec<TerraformDiagnostic> = Vec::new();
    let mut changes: Vec<ResourceChangeInfo> = Vec::new();
    let mut m = message("planned_change");
    m.change = Some(TerraformChange {
        resource: Some(TerraformResourceChange {
            addr: "r.a".to_string(),
            resource: "a".to_string(),
            resource_type: "r".to_string(),
            resource_name: "a".to_string(),
        }),
        action: None,
    });
    fold_terraform_message(&mut diagnostics, &mut changes, &m);
    assert_eq!(changes[0].action, "unknown");
}

#[test]
fn json_result_bundles_exit_and_lists() {
    let r = terraform_json_result(TerraformExit { code: 1, success: false }, Vec::new(), Vec::new());
    assert_eq!(r.code, 1);
    assert!(!r.success);
    assert!(r.diagnostics.is_empty());
    assert!(r.resource_changes.is_empty());
}

#[test]
fn pending_paths_are_claimed_once() {
    let mut slot = terrastudio::pending::PendingOpenPath::new(Some("/p".to_string()));
    assert_eq!(slot.take(), Some("/p".to_string()));
    assert_eq!(slot.take(), None);
    let mut map = terrastudio::pending::PendingWindowPaths::new();
    map.insert("project-1".to_string(), "/p1".to_string());
    assert_eq!(map.take("project-2"), None);
    assert_eq!(map.take("project-1"), Some("/p1".to_string()));
    assert_eq!(map.take("project-1"), None);
}
