//! String utilities, display names, file-name and path validation.

use terrastudio::names::{get_display_name, type_slug};
use terrastudio::paths::{
    ensure_within, extract_tstudio_path, get_secrets_path, project_file_path, sanitize_filename,
    template_id_ok,
};
use terrastudio::text::{
    contains_sub, ends_with, eq_ignore_case, last_segment, split_slash, starts_with, str_eq,
    take_prefix, to_lower,
};

#[test]
fn lowercasing_and_case_insensitive_equality() {
    assert_eq!(to_lower("AzureRM/Networking"), "azurerm/networking");
    assert!(eq_ignore_case("Prod", "pROD"));
    assert!(!eq_ignore_case("Prod", "Prod2"));
    assert!(str_eq("same", "same"));
    assert!(!str_eq("same", "other"));
}

#[test]
fn substring_search() {
    assert!(contains_sub("azurerm/networking/virtual_network", "networking"));
    assert!(!contains_sub("azurerm", "azurerms"));
    assert!(contains_sub("anything", ""));
    assert!(starts_with("abcdef", "abc"));
    assert!(!starts_with("abcdef", "bcd"));
    assert!(ends_with("main.tstudio", ".tstudio"));
    assert!(!ends_with("main.json", ".tstudio"));
}

#[test]
fn slash_splitting_keeps_empty_segments() {
    let parts = split_slash("a//b/");
    assert_eq!(parts, vec!["a".to_string(), "".to_string(), "b".to_string(), "".to_string()]);
    assert_eq!(split_slash("plain"), vec!["plain".to_string()]);
}

#[test]
fn last_segment_and_prefix() {
    assert_eq!(last_segment("azurerm/networking/virtual_network"), "virtual_network");
    assert_eq!(last_segment("bare"), "bare");
    assert_eq!(take_prefix("abcdefghij", 4), "abcd");
    assert_eq!(take_prefix("ab", 4), "ab");
}

#[test]
fn display_name_humanizes_the_last_segment() {
    assert_eq!(get_display_name("azurerm/networking/virtual_network"), "Virtual Network");
    assert_eq!(get_display_name("azurerm/compute/vm"), "Vm");
    assert_eq!(get_display_name("a/__odd__name"), "Odd Name");
    assert_eq!(get_display_name("trailing/"), "");
}

#[test]
fn slug_truncates_to_twenty_characters() {
    assert_eq!(type_slug("x/virtual_network"), "virtual_network");
    assert_eq!(type_slug("x/this_is_a_very_long_type_segment"), "this_is_a_very_long_");
}

#[test]
fn filename_sanitizing() {
    assert_eq!(sanitize_filename("main.tf").unwrap(), "main.tf");
    assert!(sanitize_filename("").is_err());
    assert!(sanitize_filename("a/b").is_err());
    assert!(sanitize_filename("a\\b").is_err());
    assert!(sanitize_filename("..").is_err());
    assert!(sanitize_filename(".").is_err());
    assert!(sanitize_filename("a..b").is_err());
    assert!(sanitize_filename("a\0b").is_err());
}

#[test]
fn ensure_within_accepts_descendants_only() {
    assert_eq!(ensure_within("/base", "/base").unwrap(), "/base");
    assert_eq!(ensure_within("/base", "/base/sub/file").unwrap(), "/base/sub/file");
    assert!(ensure_within("/base", "/based/file").is_err());
    assert!(ensure_within("/base", "/other").is_err());
}

#[test]
fn secrets_ids_are_restricted() {
    assert_eq!(get_secrets_path("abc-123").unwrap(), "abc-123.json");
    assert!(get_secrets_path("").is_err());
    assert!(get_secrets_path("a/b").is_err());
    assert!(get_secrets_path("a_b").is_err());
}

#[test]
fn template_ids_allow_underscores_too() {
    assert!(template_id_ok("my-template_1"));
    assert!(!template_id_ok(""));
    assert!(!template_id_ok("has space"));
}

#[test]
fn project_file_path_is_canonical() {
    assert_eq!(project_file_path("/projects/demo", "demo"), "/projects/demo/demo.tstudio");
}

#[test]
fn launch_arguments_yield_the_project_directory() {
    let args = vec![
        "app".to_string(),
        "--flag".to_string(),
        "/home/u/p/demo.tstudio".to_string(),
    ];
    assert_eq!(extract_tstudio_path(&args), Some("/home/u/p".to_string()));
    let none = vec!["app".to_string(), "--flag".to_string(), "notes.txt".to_string()];
    assert_eq!(extract_tstudio_path(&none), None);
    let bare = vec!["app".to_string(), "demo.tstudio".to_string()];
    assert_eq!(extract_tstudio_path(&bare), Some("".to_string()));
}

#[test]
fn user_template_entries_carry_their_full_path() {
    let e = terrastudio::paths::user_template_entry("/data/templates", "network", "vnet.json");
    assert_eq!(e.category, "network");
    assert_eq!(e.filename, "vnet.json");
    assert_eq!(e.path, "/data/templates/network/vnet.json");
}
