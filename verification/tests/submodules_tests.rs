use build_tree_sitter::submodules::{
    get_remote_name_from_url, render_module, set_val, Module, ModuleTable,
};
use build_tree_sitter::sync::{plan_remote, plan_sync, RemoteAction, RemoteState, SyncStep};

#[test]
fn set_val_updates_branch_and_path() {
    let mut m = Module::default();
    assert!(set_val(&mut m, "branch", "main"));
    assert!(set_val(&mut m, "path", "vendor/dep"));
    assert_eq!(m.branch, "main");
    assert_eq!(m.path, "vendor/dep");
    assert!(m.url.is_empty());
}

#[test]
fn set_val_collects_urls_without_duplicates() {
    let mut m = Module::default();
    assert!(set_val(&mut m, "url", "git@host:owner/dep"));
    assert!(set_val(&mut m, "url", "https://host/owner/dep"));
    assert!(set_val(&mut m, "url", "git@host:owner/dep"));
    assert_eq!(m.url, vec![
        String::from("git@host:owner/dep"),
        String::from("https://host/owner/dep"),
    ]);
}

#[test]
fn set_val_reports_unknown_keys_and_changes_nothing() {
    let mut m = Module::default();
    assert!(set_val(&mut m, "branch", "main"));
    assert!(!set_val(&mut m, "shallow", "true"));
    assert_eq!(m.branch, "main");
    assert_eq!(m.path, "");
    assert!(m.url.is_empty());
}

#[test]
fn table_groups_entries_by_module_name() {
    let mut t = ModuleTable::new();
    assert!(t.upsert("dep-a", "path", "vendor/a"));
    assert!(t.upsert("dep-b", "path", "vendor/b"));
    assert!(t.upsert("dep-a", "branch", "main"));
    assert!(t.upsert("dep-a", "url", "git@host:owner/a"));
    assert_eq!(t.len(), 2);
    assert_eq!(t.entries[0].name, "dep-a");
    assert_eq!(t.entries[0].module.path, "vendor/a");
    assert_eq!(t.entries[0].module.branch, "main");
    assert_eq!(t.entries[0].module.url, vec![String::from("git@host:owner/a")]);
    assert_eq!(t.entries[1].name, "dep-b");
    assert_eq!(t.entries[1].module.path, "vendor/b");
}

#[test]
fn table_keeps_first_seen_order() {
    let mut t = ModuleTable::new();
    assert!(t.upsert("zeta", "path", "z"));
    assert!(t.upsert("alpha", "path", "a"));
    assert!(t.upsert("zeta", "branch", "main"));
    assert_eq!(t.entries[0].name, "zeta");
    assert_eq!(t.entries[1].name, "alpha");
}

#[test]
fn renders_a_module_in_configuration_syntax() {
    let mut t = ModuleTable::new();
    assert!(t.upsert("dep", "branch", "main"));
    assert!(t.upsert("dep", "path", "vendor/dep"));
    assert!(t.upsert("dep", "url", "git@host:owner/dep"));
    assert!(t.upsert("dep", "url", "https://host/owner/dep"));
    assert_eq!(
        render_module(&t.entries[0]),
        "[submodule \"dep\"]\n\tbranch = \"main\"\n\tpath = \"vendor/dep\"\n\turl = \"git@host:owner/dep\"\n\turl = \"https://host/owner/dep\"\n\n"
    );
}

#[test]
fn renders_unset_fields_as_absent_lines() {
    let mut t = ModuleTable::new();
    assert!(t.upsert("dep", "url", "git@host:owner/dep"));
    assert_eq!(
        render_module(&t.entries[0]),
        "[submodule \"dep\"]\n\turl = \"git@host:owner/dep\"\n\n"
    );
}

#[test]
fn remote_name_comes_from_the_owner_segment() {
    assert_eq!(
        get_remote_name_from_url("git@github.com:helix-editor/helix"),
        "helix-editor"
    );
}

#[test]
fn remote_name_stops_at_the_next_colon() {
    assert_eq!(get_remote_name_from_url("host:owner:extra"), "owner");
}

#[test]
fn remote_name_is_empty_when_a_slash_follows_the_colon() {
    assert_eq!(get_remote_name_from_url("ssh://host/owner/repo"), "");
}

#[test]
fn remote_name_of_trailing_segment_reaches_the_end() {
    assert_eq!(get_remote_name_from_url("host:owner"), "owner");
}

#[test]
fn remote_reconciliation_covers_every_state() {
    let desired = "git@host:owner/dep";
    let same = RemoteState::Found { url: Some(String::from(desired)) };
    assert_eq!(plan_remote(&same, desired), RemoteAction::Keep);
    let other = RemoteState::Found { url: Some(String::from("https://else/where")) };
    assert_eq!(plan_remote(&other, desired), RemoteAction::SetUrl);
    let unreadable = RemoteState::Found { url: None };
    assert_eq!(plan_remote(&unreadable, desired), RemoteAction::SetUrl);
    assert_eq!(plan_remote(&RemoteState::Missing, desired), RemoteAction::Create);
    assert_eq!(plan_remote(&RemoteState::QueryFailed, desired), RemoteAction::Report);
}

#[test]
fn sync_plan_fetches_an_existing_tree() {
    let steps = plan_sync(true, "https://host/owner/g", &Some(String::from("abc123")));
    assert_eq!(steps.len(), 2);
    assert!(matches!(steps[0], SyncStep::Fetch));
    match &steps[1] {
        SyncStep::Checkout { rev } => assert_eq!(rev, "abc123"),
        other => panic!("expected a checkout step, got {other:?}"),
    }
}

#[test]
fn sync_plan_clones_a_missing_tree() {
    let steps = plan_sync(false, "https://host/owner/g", &None);
    assert_eq!(steps.len(), 1);
    match &steps[0] {
        SyncStep::CloneFrom { url } => assert_eq!(url, "https://host/owner/g"),
        other => panic!("expected a clone step, got {other:?}"),
    }
}
