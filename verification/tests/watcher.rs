use vmark::file_tree::{directory_entry, is_hidden_by_name};
use vmark::watcher::{
    change_event, event_kind_to_string, ignored_name, should_ignore_parts, should_ignore_path,
    within_debounce, EventKind, ModifyKind, PathPart, DEBOUNCE_INTERVAL_MS,
};

#[test]
fn test_event_kind_create() {
    let kind = EventKind::Create;
    assert_eq!(event_kind_to_string(&kind), Some("create"));
}

#[test]
fn test_event_kind_modify() {
    let kind = EventKind::Modify(ModifyKind::Data);
    assert_eq!(event_kind_to_string(&kind), Some("modify"));
}

#[test]
fn test_event_kind_remove() {
    let kind = EventKind::Remove;
    assert_eq!(event_kind_to_string(&kind), Some("remove"));
}

#[test]
fn test_event_kind_access_ignored() {
    let kind = EventKind::Access;
    assert_eq!(event_kind_to_string(&kind), None);
}

#[test]
fn test_event_kind_other_ignored() {
    let kind = EventKind::Other;
    assert_eq!(event_kind_to_string(&kind), None);
}

#[test]
fn a_change_of_name_is_a_rename() {
    assert_eq!(event_kind_to_string(&EventKind::Modify(ModifyKind::Name)), Some("rename"));
    for kind in [ModifyKind::Any, ModifyKind::Data, ModifyKind::Metadata, ModifyKind::Other] {
        assert_eq!(event_kind_to_string(&EventKind::Modify(kind)), Some("modify"));
    }
    assert_eq!(event_kind_to_string(&EventKind::Any), None);
}

#[test]
fn test_ignore_git_dir() {
    assert!(should_ignore_path("/project/.git/objects/abc"));
    assert!(should_ignore_path("/project/.git/HEAD"));
}

#[test]
fn test_ignore_obsidian_dir() {
    assert!(should_ignore_path("/vault/.obsidian/workspace.json"));
    assert!(should_ignore_path("/vault/.obsidian/plugins/foo"));
}

#[test]
fn test_ignore_node_modules() {
    assert!(should_ignore_path("/project/node_modules/pkg/index.js"));
}

#[test]
fn test_ignore_hidden_dirs() {
    assert!(should_ignore_path("/project/.hidden/file.txt"));
    assert!(should_ignore_path("/home/.config/app.toml"));
}

#[test]
fn test_allow_normal_paths() {
    assert!(!should_ignore_path("/project/src/foo.md"));
    assert!(!should_ignore_path("/project/notes/chapter1.md"));
    assert!(!should_ignore_path("/project/README.md"));
}

#[test]
fn test_ignore_ds_store() {
    assert!(should_ignore_path("/project/.DS_Store"));
}

#[test]
fn test_ignore_pycache() {
    assert!(should_ignore_path("/project/__pycache__/mod.pyc"));
}

#[test]
fn dots_that_stand_for_directories_are_not_hidden_names() {
    assert!(!should_ignore_path("./src/../notes/a.md"));
    assert!(!should_ignore_path("/"));
    assert!(!should_ignore_path(""));
    assert!(should_ignore_path("./.git"));
    assert!(!should_ignore_path("/project/node_modules_old/a.js"));
    assert!(!should_ignore_path("/project/a.git/b"));
}

#[test]
fn a_path_is_passed_over_for_one_ignored_part() {
    let normal = |s: &str| PathPart::Normal(s.to_string());
    assert!(!should_ignore_parts(&vec![]));
    assert!(!should_ignore_parts(&vec![PathPart::RootDir, PathPart::CurDir, PathPart::ParentDir, PathPart::Prefix]));
    assert!(!should_ignore_parts(&vec![PathPart::RootDir, normal("a"), normal("b.md")]));
    assert!(should_ignore_parts(&vec![PathPart::RootDir, normal("a"), normal(".b")]));
    assert!(should_ignore_parts(&vec![normal("__pycache__"), normal("a")]));
    assert!(should_ignore_parts(&vec![normal("a"), normal("node_modules"), normal("b")]));
}

#[test]
fn ignored_names() {
    for name in [".git", ".obsidian", ".svn", ".hg", "node_modules", ".DS_Store", ".Trash", "__pycache__", ".", "..", ".x"] {
        assert!(ignored_name(name), "{}", name);
    }
    for name in ["", "git", "node_modules2", "_pycache_", "a.b", "x."] {
        assert!(!ignored_name(name), "{}", name);
    }
}

#[test]
fn events_within_the_interval_are_dropped() {
    assert_eq!(DEBOUNCE_INTERVAL_MS, 200);
    assert!(!within_debounce(None, 0));
    assert!(!within_debounce(None, u64::MAX));
    assert!(within_debounce(Some(1000), 1000));
    assert!(within_debounce(Some(1000), 1199));
    assert!(!within_debounce(Some(1000), 1200));
    assert!(!within_debounce(Some(0), u64::MAX));
    assert!(within_debounce(Some(1000), 999));
}

#[test]
fn no_event_without_paths() {
    assert!(change_event("main", "/root", Vec::new(), "modify").is_none());
    let event = change_event("main", "/root", vec!["/root/a.md".to_string()], "modify").unwrap();
    assert_eq!(event.watch_id, "main");
    assert_eq!(event.root_path, "/root");
    assert_eq!(event.paths, vec!["/root/a.md"]);
    assert_eq!(event.kind, "modify");
}

#[test]
fn hidden_by_name_or_by_the_file_system() {
    assert!(is_hidden_by_name(".hidden.md"));
    assert!(is_hidden_by_name("."));
    assert!(!is_hidden_by_name("visible.md"));
    assert!(!is_hidden_by_name(""));
    assert!(!is_hidden_by_name("a.b"));
    let entry = directory_entry("visible.md".to_string(), "/d/visible.md".to_string(), false, false);
    assert_eq!(entry.name, "visible.md");
    assert_eq!(entry.path, "/d/visible.md");
    assert!(!entry.is_directory);
    assert!(!entry.is_hidden);
    assert!(directory_entry("visible.md".to_string(), "/d/visible.md".to_string(), true, true).is_hidden);
    assert!(directory_entry(".git".to_string(), "/d/.git".to_string(), true, false).is_hidden);
    assert!(directory_entry(".git".to_string(), "/d/.git".to_string(), true, false).is_directory);
}
