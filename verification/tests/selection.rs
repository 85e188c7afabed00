use codemigrator::git_repository::{change_to_file, changes_to_files, file_for_change, path_text};
use codemigrator::{ChangeStatus, ChangedFile, DiffService, GitError, TreeChange};

fn file(status: ChangeStatus, path: &str) -> ChangedFile {
    ChangedFile { status, path: path.to_string(), previous_path: None }
}

#[test]
fn is_included_accepts_the_configured_extensions() {
    assert!(DiffService::is_included("A.java"));
    assert!(DiffService::is_included("src/main/App.java"));
    assert!(DiffService::is_included("config/app.properties"));
    assert!(DiffService::is_included("data.json"));
    assert!(DiffService::is_included("archive.tar.json"));
}

#[test]
fn is_included_refuses_other_extensions_and_names_without_one() {
    assert!(!DiffService::is_included("b.txt"));
    assert!(!DiffService::is_included("java"));
    assert!(!DiffService::is_included(".json"));
    assert!(!DiffService::is_included("dir.json/readme"));
    assert!(!DiffService::is_included("a.JAVA"));
    assert!(!DiffService::is_included("a.jsonx"));
    assert!(!DiffService::is_included("a."));
    assert!(!DiffService::is_included(""));
}

#[test]
fn is_included_follows_path_file_name_rules() {
    // Trailing separators and `.` components do not hide the file name.
    assert!(DiffService::is_included("dir/a.json/"));
    assert!(DiffService::is_included("dir/a.json/."));
    assert!(DiffService::is_included("a.json//"));
    // A name ending in `..` has no file name.
    assert!(!DiffService::is_included("a.json/.."));
    assert!(!DiffService::is_included("."));
    assert!(!DiffService::is_included("/"));
}

#[test]
fn included_extensions_are_listed_in_order() {
    assert_eq!(DiffService::included_extensions(), vec!["java", "properties", "json"]);
}

#[test]
fn select_keeps_included_files_in_order_and_counts_all() {
    let files = vec![
        file(ChangeStatus::Modified, "a.java"),
        file(ChangeStatus::Modified, "b.txt"),
        file(ChangeStatus::Added, "c.json"),
        file(ChangeStatus::Deleted, "d.properties"),
        file(ChangeStatus::Added, "e"),
    ];
    let selection = DiffService::select(&files);
    assert_eq!(selection.total, 5);
    let paths: Vec<_> = selection.files.iter().map(|f| f.path.clone()).collect();
    assert_eq!(paths, vec!["a.java", "c.json", "d.properties"]);
    assert_eq!(selection.files[2].status, ChangeStatus::Deleted);
}

#[test]
fn select_twice_keeps_the_same_files() {
    let files = vec![file(ChangeStatus::Added, "x.json"), file(ChangeStatus::Added, "y.md")];
    let once = DiffService::select(&files);
    let twice = DiffService::select(&once.files);
    assert_eq!(twice.total, 1);
    assert_eq!(twice.files[0].path, "x.json");
}

#[test]
fn select_of_nothing_is_nothing() {
    let selection = DiffService::select(&Vec::new());
    assert_eq!(selection.total, 0);
    assert!(selection.files.is_empty());
}

#[test]
fn status_line_labels_like_git_status() {
    assert_eq!(file(ChangeStatus::Added, "a.java").status_line(), "new file:   a.java");
    assert_eq!(file(ChangeStatus::Modified, "a.java").status_line(), "modified:   a.java");
    assert_eq!(file(ChangeStatus::Deleted, "a.java").status_line(), "deleted:    a.java");
    let renamed = ChangedFile {
        status: ChangeStatus::Renamed,
        path: "new.json".to_string(),
        previous_path: Some("old.json".to_string()),
    };
    assert_eq!(renamed.status_line(), "renamed:    old.json -> new.json");
    let copied = ChangedFile {
        status: ChangeStatus::Copied,
        path: "b.json".to_string(),
        previous_path: Some("a.json".to_string()),
    };
    assert_eq!(copied.status_line(), "copied:     a.json -> b.json");
}

#[test]
fn change_to_file_maps_each_kind_of_change() {
    let added = change_to_file(&TreeChange::Addition { location: b"a.txt".to_vec() });
    assert_eq!((added.status, added.path.as_str(), added.previous_path), (ChangeStatus::Added, "a.txt", None));
    let deleted = change_to_file(&TreeChange::Deletion { location: b"d.txt".to_vec() });
    assert_eq!(deleted.status, ChangeStatus::Deleted);
    let modified = change_to_file(&TreeChange::Modification { location: b"m.txt".to_vec() });
    assert_eq!(modified.status, ChangeStatus::Modified);
    let renamed = change_to_file(&TreeChange::Rewrite {
        source_location: b"old.txt".to_vec(),
        location: b"new.txt".to_vec(),
        copy: false,
    });
    assert_eq!(renamed.status, ChangeStatus::Renamed);
    assert_eq!(renamed.path, "new.txt");
    assert_eq!(renamed.previous_path.as_deref(), Some("old.txt"));
    let copied = change_to_file(&TreeChange::Rewrite {
        source_location: b"src.txt".to_vec(),
        location: b"dst.txt".to_vec(),
        copy: true,
    });
    assert_eq!(copied.status, ChangeStatus::Copied);
    assert_eq!(copied.previous_path.as_deref(), Some("src.txt"));
}

#[test]
fn changes_to_files_keeps_order_and_length() {
    let changes = vec![
        TreeChange::Deletion { location: b"z".to_vec() },
        TreeChange::Addition { location: b"a".to_vec() },
    ];
    let files = changes_to_files(&changes);
    assert_eq!(files.len(), 2);
    assert_eq!(files[0].path, "z");
    assert_eq!(files[1].path, "a");
}

#[test]
fn path_text_replaces_ill_formed_bytes() {
    assert_eq!(path_text("dír/ü.json".as_bytes()), "dír/ü.json");
    assert_eq!(path_text(b"a\xffb"), "a\u{FFFD}b");
}

#[test]
fn file_for_change_keeps_the_source_only_for_rewrites() {
    let rewrite = TreeChange::Rewrite { source_location: vec![], location: vec![], copy: false };
    let f = file_for_change(&rewrite, "new".to_string(), Some("old".to_string()));
    assert_eq!(f.status, ChangeStatus::Renamed);
    assert_eq!(f.path, "new");
    assert_eq!(f.previous_path.as_deref(), Some("old"));
    let addition = TreeChange::Addition { location: vec![] };
    let g = file_for_change(&addition, "x".to_string(), Some("ignored".to_string()));
    assert_eq!(g.status, ChangeStatus::Added);
    assert_eq!(g.previous_path, None);
}

#[test]
fn select_result_passes_errors_on_and_selects_from_a_list() {

    assert!(matches!(
        DiffService::select_result(Err(GitError::NoMergeBase)),
        Err(GitError::NoMergeBase)
    ));
    let files = vec![file(ChangeStatus::Added, "a.json"), file(ChangeStatus::Added, "b.txt")];
    let selection = DiffService::select_result(Ok(files)).unwrap();
    assert_eq!(selection.total, 2);
    assert_eq!(selection.files.len(), 1);
    assert_eq!(selection.files[0].path, "a.json");
}
