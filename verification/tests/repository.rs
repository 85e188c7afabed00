use codemigrator::{ChangeStatus, DiffService, GitError, GitRepository};
use tempfile::TempDir;

/// A throwaway repository whose commits are written directly into its
/// object database.
struct TestRepo {
    dir: TempDir,
    repo: gix::Repository,
}

impl TestRepo {
    fn init() -> TestRepo {
        let dir = TempDir::new().expect("create temp dir");
        let repo = gix::init(dir.path()).expect("init repository");
        TestRepo { dir, repo }
    }

    fn path(&self) -> String {
        self.dir.path().to_str().expect("utf-8 temp path").to_string()
    }

    /// Commits a tree holding exactly `files` onto `branch`, with `parents`.
    fn commit(&self, branch: &str, files: &[(&str, &str)], parents: &[gix::ObjectId]) -> gix::ObjectId {
        let mut entries: Vec<gix::objs::tree::Entry> = files
            .iter()
            .map(|(name, content)| gix::objs::tree::Entry {
                mode: gix::objs::tree::EntryKind::Blob.into(),
                filename: (*name).into(),
                oid: self.repo.write_blob(content.as_bytes()).expect("write blob").detach(),
            })
            .collect();
        entries.sort_by(|a, b| a.filename.cmp(&b.filename));
        let tree = gix::objs::Tree { entries };
        let tree_id = self.repo.write_object(&tree).expect("write tree").detach();
        let signature = gix::actor::SignatureRef {
            name: "Test".into(),
            email: "test@example.com".into(),
            time: "1700000000 +0000",
        };
        self.repo
            .commit_as(
                signature,
                signature,
                format!("refs/heads/{branch}").as_str(),
                "commit",
                tree_id,
                parents.iter().copied(),
            )
            .expect("commit")
            .detach()
    }
}

fn sorted_paths(files: &[codemigrator::ChangedFile]) -> Vec<String> {
    let mut paths: Vec<String> = files.iter().map(|f| f.path.clone()).collect();
    paths.sort();
    paths
}

#[test]
fn changed_files_reports_additions_modifications_and_deletions() {
    let repo = TestRepo::init();
    let base = repo.commit("main", &[("a.txt", "base a"), ("keep.txt", "keep")], &[]);
    repo.commit("feature", &[("a.txt", "changed a"), ("b.txt", "new b")], &[base]);

    let git_repo = GitRepository::open(&repo.path()).unwrap();
    let mut changes = git_repo.changed_files("main", "feature").unwrap();
    changes.sort_by(|a, b| a.path.cmp(&b.path));

    assert_eq!(changes.len(), 3);

    assert_eq!(changes[0].path, "a.txt");
    assert_eq!(changes[0].status, ChangeStatus::Modified);

    assert_eq!(changes[1].path, "b.txt");
    assert_eq!(changes[1].status, ChangeStatus::Added);

    assert_eq!(changes[2].path, "keep.txt");
    assert_eq!(changes[2].status, ChangeStatus::Deleted);
}

#[test]
fn changed_files_ignores_changes_made_on_target_after_branches_diverged() {
    let repo = TestRepo::init();
    let base = repo.commit("main", &[("shared.txt", "base")], &[]);
    repo.commit("feature", &[("shared.txt", "base"), ("feature_only.txt", "feature")], &[base]);
    repo.commit("main", &[("shared.txt", "base"), ("main_only.txt", "main")], &[base]);

    let git_repo = GitRepository::open(&repo.path()).unwrap();
    let changes = git_repo.changed_files("main", "feature").unwrap();
    let paths: Vec<_> = changes.iter().map(|c| c.path.clone()).collect();

    assert_eq!(paths, vec!["feature_only.txt".to_string()]);
}

#[test]
fn read_blob_returns_content_and_none_for_missing_or_deleted_paths() {
    let repo = TestRepo::init();
    let base = repo.commit("main", &[("a.txt", "hello")], &[]);
    repo.commit("feature", &[("b.txt", "world")], &[base]);

    let git_repo = GitRepository::open(&repo.path()).unwrap();

    assert_eq!(git_repo.read_blob("feature", "b.txt").unwrap(), Some(b"world".to_vec()));
    assert_eq!(git_repo.read_blob("feature", "a.txt").unwrap(), None);
    assert_eq!(git_repo.read_blob("main", "missing.txt").unwrap(), None);
}

#[test]
fn changed_files_only_includes_files_with_configured_extensions() {
    let repo = TestRepo::init();
    let base = repo.commit("main", &[("a.java", "base"), ("b.txt", "base")], &[]);
    repo.commit(
        "feature",
        &[("a.java", "changed"), ("b.txt", "changed"), ("c.json", "new")],
        &[base],
    );

    let selection = DiffService::changed_files(&repo.path(), "main", "feature").unwrap();
    let paths: Vec<_> = selection.files.iter().map(|f| f.path.clone()).collect();

    assert!(paths.contains(&"a.java".to_string()));
    assert!(paths.contains(&"c.json".to_string()));
    assert!(!paths.contains(&"b.txt".to_string()));
}

#[test]
fn changed_files_counts_every_change_before_filtering() {
    let repo = TestRepo::init();
    let base = repo.commit("main", &[("a.java", "base"), ("b.txt", "base")], &[]);
    repo.commit(
        "feature",
        &[("a.java", "changed"), ("b.txt", "changed"), ("c.json", "new"), ("d.properties", "x=1")],
        &[base],
    );

    let selection = DiffService::changed_files(&repo.path(), "main", "feature").unwrap();
    assert_eq!(selection.total, 4);
    assert_eq!(
        sorted_paths(&selection.files),
        vec!["a.java".to_string(), "c.json".to_string(), "d.properties".to_string()]
    );
}

#[test]
fn changed_files_reports_nested_paths_with_slashes() {
    let repo = TestRepo::init();
    let base = repo.commit("main", &[("top.txt", "base")], &[]);
    // A nested file needs a subtree.
    let sub_blob = repo.repo.write_blob(b"nested").unwrap().detach();
    let sub_tree = gix::objs::Tree {
        entries: vec![gix::objs::tree::Entry {
            mode: gix::objs::tree::EntryKind::Blob.into(),
            filename: "Main.java".into(),
            oid: sub_blob,
        }],
    };
    let sub_tree_id = repo.repo.write_object(&sub_tree).unwrap().detach();
    let top_blob = repo.repo.write_blob(b"base").unwrap().detach();
    let mut entries = vec![
        gix::objs::tree::Entry {
            mode: gix::objs::tree::EntryKind::Tree.into(),
            filename: "src".into(),
            oid: sub_tree_id,
        },
        gix::objs::tree::Entry {
            mode: gix::objs::tree::EntryKind::Blob.into(),
            filename: "top.txt".into(),
            oid: top_blob,
        },
    ];
    entries.sort_by(|a, b| a.filename.cmp(&b.filename));
    let tree_id = repo.repo.write_object(&gix::objs::Tree { entries }).unwrap().detach();
    let signature = gix::actor::SignatureRef {
        name: "Test".into(),
        email: "test@example.com".into(),
        time: "1700000000 +0000",
    };
    repo.repo
        .commit_as(signature, signature, "refs/heads/feature", "nested", tree_id, [base])
        .unwrap();

    let git_repo = GitRepository::open(&repo.path()).unwrap();
    let changes = git_repo.changed_files("main", "feature").unwrap();
    assert!(changes.iter().any(|c| c.path == "src/Main.java" && c.status == ChangeStatus::Added));
    assert_eq!(git_repo.read_blob("feature", "src/Main.java").unwrap(), Some(b"nested".to_vec()));

    let selection = DiffService::changed_files(&repo.path(), "main", "feature").unwrap();
    assert_eq!(sorted_paths(&selection.files), vec!["src/Main.java".to_string()]);
}

#[test]
fn changed_files_fails_for_unknown_branch() {
    let repo = TestRepo::init();
    repo.commit("main", &[("a.txt", "base")], &[]);
    let git_repo = GitRepository::open(&repo.path()).unwrap();
    assert!(matches!(git_repo.changed_files("main", "no-such-branch"), Err(GitError::Gix(_))));
}

#[test]
fn changed_files_fails_without_common_history() {
    let repo = TestRepo::init();
    repo.commit("main", &[("a.txt", "base")], &[]);
    repo.commit("other", &[("b.txt", "other")], &[]);
    let git_repo = GitRepository::open(&repo.path()).unwrap();
    assert!(matches!(git_repo.changed_files("main", "other"), Err(GitError::NoMergeBase)));
}

#[test]
fn open_fails_outside_a_repository() {
    let dir = TempDir::new().unwrap();
    let path = dir.path().join("nothing-here").to_str().unwrap().to_string();
    assert!(matches!(GitRepository::open(&path), Err(GitError::Gix(_))));
}

#[test]
fn diff_endpoints_run_from_the_merge_base_to_the_source() {
    let source = gix::ObjectId::from_bytes_or_panic(&[1u8; 20]);
    let base = gix::ObjectId::from_bytes_or_panic(&[2u8; 20]);
    match GitRepository::diff_endpoints(source, Some(base)) {
        Ok((old, new)) => {
            assert_eq!(old, base);
            assert_eq!(new, source);
        }
        Err(e) => panic!("unexpected error {e:?}"),
    }
    assert!(matches!(GitRepository::diff_endpoints(source, None), Err(GitError::NoMergeBase)));
}

#[test]
fn changed_files_is_empty_when_the_source_is_an_ancestor_of_the_target() {
    let repo = TestRepo::init();
    let base = repo.commit("feature", &[("a.txt", "base")], &[]);
    repo.commit("main", &[("a.txt", "changed"), ("b.txt", "new")], &[base]);
    let git_repo = GitRepository::open(&repo.path()).unwrap();
    assert!(git_repo.changed_files("main", "feature").unwrap().is_empty());
}
