use codemigrator::{Args, CommitStep, CopyAction, CopyRun, CopyService};

#[test]
fn run_writes_found_files_and_removes_missing_ones_present_in_destination() {
    let mut run = CopyRun::new(false);
    assert_eq!(run.file_found("a.txt"), CopyAction::Write);
    assert_eq!(run.file_found("b.txt"), CopyAction::Write);
    assert_eq!(run.file_missing("keep.txt", true), CopyAction::Remove);
    assert_eq!(run.file_missing("gone.txt", false), CopyAction::Nothing);
    assert_eq!(run.finish(), vec!["a.txt", "b.txt", "keep.txt"]);
}

#[test]
fn dry_run_only_reports_and_touches_nothing() {
    let mut run = CopyRun::new(true);
    assert_eq!(run.file_found("a.txt"), CopyAction::ReportWrite);
    assert_eq!(run.file_missing("keep.txt", true), CopyAction::ReportRemove);
    assert_eq!(run.file_missing("gone.txt", false), CopyAction::Nothing);
    assert!(run.finish().is_empty());
}

#[test]
fn destination_joins_like_path_join() {
    assert_eq!(CopyService::destination("/dest", "a.txt"), "/dest/a.txt");
    assert_eq!(CopyService::destination("/dest/", "dir/a.txt"), "/dest/dir/a.txt");
    assert_eq!(CopyService::destination("", "a.txt"), "a.txt");
    assert_eq!(CopyService::destination("/dest", "/abs/a.txt"), "/abs/a.txt");
    assert_eq!(CopyService::destination("rel", ""), "rel/");
}

#[test]
fn report_lines_describe_each_action() {
    assert_eq!(
        CopyService::report(CopyAction::Write, "a.txt", "/d/a.txt"),
        Some("copied a.txt -> /d/a.txt".to_string())
    );
    assert_eq!(
        CopyService::report(CopyAction::ReportWrite, "a.txt", "/d/a.txt"),
        Some("would copy a.txt -> /d/a.txt".to_string())
    );
    assert_eq!(
        CopyService::report(CopyAction::Remove, "a.txt", "/d/a.txt"),
        Some("deleted /d/a.txt".to_string())
    );
    assert_eq!(
        CopyService::report(CopyAction::ReportRemove, "a.txt", "/d/a.txt"),
        Some("would delete /d/a.txt".to_string())
    );
    assert_eq!(CopyService::report(CopyAction::Nothing, "a.txt", "/d/a.txt"), None);
}

fn args(dry_run: bool) -> Args {
    Args {
        source_repo: "src".to_string(),
        target_branch: "origin/dev".to_string(),
        source_branch: "feature".to_string(),
        dest_repo: "dest".to_string(),
        dry_run,
    }
}

#[test]
fn commit_step_follows_dry_run_and_touched_paths() {
    assert_eq!(args(true).commit_step(3), CommitStep::SkipForDryRun);
    assert_eq!(args(false).commit_step(0), CommitStep::NothingToCommit);
    assert_eq!(args(false).commit_step(2), CommitStep::Commit);
}
