//! The command-line options of a migration.
use vstd::prelude::*;

verus! {

/// What a migration is asked to do: diff `target_branch` against
/// `source_branch` in `source_repo`, and copy the changed files into a new
/// branch of `dest_repo`; with `dry_run`, only report what would be done.
#[derive(Debug)]
pub struct Args {
    pub source_repo: String,
    pub target_branch: String,
    pub source_branch: String,
    pub dest_repo: String,
    pub dry_run: bool,
}

/// What follows the copying of the files.
#[derive(Debug, Clone, Copy, PartialEq, Eq, Structural)]
pub enum CommitStep {
    /// A dry run commits nothing.
    SkipForDryRun,
    /// No file was written or removed, so there is nothing to commit.
    NothingToCommit,
    /// Ask for a commit message and commit the touched paths.
    Commit,
}

/// What follows the copying of the files, given whether this is a dry run
/// and how many paths were touched.
pub open spec fn commit_step_for(dry_run: bool, touched: nat) -> CommitStep {
    if dry_run {
        CommitStep::SkipForDryRun
    } else if touched == 0 {
        CommitStep::NothingToCommit
    } else {
        CommitStep::Commit
    }
}

/// A dry run never commits; otherwise the touched paths are committed exactly
/// when there is at least one, and "nothing to commit" is reported exactly
/// when there is none.
pub proof fn lemma_commit_exactly_when_touched(touched: nat)
    ensures
        commit_step_for(true, touched) == CommitStep::SkipForDryRun,
        (commit_step_for(false, touched) == CommitStep::NothingToCommit) <==> touched == 0,
        (commit_step_for(false, touched) == CommitStep::Commit) <==> touched > 0,
{
}

impl Args {
    /// What follows the copying of the files, once `touched` paths were
    /// written or removed.
    pub fn commit_step(&self, touched: usize) -> (s: CommitStep)
        ensures
            s == commit_step_for(self.dry_run, touched as nat),
    {
        if self.dry_run {
            CommitStep::SkipForDryRun
        } else if touched == 0 {
            CommitStep::NothingToCommit
        } else {
            CommitStep::Commit
        }
    }
}

} // verus!
