//! The `git` invocations that update the destination repository: bringing a
//! branch up to date from `origin`, creating the migration branch, staging
//! and committing the migrated files. The invocations are planned here; the
//! caller runs them and reports how they ended.
use vstd::prelude::*;
use crate::git_repository::GitRepository;
use crate::text::{strings, strip_prefix, strip_prefix_or_keep, trim, trim_seq, starts_with};

verus! {

/// One run of `git`: its arguments, the context given when `git` cannot be
/// started, and the message given when it exits unsuccessfully.
pub struct GitCommand {
    pub args: Vec<String>,
    pub context: String,
    pub failure: String,
}

impl GitCommand {
    /// How the run ended, given whether `git` exited successfully.
    pub fn check(&self, success: bool) -> (r: Result<(), String>)
        ensures
            success ==> r is Ok,
            !success ==> (r matches Err(m) && m@ == self.failure@),
    {
        if success {
            Ok(())
        } else {
            Err(self.failure.clone())
        }
    }
}

/// The prefix that names a remote-tracking branch of `origin`.
pub open spec fn origin_prefix() -> Seq<char> {
    "origin/"@
}

/// The branch name as `origin` knows it: without the `origin/` prefix.
pub open spec fn remote_branch(branch: Seq<char>) -> Seq<char> {
    strip_prefix_or_keep(branch, origin_prefix())
}

/// The arguments that find the branch checked out in `repo`.
pub open spec fn current_branch_args(repo: Seq<char>) -> Seq<Seq<char>> {
    seq!["-C"@, repo, "symbolic-ref"@, "--quiet"@, "--short"@, "HEAD"@]
}

/// The branch checked out, from how `git symbolic-ref` ended and what it
/// printed: none where it failed (a detached `HEAD`).
pub open spec fn current_branch_of(success: bool, stdout: Seq<char>) -> Option<Seq<char>> {
    if success {
        Some(trim_seq(stdout))
    } else {
        None
    }
}

/// Whether updating `branch` pulls into the checked-out branch (rather than
/// fetching into a branch that is not checked out).
pub open spec fn pulls_checked_out(branch: Seq<char>, current: Option<Seq<char>>) -> bool {
    current == Some(remote_branch(branch))
}

/// The arguments that bring `branch` of `repo` up to date from `origin`: a
/// fast-forward pull where it is checked out, otherwise a fetch into it.
pub open spec fn pull_args(repo: Seq<char>, branch: Seq<char>, current: Option<Seq<char>>) -> Seq<
    Seq<char>,
> {
    let b = remote_branch(branch);
    if pulls_checked_out(branch, current) {
        seq!["-C"@, repo, "pull"@, "--ff-only"@, "origin"@, b]
    } else {
        seq!["-C"@, repo, "fetch"@, "origin"@, b + ":"@ + b]
    }
}

/// The context given when `git` cannot be started to update `branch`.
pub open spec fn pull_context(branch: Seq<char>, current: Option<Seq<char>>) -> Seq<char> {
    let b = remote_branch(branch);
    if pulls_checked_out(branch, current) {
        "failed to run git pull --ff-only origin "@ + b
    } else {
        "failed to run git fetch origin "@ + (b + ":"@ + b)
    }
}

/// The message given when updating `branch` of `repo` fails.
pub open spec fn pull_failure(repo: Seq<char>, branch: Seq<char>) -> Seq<char> {
    "failed to update branch "@ + remote_branch(branch) + " in "@ + repo + " from origin"@
}

/// The arguments that create and check out `branch` in `repo`.
pub open spec fn create_branch_args(repo: Seq<char>, branch: Seq<char>) -> Seq<Seq<char>> {
    seq!["-C"@, repo, "checkout"@, "-b"@, branch]
}

/// The arguments that stage exactly `paths` in `repo`.
pub open spec fn stage_args(repo: Seq<char>, paths: Seq<Seq<char>>) -> Seq<Seq<char>> {
    seq!["-C"@, repo, "add"@, "--"@] + paths
}

/// The arguments that commit exactly `paths` in `repo` with `message`: the
/// paths are named after `--`, so nothing else that is staged is committed.
pub open spec fn commit_args(repo: Seq<char>, message: Seq<char>, paths: Seq<Seq<char>>) -> Seq<
    Seq<char>,
> {
    seq!["-C"@, repo, "commit"@, "-m"@, message, "--"@] + paths
}

/// Naming a branch `b` or `origin/b` updates the same branch the same way.
pub proof fn lemma_origin_prefix_is_optional(
    repo: Seq<char>,
    b: Seq<char>,
    current: Option<Seq<char>>,
)
    requires
        !starts_with(b, origin_prefix()),
    ensures
        remote_branch(origin_prefix() + b) == b,
        remote_branch(b) == b,
        pull_args(repo, origin_prefix() + b, current) == pull_args(repo, b, current),
        pull_context(origin_prefix() + b, current) == pull_context(b, current),
        pull_failure(repo, origin_prefix() + b) == pull_failure(repo, b),
{
    reveal_strlit("origin/");
    let full = origin_prefix() + b;
    assert(full.take(7) =~= origin_prefix());
    assert(full.skip(7) =~= b);
}

/// Staging and committing both list the paths, after `--`, exactly as given:
/// the commit holds the changes to those paths and to no other.
pub proof fn lemma_stage_and_commit_exactly_the_paths(
    repo: Seq<char>,
    message: Seq<char>,
    paths: Seq<Seq<char>>,
)
    ensures
        stage_args(repo, paths).len() == 4 + paths.len(),
        stage_args(repo, paths)[3] == "--"@,
        stage_args(repo, paths).skip(4) == paths,
        commit_args(repo, message, paths).len() == 6 + paths.len(),
        commit_args(repo, message, paths)[5] == "--"@,
        commit_args(repo, message, paths).skip(6) == paths,
{
    assert(stage_args(repo, paths).skip(4) =~= paths);
    assert(commit_args(repo, message, paths).skip(6) =~= paths);
}

/// `args` followed by each of `paths`.
fn push_all(args: &mut Vec<String>, paths: &Vec<String>)
    ensures
        strings(final(args)@) == strings(old(args)@) + strings(paths@),
{
    let ghost start = strings(args@);
    let mut i: usize = 0;
    while i < paths.len()
        invariant
            i <= paths@.len(),
            strings(args@) == start + strings(paths@).take(i as int),
        decreases paths@.len() - i,
    {
        let ghost before = args@;
        args.push(paths[i].clone());
        assert(strings(args@) =~= strings(before).push(paths@[i as int]@));
        assert(strings(paths@).take(i + 1) =~= strings(paths@).take(i as int).push(
            paths@[i as int]@,
        ));
        i = i + 1;
    }
    assert(strings(paths@).take(paths@.len() as int) =~= strings(paths@));
}

/// The `origin/` prefix is dropped exactly where the name carries it; the
/// rest of the name is kept as it is.
pub proof fn lemma_remote_branch(branch: Seq<char>)
    ensures
        starts_with(branch, origin_prefix()) ==> origin_prefix() + remote_branch(branch) == branch,
        !starts_with(branch, origin_prefix()) ==> remote_branch(branch) == branch,
{
    if starts_with(branch, origin_prefix()) {
        assert(branch.take(origin_prefix().len() as int) + branch.skip(origin_prefix().len() as int)
            =~= branch);
    }
}

/// Creating a branch runs `git checkout -b` in the repository with the branch
/// name exactly as given.
pub proof fn lemma_create_branch_names_the_branch(repo: Seq<char>, branch: Seq<char>)
    ensures
        create_branch_args(repo, branch).len() == 5,
        create_branch_args(repo, branch)[0] == "-C"@,
        create_branch_args(repo, branch)[1] == repo,
        create_branch_args(repo, branch)[2] == "checkout"@,
        create_branch_args(repo, branch)[3] == "-b"@,
        create_branch_args(repo, branch)[4] == branch,
{
}

/// Finding the checked-out branch runs `git symbolic-ref` on `HEAD` in the repository.
pub proof fn lemma_current_branch_asks_for_head(repo: Seq<char>)
    ensures
        current_branch_args(repo).len() == 6,
        current_branch_args(repo)[0] == "-C"@,
        current_branch_args(repo)[1] == repo,
        current_branch_args(repo)[2] == "symbolic-ref"@,
        current_branch_args(repo)[5] == "HEAD"@,
{
}

/// Updating a branch works in the repository on the branch as `origin` knows
/// it: where that branch is checked out, a fast-forward-only pull of it from
/// `origin`; otherwise a fetch from `origin` into the local branch of the same name.
pub proof fn lemma_pull_updates_the_remote_branch(
    repo: Seq<char>,
    branch: Seq<char>,
    current: Option<Seq<char>>,
)
    ensures
        pull_args(repo, branch, current)[0] == "-C"@,
        pull_args(repo, branch, current)[1] == repo,
        current == Some(remote_branch(branch)) ==> {
            &&& pull_args(repo, branch, current).len() == 6
            &&& pull_args(repo, branch, current)[2] == "pull"@
            &&& pull_args(repo, branch, current)[3] == "--ff-only"@
            &&& pull_args(repo, branch, current)[4] == "origin"@
            &&& pull_args(repo, branch, current)[5] == remote_branch(branch)
        },
        current != Some(remote_branch(branch)) ==> {
            &&& pull_args(repo, branch, current).len() == 5
            &&& pull_args(repo, branch, current)[2] == "fetch"@
            &&& pull_args(repo, branch, current)[3] == "origin"@
            &&& pull_args(repo, branch, current)[4] == remote_branch(branch) + ":"@ + remote_branch(
                branch,
            )
        },
{
}

/// `first` followed by `second`.
fn joined(first: &str, second: &str) -> (s: String)
    ensures
        s@ == first@ + second@,
{
    let mut s = String::from_str(first);
    s.append(second);
    s
}

impl GitRepository {
    /// The branch name as `origin` knows it: `origin/dev` and `dev` both name `dev`.
    pub fn remote_branch_name(branch: &str) -> (b: String)
        ensures
            b@ == remote_branch(branch@),
    {
        strip_prefix(branch, "origin/")
    }

    /// The run of `git` that prints the branch checked out in `repo_path`. Its
    /// failure is no error (it means a detached `HEAD`), so its failure
    /// message is empty.
    pub fn current_branch_command(repo_path: &str) -> (c: GitCommand)
        ensures
            strings(c.args@) == current_branch_args(repo_path@),
            c.context@ == "failed to determine current branch in "@ + repo_path@,
            c.failure@ == Seq::<char>::empty(),
    {
        let mut args: Vec<String> = Vec::new();
        args.push(String::from_str("-C"));
        args.push(repo_path.to_owned());
        args.push(String::from_str("symbolic-ref"));
        args.push(String::from_str("--quiet"));
        args.push(String::from_str("--short"));
        args.push(String::from_str("HEAD"));
        assert(strings(args@) =~= current_branch_args(repo_path@));
        GitCommand {
            args,
            context: joined("failed to determine current branch in ", repo_path),
            failure: String::new(),
        }
    }

    /// The branch checked out, from how `git symbolic-ref` ended and what it
    /// printed; `None` where it failed, as it does for a detached `HEAD`.
    pub fn current_branch_from(success: bool, stdout: &str) -> (r: Option<String>)
        ensures
            match r {
                Some(b) => current_branch_of(success, stdout@) == Some(b@),
                None => current_branch_of(success, stdout@) is None,
            },
    {
        if success {
            Some(trim(stdout))
        } else {
            None
        }
    }

    /// The run of `git` that brings `branch` (`dev` or `origin/dev`) of the
    /// repository at `repo_path` up to date from `origin`, given the branch
    /// checked out there: a fast-forward pull where it is that branch
    /// (`git fetch` refuses to update a checked-out branch), otherwise a fetch
    /// of `branch:branch`.
    pub fn pull_command(repo_path: &str, branch: &str, current: &Option<String>) -> (c: GitCommand)
        ensures
            strings(c.args@) == pull_args(repo_path@, branch@, current_view(*current)),
            c.context@ == pull_context(branch@, current_view(*current)),
            c.failure@ == pull_failure(repo_path@, branch@),
    {
        let b = Self::remote_branch_name(branch);
        let checked_out = match current {
            Some(cur) => *cur == b,
            None => false,
        };
        let mut args: Vec<String> = Vec::new();
        args.push(String::from_str("-C"));
        args.push(repo_path.to_owned());
        let context;
        if checked_out {
            args.push(String::from_str("pull"));
            args.push(String::from_str("--ff-only"));
            args.push(String::from_str("origin"));
            args.push(b.clone());
            context = joined("failed to run git pull --ff-only origin ", b.as_str());
            assert(strings(args@) =~= pull_args(repo_path@, branch@, current_view(*current)));
        } else {
            let mut refspec = b.clone();
            refspec.append(":");
            refspec.append(b.as_str());
            args.push(String::from_str("fetch"));
            args.push(String::from_str("origin"));
            args.push(refspec.clone());
            context = joined("failed to run git fetch origin ", refspec.as_str());
            assert(strings(args@) =~= pull_args(repo_path@, branch@, current_view(*current)));
        }
        let mut failure = String::from_str("failed to update branch ");
        failure.append(b.as_str());
        failure.append(" in ");
        failure.append(repo_path);
        failure.append(" from origin");
        GitCommand { args, context, failure }
    }

    /// The run of `git` that creates and checks out `branch` in the
    /// repository at `repo_path`, starting from its current `HEAD`.
    pub fn create_branch_command(repo_path: &str, branch: &str) -> (c: GitCommand)
        ensures
            strings(c.args@) == create_branch_args(repo_path@, branch@),
            c.context@ == "failed to create branch "@ + branch@ + " in "@ + repo_path@,
            c.failure@ == "git checkout -b "@ + branch@ + " failed in "@ + repo_path@,
    {
        let mut args: Vec<String> = Vec::new();
        args.push(String::from_str("-C"));
        args.push(repo_path.to_owned());
        args.push(String::from_str("checkout"));
        args.push(String::from_str("-b"));
        args.push(branch.to_owned());
        assert(strings(args@) =~= create_branch_args(repo_path@, branch@));
        let mut context = String::from_str("failed to create branch ");
        context.append(branch);
        context.append(" in ");
        context.append(repo_path);
        let mut failure = String::from_str("git checkout -b ");
        failure.append(branch);
        failure.append(" failed in ");
        failure.append(repo_path);
        GitCommand { args, context, failure }
    }

    /// The run of `git` that stages exactly `paths` (relative to `repo_path`).
    pub fn stage_command(repo_path: &str, paths: &Vec<String>) -> (c: GitCommand)
        ensures
            strings(c.args@) == stage_args(repo_path@, strings(paths@)),
            c.context@ == "failed to stage changes in "@ + repo_path@,
            c.failure@ == "git add failed in "@ + repo_path@,
    {
        let mut args: Vec<String> = Vec::new();
        args.push(String::from_str("-C"));
        args.push(repo_path.to_owned());
        args.push(String::from_str("add"));
        args.push(String::from_str("--"));
        push_all(&mut args, paths);
        assert(strings(args@) =~= stage_args(repo_path@, strings(paths@)));
        GitCommand {
            args,
            context: joined("failed to stage changes in ", repo_path),
            failure: joined("git add failed in ", repo_path),
        }
    }

    /// The run of `git` that commits exactly `paths` (relative to
    /// `repo_path`) with `message`, whatever else is staged.
    pub fn commit_command(repo_path: &str, paths: &Vec<String>, message: &str) -> (c: GitCommand)
        ensures
            strings(c.args@) == commit_args(repo_path@, message@, strings(paths@)),
            c.context@ == "failed to commit changes in "@ + repo_path@,
            c.failure@ == "git commit failed in "@ + repo_path@,
    {
        let mut args: Vec<String> = Vec::new();
        args.push(String::from_str("-C"));
        args.push(repo_path.to_owned());
        args.push(String::from_str("commit"));
        args.push(String::from_str("-m"));
        args.push(message.to_owned());
        args.push(String::from_str("--"));
        push_all(&mut args, paths);
        assert(strings(args@) =~= commit_args(repo_path@, message@, strings(paths@)));
        GitCommand {
            args,
            context: joined("failed to commit changes in ", repo_path),
            failure: joined("git commit failed in ", repo_path),
        }
    }
}

/// The mathematical content of an optional branch name.
pub open spec fn current_view(current: Option<String>) -> Option<Seq<char>> {
    match current {
        Some(c) => Some(c@),
        None => None,
    }
}

} // verus!
