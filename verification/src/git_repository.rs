//! Reading a git repository: which files changed between two branches, and
//! what a file holds on a branch. The object database is read through `gix`.
use vstd::prelude::*;
use gix::bstr::ByteSlice;
use vstd::utf8::{decode_utf8, valid_utf8};
use gix::object::tree::diff::ChangeDetached;

verus! {

/// How a file changed between two trees, as `git status` labels it.
#[derive(Debug, Clone, Copy, PartialEq, Eq, Structural)]
pub enum ChangeStatus {
    Added,
    Modified,
    Deleted,
    Renamed,
    Copied,
}

/// A file that differs between two trees. `previous_path` is where a renamed
/// or copied file came from.
#[derive(Debug, Clone)]
pub struct ChangedFile {
    pub status: ChangeStatus,
    pub path: String,
    pub previous_path: Option<String>,
}

/// The mathematical content of a [`ChangedFile`].
pub struct ChangedFileView {
    pub status: ChangeStatus,
    pub path: Seq<char>,
    pub previous_path: Option<Seq<char>>,
}

impl View for ChangedFile {
    type V = ChangedFileView;

    open spec fn view(&self) -> ChangedFileView {
        ChangedFileView {
            status: self.status,
            path: self.path@,
            previous_path: match self.previous_path {
                Some(p) => Some(p@),
                None => None,
            },
        }
    }
}

/// The `git status` label of a change.
pub open spec fn status_label(status: ChangeStatus) -> Seq<char> {
    match status {
        ChangeStatus::Added => "new file:"@,
        ChangeStatus::Modified => "modified:"@,
        ChangeStatus::Deleted => "deleted:"@,
        ChangeStatus::Renamed => "renamed:"@,
        ChangeStatus::Copied => "copied:"@,
    }
}

/// `s` padded with spaces on the right to at least `width` characters.
pub open spec fn pad_right(s: Seq<char>, width: nat) -> Seq<char> {
    if s.len() < width {
        s + Seq::new((width - s.len()) as nat, |i: int| ' ')
    } else {
        s
    }
}

/// The width that status labels are padded to.
pub open spec fn label_width() -> nat {
    12
}

/// How a changed file is listed, like `git status` lists it: the padded
/// label, then the path, or `previous -> path` for a renamed or copied file.
pub open spec fn status_line(f: ChangedFileView) -> Seq<char> {
    pad_right(status_label(f.status), label_width()) + match f.previous_path {
        Some(p) => p + " -> "@ + f.path,
        None => f.path,
    }
}

impl ChangedFile {
    /// The label of `status`, padded to the label width.
    fn padded_label(status: ChangeStatus) -> (l: &'static str)
        ensures
            l@ == pad_right(status_label(status), label_width()),
    {
        match status {
            ChangeStatus::Added => {
                proof {
                    reveal_strlit("new file:");
                    reveal_strlit("new file:   ");
                }
                assert("new file:   "@ =~= pad_right("new file:"@, 12));
                "new file:   "
            },
            ChangeStatus::Modified => {
                proof {
                    reveal_strlit("modified:");
                    reveal_strlit("modified:   ");
                }
                assert("modified:   "@ =~= pad_right("modified:"@, 12));
                "modified:   "
            },
            ChangeStatus::Deleted => {
                proof {
                    reveal_strlit("deleted:");
                    reveal_strlit("deleted:    ");
                }
                assert("deleted:    "@ =~= pad_right("deleted:"@, 12));
                "deleted:    "
            },
            ChangeStatus::Renamed => {
                proof {
                    reveal_strlit("renamed:");
                    reveal_strlit("renamed:    ");
                }
                assert("renamed:    "@ =~= pad_right("renamed:"@, 12));
                "renamed:    "
            },
            ChangeStatus::Copied => {
                proof {
                    reveal_strlit("copied:");
                    reveal_strlit("copied:     ");
                }
                assert("copied:     "@ =~= pad_right("copied:"@, 12));
                "copied:     "
            },
        }
    }

    /// A copy of this changed file.
    pub fn duplicate(&self) -> (f: ChangedFile)
        ensures
            f@ == self@,
    {
        ChangedFile {
            status: self.status,
            path: self.path.clone(),
            previous_path: match &self.previous_path {
                Some(p) => Some(p.clone()),
                None => None,
            },
        }
    }

    /// The line that lists this file in the summary of changes.
    pub fn status_line(&self) -> (line: String)
        ensures
            line@ == status_line(self@),
    {
        let mut line = String::from_str(Self::padded_label(self.status));
        match &self.previous_path {
            Some(previous) => {
                line.append(previous.as_str());
                line.append(" -> ");
                line.append(self.path.as_str());
            },
            None => {
                line.append(self.path.as_str());
            },
        }
        line
    }
}

/// One change between two trees, with its locations as the raw bytes git stores.
#[derive(Debug, Clone)]
pub enum TreeChange {
    Addition { location: Vec<u8> },
    Deletion { location: Vec<u8> },
    Modification { location: Vec<u8> },
    Rewrite { source_location: Vec<u8>, location: Vec<u8>, copy: bool },
}

/// What the bytes of a path read as text, with each ill-formed UTF-8 sequence
/// replaced by U+FFFD (as `bstr`'s `to_str_lossy` reads them).
pub uninterp spec fn utf8_lossy(bytes: Seq<u8>) -> Seq<char>;

/// The changed file that a tree change reports.
pub open spec fn file_of_change(c: TreeChange) -> ChangedFileView {
    match c {
        TreeChange::Addition { location } => ChangedFileView {
            status: ChangeStatus::Added,
            path: utf8_lossy(location@),
            previous_path: None,
        },
        TreeChange::Deletion { location } => ChangedFileView {
            status: ChangeStatus::Deleted,
            path: utf8_lossy(location@),
            previous_path: None,
        },
        TreeChange::Modification { location } => ChangedFileView {
            status: ChangeStatus::Modified,
            path: utf8_lossy(location@),
            previous_path: None,
        },
        TreeChange::Rewrite { source_location, location, copy } => ChangedFileView {
            status: if copy {
                ChangeStatus::Copied
            } else {
                ChangeStatus::Renamed
            },
            path: utf8_lossy(location@),
            previous_path: Some(utf8_lossy(source_location@)),
        },
    }
}

/// Each kind of tree change is reported with its own status, at the path it
/// leads to; only a rename or copy names where the file came from.
pub proof fn lemma_change_statuses(c: TreeChange)
    ensures
        (file_of_change(c).status == ChangeStatus::Added) <==> c is Addition,
        (file_of_change(c).status == ChangeStatus::Deleted) <==> c is Deletion,
        (file_of_change(c).status == ChangeStatus::Modified) <==> c is Modification,
        (file_of_change(c).status == ChangeStatus::Renamed) <==> (c is Rewrite && !c->copy),
        (file_of_change(c).status == ChangeStatus::Copied) <==> (c is Rewrite && c->copy),
        c is Rewrite ==> file_of_change(c).previous_path == Some(utf8_lossy(c->source_location@)),
        file_of_change(c).path == utf8_lossy(match c {
            TreeChange::Addition { location } => location,
            TreeChange::Deletion { location } => location,
            TreeChange::Modification { location } => location,
            TreeChange::Rewrite { location, .. } => location,
        }@),
{
}

/// The labels of different statuses differ, each ends with `:`, and each fits
/// the label width, so every status line begins with its label padded to that
/// width and ends with the file's path.
pub proof fn lemma_status_line_shape(f: ChangedFileView)
    ensures
        forall|a: ChangeStatus, b: ChangeStatus| a != b ==> status_label(a) != status_label(b),
        status_label(f.status).len() < label_width(),
        status_label(f.status).last() == ':',
        status_line(f).len() >= label_width(),
        status_line(f).take(status_label(f.status).len() as int) == status_label(f.status),
        forall|i: int|
            status_label(f.status).len() <= i < label_width() ==> status_line(f)[i] == ' ',
        status_line(f).skip(status_line(f).len() - f.path.len()) == f.path,
{
    reveal_strlit("new file:");
    reveal_strlit("modified:");
    reveal_strlit("deleted:");
    reveal_strlit("renamed:");
    reveal_strlit("copied:");
    reveal_strlit(" -> ");
    assert forall|a: ChangeStatus, b: ChangeStatus| a != b implies status_label(a) != status_label(
        b,
    ) by {
        if status_label(a) == status_label(b) {
            assert(status_label(a).len() == status_label(b).len());
            assert(status_label(a)[0] == status_label(b)[0]);
        }
    }
    let l = status_label(f.status);
    let padded = pad_right(l, label_width());
    assert(padded.take(l.len() as int) =~= l);
    let line = status_line(f);
    let body = match f.previous_path {
        Some(p) => p + " -> "@ + f.path,
        None => f.path,
    };
    assert(line == padded + body);
    assert(line.take(l.len() as int) =~= l);
    assert(line.skip(line.len() - f.path.len()) =~= f.path);
}

/// A changed file names the file it came from exactly when it was renamed or copied.
pub open spec fn names_origin_iff_moved(f: ChangedFileView) -> bool {
    (f.previous_path is Some) <==> (f.status == ChangeStatus::Renamed || f.status
        == ChangeStatus::Copied)
}

/// `files` is what a list of tree changes reports: one file per change, in order.
pub open spec fn reports_changes(files: Seq<ChangedFile>) -> bool {
    exists|cs: Seq<TreeChange>|
        cs.len() == files.len() && forall|i: int|
            0 <= i < cs.len() ==> #[trigger] files[i]@ == file_of_change(cs[i])
}

/// Each tree change reports a file that names its origin exactly when it was renamed or copied.
pub proof fn lemma_file_of_change_names_origin_iff_moved(c: TreeChange)
    ensures
        names_origin_iff_moved(file_of_change(c)),
{
}

/// The text of a path stored as bytes.
pub fn path_text(bytes: &[u8]) -> (s: String)
    ensures
        s@ == utf8_lossy(bytes@),
        valid_utf8(bytes@) ==> s@ == decode_utf8(bytes@),
{
    to_str_lossy(bytes)
}

/// The status that a tree change reports.
pub open spec fn status_of_change(c: TreeChange) -> ChangeStatus {
    match c {
        TreeChange::Addition { .. } => ChangeStatus::Added,
        TreeChange::Deletion { .. } => ChangeStatus::Deleted,
        TreeChange::Modification { .. } => ChangeStatus::Modified,
        TreeChange::Rewrite { copy, .. } => if copy {
            ChangeStatus::Copied
        } else {
            ChangeStatus::Renamed
        },
    }
}

/// The changed file that `change` reports, given the text of its location
/// (`path`) and of its source location (`source_path`, consulted only for a
/// rename or copy).
pub fn file_for_change(change: &TreeChange, path: String, source_path: Option<String>) -> (f:
    ChangedFile)
    ensures
        f.status == status_of_change(*change),
        f.path@ == path@,
        change is Rewrite ==> f.previous_path == source_path,
        !(change is Rewrite) ==> f.previous_path is None,
{
    let status = match change {
        TreeChange::Addition { .. } => ChangeStatus::Added,
        TreeChange::Deletion { .. } => ChangeStatus::Deleted,
        TreeChange::Modification { .. } => ChangeStatus::Modified,
        TreeChange::Rewrite { copy, .. } => if *copy {
            ChangeStatus::Copied
        } else {
            ChangeStatus::Renamed
        },
    };
    let previous_path = match change {
        TreeChange::Rewrite { .. } => source_path,
        _ => None,
    };
    ChangedFile { status, path, previous_path }
}

/// The changed file that one tree change reports.
pub fn change_to_file(change: &TreeChange) -> (f: ChangedFile)
    ensures
        f@ == file_of_change(*change),
{
    match change {
        TreeChange::Addition { location } => file_for_change(change, path_text(location.as_slice()), None),
        TreeChange::Deletion { location } => file_for_change(change, path_text(location.as_slice()), None),
        TreeChange::Modification { location } => file_for_change(
            change,
            path_text(location.as_slice()),
            None,
        ),
        TreeChange::Rewrite { source_location, location, .. } => file_for_change(
            change,
            path_text(location.as_slice()),
            Some(path_text(source_location.as_slice())),
        ),
    }
}

/// The changed files that a list of tree changes reports, one per change, in order.
pub fn changes_to_files(changes: &Vec<TreeChange>) -> (files: Vec<ChangedFile>)
    ensures
        files@.len() == changes@.len(),
        forall|i: int| 0 <= i < changes@.len() ==> #[trigger] files@[i]@ == file_of_change(changes@[i]),
{
    let mut files: Vec<ChangedFile> = Vec::new();
    let mut i: usize = 0;
    while i < changes.len()
        invariant
            i <= changes@.len(),
            files@.len() == i,
            forall|k: int| 0 <= k < i ==> #[trigger] files@[k]@ == file_of_change(changes@[k]),
        decreases changes@.len() - i,
    {
        let f = change_to_file(&changes[i]);
        files.push(f);
        i = i + 1;
    }
    files
}

/// The changes of a `gix` diff as [`TreeChange`]s, one per change, in order.
fn tree_changes(raw: &Vec<ChangeDetached>) -> (changes: Vec<TreeChange>)
    ensures
        changes@.len() == raw@.len(),
{
    let mut changes: Vec<TreeChange> = Vec::new();
    let mut i: usize = 0;
    while i < raw.len()
        invariant
            i <= raw@.len(),
            changes@.len() == i,
        decreases raw@.len() - i,
    {
        changes.push(detach_change(&raw[i]));
        i = i + 1;
    }
    changes
}

/// Why reading the repository failed.
#[derive(Debug)]
pub enum GitError {
    /// `gix` refused: the repository, a revision, an object or the diff could not be had.
    Gix(gix::Error),
    /// The two branches share no history, so there is nothing to diff against.
    NoMergeBase,
}

/// A git repository opened for reading.
pub struct GitRepository {
    repo: gix::Repository,
}

impl GitRepository {
    /// Opens the repository at `path`.
    pub fn open(path: &str) -> (r: Result<GitRepository, GitError>)
        ensures
            r is Err ==> r->Err_0 is Gix,
    {
        match gix_open(path) {
            Ok(repo) => Ok(GitRepository { repo }),
            Err(e) => Err(GitError::Gix(e)),
        }
    }

    /// The commits whose trees are diffed, given the tip of the source branch
    /// and the merge base found for the two branches: from the merge base to
    /// the source; where the branches share no history there is nothing to
    /// diff against.
    pub fn diff_endpoints(source: gix::ObjectId, merge_base: Option<gix::ObjectId>) -> (r: Result<
        (gix::ObjectId, gix::ObjectId),
        GitError,
    >)
        ensures
            merge_base matches Some(base) ==> r == Ok::<(gix::ObjectId, gix::ObjectId), GitError>(
                (base, source),
            ),
            merge_base is None ==> r matches Err(GitError::NoMergeBase),
    {
        match merge_base {
            Some(base) => Ok((base, source)),
            None => Err(GitError::NoMergeBase),
        }
    }

    /// The files that changed on `source_branch` since it diverged from
    /// `target_branch` (three-dot semantics, `git diff target...source`):
    /// the diff from the merge base of the two branches to the tip of
    /// `source_branch`. Each reported file is what one tree change reports.
    pub fn changed_files(&self, target_branch: &str, source_branch: &str) -> (r: Result<
        Vec<ChangedFile>,
        GitError,
    >)
        ensures
            r matches Ok(files) ==> reports_changes(files@),
    {
        let target_id = match rev_parse_single(&self.repo, target_branch) {
            Ok(id) => id,
            Err(e) => return Err(GitError::Gix(e)),
        };
        let source_id = match rev_parse_single(&self.repo, source_branch) {
            Ok(id) => id,
            Err(e) => return Err(GitError::Gix(e)),
        };
        let merge_base_reply = match merge_base(&self.repo, &target_id, &source_id) {
            Ok(reply) => reply,
            Err(e) => return Err(GitError::Gix(e)),
        };
        let (merge_base_id, source_id) = match Self::diff_endpoints(source_id, merge_base_reply) {
            Ok(endpoints) => endpoints,
            Err(e) => return Err(e),
        };
        let base_tree_commit = match find_commit(&self.repo, &merge_base_id) {
            Ok(commit) => commit,
            Err(e) => return Err(GitError::Gix(e)),
        };
        let base_tree = match commit_tree(&base_tree_commit) {
            Ok(tree) => tree,
            Err(e) => return Err(GitError::Gix(e)),
        };
        let source_tree_commit = match find_commit(&self.repo, &source_id) {
            Ok(commit) => commit,
            Err(e) => return Err(GitError::Gix(e)),
        };
        let source_tree = match commit_tree(&source_tree_commit) {
            Ok(tree) => tree,
            Err(e) => return Err(GitError::Gix(e)),
        };
        let raw = match diff_tree_to_tree(&self.repo, &base_tree, &source_tree) {
            Ok(raw) => raw,
            Err(e) => return Err(GitError::Gix(e)),
        };
        Ok(Self::files_of_diff(&raw))
    }

    /// The changed files that a `gix` diff reports: one per change, in order,
    /// each what its change reports.
    pub fn files_of_diff(raw: &Vec<ChangeDetached>) -> (files: Vec<ChangedFile>)
        ensures
            files@.len() == raw@.len(),
            reports_changes(files@),
    {
        let changes = tree_changes(raw);
        let files = changes_to_files(&changes);
        assert(changes@.len() == files@.len() && forall|k: int|
            0 <= k < changes@.len() ==> #[trigger] files@[k]@ == file_of_change(changes@[k]));
        files
    }

    /// The content read for an entry that the branch's tree holds: the bytes
    /// exactly as read, or the error that reading gave.
    pub fn found_blob(read: Result<Vec<u8>, gix::Error>) -> (r: Result<Option<Vec<u8>>, GitError>)
        ensures
            read matches Ok(data) ==> (r matches Ok(Some(d)) && d@ == data@),
            read matches Err(e) ==> (r matches Err(GitError::Gix(e2)) && e2 == e),
    {
        match read {
            Ok(data) => Ok(Some(data)),
            Err(e) => Err(GitError::Gix(e)),
        }
    }

    /// The content of `path` as it is on `branch`, or `None` where `branch`
    /// has no such path (for instance where the file was deleted there).
    pub fn read_blob(&self, branch: &str, path: &str) -> (r: Result<Option<Vec<u8>>, GitError>)
        ensures
            r is Err ==> r->Err_0 is Gix,
    {
        let commit_id = match rev_parse_single(&self.repo, branch) {
            Ok(id) => id,
            Err(e) => return Err(GitError::Gix(e)),
        };
        let tree_commit = match find_commit(&self.repo, &commit_id) {
            Ok(commit) => commit,
            Err(e) => return Err(GitError::Gix(e)),
        };
        let tree = match commit_tree(&tree_commit) {
            Ok(tree) => tree,
            Err(e) => return Err(GitError::Gix(e)),
        };
        match lookup_entry_by_path(&tree, path) {
            Ok(Some(entry)) => Self::found_blob(entry_data(&entry)),
            Ok(None) => Ok(None),
            Err(e) => Err(GitError::Gix(e)),
        }
    }
}


/// `ByteSlice::to_str_lossy` of `bstr` (re-exported by `gix`): the bytes read
/// as UTF-8, each ill-formed sequence replaced by U+FFFD; bytes that are valid
/// UTF-8 are returned as they decode.
#[verifier::external_body]
fn to_str_lossy(bytes: &[u8]) -> (s: String)
    ensures
        s@ == utf8_lossy(bytes@),
        valid_utf8(bytes@) ==> s@ == decode_utf8(bytes@),
{
    bytes.to_str_lossy().into_owned()
}


// The `gix` types that pass through the library unopened.

#[verifier::external_type_specification]
#[verifier::external_body]
pub struct ExRepository(gix::Repository);

#[verifier::external_type_specification]
#[verifier::external_body]
pub struct ExGixError(gix::Error);

#[verifier::external_type_specification]
#[verifier::external_body]
pub struct ExObjectId(gix::ObjectId);

#[verifier::external_type_specification]
#[verifier::external_body]
pub struct ExCommit<'repo>(gix::Commit<'repo>);

#[verifier::external_type_specification]
#[verifier::external_body]
pub struct ExTree<'repo>(gix::Tree<'repo>);

#[verifier::external_type_specification]
#[verifier::external_body]
pub struct ExTreeEntry<'repo>(gix::object::tree::Entry<'repo>);

#[verifier::external_type_specification]
#[verifier::external_body]
pub struct ExChangeDetached(ChangeDetached);

/// `gix::open`: opens the repository at `path`. What comes back depends on
/// what is on disk there, so nothing is stated of it.
#[verifier::external_body]
fn gix_open(path: &str) -> (r: Result<gix::Repository, gix::Error>) {
    gix::open(path)
}

/// `Repository::rev_parse_single`: the object that the revision `spec` names
/// in `repo` (detached from the repository handle). It depends on the
/// references on disk, so nothing is stated of it.
#[verifier::external_body]
fn rev_parse_single(repo: &gix::Repository, spec: &str) -> (r: Result<gix::ObjectId, gix::Error>) {
    Ok(repo.rev_parse_single(spec.as_bytes())?.detach())
}

/// `Repository::merge_base`: the best common ancestor of the commits `one`
/// and `two`, `None` where they share no history. It depends on the commit
/// graph on disk, so nothing is stated of it.
#[verifier::external_body]
fn merge_base(repo: &gix::Repository, one: &gix::ObjectId, two: &gix::ObjectId) -> (r: Result<
    Option<gix::ObjectId>,
    gix::Error,
>) {
    match repo.merge_base(*one, *two) {
        Ok(Some(id)) => Ok(Some(id.detach())),
        Ok(None) => Ok(None),
        Err(e) => Err(e),
    }
}

/// `Repository::find_commit`: the commit `id`. It depends on the object
/// database on disk, so nothing is stated of it.
#[verifier::external_body]
fn find_commit<'repo>(repo: &'repo gix::Repository, id: &gix::ObjectId) -> (r: Result<
    gix::Commit<'repo>,
    gix::Error,
>) {
    repo.find_commit(*id)
}

/// `Commit::tree`: the tree that `commit` records. It depends on the object
/// database on disk, so nothing is stated of it.
#[verifier::external_body]
fn commit_tree<'repo>(commit: &gix::Commit<'repo>) -> (r: Result<gix::Tree<'repo>, gix::Error>) {
    commit.tree()
}

/// `Repository::diff_tree_to_tree` with the repository's own diff settings:
/// the changes that turn `old_tree` into `new_tree`. Rename and copy tracking
/// follow the repository's configuration, so nothing is stated of the result.
#[verifier::external_body]
fn diff_tree_to_tree(repo: &gix::Repository, old_tree: &gix::Tree, new_tree: &gix::Tree) -> (r:
    Result<Vec<ChangeDetached>, gix::Error>) {
    repo.diff_tree_to_tree(Some(old_tree), Some(new_tree), None)
}

/// Moves the kind and locations of a `gix` tree change into a [`TreeChange`],
/// one variant for each. The `gix` value is opaque here, so nothing is stated.
#[verifier::external_body]
fn detach_change(change: &ChangeDetached) -> (c: TreeChange) {
    match change {
        ChangeDetached::Addition { location, .. } => TreeChange::Addition { location: location.to_vec() },
        ChangeDetached::Deletion { location, .. } => TreeChange::Deletion { location: location.to_vec() },
        ChangeDetached::Modification { location, .. } => TreeChange::Modification { location: location.to_vec() },
        ChangeDetached::Rewrite { source_location, location, copy, .. } => TreeChange::Rewrite {
            source_location: source_location.to_vec(),
            location: location.to_vec(),
            copy: *copy,
        },
    }
}

/// `Tree::lookup_entry_by_path`: the entry at the relative `path` in `tree`,
/// `None` where there is none. It depends on the object database, so nothing is stated.
#[verifier::external_body]
fn lookup_entry_by_path<'repo>(tree: &gix::Tree<'repo>, path: &str) -> (r: Result<
    Option<gix::object::tree::Entry<'repo>>,
    gix::Error,
>) {
    tree.lookup_entry_by_path(path)
}

/// `Entry::object`, then the object's `data`: the bytes of the object an
/// entry points to. It depends on the object database, so nothing is stated.
#[verifier::external_body]
fn entry_data(entry: &gix::object::tree::Entry) -> (r: Result<Vec<u8>, gix::Error>) {
    Ok(entry.object()?.data.clone())
}

} // verus!
