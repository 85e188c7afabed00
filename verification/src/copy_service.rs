//! Deciding, file by file, what a migration does in the destination
//! repository: write the file as it is on the source branch, remove it, or
//! leave it; and which paths it touched. Reading and writing the files is the
//! caller's part: it reports what it found and performs what it is told.
use vstd::prelude::*;

verus! {

/// What is done in the destination repository for one changed file.
#[derive(Debug, Clone, Copy, PartialEq, Eq, Structural)]
pub enum CopyAction {
    /// Write the file's content from the source branch to the destination path.
    Write,
    /// Report that the file would be written (dry run).
    ReportWrite,
    /// Remove the file at the destination path.
    Remove,
    /// Report that the file would be removed (dry run).
    ReportRemove,
    /// Nothing: the file is neither on the source branch nor in the destination.
    Nothing,
}

/// The action for a file that the source branch holds (`found`) or not, and
/// that the destination holds (`exists`) or not.
pub open spec fn action_for(found: bool, exists: bool, dry_run: bool) -> CopyAction {
    if found {
        if dry_run {
            CopyAction::ReportWrite
        } else {
            CopyAction::Write
        }
    } else if exists {
        if dry_run {
            CopyAction::ReportRemove
        } else {
            CopyAction::Remove
        }
    } else {
        CopyAction::Nothing
    }
}

/// Whether an action changes the destination repository.
pub open spec fn changes_destination(a: CopyAction) -> bool {
    a == CopyAction::Write || a == CopyAction::Remove
}

/// `dest` joined with the relative or absolute `path`, as `Path::join` joins
/// them on Unix: an absolute path replaces `dest`; otherwise a `/` goes
/// between the two unless `dest` is empty or already ends with one.
pub open spec fn join_path(dest: Seq<char>, path: Seq<char>) -> Seq<char> {
    if path.len() > 0 && path[0] == '/' {
        path
    } else if dest.len() == 0 || dest.last() == '/' {
        dest + path
    } else {
        dest + "/"@ + path
    }
}

/// An absolute path is its own destination; a relative one is placed under
/// `dest`, after a `/` unless `dest` is empty or already ends with one.
pub proof fn lemma_destination_is_under_dest(dest: Seq<char>, path: Seq<char>)
    ensures
        path.len() > 0 && path[0] == '/' ==> join_path(dest, path) == path,
        !(path.len() > 0 && path[0] == '/') ==> {
            &&& join_path(dest, path).skip(join_path(dest, path).len() - path.len()) == path
            &&& join_path(dest, path).take(dest.len() as int) == dest
            &&& (dest.len() > 0 && dest.last() != '/') ==> join_path(dest, path).len() == dest.len()
                + 1 + path.len() && join_path(dest, path)[dest.len() as int] == '/'
            &&& (dest.len() == 0 || dest.last() == '/') ==> join_path(dest, path).len()
                == dest.len() + path.len()
        },
{
    reveal_strlit("/");
    let j = join_path(dest, path);
    if !(path.len() > 0 && path[0] == '/') {
        assert(j.skip(j.len() - path.len()) =~= path);
        assert(j.take(dest.len() as int) =~= dest);
    }
}

/// The line that reports an action on `path`, written to `dest`.
pub open spec fn report_line(a: CopyAction, path: Seq<char>, dest: Seq<char>) -> Option<Seq<char>> {
    match a {
        CopyAction::Write => Some("copied "@ + path + " -> "@ + dest),
        CopyAction::ReportWrite => Some("would copy "@ + path + " -> "@ + dest),
        CopyAction::Remove => Some("deleted "@ + dest),
        CopyAction::ReportRemove => Some("would delete "@ + dest),
        CopyAction::Nothing => None,
    }
}

/// A dry run never changes the destination repository.
pub proof fn lemma_dry_run_changes_nothing(found: bool, exists: bool)
    ensures
        !changes_destination(action_for(found, exists, true)),
{
}

/// A file that the source branch holds is written (or reported) whatever
/// the destination holds; one it lacks is removed (or reported) exactly
/// where the destination holds it.
pub proof fn lemma_source_decides(exists: bool, dry_run: bool)
    ensures
        action_for(true, exists, dry_run) == action_for(true, !exists, dry_run),
        action_for(false, exists, dry_run) == CopyAction::Nothing <==> !exists,
{
}

/// The paths touched after `action` on `path`, given those touched before:
/// `path` is added exactly when the action changes the destination.
pub open spec fn touched_after(before: Seq<Seq<char>>, path: Seq<char>, action: CopyAction) -> Seq<
    Seq<char>,
> {
    if changes_destination(action) {
        before.push(path)
    } else {
        before
    }
}

/// Whether a run touches `p`: where it is not a dry run and the source branch
/// holds `p` (`found`) or the destination holds it (`present`).
pub open spec fn touches(
    found: spec_fn(Seq<char>) -> bool,
    present: spec_fn(Seq<char>) -> bool,
    dry_run: bool,
) -> spec_fn(Seq<char>) -> bool {
    |p: Seq<char>| !dry_run && (found(p) || present(p))
}

/// The paths that a run over the files at `paths`, in order, touches, where
/// `found(p)` is whether the source branch holds `p` and `present(p)` whether
/// the destination holds it: each file's action is `action_for` of those two.
pub open spec fn run_touched(
    paths: Seq<Seq<char>>,
    found: spec_fn(Seq<char>) -> bool,
    present: spec_fn(Seq<char>) -> bool,
    dry_run: bool,
) -> Seq<Seq<char>>
    decreases paths.len(),
{
    if paths.len() == 0 {
        Seq::empty()
    } else {
        let p = paths.last();
        touched_after(
            run_touched(paths.drop_last(), found, present, dry_run),
            p,
            action_for(found(p), present(p), dry_run),
        )
    }
}

/// The paths of a list of changed files, in order.
pub open spec fn file_paths(files: Seq<crate::git_repository::ChangedFileView>) -> Seq<Seq<char>> {
    files.map_values(|f: crate::git_repository::ChangedFileView| f.path)
}

/// One more file extends a run by that file's step, as `CopyRun` takes it.
pub proof fn lemma_run_step(
    paths: Seq<Seq<char>>,
    p: Seq<char>,
    found: spec_fn(Seq<char>) -> bool,
    present: spec_fn(Seq<char>) -> bool,
    dry_run: bool,
)
    ensures
        run_touched(paths.push(p), found, present, dry_run) == touched_after(
            run_touched(paths, found, present, dry_run),
            p,
            action_for(found(p), present(p), dry_run),
        ),
{
    assert(paths.push(p).drop_last() =~= paths);
}

/// A run touches exactly the files that the source branch or the destination
/// holds, in their order, and none in a dry run.
pub proof fn lemma_run_touches_found_or_present(
    paths: Seq<Seq<char>>,
    found: spec_fn(Seq<char>) -> bool,
    present: spec_fn(Seq<char>) -> bool,
    dry_run: bool,
)
    ensures
        run_touched(paths, found, present, dry_run) == paths.filter(touches(found, present, dry_run)),
    decreases paths.len(),
{
    reveal(Seq::filter);
    if paths.len() > 0 {
        lemma_run_touches_found_or_present(paths.drop_last(), found, present, dry_run);
    }
}

/// What a run touches depends on the files' paths alone, not on the status
/// or previous path that the diff reported for them.
pub proof fn lemma_run_ignores_status(
    files: Seq<crate::git_repository::ChangedFileView>,
    other: Seq<crate::git_repository::ChangedFileView>,
    found: spec_fn(Seq<char>) -> bool,
    present: spec_fn(Seq<char>) -> bool,
    dry_run: bool,
)
    requires
        files.len() == other.len(),
        forall|i: int| 0 <= i < files.len() ==> #[trigger] files[i].path == other[i].path,
    ensures
        run_touched(file_paths(files), found, present, dry_run) == run_touched(
            file_paths(other),
            found,
            present,
            dry_run,
        ),
{
    assert(file_paths(files) =~= file_paths(other));
}

/// After a run that is not a dry run, the destination holds a path exactly
/// where the source branch does (it was written there, or removed). A second
/// run over the same paths then touches exactly the files the source branch
/// holds, in order: removed files are not touched again.
pub proof fn lemma_second_run_touches_found(paths: Seq<Seq<char>>, found: spec_fn(Seq<char>) -> bool)
    ensures
        run_touched(paths, found, found, false) == paths.filter(found),
{
    lemma_run_touches_found_or_present(paths, found, found, false);
    assert(touches(found, found, false) =~= found);
}

/// The state of a migration of files into the destination repository: whether
/// it is a dry run, and the paths written or removed so far, in order.
pub struct CopyRun {
    dry_run: bool,
    touched: Vec<String>,
}

impl CopyRun {
    /// Whether this is a dry run.
    pub closed spec fn is_dry_run(&self) -> bool {
        self.dry_run
    }

    /// The paths written or removed so far, in order.
    pub closed spec fn touched_paths(&self) -> Seq<Seq<char>> {
        self.touched@.map_values(|s: String| s@)
    }

    /// A dry run never touches a path.
    #[verifier::type_invariant]
    closed spec fn dry_run_touches_nothing(&self) -> bool {
        self.dry_run ==> self.touched@.len() == 0
    }

    /// A run that has touched nothing yet.
    pub fn new(dry_run: bool) -> (run: CopyRun)
        ensures
            run.is_dry_run() == dry_run,
            run.touched_paths() == Seq::<Seq<char>>::empty(),
    {
        let run = CopyRun { dry_run, touched: Vec::new() };
        assert(run.touched_paths() =~= Seq::<Seq<char>>::empty());
        run
    }

    /// Records `action` for `path`.
    fn record(&mut self, path: &str, action: CopyAction)
        requires
            old(self).is_dry_run() ==> !changes_destination(action),
        ensures
            final(self).is_dry_run() == old(self).is_dry_run(),
            final(self).touched_paths() == touched_after(old(self).touched_paths(), path@, action),
    {
        if action == CopyAction::Write || action == CopyAction::Remove {
            let mut touched: Vec<String> = Vec::new();
            std::mem::swap(&mut touched, &mut self.touched);
            let ghost before = touched@;
            touched.push(path.to_owned());
            assert(touched@.map_values(|s: String| s@) =~= before.map_values(|s: String| s@).push(
                path@,
            ));
            self.touched = touched;
        }
    }

    /// The source branch holds the file at `path`: it is to be written, or
    /// in a dry run reported; a written path is added to the touched paths.
    pub fn file_found(&mut self, path: &str) -> (a: CopyAction)
        ensures
            a == action_for(true, true, old(self).is_dry_run()),
            final(self).is_dry_run() == old(self).is_dry_run(),
            final(self).touched_paths() == touched_after(old(self).touched_paths(), path@, a),
    {
        proof {
            use_type_invariant(&*self);
        }
        let a = if self.dry_run {
            CopyAction::ReportWrite
        } else {
            CopyAction::Write
        };
        self.record(path, a);
        a
    }

    /// The source branch lacks the file at `path`, and the destination
    /// holds it (`exists`) or not: it is to be removed, or in a dry run
    /// reported, where the destination holds it; otherwise nothing is done.
    /// A removed path is added to the touched paths.
    pub fn file_missing(&mut self, path: &str, exists: bool) -> (a: CopyAction)
        ensures
            a == action_for(false, exists, old(self).is_dry_run()),
            final(self).is_dry_run() == old(self).is_dry_run(),
            final(self).touched_paths() == touched_after(old(self).touched_paths(), path@, a),
    {
        proof {
            use_type_invariant(&*self);
        }
        let a = if !exists {
            CopyAction::Nothing
        } else if self.dry_run {
            CopyAction::ReportRemove
        } else {
            CopyAction::Remove
        };
        self.record(path, a);
        a
    }

    /// The paths that the run wrote or removed, in order; none in a dry run.
    pub fn finish(self) -> (touched: Vec<String>)
        ensures
            touched@.map_values(|s: String| s@) == self.touched_paths(),
            self.is_dry_run() ==> touched@.len() == 0,
    {
        proof {
            use_type_invariant(&self);
        }
        self.touched
    }
}

/// The service that copies changed files into the destination repository.
pub struct CopyService;

impl CopyService {
    /// The path in the destination repository `dest_repo` of the file at the
    /// relative `path`.
    pub fn destination(dest_repo: &str, path: &str) -> (d: String)
        ensures
            d@ == join_path(dest_repo@, path@),
    {
        let absolute = path.unicode_len() > 0 && path.get_char(0) == '/';
        if absolute {
            return path.to_owned();
        }
        let n = dest_repo.unicode_len();
        let mut d = dest_repo.to_owned();
        if n > 0 && dest_repo.get_char(n - 1) != '/' {
            d.append("/");
        }
        d.append(path);
        d
    }

    /// The line that reports `action` on the file at `path`, whose
    /// destination is `dest`; none where nothing is done.
    pub fn report(action: CopyAction, path: &str, dest: &str) -> (line: Option<String>)
        ensures
            match line {
                Some(l) => report_line(action, path@, dest@) == Some(l@),
                None => report_line(action, path@, dest@) is None,
            },
    {
        match action {
            CopyAction::Write => {
                let mut l = String::from_str("copied ");
                l.append(path);
                l.append(" -> ");
                l.append(dest);
                Some(l)
            },
            CopyAction::ReportWrite => {
                let mut l = String::from_str("would copy ");
                l.append(path);
                l.append(" -> ");
                l.append(dest);
                Some(l)
            },
            CopyAction::Remove => {
                let mut l = String::from_str("deleted ");
                l.append(dest);
                Some(l)
            },
            CopyAction::ReportRemove => {
                let mut l = String::from_str("would delete ");
                l.append(dest);
                Some(l)
            },
            CopyAction::Nothing => None,
        }
    }
}

} // verus!
