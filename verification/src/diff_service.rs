//! Selecting the changed files that are to be migrated: those whose
//! extension is one of the included extensions.
use vstd::prelude::*;
use crate::git_repository::{
    ChangedFile, ChangedFileView, GitError, GitRepository, reports_changes,
};

verus! {

/// The position just after the last `c` in `s`, or 0 where `s` holds no `c`.
pub open spec fn after_last(s: Seq<char>, c: char) -> nat
    decreases s.len(),
{
    if s.len() == 0 {
        0
    } else if s.last() == c {
        s.len()
    } else {
        after_last(s.drop_last(), c)
    }
}

/// `after_last` lies within `s`, just after a `c`, with no `c` after it.
pub proof fn lemma_after_last(s: Seq<char>, c: char)
    ensures
        after_last(s, c) <= s.len(),
        after_last(s, c) > 0 ==> s[after_last(s, c) - 1] == c,
        forall|k: int| after_last(s, c) <= k < s.len() ==> s[k] != c,
    decreases s.len(),
{
    if s.len() > 0 && s.last() != c {
        lemma_after_last(s.drop_last(), c);
        assert forall|k: int| after_last(s, c) <= k < s.len() implies s[k] != c by {
            if k < s.len() - 1 {
                assert(s.drop_last()[k] == s[k]);
            }
        }
    }
}

/// The last component of a path, as `Path::file_name` finds it on Unix: the last
/// `/`-separated segment that is neither empty nor `.`; none where that
/// segment is `..` or where there is no such segment.
pub open spec fn file_name(p: Seq<char>) -> Option<Seq<char>>
    decreases p.len(),
{
    let start = after_last(p, '/');
    let seg = p.subrange(start as int, p.len() as int);
    proof {
        lemma_after_last(p, '/');
    }
    if seg.len() == 0 || seg == seq!['.'] {
        if start == 0 {
            None
        } else {
            file_name(p.take(start - 1))
        }
    } else if seg == seq!['.', '.'] {
        None
    } else {
        Some(seg)
    }
}

/// The extension of a file name, as `Path::extension` finds it: what follows
/// the last `.`, where that `.` is not the first character.
pub open spec fn name_extension(name: Seq<char>) -> Option<Seq<char>> {
    let a = after_last(name, '.');
    if a >= 2 {
        Some(name.subrange(a as int, name.len() as int))
    } else {
        None
    }
}

/// The extension of the file a path names.
pub open spec fn path_extension(p: Seq<char>) -> Option<Seq<char>> {
    match file_name(p) {
        Some(name) => name_extension(name),
        None => None,
    }
}

/// The extensions of the files that are migrated.
pub open spec fn included_extension(e: Seq<char>) -> bool {
    e == "java"@ || e == "properties"@ || e == "json"@
}

/// Whether the file at path `p` is one that is migrated.
pub open spec fn has_included_extension(p: Seq<char>) -> bool {
    match path_extension(p) {
        Some(e) => included_extension(e),
        None => false,
    }
}

/// Whether a changed file is one that is migrated.
pub open spec fn is_included_file(f: ChangedFileView) -> bool {
    has_included_extension(f.path)
}

/// The mathematical content of a list of changed files.
pub open spec fn file_views(files: Seq<ChangedFile>) -> Seq<ChangedFileView> {
    files.map_values(|f: ChangedFile| f@)
}

/// The changed files in `files` that are migrated, in their order.
pub open spec fn included_files(files: Seq<ChangedFileView>) -> Seq<ChangedFileView> {
    files.filter(|f: ChangedFileView| is_included_file(f))
}

/// Each selected file has an included extension, and each file of the input
/// that has one is selected; none is added.
pub proof fn lemma_selection_is_exact(files: Seq<ChangedFileView>)
    ensures
        included_files(files).len() <= files.len(),
        forall|i: int|
            0 <= i < included_files(files).len() ==> is_included_file(
                #[trigger] included_files(files)[i],
            ),
        forall|i: int|
            0 <= i < files.len() && is_included_file(files[i]) ==> #[trigger] included_files(
                files,
            ).contains(files[i]),
{
    let pred = |f: ChangedFileView| is_included_file(f);
    files.lemma_filter_len(pred);
    assert forall|i: int| 0 <= i < included_files(files).len() implies is_included_file(
        #[trigger] included_files(files)[i],
    ) by {
        files.lemma_filter_pred(pred, i);
    }
    assert forall|i: int| 0 <= i < files.len() && is_included_file(files[i]) implies #[trigger] included_files(
        files,
    ).contains(files[i]) by {
        files.lemma_filter_contains(pred, i);
    }
}

/// Whether a file is selected depends on its path alone, not on its status or
/// the path it came from: lists with the same paths select the same paths,
/// deleted files included.
pub proof fn lemma_selection_ignores_status(files: Seq<ChangedFileView>, other: Seq<ChangedFileView>)
    requires
        files.len() == other.len(),
        forall|i: int| 0 <= i < files.len() ==> #[trigger] files[i].path == other[i].path,
    ensures
        included_files(files).len() == included_files(other).len(),
        forall|i: int|
            0 <= i < included_files(files).len() ==> #[trigger] included_files(files)[i].path
                == included_files(other)[i].path,
    decreases files.len(),
{
    reveal(Seq::filter);
    if files.len() > 0 {
        let n = files.len() - 1;
        assert(files.drop_last().len() == other.drop_last().len());
        assert forall|i: int| 0 <= i < files.drop_last().len() implies #[trigger] files.drop_last()[i].path
            == other.drop_last()[i].path by {
            assert(files[i].path == other[i].path);
        }
        lemma_selection_ignores_status(files.drop_last(), other.drop_last());
        assert(files.last().path == other.last().path) by {
            assert(files[n].path == other[n].path);
        }
    }
}

/// Selecting from a selection changes nothing.
pub proof fn lemma_selection_is_idempotent(files: Seq<ChangedFileView>)
    ensures
        included_files(included_files(files)) == included_files(files),
    decreases files.len(),
{
    reveal(Seq::filter);
    if files.len() > 0 {
        lemma_selection_is_idempotent(files.drop_last());
        let rest = included_files(files.drop_last());
        if is_included_file(files.last()) {
            let kept = rest.push(files.last());
            assert(kept.drop_last() =~= rest);
            assert(included_files(kept) == included_files(rest).push(files.last()));
        }
    }
}

/// The position just after the last `c` in `v[lo..hi]`, counted from `lo`,
/// or 0 where that range holds no `c`.
fn after_last_in(v: &Vec<char>, lo: usize, hi: usize, c: char) -> (r: usize)
    requires
        lo <= hi <= v@.len(),
    ensures
        r == after_last(v@.subrange(lo as int, hi as int), c),
{
    let mut j = hi;
    while j > lo && v[j - 1] != c
        invariant
            lo <= j <= hi <= v@.len(),
            after_last(v@.subrange(lo as int, hi as int), c) == after_last(
                v@.subrange(lo as int, j as int),
                c,
            ),
        decreases j,
    {
        assert(v@.subrange(lo as int, j as int).drop_last() =~= v@.subrange(
            lo as int,
            j - 1,
        ));
        j = j - 1;
    }
    if j > lo {
        j - lo
    } else {
        0
    }
}

/// Where in `v` the file name of the path `v` lies, if it has one.
fn file_name_range(v: &Vec<char>) -> (r: Option<(usize, usize)>)
    ensures
        match r {
            Some((a, b)) => a <= b <= v@.len() && file_name(v@) == Some(
                v@.subrange(a as int, b as int),
            ),
            None => file_name(v@) is None,
        },
{
    let mut hi = v.len();
    assert(v@.take(hi as int) =~= v@);
    loop
        invariant
            hi <= v@.len(),
            file_name(v@) == file_name(v@.take(hi as int)),
        decreases hi,
    {
        let ghost p = v@.take(hi as int);
        assert(v@.subrange(0, hi as int) =~= p);
        let start = after_last_in(v, 0, hi, '/');
        proof {
            lemma_after_last(p, '/');
        }
        let ghost seg = p.subrange(start as int, p.len() as int);
        assert(seg =~= v@.subrange(start as int, hi as int));
        let seg_len = hi - start;
        if seg_len == 0 || (seg_len == 1 && v[start] == '.') {
            assert(seg.len() == 0 || seg =~= seq!['.']);
            if start == 0 {
                return None;
            }
            assert(p.take(start - 1) =~= v@.take(start - 1));
            hi = start - 1;
        } else if seg_len == 2 && v[start] == '.' && v[start + 1] == '.' {
            assert(seg =~= seq!['.', '.']);
            return None;
        } else {
            assert(seg.len() != 0);
            assert(seg != seq!['.']) by {
                if seg_len == 1 {
                    assert(seg[0] != '.');
                }
            }
            assert(seg != seq!['.', '.']) by {
                if seg_len == 2 {
                    assert(seg[0] != '.' || seg[1] != '.');
                }
            }
            return Some((start, hi));
        }
    }
}

/// Whether `v[lo..hi]` spells `word`.
fn range_spells(v: &Vec<char>, lo: usize, hi: usize, word: &str) -> (b: bool)
    requires
        lo <= hi <= v@.len(),
    ensures
        b == (v@.subrange(lo as int, hi as int) == word@),
{
    let n = word.unicode_len();
    if hi - lo != n {
        return false;
    }
    let mut k: usize = 0;
    while k < n
        invariant
            n == word@.len(),
            hi - lo == n,
            lo <= hi <= v@.len(),
            k <= n,
            forall|m: int| 0 <= m < k ==> v@[lo + m] == word@[m],
        decreases n - k,
    {
        if v[lo + k] != word.get_char(k) {
            assert(v@.subrange(lo as int, hi as int)[k as int] != word@[k as int]);
            return false;
        }
        k = k + 1;
    }
    assert(v@.subrange(lo as int, hi as int) =~= word@);
    true
}

/// The service that works out which changed files are migrated.
pub struct DiffService;

/// The changed files that are migrated, and how many files changed in all.
pub struct DiffSelection {
    pub files: Vec<ChangedFile>,
    pub total: usize,
}

impl DiffService {
    /// The extensions of the files that are migrated, in the order they are listed.
    pub fn included_extensions() -> (r: Vec<&'static str>)
        ensures
            r@.len() == 3,
            r@[0]@ == "java"@,
            r@[1]@ == "properties"@,
            r@[2]@ == "json"@,
    {
        vec!["java", "properties", "json"]
    }

    /// Whether the file at `path` has one of the included extensions.
    pub fn is_included(path: &str) -> (b: bool)
        ensures
            b == has_included_extension(path@),
    {
        let v = crate::text::chars_of(path);
        match file_name_range(&v) {
            None => false,
            Some((a, b)) => {
                let ghost name = v@.subrange(a as int, b as int);
                let d = after_last_in(&v, a, b, '.');
                proof {
                    lemma_after_last(name, '.');
                }
                if d >= 2 {
                    let e = a + d;
                    assert(name.subrange(d as int, name.len() as int) =~= v@.subrange(
                        e as int,
                        b as int,
                    ));
                    range_spells(&v, e, b, "java") || range_spells(&v, e, b, "properties")
                        || range_spells(&v, e, b, "json")
                } else {
                    false
                }
            },
        }
    }

    /// The files in `files` that have one of the included extensions, in
    /// their order, and how many files there were in all.
    pub fn select(files: &Vec<ChangedFile>) -> (s: DiffSelection)
        ensures
            file_views(s.files@) == included_files(file_views(files@)),
            s.total == files@.len(),
    {
        let mut kept: Vec<ChangedFile> = Vec::new();
        let mut i: usize = 0;
        let ghost all = file_views(files@);
        while i < files.len()
            invariant
                i <= files@.len(),
                all == file_views(files@),
                file_views(kept@) == included_files(all.take(i as int)),
            decreases files@.len() - i,
        {
            let f = &files[i];
            let ghost before = kept@;
            proof {
                reveal(Seq::filter);
                assert(all.take(i + 1).drop_last() =~= all.take(i as int));
                assert(all.take(i + 1).last() == f@);
            }
            if Self::is_included(f.path.as_str()) {
                kept.push(f.duplicate());
                assert(file_views(kept@) =~= file_views(before).push(f@));
            }
            i = i + 1;
        }
        assert(all.take(files@.len() as int) =~= all);
        DiffSelection { files: kept, total: files.len() }
    }

    /// The selection made from what reading the repository gave: an error
    /// is passed on as it is; a list of changed files is selected from.
    pub fn select_result(read: Result<Vec<ChangedFile>, GitError>) -> (r: Result<
        DiffSelection,
        GitError,
    >)
        ensures
            read matches Err(e) ==> (r matches Err(e2) && e2 == e),
            read matches Ok(all) ==> (r matches Ok(s) && s.total == all@.len() && file_views(
                s.files@,
            ) == included_files(file_views(all@))),
    {
        match read {
            Ok(all) => Ok(Self::select(&all)),
            Err(e) => Err(e),
        }
    }

    /// The changed files between `branch1` (the target) and `branch2` (the
    /// source) in the repository at `repo_path` that have one of the included
    /// extensions, with the number of changed files in all. An error in
    /// opening or reading the repository is passed on.
    pub fn changed_files(repo_path: &str, branch1: &str, branch2: &str) -> (r: Result<
        DiffSelection,
        GitError,
    >)
        ensures
            r matches Ok(s) ==> exists|all: Seq<ChangedFile>|
                {
                    &&& reports_changes(all)
                    &&& s.total == all.len()
                    &&& file_views(s.files@) == included_files(file_views(all))
                },
    {
        let repo = match GitRepository::open(repo_path) {
            Ok(repo) => repo,
            Err(e) => return Err(e),
        };
        let read = repo.changed_files(branch1, branch2);
        Self::select_result(read)
    }
}

} // verus!
