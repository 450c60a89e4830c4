use vstd::prelude::*;
use crate::paths::{contains_path, join, spec_join};

verus! {

// The resolution algorithm is a pure computation over facts about the
// filesystem: which paths exist, what the relevant files hold, and what
// each member glob pattern expanded to. A `Snapshot` carries those facts
// as plain values; the shell that talks to the real filesystem gathers
// them and hands them in.

/// The recorded contents of one file.
pub struct FileEntry {
    /// The absolute path of the file.
    pub path: String,
    /// Its full text.
    pub contents: String,
}

/// What expanding one glob pattern came to.
pub enum GlobOutcome {
    /// The pattern expanded to these existing absolute paths.
    Matches(Vec<String>),
    /// The pattern is not a valid glob.
    InvalidPattern,
    /// Reading a matched path failed.
    ReadFailed,
}

/// The recorded expansion of one glob pattern.
pub struct GlobAnswer {
    /// The absolute pattern that was expanded.
    pub pattern: String,
    /// What the expansion came to.
    pub outcome: GlobOutcome,
}

/// The filesystem facts a resolution works from.
pub struct Snapshot {
    /// The canonical absolute path resolution starts at.
    pub start: String,
    /// The target-directory override from the environment, if set.
    pub env_target_dir: Option<String>,
    /// Absolute paths known to exist.
    pub existing: Vec<String>,
    /// Contents of the files that were read.
    pub files: Vec<FileEntry>,
    /// Expansions of the member glob patterns that were encountered.
    pub globs: Vec<GlobAnswer>,
}

/// Mathematical shape of a glob expansion outcome.
pub ghost enum GlobOutcomeView {
    /// The matched paths.
    Matches(Seq<Seq<char>>),
    /// The pattern is not a valid glob.
    InvalidPattern,
    /// Reading a matched path failed.
    ReadFailed,
}

impl View for GlobOutcome {
    type V = GlobOutcomeView;

    open spec fn view(&self) -> GlobOutcomeView {
        match self {
            GlobOutcome::Matches(v) => GlobOutcomeView::Matches(v.deep_view()),
            GlobOutcome::InvalidPattern => GlobOutcomeView::InvalidPattern,
            GlobOutcome::ReadFailed => GlobOutcomeView::ReadFailed,
        }
    }
}

/// The recorded contents of the file at `p`, starting the scan at entry `i`.
pub open spec fn spec_file_from(files: Seq<FileEntry>, p: Seq<char>, i: int) -> Option<Seq<char>>
    decreases files.len() - i,
{
    if i < 0 || i >= files.len() {
        None
    } else if files[i].path@ == p {
        Some(files[i].contents@)
    } else {
        spec_file_from(files, p, i + 1)
    }
}

/// The recorded contents of the file at `p`: the first entry with that path.
pub open spec fn spec_file_at(files: Seq<FileEntry>, p: Seq<char>) -> Option<Seq<char>> {
    spec_file_from(files, p, 0)
}

/// The recorded expansion of pattern `pat`, starting the scan at entry `i`.
pub open spec fn spec_glob_from(globs: Seq<GlobAnswer>, pat: Seq<char>, i: int) -> Option<
    GlobOutcomeView,
>
    decreases globs.len() - i,
{
    if i < 0 || i >= globs.len() {
        None
    } else if globs[i].pattern@ == pat {
        Some(globs[i].outcome@)
    } else {
        spec_glob_from(globs, pat, i + 1)
    }
}

/// The recorded expansion of pattern `pat`: the first entry with that pattern.
pub open spec fn spec_glob_at(globs: Seq<GlobAnswer>, pat: Seq<char>) -> Option<GlobOutcomeView> {
    spec_glob_from(globs, pat, 0)
}

/// Looks up the recorded contents of the file at `p`.
pub fn find_file<'a>(files: &'a Vec<FileEntry>, p: &str) -> (r: Option<&'a String>)
    ensures
        match r {
            Some(c) => spec_file_at(files@, p@) == Some(c@),
            None => spec_file_at(files@, p@) is None,
        },
{
    let p_owned = p.to_owned();
    let n = files.len();
    let mut i: usize = 0;
    while i < n
        invariant
            i <= n,
            n == files@.len(),
            p_owned@ == p@,
            spec_file_at(files@, p@) == spec_file_from(files@, p@, i as int),
        decreases n - i,
    {
        if files[i].path.eq(&p_owned) {
            assert(spec_file_from(files@, p@, i as int) == Some(files@[i as int].contents@));
            return Some(&files[i].contents);
        }
        assert(spec_file_from(files@, p@, i as int) == spec_file_from(files@, p@, i as int + 1));
        i = i + 1;
    }
    None
}

/// Looks up the recorded expansion of pattern `pat`.
pub fn find_glob<'a>(globs: &'a Vec<GlobAnswer>, pat: &str) -> (r: Option<&'a GlobOutcome>)
    ensures
        match r {
            Some(o) => spec_glob_at(globs@, pat@) == Some(o@),
            None => spec_glob_at(globs@, pat@) is None,
        },
{
    let pat_owned = pat.to_owned();
    let n = globs.len();
    let mut i: usize = 0;
    while i < n
        invariant
            i <= n,
            n == globs@.len(),
            pat_owned@ == pat@,
            spec_glob_at(globs@, pat@) == spec_glob_from(globs@, pat@, i as int),
        decreases n - i,
    {
        if globs[i].pattern.eq(&pat_owned) {
            assert(spec_glob_from(globs@, pat@, i as int) == Some(globs@[i as int].outcome@));
            return Some(&globs[i].outcome);
        }
        assert(spec_glob_from(globs@, pat@, i as int) == spec_glob_from(globs@, pat@, i as int + 1));
        i = i + 1;
    }
    None
}

/// Whether the string `p` occurs in `paths`.
pub fn contains_string(paths: &Vec<String>, p: &str) -> (r: bool)
    ensures
        r == contains_path(paths.deep_view(), p@),
{
    let p_owned = p.to_owned();
    let n = paths.len();
    let mut i: usize = 0;
    while i < n
        invariant
            i <= n,
            n == paths@.len(),
            p_owned@ == p@,
            forall|k: int| 0 <= k < i ==> paths@[k]@ != p@,
        decreases n - i,
    {
        if paths[i].eq(&p_owned) {
            assert(paths.deep_view()[i as int] == paths@[i as int]@);
            return true;
        }
        i = i + 1;
    }
    assert forall|k: int| 0 <= k < paths.deep_view().len() implies paths.deep_view()[k] != p@ by {
        assert(paths.deep_view()[k] == paths@[k]@);
    }
    false
}

/// Relies on `glob::glob`, which expands a glob pattern against the real
/// filesystem. What it matches depends on what is on disk, so nothing is
/// assumed about the outcome.
#[verifier::external_body]
fn glob_expand(pattern: &str) -> (r: GlobOutcome) {
    match glob::glob(pattern) {
        Err(_) => GlobOutcome::InvalidPattern,
        Ok(paths) => {
            let mut v: Vec<String> = Vec::new();
            for entry in paths {
                match entry {
                    Ok(p) => v.push(p.to_string_lossy().into_owned()),
                    Err(_) => return GlobOutcome::ReadFailed,
                }
            }
            GlobOutcome::Matches(v)
        },
    }
}

/// Expands one workspace member pattern against the real filesystem: the
/// pattern is the member joined onto the workspace root, and the outcome
/// is whatever the expansion came to. The shell gathering a `Snapshot`
/// records one answer per encountered pattern.
pub fn expand_member_pattern(ws_root: &str, member: &str) -> (r: GlobAnswer)
    ensures
        r.pattern@ == spec_join(ws_root@, member@),
{
    let pattern = join(ws_root, member);
    let outcome = glob_expand(pattern.as_str());
    GlobAnswer { pattern, outcome }
}

} // verus!
