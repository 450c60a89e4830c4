use vstd::prelude::*;

verus! {

// Paths are modelled as strings of '/'-separated components, as produced by
// canonicalization: absolute, with no trailing separator except for the root
// path "/" itself.

/// Index of the last occurrence of `c` strictly below position `i`, if any.
pub open spec fn last_index_below(p: Seq<char>, c: char, i: int) -> Option<int>
    decreases i,
{
    if i <= 0 {
        None
    } else if p[i - 1] == c {
        Some(i - 1)
    } else {
        last_index_below(p, c, i - 1)
    }
}

proof fn lemma_last_index_below_bounds(p: Seq<char>, c: char, i: int)
    ensures
        last_index_below(p, c, i) matches Some(j) ==> 0 <= j < i && p[j] == c,
    decreases i,
{
    if i > 0 && p[i - 1] != c {
        lemma_last_index_below_bounds(p, c, i - 1);
    }
}

/// Finds the index of the last occurrence of `c` in `p`.
pub fn rfind_char(p: &str, c: char) -> (r: Option<usize>)
    ensures
        match r {
            Some(j) => last_index_below(p@, c, p@.len() as int) == Some(j as int),
            None => last_index_below(p@, c, p@.len() as int) is None,
        },
{
    let n = p.unicode_len();
    let mut i = n;
    while i > 0
        invariant
            i <= n,
            n == p@.len(),
            last_index_below(p@, c, n as int) == last_index_below(p@, c, i as int),
        decreases i,
    {
        if p.get_char(i - 1) == c {
            return Some(i - 1);
        }
        i = i - 1;
    }
    None
}

/// The parent directory of a path: the part before the last separator,
/// or "/" when the last separator is the leading one. "/" has no parent,
/// nor does a path without separators.
pub open spec fn spec_parent(p: Seq<char>) -> Option<Seq<char>> {
    if p.len() <= 1 {
        None
    } else {
        match last_index_below(p, '/', p.len() as int) {
            None => None,
            Some(j) => if j == 0 {
                Some("/"@)
            } else {
                Some(p.subrange(0, j))
            },
        }
    }
}

/// A parent path is strictly shorter than the path itself.
pub proof fn lemma_parent_shorter(p: Seq<char>)
    ensures
        spec_parent(p) matches Some(q) ==> q.len() < p.len(),
{
    reveal_strlit("/");
    if p.len() > 1 {
        lemma_last_index_below_bounds(p, '/', p.len() as int);
    }
}

/// Joining a directory and a relative name: insert a separator unless the
/// directory is the root path, whose trailing separator is already there.
pub open spec fn spec_join(d: Seq<char>, f: Seq<char>) -> Seq<char> {
    if d == "/"@ {
        d + f
    } else {
        d + "/"@ + f
    }
}

/// Whether `p` occurs in `paths`.
pub open spec fn contains_path(paths: Seq<Seq<char>>, p: Seq<char>) -> bool {
    exists|i: int| 0 <= i < paths.len() && paths[i] == p
}

/// The nearest ancestor directory of `dir` (including `dir` itself) whose
/// join with `file` occurs in `existing`, or `None` when the walk reaches
/// the filesystem root without a match.
pub open spec fn spec_search(existing: Seq<Seq<char>>, dir: Seq<char>, file: Seq<char>) -> Option<
    Seq<char>,
>
    decreases dir.len(),
    via spec_search_decreases
{
    if contains_path(existing, spec_join(dir, file)) {
        Some(dir)
    } else {
        match spec_parent(dir) {
            Some(par) => spec_search(existing, par, file),
            None => None,
        }
    }
}

#[via_fn]
proof fn spec_search_decreases(existing: Seq<Seq<char>>, dir: Seq<char>, file: Seq<char>) {
    lemma_parent_shorter(dir);
}

/// A found directory is no longer than the directory the search began at.
pub proof fn lemma_search_result_no_longer(existing: Seq<Seq<char>>, dir: Seq<char>, file: Seq<char>)
    ensures
        spec_search(existing, dir, file) matches Some(r) ==> r.len() <= dir.len(),
    decreases dir.len(),
{
    lemma_parent_shorter(dir);
    if !contains_path(existing, spec_join(dir, file)) {
        match spec_parent(dir) {
            Some(par) => {
                lemma_search_result_no_longer(existing, par, file);
            },
            None => {},
        }
    }
}

/// Joins a directory path and a relative file name with a '/' separator.
pub fn join(d: &str, f: &str) -> (r: String)
    ensures
        r@ == spec_join(d@, f@),
{
    proof {
        reveal_strlit("/");
    }
    let mut r = d.to_owned();
    if !(d.unicode_len() == 1 && d.get_char(0) == '/') {
        proof {
            assert(d@ != "/"@) by {
                if d@ == "/"@ {
                    assert(d@.len() == 1);
                    assert(d@[0] == '/');
                }
            }
        }
        r.append("/");
    } else {
        assert(d@ =~= "/"@);
    }
    r.append(f);
    r
}

/// Returns the parent directory of `p`, as `spec_parent` describes it.
pub fn parent(p: &str) -> (r: Option<String>)
    ensures
        match r {
            Some(q) => spec_parent(p@) == Some(q@),
            None => spec_parent(p@) is None,
        },
{
    proof {
        reveal_strlit("/");
    }
    let n = p.unicode_len();
    if n <= 1 {
        return None;
    }
    match rfind_char(p, '/') {
        None => None,
        Some(j) => {
            proof {
                lemma_last_index_below_bounds(p@, '/', p@.len() as int);
            }
            if j == 0 {
                let root = "/".to_owned();
                assert(root@ =~= "/"@);
                Some(root)
            } else {
                Some(p.substring_char(0, j).to_owned())
            }
        },
    }
}

/// The position where the final path component of `p` begins: one past the
/// last separator, or the start of the string.
pub open spec fn spec_basename_start(p: Seq<char>) -> int {
    match last_index_below(p, '/', p.len() as int) {
        Some(j) => j + 1,
        None => 0,
    }
}

/// The position of the dot that begins the extension of the final path
/// component of `p`, or `p.len()` when that component has no extension.
/// A dot at the very start of the component begins no extension.
pub open spec fn spec_ext_dot(p: Seq<char>) -> int {
    match last_index_below(p, '.', p.len() as int) {
        Some(j) => if j > spec_basename_start(p) {
            j
        } else {
            p.len() as int
        },
        None => p.len() as int,
    }
}

/// Replaces the extension of the final path component of `p` with `ext`,
/// or appends it when that component has none.
pub open spec fn spec_set_extension(p: Seq<char>, ext: Seq<char>) -> Seq<char> {
    p.subrange(0, spec_ext_dot(p)) + "."@ + ext
}

/// Sets the extension of the final path component, as `spec_set_extension`
/// describes it.
pub fn set_extension(p: &str, ext: &str) -> (r: String)
    ensures
        r@ == spec_set_extension(p@, ext@),
{
    proof {
        reveal_strlit(".");
        lemma_last_index_below_bounds(p@, '/', p@.len() as int);
        lemma_last_index_below_bounds(p@, '.', p@.len() as int);
    }
    let n = p.unicode_len();
    let b: usize = match rfind_char(p, '/') {
        Some(j) => j + 1,
        None => 0,
    };
    let cut: usize = match rfind_char(p, '.') {
        Some(j) => if j > b {
            j
        } else {
            n
        },
        None => n,
    };
    let mut r = p.substring_char(0, cut).to_owned();
    r.append(".");
    r.append(ext);
    r
}

/// `s` with every `'-'` replaced by `'_'`.
pub open spec fn spec_replace_dashes(s: Seq<char>) -> Seq<char> {
    s.map_values(
        |c: char|
            if c == '-' {
                '_'
            } else {
                c
            },
    )
}

/// Replaces every `'-'` in `s` with `'_'`.
pub fn replace_dashes(s: &str) -> (r: String)
    ensures
        r@ == spec_replace_dashes(s@),
{
    proof {
        reveal_strlit("_");
    }
    let n = s.unicode_len();
    let mut r = String::new();
    let mut i: usize = 0;
    while i < n
        invariant
            i <= n,
            n == s@.len(),
            r@ == spec_replace_dashes(s@.subrange(0, i as int)),
        decreases n - i,
    {
        proof {
            reveal_strlit("_");
        }
        if s.get_char(i) == '-' {
            r.append("_");
        } else {
            let piece = s.substring_char(i, i + 1);
            r.append(piece);
        }
        assert(r@ =~= spec_replace_dashes(s@.subrange(0, i as int + 1)));
        i = i + 1;
    }
    assert(s@.subrange(0, n as int) =~= s@);
    r
}

/// Whether `a` is `d` itself or one of the directories on `d`'s upward
/// parent chain.
pub open spec fn spec_is_ancestor(a: Seq<char>, d: Seq<char>) -> bool
    decreases d.len(),
    via spec_is_ancestor_decreases
{
    a == d || match spec_parent(d) {
        Some(p) => spec_is_ancestor(a, p),
        None => false,
    }
}

#[via_fn]
proof fn spec_is_ancestor_decreases(a: Seq<char>, d: Seq<char>) {
    lemma_parent_shorter(d);
}

/// A proper ancestor is strictly shorter.
pub proof fn lemma_ancestor_no_longer(a: Seq<char>, d: Seq<char>)
    ensures
        spec_is_ancestor(a, d) ==> a == d || a.len() < d.len(),
    decreases d.len(),
{
    lemma_parent_shorter(d);
    if a != d {
        match spec_parent(d) {
            Some(p) => {
                lemma_ancestor_no_longer(a, p);
            },
            None => {},
        }
    }
}

/// Soundness of the upward search: a found directory is an ancestor of
/// the starting directory, and its join with the file indeed occurs in
/// `existing`.
pub proof fn lemma_search_sound(existing: Seq<Seq<char>>, dir: Seq<char>, file: Seq<char>)
    ensures
        spec_search(existing, dir, file) matches Some(r) ==> spec_is_ancestor(r, dir)
            && contains_path(existing, spec_join(r, file)),
    decreases dir.len(),
{
    lemma_parent_shorter(dir);
    if !contains_path(existing, spec_join(dir, file)) {
        match spec_parent(dir) {
            Some(p) => {
                lemma_search_sound(existing, p, file);
            },
            None => {},
        }
    }
}

/// Completeness of the upward search: when it reports nothing, no ancestor
/// of the starting directory holds the file.
pub proof fn lemma_search_complete(existing: Seq<Seq<char>>, dir: Seq<char>, file: Seq<char>)
    ensures
        spec_search(existing, dir, file) is None ==> forall|a: Seq<char>|
            spec_is_ancestor(a, dir) ==> !contains_path(existing, spec_join(a, file)),
    decreases dir.len(),
{
    lemma_parent_shorter(dir);
    if spec_search(existing, dir, file) is None {
        match spec_parent(dir) {
            Some(p) => {
                lemma_search_complete(existing, p, file);
                assert forall|a: Seq<char>| spec_is_ancestor(a, dir) implies !contains_path(
                    existing,
                    spec_join(a, file),
                ) by {
                    if a != dir {
                        assert(spec_is_ancestor(a, p));
                    }
                }
            },
            None => {
                assert forall|a: Seq<char>| spec_is_ancestor(a, dir) implies !contains_path(
                    existing,
                    spec_join(a, file),
                ) by {
                    assert(a == dir);
                }
            },
        }
    }
}

/// The upward search finds the nearest match: no directory strictly
/// between the starting directory and the found one holds the file.
pub proof fn lemma_search_nearest(existing: Seq<Seq<char>>, dir: Seq<char>, file: Seq<char>)
    ensures
        spec_search(existing, dir, file) matches Some(r) ==> forall|a: Seq<char>|
            spec_is_ancestor(a, dir) && spec_is_ancestor(r, a) && a != r ==> !contains_path(
                existing,
                spec_join(a, file),
            ),
    decreases dir.len(),
{
    lemma_parent_shorter(dir);
    if contains_path(existing, spec_join(dir, file)) {
        let r = dir;
        assert forall|a: Seq<char>|
            spec_is_ancestor(a, dir) && spec_is_ancestor(r, a) && a != r implies !contains_path(
            existing,
            spec_join(a, file),
        ) by {
            lemma_ancestor_no_longer(a, dir);
            lemma_ancestor_no_longer(r, a);
        }
    } else {
        match spec_parent(dir) {
            Some(p) => {
                lemma_search_nearest(existing, p, file);
                if spec_search(existing, dir, file) is Some {
                    let r = spec_search(existing, dir, file).unwrap();
                    assert forall|a: Seq<char>|
                        spec_is_ancestor(a, dir) && spec_is_ancestor(r, a) && a
                            != r implies !contains_path(existing, spec_join(a, file)) by {
                        if a != dir {
                            assert(spec_is_ancestor(a, p));
                        }
                    }
                }
            },
            None => {},
        }
    }
}

proof fn lemma_last_index_skip(q: Seq<char>, c: char, j: int, i: int)
    requires
        0 <= j <= i <= q.len(),
        forall|k: int| j <= k < i ==> q[k] != c,
    ensures
        last_index_below(q, c, i) == last_index_below(q, c, j),
    decreases i - j,
{
    if i > j {
        assert(q[i - 1] != c);
        lemma_last_index_skip(q, c, j, i - 1);
    }
}

/// When the joined final component holds neither a separator nor a dot,
/// setting an extension appends it: the component has no extension to
/// replace, and no dot of the directory part begins one.
pub proof fn lemma_set_extension_appends(d: Seq<char>, n: Seq<char>, e: Seq<char>)
    requires
        forall|k: int| 0 <= k < n.len() ==> n[k] != '/' && n[k] != '.',
    ensures
        spec_set_extension(spec_join(d, n), e) == spec_join(d, n) + "."@ + e,
{
    reveal_strlit("/");
    reveal_strlit(".");
    let q = spec_join(d, n);
    let pl = q.len() - n.len();
    if d == "/"@ {
        assert(q[pl - 1] == '/');
    } else {
        assert(q[pl - 1] == (d + "/"@)[d.len() as int]);
        assert(q[pl - 1] == '/');
    }
    assert forall|k: int| pl <= k < q.len() implies q[k] != '/' && q[k] != '.' by {
        assert(q[k] == n[k - pl]);
    }
    lemma_last_index_skip(q, '/', pl as int, q.len() as int);
    assert(last_index_below(q, '/', pl as int) == Some(pl - 1));
    assert(spec_basename_start(q) == pl);
    lemma_last_index_skip(q, '.', pl as int, q.len() as int);
    match last_index_below(q, '.', pl as int) {
        Some(j) => {
            lemma_last_index_below_bounds(q, '.', pl as int);
            assert(j != pl - 1);
            assert(spec_ext_dot(q) == q.len());
        },
        None => {
            assert(spec_ext_dot(q) == q.len());
        },
    }
    assert(q.subrange(0, q.len() as int) =~= q);
}

} // verus!
