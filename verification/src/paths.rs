//! Path strings and the operations the pipeline needs on them: splitting
//! off a base name, joining a name under a directory, and testing a file
//! extension.

use vstd::prelude::*;
use vstd::string::StrSliceExecFns;

verus! {

/// Directory separator characters recognized in path strings. Paths in
/// this library are written with `/`; `\` is accepted as well, so that
/// tool paths may be spelled either way.
pub open spec fn is_separator(c: char) -> bool {
    c == '/' || c == '\\'
}

/// Executable separator test.
pub fn is_sep_char(c: char) -> (r: bool)
    ensures
        r == is_separator(c),
{
    c == '/' || c == '\\'
}

/// Index of the last separator in `path`, or -1 when it has none.
pub open spec fn last_sep(path: Seq<char>) -> int
    decreases path.len(),
{
    if path.len() == 0 {
        -1
    } else if is_separator(path[path.len() - 1]) {
        path.len() - 1
    } else {
        last_sep(path.drop_last())
    }
}

/// If `path[k]` is a separator and nothing after it is, then `k` is the
/// last separator position.
pub proof fn lemma_last_sep_at(path: Seq<char>, k: int)
    requires
        0 <= k < path.len(),
        is_separator(path[k]),
        forall|j: int| k < j < path.len() ==> !is_separator(path[j]),
    ensures
        last_sep(path) == k,
    decreases path.len(),
{
    if k < path.len() - 1 {
        assert(!is_separator(path[path.len() - 1]));
        lemma_last_sep_at(path.drop_last(), k);
    }
}

/// A path without separators has no last separator.
pub proof fn lemma_last_sep_none(path: Seq<char>)
    requires
        forall|j: int| 0 <= j < path.len() ==> !is_separator(path[j]),
    ensures
        last_sep(path) == -1,
    decreases path.len(),
{
    if path.len() > 0 {
        lemma_last_sep_none(path.drop_last());
    }
}

/// The file-name part of `path`: everything after the last separator.
pub open spec fn spec_base_name(path: Seq<char>) -> Seq<char> {
    path.subrange(last_sep(path) + 1, path.len() as int)
}

/// A base name that can actually be extracted: non-empty and not a
/// relative-directory marker.
pub open spec fn valid_base_name(name: Seq<char>) -> bool {
    name.len() > 0 && name != seq!['.'] && name != seq!['.', '.']
}

/// Extracts the file-name part of `path`, or `None` when the path has no
/// extractable base name: it is empty, ends in a separator, or its last
/// component is `.` or `..`.
pub fn base_name(path: &str) -> (r: Option<String>)
    ensures
        r matches Some(name) ==> name@ == spec_base_name(path@) && valid_base_name(name@),
        r is None ==> !valid_base_name(spec_base_name(path@)),
{
    let n: usize = path.unicode_len();
    let mut i: usize = n;
    while i > 0 && !is_sep_char(path.get_char(i - 1))
        invariant
            i <= n,
            n == path@.len(),
            forall|j: int| i <= j < n ==> !is_separator(path@[j]),
        decreases i,
    {
        i = i - 1;
    }
    proof {
        if i > 0 {
            lemma_last_sep_at(path@, i - 1);
        } else {
            lemma_last_sep_none(path@);
        }
        assert(spec_base_name(path@) =~= path@.subrange(i as int, n as int));
    }
    if i == n {
        proof {
            assert(spec_base_name(path@).len() == 0);
        }
        return None;
    }
    if n - i == 1 && path.get_char(i) == '.' {
        proof {
            assert(spec_base_name(path@) =~= seq!['.']);
        }
        return None;
    }
    if n - i == 2 && path.get_char(i) == '.' && path.get_char(i + 1) == '.' {
        proof {
            assert(spec_base_name(path@) =~= seq!['.', '.']);
        }
        return None;
    }
    let name = path.substring_char(i, n).to_owned();
    proof {
        if name@ == seq!['.'] {
            assert(name@.len() == 1);
            assert(path@[i as int] == name@[0]);
        }
        if name@ == seq!['.', '.'] {
            assert(name@.len() == 2);
            assert(path@[i as int] == name@[0]);
            assert(path@[i + 1] == name@[1]);
        }
    }
    Some(name)
}

/// `name` placed directly under `dir`, joined with `/`.
pub open spec fn spec_join(dir: Seq<char>, name: Seq<char>) -> Seq<char> {
    dir + seq!['/'] + name
}

/// Builds the path of `name` placed directly under `dir`.
pub fn join_under(dir: &str, name: &str) -> (r: String)
    ensures
        r@ == spec_join(dir@, name@),
{
    let mut s = String::new();
    s.append(dir);
    s.append("/");
    s.append(name);
    proof {
        reveal_strlit("/");
        assert(s@ =~= spec_join(dir@, name@));
    }
    s
}

/// Whether `name` ends with `.` followed by `ext`, with at least one
/// character before the dot. With an `ext` that contains no dot and no
/// separator, this is the extension test that the platform makes on a
/// plain file name.
pub open spec fn spec_has_extension(name: Seq<char>, ext: Seq<char>) -> bool {
    &&& name.len() > ext.len() + 1
    &&& name[name.len() - ext.len() - 1] == '.'
    &&& name.subrange(name.len() - ext.len(), name.len() as int) == ext
}

pub fn has_extension(name: &str, ext: &str) -> (r: bool)
    ensures
        r == spec_has_extension(name@, ext@),
{
    let n: usize = name.unicode_len();
    let m: usize = ext.unicode_len();
    if n <= m {
        return false;
    }
    if n - m < 2 {
        return false;
    }
    if name.get_char(n - m - 1) != '.' {
        return false;
    }
    let mut j: usize = 0;
    while j < m
        invariant
            j <= m,
            m == ext@.len(),
            n == name@.len(),
            n - m >= 2,
            forall|k: int| 0 <= k < j ==> name@[n - m + k] == ext@[k],
        decreases m - j,
    {
        if name.get_char(n - m + j) != ext.get_char(j) {
            proof {
                assert(name@.subrange(n - m, n as int)[j as int] == name@[n - m + j]);
            }
            return false;
        }
        j = j + 1;
    }
    proof {
        assert(name@.subrange(n - m, n as int) =~= ext@);
    }
    true
}

} // verus!
