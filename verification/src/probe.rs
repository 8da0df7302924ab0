//! The filesystem probe: existence checks, and selection of the single
//! input asset among a directory's entry names.

use vstd::prelude::*;
use crate::paths::spec_has_extension;
use crate::paths::has_extension;

verus! {

/// Relies on `std::path::Path::exists`: whether `path` currently resolves
/// to an existing file or directory. The answer depends on the state of
/// the filesystem at the moment of the call, so nothing is promised of it.
#[verifier::external_body]
fn path_exists(path: &str) -> bool {
    std::path::Path::new(path).exists()
}

/// Whether the file at `path` exists. The pipeline makes no distinction
/// between file and directory existence checks; both call the same
/// predicate, whose answer depends on the state of the filesystem.
pub fn find_file(path: &str) -> bool {
    path_exists(path)
}

/// Whether the directory at `path` exists; the same predicate as
/// `find_file`.
pub fn find_dir(path: &str) -> bool {
    path_exists(path)
}

/// Position of the first name in `names` that carries extension `ext`,
/// or `None` when no name does.
pub open spec fn spec_first_match(names: Seq<String>, ext: Seq<char>) -> Option<int>
    decreases names.len(),
{
    if names.len() == 0 {
        None
    } else if spec_has_extension(names[0]@, ext) {
        Some(0int)
    } else {
        match spec_first_match(names.subrange(1, names.len() as int), ext) {
            Option::None => None,
            Option::Some(i) => Some(i + 1),
        }
    }
}

/// What `spec_first_match` selects: a match, before which nothing matches;
/// or nothing, when no name matches at all.
pub proof fn lemma_first_match_props(names: Seq<String>, ext: Seq<char>)
    ensures
        spec_first_match(names, ext) matches Some(i) ==> 0 <= i < names.len()
            && spec_has_extension(names[i]@, ext)
            && forall|j: int| 0 <= j < i ==> !spec_has_extension(names[j]@, ext),
        spec_first_match(names, ext) is None ==> forall|j: int|
            0 <= j < names.len() ==> !spec_has_extension(names[j]@, ext),
    decreases names.len(),
{
    if names.len() > 0 && !spec_has_extension(names[0]@, ext) {
        let rest = names.subrange(1, names.len() as int);
        lemma_first_match_props(rest, ext);
        match spec_first_match(rest, ext) {
            Option::Some(i) => {
                assert(rest[i] == names[i + 1]);
                assert forall|j: int| 0 <= j < i + 1 implies !spec_has_extension(
                    names[j]@,
                    ext,
                ) by {
                    if j > 0 {
                        assert(rest[j - 1] == names[j]);
                    }
                }
            },
            Option::None => {
                assert forall|j: int| 0 <= j < names.len() implies !spec_has_extension(
                    names[j]@,
                    ext,
                ) by {
                    if j > 0 {
                        assert(rest[j - 1] == names[j]);
                    }
                }
            },
        }
    }
}

/// A match at `k` with no match before it is the first match.
pub proof fn lemma_first_match_at(names: Seq<String>, ext: Seq<char>, k: int)
    requires
        0 <= k < names.len(),
        spec_has_extension(names[k]@, ext),
        forall|j: int| 0 <= j < k ==> !spec_has_extension(names[j]@, ext),
    ensures
        spec_first_match(names, ext) == Some(k),
    decreases names.len(),
{
    if k > 0 {
        let rest = names.subrange(1, names.len() as int);
        assert(forall|j: int| 0 <= j < rest.len() ==> rest[j] == names[j + 1]);
        lemma_first_match_at(rest, ext, k - 1);
    }
}

/// No match anywhere means no first match.
pub proof fn lemma_first_match_absent(names: Seq<String>, ext: Seq<char>)
    requires
        forall|j: int| 0 <= j < names.len() ==> !spec_has_extension(names[j]@, ext),
    ensures
        spec_first_match(names, ext) is None,
    decreases names.len(),
{
    if names.len() > 0 {
        let rest = names.subrange(1, names.len() as int);
        assert(forall|j: int| 0 <= j < rest.len() ==> rest[j] == names[j + 1]);
        lemma_first_match_absent(rest, ext);
    }
}

/// Selects the input asset: the first entry of `entries` whose name
/// carries extension `ext`, in the order the entries were listed.
pub fn find_asset_by_extension(entries: &Vec<String>, ext: &str) -> (r: Option<usize>)
    ensures
        r matches Some(i) ==> spec_first_match(entries@, ext@) == Some(i as int),
        r is None ==> spec_first_match(entries@, ext@) is None,
{
    let mut i: usize = 0;
    while i < entries.len()
        invariant
            i <= entries@.len(),
            forall|j: int| 0 <= j < i ==> !spec_has_extension(entries@[j]@, ext@),
        decreases entries@.len() - i,
    {
        if has_extension(entries[i].as_str(), ext) {
            proof {
                lemma_first_match_at(entries@, ext@, i as int);
            }
            return Some(i);
        }
        i = i + 1;
    }
    proof {
        lemma_first_match_absent(entries@, ext@);
    }
    None
}

} // verus!
