//! The transfer primitive: copying a named file into a destination
//! directory, preserving its base name. The library decides whether the
//! copy may proceed and computes the target path; the unverified driver
//! performs the byte copy itself.

use vstd::prelude::*;
use crate::paths::spec_base_name;
use crate::paths::spec_join;
use crate::paths::valid_base_name;
use crate::paths::base_name;
use crate::paths::join_under;
use crate::probe::find_dir;
use crate::probe::find_file;

verus! {

/// Why a copy into a directory cannot proceed, or failed.
#[derive(Debug, PartialEq, Eq)]
pub enum TransferError {
    /// The destination directory is absent (checked first).
    DestinationNotFound,
    /// The source file is absent (checked second).
    SourceNotFound,
    /// The source path has no extractable base name.
    InvalidSourceName,
    /// The copy itself failed; carries the underlying cause.
    CopyFailed { reason: String },
}

/// Decides a copy of `source` into `dest_dir` from the two existence
/// observations, in the order that gives the more specific error first:
/// destination, then source. On success, returns the target path
/// `dest_dir/base_name(source)`.
pub fn plan_copy(source: &str, dest_dir: &str, dest_exists: bool, source_exists: bool) -> (r:
    Result<String, TransferError>)
    ensures
        !dest_exists ==> r == Err::<String, TransferError>(TransferError::DestinationNotFound),
        dest_exists && !source_exists ==> r == Err::<String, TransferError>(
            TransferError::SourceNotFound,
        ),
        dest_exists && source_exists && !valid_base_name(spec_base_name(source@)) ==> r == Err::<
            String,
            TransferError,
        >(TransferError::InvalidSourceName),
        dest_exists && source_exists && valid_base_name(spec_base_name(source@)) ==> (r matches Ok(
            p,
        ) && p@ == spec_join(dest_dir@, spec_base_name(source@))),
{
    if !dest_exists {
        return Err(TransferError::DestinationNotFound);
    }
    if !source_exists {
        return Err(TransferError::SourceNotFound);
    }
    match base_name(source) {
        Option::None => Err(TransferError::InvalidSourceName),
        Option::Some(name) => Ok(join_under(dest_dir, name.as_str())),
    }
}

/// The `copyInto` entry point: probes the destination directory and the
/// source (in that order) and returns the target path for the copy. The
/// driver then copies the bytes to that path, overwriting any file of the
/// same name, and maps an I/O failure to `CopyFailed`.
pub fn copy_into_target(source: &str, dest_dir: &str) -> (r: Result<String, TransferError>)
    ensures
        r matches Ok(p) ==> valid_base_name(spec_base_name(source@)) && p@ == spec_join(
            dest_dir@,
            spec_base_name(source@),
        ),
        r matches Err(e) ==> e == TransferError::DestinationNotFound || e
            == TransferError::SourceNotFound || (e == TransferError::InvalidSourceName
            && !valid_base_name(spec_base_name(source@))),
{
    let dest_exists = find_dir(dest_dir);
    let source_exists = find_file(source);
    plan_copy(source, dest_dir, dest_exists, source_exists)
}

/// The effect of a completed copy on a filesystem modeled as a map from
/// paths to file contents: the target now holds the source's content;
/// nothing else changes.
pub open spec fn copy_effect(
    fs: Map<Seq<char>, Seq<u8>>,
    source: Seq<char>,
    target: Seq<char>,
) -> Map<Seq<char>, Seq<u8>> {
    fs.insert(target, fs[source])
}

/// Law: copying is idempotent. Performing the same copy twice leaves the
/// filesystem exactly as one copy does; in particular the target's content
/// equals the source's either way (overwrite semantics). That a second
/// call cannot fail when the preconditions still hold is the success
/// clause of `plan_copy`, whose result is a function of its arguments.
pub proof fn lemma_copy_idempotent(fs: Map<Seq<char>, Seq<u8>>, source: Seq<char>, target: Seq<char>)
    ensures
        copy_effect(copy_effect(fs, source, target), source, target) == copy_effect(
            fs,
            source,
            target,
        ),
{
    let once = copy_effect(fs, source, target);
    assert(once[source] == fs[source]);
    assert(copy_effect(once, source, target) =~= once);
}

} // verus!
