//! The report sink: the exact text of every error message, warning and
//! banner the pipeline can emit. The driver prints these; their content
//! is fixed here, so that each fatal message provably names the path it
//! complains about.

use vstd::prelude::*;
use vstd::string::StringExecFns;
use crate::pipeline::CleanupItem;
use crate::pipeline::FatalKind;
use crate::pipeline::PathId;
use crate::pipeline::WarnKind;
use crate::pipeline::path_value;
use crate::pipeline::cleanup_target;
use crate::pipeline::spec_cleanup_target;
use crate::pipeline::spec_copy_source;
use crate::pipeline::spec_copy_target;
use crate::pipeline::spec_path_value;

verus! {

/// `needle` occurs contiguously somewhere in `hay`.
pub open spec fn contains_seq(hay: Seq<char>, needle: Seq<char>) -> bool {
    exists|i: int|
        0 <= i && i + needle.len() <= hay.len() && #[trigger] hay.subrange(i, i + needle.len())
            == needle
}

/// The middle part of a three-way concatenation occurs in the whole.
pub proof fn lemma_concat_contains_middle(pre: Seq<char>, mid: Seq<char>, post: Seq<char>)
    ensures
        contains_seq(pre + mid + post, mid),
{
    let hay = pre + mid + post;
    let i = pre.len() as int;
    assert(hay.subrange(i, i + mid.len()) =~= mid);
}

pub open spec fn spec_no_asset_msg() -> Seq<char> {
    "Error: No .wem file found in the working directory."@
}

pub fn no_asset_msg() -> (r: String)
    ensures
        r@ == spec_no_asset_msg(),
{
    "Error: No .wem file found in the working directory.".to_owned()
}

pub open spec fn spec_dest_not_found_msg(dir: Seq<char>) -> Seq<char> {
    "Error: Destination '"@ + dir + "' not found."@
}

pub fn dest_not_found_msg(dir: &str) -> (r: String)
    ensures
        r@ == spec_dest_not_found_msg(dir@),
{
    let mut s = String::new();
    s.append("Error: Destination '");
    s.append(dir);
    s.append("' not found.");
    proof {
        assert(s@ =~= spec_dest_not_found_msg(dir@));
    }
    s
}

pub open spec fn spec_source_not_found_msg(source: Seq<char>) -> Seq<char> {
    "Error: Source '"@ + source + "' not found."@
}

pub fn source_not_found_msg(source: &str) -> (r: String)
    ensures
        r@ == spec_source_not_found_msg(source@),
{
    let mut s = String::new();
    s.append("Error: Source '");
    s.append(source);
    s.append("' not found.");
    proof {
        assert(s@ =~= spec_source_not_found_msg(source@));
    }
    s
}

pub open spec fn spec_invalid_source_msg(source: Seq<char>) -> Seq<char> {
    "Error: Could not extract the file name from '"@ + source + "'."@
}

pub fn invalid_source_msg(source: &str) -> (r: String)
    ensures
        r@ == spec_invalid_source_msg(source@),
{
    let mut s = String::new();
    s.append("Error: Could not extract the file name from '");
    s.append(source);
    s.append("'.");
    proof {
        assert(s@ =~= spec_invalid_source_msg(source@));
    }
    s
}

pub open spec fn spec_copy_failed_msg(source: Seq<char>, dest: Seq<char>, cause: Seq<char>) -> Seq<
    char,
> {
    "Error: Failed to copy '"@ + source + "' to '"@ + dest + "': "@ + cause
}

pub fn copy_failed_msg(source: &str, dest: &str, cause: &str) -> (r: String)
    ensures
        r@ == spec_copy_failed_msg(source@, dest@, cause@),
{
    let mut s = String::new();
    s.append("Error: Failed to copy '");
    s.append(source);
    s.append("' to '");
    s.append(dest);
    s.append("': ");
    s.append(cause);
    proof {
        assert(s@ =~= spec_copy_failed_msg(source@, dest@, cause@));
    }
    s
}

pub open spec fn spec_exe_missing_msg(exe: Seq<char>) -> Seq<char> {
    "Error: File not found; the file path should look like '"@ + exe + "'."@
}

/// The message for a missing tool executable or script, naming the path
/// where it was expected.
pub fn exe_missing_msg(exe: &str) -> (r: String)
    ensures
        r@ == spec_exe_missing_msg(exe@),
{
    let mut s = String::new();
    s.append("Error: File not found; the file path should look like '");
    s.append(exe);
    s.append("'.");
    proof {
        assert(s@ =~= spec_exe_missing_msg(exe@));
    }
    s
}

pub open spec fn spec_artifact_missing_msg(artifact: Seq<char>) -> Seq<char> {
    "Error: File '"@ + artifact
        + "' not found. This should be unreachable: the compressor reported success, so either it failed to produce the archive or the archive was removed or renamed."@
}

pub fn artifact_missing_msg(artifact: &str) -> (r: String)
    ensures
        r@ == spec_artifact_missing_msg(artifact@),
{
    let mut s = String::new();
    s.append("Error: File '");
    s.append(artifact);
    s.append(
        "' not found. This should be unreachable: the compressor reported success, so either it failed to produce the archive or the archive was removed or renamed.",
    );
    proof {
        assert(s@ =~= spec_artifact_missing_msg(artifact@));
    }
    s
}

pub open spec fn spec_compressor_failed_msg() -> Seq<char> {
    "Error: While running compress.bat: could not convert to Marvel.pak"@
}

pub fn compressor_failed_msg() -> (r: String)
    ensures
        r@ == spec_compressor_failed_msg(),
{
    "Error: While running compress.bat: could not convert to Marvel.pak".to_owned()
}

/// The message a fatal outcome is reported with. `cause` is the
/// underlying I/O error text the driver observed, where there is one;
/// it is ignored for the kinds that carry no cause.
pub open spec fn spec_fatal_message(kind: FatalKind, cause: Seq<char>) -> Seq<char> {
    match kind {
        FatalKind::NoAssetFound => spec_no_asset_msg(),
        FatalKind::DirectoryMissing { dir } => spec_dest_not_found_msg(spec_path_value(dir)),
        FatalKind::SourceMissing { job } => spec_source_not_found_msg(
            spec_path_value(spec_copy_source(job)),
        ),
        FatalKind::RenameFailed => "Error: While renaming the input asset: "@ + cause,
        FatalKind::CopyFailed { job } => spec_copy_failed_msg(
            spec_path_value(spec_copy_source(job)),
            spec_copy_target(job),
            cause,
        ),
        FatalKind::EditorExeMissing => spec_exe_missing_msg(spec_path_value(PathId::EditorExe)),
        FatalKind::EditorSpawnFailed => "Error: While starting SoundFileEditor.exe: "@ + cause,
        FatalKind::CompressorMissing => spec_exe_missing_msg(spec_path_value(PathId::Compressor)),
        FatalKind::CompressorSpawnFailed => "Error: While starting compress.bat: "@ + cause,
        FatalKind::CompressorFailed => spec_compressor_failed_msg(),
        FatalKind::ArtifactMissing => spec_artifact_missing_msg(
            spec_path_value(PathId::ArchiveArtifact),
        ),
    }
}

pub fn fatal_message(kind: &FatalKind, cause: &str) -> (r: String)
    ensures
        r@ == spec_fatal_message(*kind, cause@),
{
    match kind {
        FatalKind::NoAssetFound => no_asset_msg(),
        FatalKind::DirectoryMissing { dir } => {
            let p = path_value(*dir);
            dest_not_found_msg(p.as_str())
        },
        FatalKind::SourceMissing { job } => {
            let p = path_value(crate::pipeline::copy_source(*job));
            source_not_found_msg(p.as_str())
        },
        FatalKind::RenameFailed => {
            let mut s = String::new();
            s.append("Error: While renaming the input asset: ");
            s.append(cause);
            proof {
                assert(s@ =~= spec_fatal_message(*kind, cause@));
            }
            s
        },
        FatalKind::CopyFailed { job } => {
            let source = path_value(crate::pipeline::copy_source(*job));
            let target = crate::pipeline::copy_target(*job);
            copy_failed_msg(source.as_str(), target.as_str(), cause)
        },
        FatalKind::EditorExeMissing => {
            let p = path_value(PathId::EditorExe);
            exe_missing_msg(p.as_str())
        },
        FatalKind::EditorSpawnFailed => {
            let mut s = String::new();
            s.append("Error: While starting SoundFileEditor.exe: ");
            s.append(cause);
            proof {
                assert(s@ =~= spec_fatal_message(*kind, cause@));
            }
            s
        },
        FatalKind::CompressorMissing => {
            let p = path_value(PathId::Compressor);
            exe_missing_msg(p.as_str())
        },
        FatalKind::CompressorSpawnFailed => {
            let mut s = String::new();
            s.append("Error: While starting compress.bat: ");
            s.append(cause);
            proof {
                assert(s@ =~= spec_fatal_message(*kind, cause@));
            }
            s
        },
        FatalKind::CompressorFailed => compressor_failed_msg(),
        FatalKind::ArtifactMissing => {
            let p = path_value(PathId::ArchiveArtifact);
            artifact_missing_msg(p.as_str())
        },
    }
}

/// The message a warning is reported with; the run continues after it.
pub open spec fn spec_warn_message(kind: WarnKind, cause: Seq<char>) -> Seq<char> {
    match kind {
        WarnKind::TerminateFailed => "Error: While closing SoundFileEditor.exe: "@ + cause,
        WarnKind::FinalRenameFailed => "Error: While renaming Marvel.pak: "@ + cause,
        WarnKind::RemoveFailed { item } => "Error: While removing '"@ + spec_cleanup_target(item)
            + "': "@ + cause,
    }
}

pub fn warn_message(kind: &WarnKind, cause: &str) -> (r: String)
    ensures
        r@ == spec_warn_message(*kind, cause@),
{
    match kind {
        WarnKind::TerminateFailed => {
            let mut s = String::new();
            s.append("Error: While closing SoundFileEditor.exe: ");
            s.append(cause);
            proof {
                assert(s@ =~= spec_warn_message(*kind, cause@));
            }
            s
        },
        WarnKind::FinalRenameFailed => {
            let mut s = String::new();
            s.append("Error: While renaming Marvel.pak: ");
            s.append(cause);
            proof {
                assert(s@ =~= spec_warn_message(*kind, cause@));
            }
            s
        },
        WarnKind::RemoveFailed { item } => {
            let target = cleanup_target(*item);
            let mut s = String::new();
            s.append("Error: While removing '");
            s.append(target.as_str());
            s.append("': ");
            s.append(cause);
            proof {
                assert(s@ =~= spec_warn_message(*kind, cause@));
            }
            s
        },
    }
}

/// Law (messages name their path): the message of every fatal kind that
/// complains about a path contains that exact path, whatever the
/// underlying cause text was.
pub proof fn lemma_fatal_message_names_path(kind: FatalKind, cause: Seq<char>)
    requires
        crate::pipeline::spec_fatal_path(kind) is Some,
    ensures
        contains_seq(
            spec_fatal_message(kind, cause),
            spec_path_value(crate::pipeline::spec_fatal_path(kind)->Some_0),
        ),
{
    let path = spec_path_value(crate::pipeline::spec_fatal_path(kind)->Some_0);
    match kind {
        FatalKind::DirectoryMissing { .. } => {
            lemma_concat_contains_middle("Error: Destination '"@, path, "' not found."@);
        },
        FatalKind::SourceMissing { .. } => {
            lemma_concat_contains_middle("Error: Source '"@, path, "' not found."@);
        },
        FatalKind::EditorExeMissing | FatalKind::CompressorMissing => {
            lemma_concat_contains_middle(
                "Error: File not found; the file path should look like '"@,
                path,
                "'."@,
            );
        },
        FatalKind::ArtifactMissing => {
            lemma_concat_contains_middle(
                "Error: File '"@,
                path,
                "' not found. This should be unreachable: the compressor reported success, so either it failed to produce the archive or the archive was removed or renamed."@,
            );
        },
        _ => {},
    }
}

pub open spec fn spec_banner(label: Seq<char>) -> Seq<char> {
    "\n-------------------------\n\n\t"@ + label + "\n\n-------------------------\n"@
}

/// The banner block that marks the run's terminal outcome.
pub fn banner(label: &str) -> (r: String)
    ensures
        r@ == spec_banner(label@),
{
    let mut s = String::new();
    s.append("\n-------------------------\n\n\t");
    s.append(label);
    s.append("\n\n-------------------------\n");
    proof {
        assert(s@ =~= spec_banner(label@));
    }
    s
}

} // verus!
