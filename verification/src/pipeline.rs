//! The pipeline orchestrator, modeled as a state machine. A stage names
//! the next unit of work; `action_of` says what the driver must do for
//! it; `step` consumes the driver's observation and decides the outcome:
//! continue, warn and continue, or abort fatally. The driver performs the
//! filesystem operations and child-process launches and feeds the results
//! back in; every decision between them is made here.
//!
//! A fatal outcome is terminal: the driver stops at once, so no later
//! stage — cleanup included — runs after one. The three cleanup deletions
//! and the final rename can only warn, never abort.

use vstd::prelude::*;
use crate::paths::spec_join;
use crate::paths::join_under;
use crate::probe::find_asset_by_extension;
use crate::probe::spec_first_match;
use crate::probe::lemma_first_match_props;

verus! {

/// The grace interval, in seconds, granted to the interactive editor tool
/// before it is terminated. The editor has no batch interface and gives
/// no completion signal; the pipeline assumes its artifact is on disk
/// once this interval has elapsed.
pub const EDITOR_GRACE_SECS: u64 = 4;

/// The fixed paths the pipeline works with, relative to the working
/// directory.
#[derive(Debug, Clone, Copy, PartialEq, Eq)]
pub enum PathId {
    /// Root folder of the sound-bank editor tool.
    SoundmodRoot,
    /// The editor's input folder, where the canonical asset is staged.
    EditorInputDir,
    /// The editor executable itself.
    EditorExe,
    /// The artifact the editor is expected to write.
    EditorOutput,
    /// Root folder of the archive compressor tool.
    ArchiveRoot,
    /// The compressor's audio folder, where the artifact is staged.
    AudioDir,
    /// The compressor script itself.
    Compressor,
    /// The archive the compressor is expected to produce.
    ArchiveArtifact,
    /// The canonical name the discovered input asset is renamed to.
    CanonicalInput,
}

pub open spec fn spec_path_value(id: PathId) -> Seq<char> {
    match id {
        PathId::SoundmodRoot => "apps/soundMod"@,
        PathId::EditorInputDir => "apps/soundMod/bnk_sfx_1031001"@,
        PathId::EditorExe => "apps/soundMod/SoundFileEditor.exe"@,
        PathId::EditorOutput => "apps/soundMod/Output/bnk_sfx_1031001.bnk"@,
        PathId::ArchiveRoot => "apps/u4pakc"@,
        PathId::AudioDir => "apps/u4pakc/Marvel/Content/WwiseAudio"@,
        PathId::Compressor => "apps/u4pakc/compress.bat"@,
        PathId::ArchiveArtifact => "apps/u4pakc/Marvel.pak"@,
        PathId::CanonicalInput => "LunaUlt.wem"@,
    }
}

pub fn path_value(id: PathId) -> (r: String)
    ensures
        r@ == spec_path_value(id),
{
    match id {
        PathId::SoundmodRoot => "apps/soundMod".to_owned(),
        PathId::EditorInputDir => "apps/soundMod/bnk_sfx_1031001".to_owned(),
        PathId::EditorExe => "apps/soundMod/SoundFileEditor.exe".to_owned(),
        PathId::EditorOutput => "apps/soundMod/Output/bnk_sfx_1031001.bnk".to_owned(),
        PathId::ArchiveRoot => "apps/u4pakc".to_owned(),
        PathId::AudioDir => "apps/u4pakc/Marvel/Content/WwiseAudio".to_owned(),
        PathId::Compressor => "apps/u4pakc/compress.bat".to_owned(),
        PathId::ArchiveArtifact => "apps/u4pakc/Marvel.pak".to_owned(),
        PathId::CanonicalInput => "LunaUlt.wem".to_owned(),
    }
}

/// The output archive name used when the caller supplies none.
pub fn default_output_name() -> (r: String)
    ensures
        r@ == "LunaUlt_Song_P.pak"@,
{
    "LunaUlt_Song_P.pak".to_owned()
}

/// Configuration fixed at startup and threaded through one run: the
/// chosen output archive name.
pub struct PipelineContext {
    pub output_name: String,
}

/// Applies the single optional override: the first supplied argument, if
/// any, becomes the output name; otherwise the default is used.
pub fn resolve_output_name(arg: Option<String>) -> (r: String)
    ensures
        arg matches Some(name) ==> r == name,
        arg is None ==> r@ == "LunaUlt_Song_P.pak"@,
{
    match arg {
        Option::Some(name) => name,
        Option::None => default_output_name(),
    }
}

/// The two staging copies the pipeline performs.
#[derive(Debug, Clone, Copy, PartialEq, Eq)]
pub enum CopyJob {
    /// Canonical input asset into the editor's input folder.
    StageInput,
    /// The editor's output artifact into the compressor's audio folder.
    StageArtifact,
}

pub open spec fn spec_copy_source(job: CopyJob) -> PathId {
    match job {
        CopyJob::StageInput => PathId::CanonicalInput,
        CopyJob::StageArtifact => PathId::EditorOutput,
    }
}

pub open spec fn spec_copy_dest(job: CopyJob) -> PathId {
    match job {
        CopyJob::StageInput => PathId::EditorInputDir,
        CopyJob::StageArtifact => PathId::AudioDir,
    }
}

/// The full target path of a staging copy: the source's base name under
/// the destination directory.
pub open spec fn spec_copy_target(job: CopyJob) -> Seq<char> {
    match job {
        CopyJob::StageInput => spec_join(
            spec_path_value(PathId::EditorInputDir),
            "LunaUlt.wem"@,
        ),
        CopyJob::StageArtifact => spec_join(
            spec_path_value(PathId::AudioDir),
            "bnk_sfx_1031001.bnk"@,
        ),
    }
}

pub fn copy_target(job: CopyJob) -> (r: String)
    ensures
        r@ == spec_copy_target(job),
{
    match job {
        CopyJob::StageInput => {
            let dir = path_value(PathId::EditorInputDir);
            join_under(dir.as_str(), "LunaUlt.wem")
        },
        CopyJob::StageArtifact => {
            let dir = path_value(PathId::AudioDir);
            join_under(dir.as_str(), "bnk_sfx_1031001.bnk")
        },
    }
}

/// The three intermediate artifact copies deleted during cleanup.
#[derive(Debug, Clone, Copy, PartialEq, Eq)]
pub enum CleanupItem {
    /// The canonical input copy staged in the editor's input folder.
    EditorInputCopy,
    /// The artifact the editor wrote under its own root.
    EditorOutputArtifact,
    /// The artifact copy staged in the compressor's audio folder.
    AudioCopy,
}

pub open spec fn spec_cleanup_target(item: CleanupItem) -> Seq<char> {
    match item {
        CleanupItem::EditorInputCopy => spec_join(
            spec_path_value(PathId::EditorInputDir),
            "LunaUlt.wem"@,
        ),
        CleanupItem::EditorOutputArtifact => spec_path_value(PathId::EditorOutput),
        CleanupItem::AudioCopy => spec_join(
            spec_path_value(PathId::AudioDir),
            "bnk_sfx_1031001.bnk"@,
        ),
    }
}

pub fn cleanup_target(item: CleanupItem) -> (r: String)
    ensures
        r@ == spec_cleanup_target(item),
{
    match item {
        CleanupItem::EditorInputCopy => {
            let dir = path_value(PathId::EditorInputDir);
            join_under(dir.as_str(), "LunaUlt.wem")
        },
        CleanupItem::EditorOutputArtifact => path_value(PathId::EditorOutput),
        CleanupItem::AudioCopy => {
            let dir = path_value(PathId::AudioDir);
            join_under(dir.as_str(), "bnk_sfx_1031001.bnk")
        },
    }
}

/// The stages of one run, in their fixed order. A stage's precondition is
/// established only by the prior stage's effect, so the sequence is not
/// re-orderable.
#[derive(Debug, PartialEq, Eq)]
pub enum Stage {
    /// Locate the single input asset in the working directory.
    Locate,
    /// Require the editor tool's root folder.
    CheckSoundRoot { input: String },
    /// Rename the discovered asset to the canonical input name.
    Canonicalize { input: String },
    /// Require the destination directory of a staging copy.
    CheckCopyDest { job: CopyJob },
    /// Require the source file of a staging copy.
    CheckCopySource { job: CopyJob },
    /// Perform a staging copy.
    DoCopy { job: CopyJob },
    /// Require the editor executable.
    CheckEditorExe,
    /// Start the editor (bounded-interaction mode).
    LaunchEditor,
    /// Wait out the editor's grace interval.
    AwaitGrace,
    /// Terminate the editor after the grace interval.
    TerminateEditor,
    /// Require the compressor tool's root folder.
    CheckArchiveRoot,
    /// Require the compressor script.
    CheckCompressor,
    /// Run the compressor to completion and inspect its exit status.
    RunCompressor,
    /// Require the compressed archive the compressor must have produced.
    VerifyArtifact,
    /// Rename the archive to the chosen output name.
    FinalizeName,
    /// Delete one intermediate artifact copy.
    RemoveArtifact { item: CleanupItem },
    /// Terminal: the run succeeded.
    Done,
}

/// What the driver observed after performing a stage's action. Underlying
/// error text stays with the driver; only success or failure flows back.
#[derive(Debug, PartialEq, Eq)]
pub enum Event {
    /// The working directory's entry names, in iteration order.
    Entries { names: Vec<String> },
    /// Result of a path-existence probe.
    Exists { yes: bool },
    /// Result of a rename, copy, delete, or termination.
    IoResult { ok: bool },
    /// Result of starting the editor.
    Spawned { ok: bool },
    /// The grace interval elapsed.
    Slept,
    /// The compressor was started (or not) and exited with the given
    /// success status.
    Exited { spawned: bool, success: bool },
}

/// What the driver must do for the current stage.
#[derive(Debug, PartialEq, Eq)]
pub enum Action {
    /// List the working directory's entry names.
    ListWorkDir,
    /// Probe whether `path` exists.
    CheckPath { path: String },
    /// Rename `from` to `to`.
    Rename { from: String, to: String },
    /// Copy the file at `source` to `dest`, overwriting.
    CopyFile { source: String, dest: String },
    /// Start `exe` with working directory `dir`, without waiting.
    Launch { exe: String, dir: String },
    /// Sleep for `secs` seconds.
    Sleep { secs: u64 },
    /// Terminate the launched child.
    TerminateChild,
    /// Run `exe` with working directory `dir`, blocking until it exits.
    RunToCompletion { exe: String, dir: String },
    /// Delete the file at `path`.
    RemovePath { path: String },
    /// Nothing remains to do.
    Finish,
}

/// The fatal failure classifications. Each aborts the run at once with a
/// non-zero exit, skipping every later stage, cleanup included.
#[derive(Debug, Clone, Copy, PartialEq, Eq)]
pub enum FatalKind {
    /// No entry with the asset extension was found.
    NoAssetFound,
    /// A required directory is absent.
    DirectoryMissing { dir: PathId },
    /// The source of a staging copy is absent.
    SourceMissing { job: CopyJob },
    /// Renaming the input to its canonical name failed.
    RenameFailed,
    /// A staging copy failed.
    CopyFailed { job: CopyJob },
    /// The editor executable is absent.
    EditorExeMissing,
    /// The editor could not be started.
    EditorSpawnFailed,
    /// The compressor script is absent.
    CompressorMissing,
    /// The compressor could not be started.
    CompressorSpawnFailed,
    /// The compressor exited with a non-zero status.
    CompressorFailed,
    /// The compressed archive is absent although the compressor
    /// succeeded; an upstream stage should have made this impossible.
    ArtifactMissing,
}

/// The warning classifications. Each is logged and the run continues.
#[derive(Debug, Clone, Copy, PartialEq, Eq)]
pub enum WarnKind {
    /// The editor ignored or outlived the termination signal.
    TerminateFailed,
    /// The final rename to the output name failed.
    FinalRenameFailed,
    /// One cleanup deletion failed.
    RemoveFailed { item: CleanupItem },
}

/// What a step decides: continue to the next stage, continue with a
/// warning, or abort fatally.
#[derive(Debug, PartialEq, Eq)]
pub enum Outcome {
    Continue { next: Stage },
    Warn { warning: WarnKind, next: Stage },
    Fatal { fatal: FatalKind },
}

/// The stage that follows a completed staging copy.
pub open spec fn spec_after_copy(job: CopyJob) -> Stage {
    match job {
        CopyJob::StageInput => Stage::CheckEditorExe,
        CopyJob::StageArtifact => Stage::CheckCompressor,
    }
}

/// The stage that follows one cleanup deletion, attempted or not: the
/// next deletion, or the end of the run.
pub open spec fn spec_after_remove(item: CleanupItem) -> Stage {
    match item {
        CleanupItem::EditorInputCopy => Stage::RemoveArtifact {
            item: CleanupItem::EditorOutputArtifact,
        },
        CleanupItem::EditorOutputArtifact => Stage::RemoveArtifact { item: CleanupItem::AudioCopy },
        CleanupItem::AudioCopy => Stage::Done,
    }
}

/// The event kind each stage consumes.
pub open spec fn expected_event(stage: Stage, ev: Event) -> bool {
    match stage {
        Stage::Locate => ev is Entries,
        Stage::CheckSoundRoot { .. } => ev is Exists,
        Stage::Canonicalize { .. } => ev is IoResult,
        Stage::CheckCopyDest { .. } => ev is Exists,
        Stage::CheckCopySource { .. } => ev is Exists,
        Stage::DoCopy { .. } => ev is IoResult,
        Stage::CheckEditorExe => ev is Exists,
        Stage::LaunchEditor => ev is Spawned,
        Stage::AwaitGrace => ev is Slept,
        Stage::TerminateEditor => ev is IoResult,
        Stage::CheckArchiveRoot => ev is Exists,
        Stage::CheckCompressor => ev is Exists,
        Stage::RunCompressor => ev is Exited,
        Stage::VerifyArtifact => ev is Exists,
        Stage::FinalizeName => ev is IoResult,
        Stage::RemoveArtifact { .. } => ev is IoResult,
        Stage::Done => false,
    }
}

/// The transition table: the stage-sequencing and failure policy of the
/// whole pipeline, in one place.
pub open spec fn spec_step(stage: Stage, ev: Event) -> Outcome {
    match (stage, ev) {
        (Stage::Locate, Event::Entries { names }) => match spec_first_match(names@, "wem"@) {
            Option::Some(i) => Outcome::Continue {
                next: Stage::CheckSoundRoot { input: names@[i] },
            },
            Option::None => Outcome::Fatal { fatal: FatalKind::NoAssetFound },
        },
        (Stage::CheckSoundRoot { input }, Event::Exists { yes }) => if yes {
            Outcome::Continue { next: Stage::Canonicalize { input } }
        } else {
            Outcome::Fatal { fatal: FatalKind::DirectoryMissing { dir: PathId::SoundmodRoot } }
        },
        (Stage::Canonicalize { .. }, Event::IoResult { ok }) => if ok {
            Outcome::Continue { next: Stage::CheckCopyDest { job: CopyJob::StageInput } }
        } else {
            Outcome::Fatal { fatal: FatalKind::RenameFailed }
        },
        (Stage::CheckCopyDest { job }, Event::Exists { yes }) => if yes {
            Outcome::Continue { next: Stage::CheckCopySource { job } }
        } else {
            Outcome::Fatal { fatal: FatalKind::DirectoryMissing { dir: spec_copy_dest(job) } }
        },
        (Stage::CheckCopySource { job }, Event::Exists { yes }) => if yes {
            Outcome::Continue { next: Stage::DoCopy { job } }
        } else {
            Outcome::Fatal { fatal: FatalKind::SourceMissing { job } }
        },
        (Stage::DoCopy { job }, Event::IoResult { ok }) => if ok {
            Outcome::Continue { next: spec_after_copy(job) }
        } else {
            Outcome::Fatal { fatal: FatalKind::CopyFailed { job } }
        },
        (Stage::CheckEditorExe, Event::Exists { yes }) => if yes {
            Outcome::Continue { next: Stage::LaunchEditor }
        } else {
            Outcome::Fatal { fatal: FatalKind::EditorExeMissing }
        },
        (Stage::LaunchEditor, Event::Spawned { ok }) => if ok {
            Outcome::Continue { next: Stage::AwaitGrace }
        } else {
            Outcome::Fatal { fatal: FatalKind::EditorSpawnFailed }
        },
        (Stage::AwaitGrace, Event::Slept) => Outcome::Continue { next: Stage::TerminateEditor },
        (Stage::TerminateEditor, Event::IoResult { ok }) => if ok {
            Outcome::Continue { next: Stage::CheckArchiveRoot }
        } else {
            Outcome::Warn { warning: WarnKind::TerminateFailed, next: Stage::CheckArchiveRoot }
        },
        (Stage::CheckArchiveRoot, Event::Exists { yes }) => if yes {
            Outcome::Continue { next: Stage::CheckCopyDest { job: CopyJob::StageArtifact } }
        } else {
            Outcome::Fatal { fatal: FatalKind::DirectoryMissing { dir: PathId::ArchiveRoot } }
        },
        (Stage::CheckCompressor, Event::Exists { yes }) => if yes {
            Outcome::Continue { next: Stage::RunCompressor }
        } else {
            Outcome::Fatal { fatal: FatalKind::CompressorMissing }
        },
        (Stage::RunCompressor, Event::Exited { spawned, success }) => if !spawned {
            Outcome::Fatal { fatal: FatalKind::CompressorSpawnFailed }
        } else if success {
            Outcome::Continue { next: Stage::VerifyArtifact }
        } else {
            Outcome::Fatal { fatal: FatalKind::CompressorFailed }
        },
        (Stage::VerifyArtifact, Event::Exists { yes }) => if yes {
            Outcome::Continue { next: Stage::FinalizeName }
        } else {
            Outcome::Fatal { fatal: FatalKind::ArtifactMissing }
        },
        (Stage::FinalizeName, Event::IoResult { ok }) => if ok {
            Outcome::Continue { next: Stage::RemoveArtifact { item: CleanupItem::EditorInputCopy } }
        } else {
            Outcome::Warn {
                warning: WarnKind::FinalRenameFailed,
                next: Stage::RemoveArtifact { item: CleanupItem::EditorInputCopy },
            }
        },
        (Stage::RemoveArtifact { item }, Event::IoResult { ok }) => if ok {
            Outcome::Continue { next: spec_after_remove(item) }
        } else {
            Outcome::Warn { warning: WarnKind::RemoveFailed { item }, next: spec_after_remove(item) }
        },
        _ => arbitrary(),
    }
}

/// One transition of the pipeline: consumes the driver's observation for
/// the current stage and decides what follows, exactly as the transition
/// table says.
pub fn step(stage: Stage, ev: Event) -> (r: Outcome)
    requires
        expected_event(stage, ev),
    ensures
        r == spec_step(stage, ev),
{
    match (stage, ev) {
        (Stage::Locate, Event::Entries { names }) => {
            match find_asset_by_extension(&names, "wem") {
                Option::Some(i) => {
                    proof {
                        lemma_first_match_props(names@, "wem"@);
                    }
                    Outcome::Continue { next: Stage::CheckSoundRoot { input: names[i].clone() } }
                },
                Option::None => Outcome::Fatal { fatal: FatalKind::NoAssetFound },
            }
        },
        (Stage::CheckSoundRoot { input }, Event::Exists { yes }) => {
            if yes {
                Outcome::Continue { next: Stage::Canonicalize { input } }
            } else {
                Outcome::Fatal { fatal: FatalKind::DirectoryMissing { dir: PathId::SoundmodRoot } }
            }
        },
        (Stage::Canonicalize { input: _ }, Event::IoResult { ok }) => {
            if ok {
                Outcome::Continue { next: Stage::CheckCopyDest { job: CopyJob::StageInput } }
            } else {
                Outcome::Fatal { fatal: FatalKind::RenameFailed }
            }
        },
        (Stage::CheckCopyDest { job }, Event::Exists { yes }) => {
            if yes {
                Outcome::Continue { next: Stage::CheckCopySource { job } }
            } else {
                Outcome::Fatal { fatal: FatalKind::DirectoryMissing { dir: copy_dest(job) } }
            }
        },
        (Stage::CheckCopySource { job }, Event::Exists { yes }) => {
            if yes {
                Outcome::Continue { next: Stage::DoCopy { job } }
            } else {
                Outcome::Fatal { fatal: FatalKind::SourceMissing { job } }
            }
        },
        (Stage::DoCopy { job }, Event::IoResult { ok }) => {
            if ok {
                Outcome::Continue { next: after_copy(job) }
            } else {
                Outcome::Fatal { fatal: FatalKind::CopyFailed { job } }
            }
        },
        (Stage::CheckEditorExe, Event::Exists { yes }) => {
            if yes {
                Outcome::Continue { next: Stage::LaunchEditor }
            } else {
                Outcome::Fatal { fatal: FatalKind::EditorExeMissing }
            }
        },
        (Stage::LaunchEditor, Event::Spawned { ok }) => {
            if ok {
                Outcome::Continue { next: Stage::AwaitGrace }
            } else {
                Outcome::Fatal { fatal: FatalKind::EditorSpawnFailed }
            }
        },
        (Stage::AwaitGrace, Event::Slept) => Outcome::Continue { next: Stage::TerminateEditor },
        (Stage::TerminateEditor, Event::IoResult { ok }) => {
            if ok {
                Outcome::Continue { next: Stage::CheckArchiveRoot }
            } else {
                Outcome::Warn { warning: WarnKind::TerminateFailed, next: Stage::CheckArchiveRoot }
            }
        },
        (Stage::CheckArchiveRoot, Event::Exists { yes }) => {
            if yes {
                Outcome::Continue { next: Stage::CheckCopyDest { job: CopyJob::StageArtifact } }
            } else {
                Outcome::Fatal { fatal: FatalKind::DirectoryMissing { dir: PathId::ArchiveRoot } }
            }
        },
        (Stage::CheckCompressor, Event::Exists { yes }) => {
            if yes {
                Outcome::Continue { next: Stage::RunCompressor }
            } else {
                Outcome::Fatal { fatal: FatalKind::CompressorMissing }
            }
        },
        (Stage::RunCompressor, Event::Exited { spawned, success }) => {
            if !spawned {
                Outcome::Fatal { fatal: FatalKind::CompressorSpawnFailed }
            } else if success {
                Outcome::Continue { next: Stage::VerifyArtifact }
            } else {
                Outcome::Fatal { fatal: FatalKind::CompressorFailed }
            }
        },
        (Stage::VerifyArtifact, Event::Exists { yes }) => {
            if yes {
                Outcome::Continue { next: Stage::FinalizeName }
            } else {
                Outcome::Fatal { fatal: FatalKind::ArtifactMissing }
            }
        },
        (Stage::FinalizeName, Event::IoResult { ok }) => {
            if ok {
                Outcome::Continue {
                    next: Stage::RemoveArtifact { item: CleanupItem::EditorInputCopy },
                }
            } else {
                Outcome::Warn {
                    warning: WarnKind::FinalRenameFailed,
                    next: Stage::RemoveArtifact { item: CleanupItem::EditorInputCopy },
                }
            }
        },
        (Stage::RemoveArtifact { item }, Event::IoResult { ok }) => {
            if ok {
                Outcome::Continue { next: after_remove(item) }
            } else {
                Outcome::Warn {
                    warning: WarnKind::RemoveFailed { item },
                    next: after_remove(item),
                }
            }
        },
        _ => unreached(),
    }
}

pub fn copy_source(job: CopyJob) -> (r: PathId)
    ensures
        r == spec_copy_source(job),
{
    match job {
        CopyJob::StageInput => PathId::CanonicalInput,
        CopyJob::StageArtifact => PathId::EditorOutput,
    }
}

pub fn copy_dest(job: CopyJob) -> (r: PathId)
    ensures
        r == spec_copy_dest(job),
{
    match job {
        CopyJob::StageInput => PathId::EditorInputDir,
        CopyJob::StageArtifact => PathId::AudioDir,
    }
}

pub fn after_copy(job: CopyJob) -> (r: Stage)
    ensures
        r == spec_after_copy(job),
{
    match job {
        CopyJob::StageInput => Stage::CheckEditorExe,
        CopyJob::StageArtifact => Stage::CheckCompressor,
    }
}

pub fn after_remove(item: CleanupItem) -> (r: Stage)
    ensures
        r == spec_after_remove(item),
{
    match item {
        CleanupItem::EditorInputCopy => Stage::RemoveArtifact {
            item: CleanupItem::EditorOutputArtifact,
        },
        CleanupItem::EditorOutputArtifact => Stage::RemoveArtifact { item: CleanupItem::AudioCopy },
        CleanupItem::AudioCopy => Stage::Done,
    }
}

/// What the driver must do for each stage: the action's kind and every
/// path in it, as a predicate over the produced action.
pub open spec fn action_matches(stage: Stage, ctx: PipelineContext, a: Action) -> bool {
    match stage {
        Stage::Locate => a is ListWorkDir,
        Stage::CheckSoundRoot { .. } => a matches Action::CheckPath { path } && path@
            == spec_path_value(PathId::SoundmodRoot),
        Stage::Canonicalize { input } => a matches Action::Rename { from, to } && from == input
            && to@ == spec_path_value(PathId::CanonicalInput),
        Stage::CheckCopyDest { job } => a matches Action::CheckPath { path } && path@
            == spec_path_value(spec_copy_dest(job)),
        Stage::CheckCopySource { job } => a matches Action::CheckPath { path } && path@
            == spec_path_value(spec_copy_source(job)),
        Stage::DoCopy { job } => a matches Action::CopyFile { source, dest } && source@
            == spec_path_value(spec_copy_source(job)) && dest@ == spec_copy_target(job),
        Stage::CheckEditorExe => a matches Action::CheckPath { path } && path@ == spec_path_value(
            PathId::EditorExe,
        ),
        Stage::LaunchEditor => a matches Action::Launch { exe, dir } && exe@ == spec_path_value(
            PathId::EditorExe,
        ) && dir@ == spec_path_value(PathId::SoundmodRoot),
        Stage::AwaitGrace => a == Action::Sleep { secs: EDITOR_GRACE_SECS },
        Stage::TerminateEditor => a is TerminateChild,
        Stage::CheckArchiveRoot => a matches Action::CheckPath { path } && path@ == spec_path_value(
            PathId::ArchiveRoot,
        ),
        Stage::CheckCompressor => a matches Action::CheckPath { path } && path@ == spec_path_value(
            PathId::Compressor,
        ),
        Stage::RunCompressor => a matches Action::RunToCompletion { exe, dir } && exe@
            == spec_path_value(PathId::Compressor) && dir@ == spec_path_value(PathId::ArchiveRoot),
        Stage::VerifyArtifact => a matches Action::CheckPath { path } && path@ == spec_path_value(
            PathId::ArchiveArtifact,
        ),
        Stage::FinalizeName => a matches Action::Rename { from, to } && from@ == spec_path_value(
            PathId::ArchiveArtifact,
        ) && to == ctx.output_name,
        Stage::RemoveArtifact { item } => a matches Action::RemovePath { path } && path@
            == spec_cleanup_target(item),
        Stage::Done => a is Finish,
    }
}

/// The path whose existence a stage requires as its precondition, where
/// it has one.
pub open spec fn spec_checked_path(stage: Stage) -> Option<PathId> {
    match stage {
        Stage::CheckSoundRoot { .. } => Some(PathId::SoundmodRoot),
        Stage::CheckCopyDest { job } => Some(spec_copy_dest(job)),
        Stage::CheckCopySource { job } => Some(spec_copy_source(job)),
        Stage::CheckEditorExe => Some(PathId::EditorExe),
        Stage::CheckArchiveRoot => Some(PathId::ArchiveRoot),
        Stage::CheckCompressor => Some(PathId::Compressor),
        Stage::VerifyArtifact => Some(PathId::ArchiveArtifact),
        _ => None,
    }
}

/// The path a fatal kind complains about, where it names one.
pub open spec fn spec_fatal_path(kind: FatalKind) -> Option<PathId> {
    match kind {
        FatalKind::DirectoryMissing { dir } => Some(dir),
        FatalKind::SourceMissing { job } => Some(spec_copy_source(job)),
        FatalKind::EditorExeMissing => Some(PathId::EditorExe),
        FatalKind::CompressorMissing => Some(PathId::Compressor),
        FatalKind::ArtifactMissing => Some(PathId::ArchiveArtifact),
        _ => None,
    }
}

/// Law (stage preconditions): every stage that requires a path probes it,
/// and when the probe says the path is absent the stage fails fatally —
/// before its effect, since the fatal outcome is terminal — with the
/// fatal kind that names exactly the path it required.
pub proof fn lemma_missing_path_is_fatal(stage: Stage)
    requires
        spec_checked_path(stage) is Some,
    ensures
        spec_step(stage, Event::Exists { yes: false }) matches Outcome::Fatal { fatal }
            && spec_fatal_path(fatal) == spec_checked_path(stage),
{
}

/// Law (effects wait for their checks): a staging copy is performed only
/// once both of its preconditions were probed and held: its stage is
/// entered only from the source check, which is entered only from the
/// destination check.
pub proof fn lemma_copy_only_after_checks(stage: Stage, ev: Event, job: CopyJob)
    requires
        expected_event(stage, ev),
    ensures
        spec_step(stage, ev) == (Outcome::Continue { next: Stage::DoCopy { job } }) ==> stage
            == (Stage::CheckCopySource { job }) && ev == (Event::Exists { yes: true }),
        spec_step(stage, ev) == (Outcome::Continue { next: Stage::CheckCopySource { job } })
            ==> stage == (Stage::CheckCopyDest { job }) && ev == (Event::Exists { yes: true }),
{
}

/// Law (bounded interaction): the termination step is reached only after
/// the grace wait completed; the wait's action is a sleep of exactly the
/// configured grace interval, so termination is never signalled earlier;
/// and a failed termination is a warning that continues the pipeline,
/// never a fatal error.
pub proof fn lemma_termination_follows_grace(stage: Stage, ev: Event, ctx: PipelineContext, a: Action)
    requires
        expected_event(stage, ev),
    ensures
        spec_step(stage, ev) == (Outcome::Continue { next: Stage::TerminateEditor }) ==> stage
            == Stage::AwaitGrace && ev == Event::Slept,
        action_matches(Stage::AwaitGrace, ctx, a) ==> a == (Action::Sleep {
            secs: EDITOR_GRACE_SECS,
        }),
        spec_step(Stage::TerminateEditor, Event::IoResult { ok: false }) == (Outcome::Warn {
            warning: WarnKind::TerminateFailed,
            next: Stage::CheckArchiveRoot,
        }),
        spec_step(Stage::TerminateEditor, Event::IoResult { ok: true }) == (Outcome::Continue {
            next: Stage::CheckArchiveRoot,
        }),
{
}

/// Law (run-to-completion): a compressor that started and exited with
/// success continues the pipeline; a non-zero exit is fatal.
pub proof fn lemma_compressor_exit_policy(success: bool)
    ensures
        spec_step(Stage::RunCompressor, Event::Exited { spawned: true, success }) == if success {
            Outcome::Continue { next: Stage::VerifyArtifact }
        } else {
            Outcome::Fatal { fatal: FatalKind::CompressorFailed }
        },
{
}

/// Law (cleanup independence): every cleanup deletion, whether it
/// succeeded or failed, proceeds to the next deletion or to the end of
/// the run; no cleanup outcome is fatal, so one failed deletion never
/// prevents the others from being attempted.
pub proof fn lemma_cleanup_never_aborts(item: CleanupItem, ok: bool)
    ensures
        ok ==> spec_step(Stage::RemoveArtifact { item }, Event::IoResult { ok }) == (
        Outcome::Continue { next: spec_after_remove(item) }),
        !ok ==> spec_step(Stage::RemoveArtifact { item }, Event::IoResult { ok }) == (Outcome::Warn {
            warning: WarnKind::RemoveFailed { item },
            next: spec_after_remove(item),
        }),
{
}

/// Law (asset discovery): locating the input either selects the first
/// entry carrying the asset extension, in iteration order — nothing
/// before it matches — or fails fatally exactly when no entry matches.
pub proof fn lemma_locate_policy(names: Vec<String>)
    ensures
        spec_step(Stage::Locate, Event::Entries { names }) == (match spec_first_match(
            names@,
            "wem"@,
        ) {
            Option::Some(i) => Outcome::Continue {
                next: Stage::CheckSoundRoot { input: names@[i] },
            },
            Option::None => Outcome::Fatal { fatal: FatalKind::NoAssetFound },
        }),
        spec_first_match(names@, "wem"@) matches Some(i) ==> 0 <= i < names@.len()
            && crate::paths::spec_has_extension(names@[i]@, "wem"@) && forall|j: int|
            0 <= j < i ==> !crate::paths::spec_has_extension(names@[j]@, "wem"@),
        spec_first_match(names@, "wem"@) is None ==> forall|j: int|
            0 <= j < names@.len() ==> !crate::paths::spec_has_extension(names@[j]@, "wem"@),
{
    lemma_first_match_props(names@, "wem"@);
}

/// Law (fixed stage order): when every observation is favorable, the run
/// visits the stages in exactly the documented sequence — locate, tool
/// root, canonical rename, staging copy, editor launch and bounded wait,
/// archive root, artifact copy, compressor, verification, final rename,
/// the three cleanup deletions — and finishes.
pub proof fn lemma_stage_order(input: String)
    ensures
        spec_step(Stage::CheckSoundRoot { input }, Event::Exists { yes: true })
            == (Outcome::Continue { next: Stage::Canonicalize { input } }),
        spec_step(Stage::Canonicalize { input }, Event::IoResult { ok: true })
            == (Outcome::Continue { next: Stage::CheckCopyDest { job: CopyJob::StageInput } }),
        spec_step(Stage::CheckCopyDest { job: CopyJob::StageInput }, Event::Exists { yes: true })
            == (Outcome::Continue { next: Stage::CheckCopySource { job: CopyJob::StageInput } }),
        spec_step(Stage::CheckCopySource { job: CopyJob::StageInput }, Event::Exists { yes: true })
            == (Outcome::Continue { next: Stage::DoCopy { job: CopyJob::StageInput } }),
        spec_step(Stage::DoCopy { job: CopyJob::StageInput }, Event::IoResult { ok: true })
            == (Outcome::Continue { next: Stage::CheckEditorExe }),
        spec_step(Stage::CheckEditorExe, Event::Exists { yes: true }) == (Outcome::Continue {
            next: Stage::LaunchEditor,
        }),
        spec_step(Stage::LaunchEditor, Event::Spawned { ok: true }) == (Outcome::Continue {
            next: Stage::AwaitGrace,
        }),
        spec_step(Stage::AwaitGrace, Event::Slept) == (Outcome::Continue {
            next: Stage::TerminateEditor,
        }),
        spec_step(Stage::TerminateEditor, Event::IoResult { ok: true }) == (Outcome::Continue {
            next: Stage::CheckArchiveRoot,
        }),
        spec_step(Stage::CheckArchiveRoot, Event::Exists { yes: true }) == (Outcome::Continue {
            next: Stage::CheckCopyDest { job: CopyJob::StageArtifact },
        }),
        spec_step(Stage::CheckCopyDest { job: CopyJob::StageArtifact }, Event::Exists { yes: true })
            == (Outcome::Continue { next: Stage::CheckCopySource { job: CopyJob::StageArtifact } }),
        spec_step(
            Stage::CheckCopySource { job: CopyJob::StageArtifact },
            Event::Exists { yes: true },
        ) == (Outcome::Continue { next: Stage::DoCopy { job: CopyJob::StageArtifact } }),
        spec_step(Stage::DoCopy { job: CopyJob::StageArtifact }, Event::IoResult { ok: true })
            == (Outcome::Continue { next: Stage::CheckCompressor }),
        spec_step(Stage::CheckCompressor, Event::Exists { yes: true }) == (Outcome::Continue {
            next: Stage::RunCompressor,
        }),
        spec_step(Stage::RunCompressor, Event::Exited { spawned: true, success: true })
            == (Outcome::Continue { next: Stage::VerifyArtifact }),
        spec_step(Stage::VerifyArtifact, Event::Exists { yes: true }) == (Outcome::Continue {
            next: Stage::FinalizeName,
        }),
        spec_step(Stage::FinalizeName, Event::IoResult { ok: true }) == (Outcome::Continue {
            next: Stage::RemoveArtifact { item: CleanupItem::EditorInputCopy },
        }),
        spec_step(
            Stage::RemoveArtifact { item: CleanupItem::EditorInputCopy },
            Event::IoResult { ok: true },
        ) == (Outcome::Continue {
            next: Stage::RemoveArtifact { item: CleanupItem::EditorOutputArtifact },
        }),
        spec_step(
            Stage::RemoveArtifact { item: CleanupItem::EditorOutputArtifact },
            Event::IoResult { ok: true },
        ) == (Outcome::Continue { next: Stage::RemoveArtifact { item: CleanupItem::AudioCopy } }),
        spec_step(
            Stage::RemoveArtifact { item: CleanupItem::AudioCopy },
            Event::IoResult { ok: true },
        ) == (Outcome::Continue { next: Stage::Done }),
{
}

/// Resolves the current stage to the concrete action the driver must
/// perform for it.
pub fn action_of(stage: &Stage, ctx: &PipelineContext) -> (a: Action)
    ensures
        action_matches(*stage, *ctx, a),
{
    match stage {
        Stage::Locate => Action::ListWorkDir,
        Stage::CheckSoundRoot { .. } => Action::CheckPath {
            path: path_value(PathId::SoundmodRoot),
        },
        Stage::Canonicalize { input } => Action::Rename {
            from: input.clone(),
            to: path_value(PathId::CanonicalInput),
        },
        Stage::CheckCopyDest { job } => Action::CheckPath { path: path_value(copy_dest(*job)) },
        Stage::CheckCopySource { job } => Action::CheckPath { path: path_value(copy_source(*job)) },
        Stage::DoCopy { job } => Action::CopyFile {
            source: path_value(copy_source(*job)),
            dest: copy_target(*job),
        },
        Stage::CheckEditorExe => Action::CheckPath { path: path_value(PathId::EditorExe) },
        Stage::LaunchEditor => Action::Launch {
            exe: path_value(PathId::EditorExe),
            dir: path_value(PathId::SoundmodRoot),
        },
        Stage::AwaitGrace => Action::Sleep { secs: EDITOR_GRACE_SECS },
        Stage::TerminateEditor => Action::TerminateChild,
        Stage::CheckArchiveRoot => Action::CheckPath { path: path_value(PathId::ArchiveRoot) },
        Stage::CheckCompressor => Action::CheckPath { path: path_value(PathId::Compressor) },
        Stage::RunCompressor => Action::RunToCompletion {
            exe: path_value(PathId::Compressor),
            dir: path_value(PathId::ArchiveRoot),
        },
        Stage::VerifyArtifact => Action::CheckPath { path: path_value(PathId::ArchiveArtifact) },
        Stage::FinalizeName => Action::Rename {
            from: path_value(PathId::ArchiveArtifact),
            to: ctx.output_name.clone(),
        },
        Stage::RemoveArtifact { item } => Action::RemovePath { path: cleanup_target(*item) },
        Stage::Done => Action::Finish,
    }
}

} // verus!
