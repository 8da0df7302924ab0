use wempak::pipeline::action_of;
use wempak::pipeline::resolve_output_name;
use wempak::pipeline::step;
use wempak::pipeline::Action;
use wempak::pipeline::CleanupItem;
use wempak::pipeline::CopyJob;
use wempak::pipeline::Event;
use wempak::pipeline::FatalKind;
use wempak::pipeline::Outcome;
use wempak::pipeline::PathId;
use wempak::pipeline::PipelineContext;
use wempak::pipeline::Stage;
use wempak::pipeline::WarnKind;
use wempak::pipeline::EDITOR_GRACE_SECS;
use wempak::report::fatal_message;

fn ctx() -> PipelineContext {
    PipelineContext {
        output_name: resolve_output_name(None),
    }
}

#[test]
fn output_name_defaults_without_argument() {
    assert_eq!(resolve_output_name(None), "LunaUlt_Song_P.pak".to_string());
}

#[test]
fn output_name_takes_the_supplied_argument() {
    assert_eq!(
        resolve_output_name(Some("Custom_P.pak".to_string())),
        "Custom_P.pak".to_string()
    );
}

#[test]
fn missing_sound_root_is_fatal_and_names_it() {
    let stage = Stage::CheckSoundRoot {
        input: "song.wem".to_string(),
    };
    let r = step(stage, Event::Exists { yes: false });
    let fatal = FatalKind::DirectoryMissing {
        dir: PathId::SoundmodRoot,
    };
    assert_eq!(r, Outcome::Fatal { fatal });
    assert!(fatal_message(&fatal, "").contains("apps/soundMod"));
}

#[test]
fn missing_copy_destinations_are_fatal_and_named() {
    for (job, dir, path) in [
        (
            CopyJob::StageInput,
            PathId::EditorInputDir,
            "apps/soundMod/bnk_sfx_1031001",
        ),
        (
            CopyJob::StageArtifact,
            PathId::AudioDir,
            "apps/u4pakc/Marvel/Content/WwiseAudio",
        ),
    ] {
        let r = step(Stage::CheckCopyDest { job }, Event::Exists { yes: false });
        let fatal = FatalKind::DirectoryMissing { dir };
        assert_eq!(r, Outcome::Fatal { fatal });
        assert!(fatal_message(&fatal, "").contains(path));
    }
}

#[test]
fn missing_copy_sources_are_fatal_and_named() {
    for (job, path) in [
        (CopyJob::StageInput, "LunaUlt.wem"),
        (
            CopyJob::StageArtifact,
            "apps/soundMod/Output/bnk_sfx_1031001.bnk",
        ),
    ] {
        let r = step(Stage::CheckCopySource { job }, Event::Exists { yes: false });
        let fatal = FatalKind::SourceMissing { job };
        assert_eq!(r, Outcome::Fatal { fatal });
        assert!(fatal_message(&fatal, "").contains(path));
    }
}

#[test]
fn missing_tools_and_artifact_are_fatal_and_named() {
    let cases = [
        (
            Stage::CheckEditorExe,
            FatalKind::EditorExeMissing,
            "apps/soundMod/SoundFileEditor.exe",
        ),
        (
            Stage::CheckArchiveRoot,
            FatalKind::DirectoryMissing {
                dir: PathId::ArchiveRoot,
            },
            "apps/u4pakc",
        ),
        (
            Stage::CheckCompressor,
            FatalKind::CompressorMissing,
            "apps/u4pakc/compress.bat",
        ),
        (
            Stage::VerifyArtifact,
            FatalKind::ArtifactMissing,
            "apps/u4pakc/Marvel.pak",
        ),
    ];
    for (stage, fatal, path) in cases {
        let r = step(stage, Event::Exists { yes: false });
        assert_eq!(r, Outcome::Fatal { fatal });
        assert!(fatal_message(&fatal, "").contains(path));
    }
}

#[test]
fn grace_wait_is_the_configured_interval() {
    assert_eq!(EDITOR_GRACE_SECS, 4);
    let a = action_of(&Stage::AwaitGrace, &ctx());
    assert_eq!(a, Action::Sleep { secs: 4 });
}

#[test]
fn termination_comes_only_after_the_wait() {
    let r = step(Stage::AwaitGrace, Event::Slept);
    assert_eq!(
        r,
        Outcome::Continue {
            next: Stage::TerminateEditor
        }
    );
    assert_eq!(action_of(&Stage::TerminateEditor, &ctx()), Action::TerminateChild);
}

#[test]
fn failed_termination_is_a_warning_not_fatal() {
    // A child that exited before the interval makes the kill fail; one
    // that ignores it makes the kill succeed. Neither outcome is fatal.
    let r = step(Stage::TerminateEditor, Event::IoResult { ok: false });
    assert_eq!(
        r,
        Outcome::Warn {
            warning: WarnKind::TerminateFailed,
            next: Stage::CheckArchiveRoot
        }
    );
    let r = step(Stage::TerminateEditor, Event::IoResult { ok: true });
    assert_eq!(
        r,
        Outcome::Continue {
            next: Stage::CheckArchiveRoot
        }
    );
}

#[test]
fn compressor_success_continues_the_pipeline() {
    let r = step(
        Stage::RunCompressor,
        Event::Exited {
            spawned: true,
            success: true,
        },
    );
    assert_eq!(
        r,
        Outcome::Continue {
            next: Stage::VerifyArtifact
        }
    );
}

#[test]
fn compressor_nonzero_exit_is_fatal() {
    let r = step(
        Stage::RunCompressor,
        Event::Exited {
            spawned: true,
            success: false,
        },
    );
    assert_eq!(
        r,
        Outcome::Fatal {
            fatal: FatalKind::CompressorFailed
        }
    );
}

#[test]
fn compressor_spawn_failure_is_fatal() {
    let r = step(
        Stage::RunCompressor,
        Event::Exited {
            spawned: false,
            success: false,
        },
    );
    assert_eq!(
        r,
        Outcome::Fatal {
            fatal: FatalKind::CompressorSpawnFailed
        }
    );
}

#[test]
fn final_rename_failure_still_reaches_cleanup() {
    let r = step(Stage::FinalizeName, Event::IoResult { ok: false });
    assert_eq!(
        r,
        Outcome::Warn {
            warning: WarnKind::FinalRenameFailed,
            next: Stage::RemoveArtifact {
                item: CleanupItem::EditorInputCopy
            }
        }
    );
}

#[test]
fn cleanup_attempts_every_deletion_independently() {
    // One, two, or all three targets already gone: each deletion still
    // only warns and the chain still visits all three.
    for pre_removed in [
        [true, false, false],
        [true, true, false],
        [true, true, true],
        [false, true, false],
        [false, false, false],
    ] {
        let mut stage = Stage::RemoveArtifact {
            item: CleanupItem::EditorInputCopy,
        };
        let mut attempts = 0;
        loop {
            let item = match &stage {
                Stage::RemoveArtifact { item } => *item,
                Stage::Done => break,
                other => panic!("unexpected stage during cleanup: {:?}", other),
            };
            let idx = match item {
                CleanupItem::EditorInputCopy => 0,
                CleanupItem::EditorOutputArtifact => 1,
                CleanupItem::AudioCopy => 2,
            };
            attempts += 1;
            let ok = !pre_removed[idx];
            match step(stage, Event::IoResult { ok }) {
                Outcome::Continue { next } => {
                    assert!(ok);
                    stage = next;
                }
                Outcome::Warn { warning, next } => {
                    assert!(!ok);
                    assert_eq!(warning, WarnKind::RemoveFailed { item });
                    stage = next;
                }
                Outcome::Fatal { fatal } => {
                    panic!("cleanup must never be fatal, got {:?}", fatal)
                }
            }
        }
        assert_eq!(attempts, 3);
    }
}
