use wempak::pipeline::action_of;
use wempak::pipeline::resolve_output_name;
use wempak::pipeline::step;
use wempak::pipeline::Action;
use wempak::pipeline::Event;
use wempak::pipeline::FatalKind;
use wempak::pipeline::Outcome;
use wempak::pipeline::PipelineContext;
use wempak::pipeline::Stage;
use wempak::report::banner;
use wempak::report::fatal_message;

/// Drives one whole run against a scripted environment. Every probe
/// answers "present" except the paths in `absent`; every operation
/// succeeds; the editor stub is assumed to have written its artifact
/// within the grace interval; the compressor stub exits 0. Returns the
/// actions performed and the fatal kind, if the run aborted.
fn drive(ctx: &PipelineContext, entries: Vec<String>, absent: &[&str]) -> (Vec<Action>, Option<FatalKind>) {
    let mut stage = Stage::Locate;
    let mut actions: Vec<Action> = Vec::new();
    loop {
        let action = action_of(&stage, ctx);
        let ev = match &action {
            Action::ListWorkDir => Event::Entries {
                names: entries.clone(),
            },
            Action::CheckPath { path } => Event::Exists {
                yes: !absent.contains(&path.as_str()),
            },
            Action::Rename { .. } => Event::IoResult { ok: true },
            Action::CopyFile { .. } => Event::IoResult { ok: true },
            Action::Launch { .. } => Event::Spawned { ok: true },
            Action::Sleep { .. } => Event::Slept,
            Action::TerminateChild => Event::IoResult { ok: true },
            Action::RunToCompletion { .. } => Event::Exited {
                spawned: true,
                success: true,
            },
            Action::RemovePath { .. } => Event::IoResult { ok: true },
            Action::Finish => {
                actions.push(action);
                return (actions, None);
            }
        };
        actions.push(action);
        match step(stage, ev) {
            Outcome::Continue { next } => stage = next,
            Outcome::Warn { next, .. } => stage = next,
            Outcome::Fatal { fatal } => return (actions, Some(fatal)),
        }
    }
}

#[test]
fn happy_path_produces_renamed_default_output() {
    let ctx = PipelineContext {
        output_name: resolve_output_name(None),
    };
    let entries = vec!["readme.txt".to_string(), "song.wem".to_string()];
    let (actions, fatal) = drive(&ctx, entries, &[]);
    assert_eq!(fatal, None);

    // The discovered asset is renamed to the canonical input name.
    assert!(actions.contains(&Action::Rename {
        from: "song.wem".to_string(),
        to: "LunaUlt.wem".to_string(),
    }));
    // The canonical input is staged for the editor.
    assert!(actions.contains(&Action::CopyFile {
        source: "LunaUlt.wem".to_string(),
        dest: "apps/soundMod/bnk_sfx_1031001/LunaUlt.wem".to_string(),
    }));
    // The editor runs in bounded-interaction mode, then is terminated.
    assert!(actions.contains(&Action::Launch {
        exe: "apps/soundMod/SoundFileEditor.exe".to_string(),
        dir: "apps/soundMod".to_string(),
    }));
    assert!(actions.contains(&Action::Sleep { secs: 4 }));
    assert!(actions.contains(&Action::TerminateChild));
    // Its artifact is staged for the compressor, which runs to completion.
    assert!(actions.contains(&Action::CopyFile {
        source: "apps/soundMod/Output/bnk_sfx_1031001.bnk".to_string(),
        dest: "apps/u4pakc/Marvel/Content/WwiseAudio/bnk_sfx_1031001.bnk".to_string(),
    }));
    assert!(actions.contains(&Action::RunToCompletion {
        exe: "apps/u4pakc/compress.bat".to_string(),
        dir: "apps/u4pakc".to_string(),
    }));
    // The archive is renamed to the default output name.
    assert!(actions.contains(&Action::Rename {
        from: "apps/u4pakc/Marvel.pak".to_string(),
        to: "LunaUlt_Song_P.pak".to_string(),
    }));
    // All three intermediate copies are cleaned up, and the run finishes.
    let removes: Vec<&Action> = actions
        .iter()
        .filter(|a| matches!(a, Action::RemovePath { .. }))
        .collect();
    assert_eq!(removes.len(), 3);
    assert_eq!(actions.last(), Some(&Action::Finish));
    assert_eq!(
        banner("SUCCESS"),
        "\n-------------------------\n\n\tSUCCESS\n\n-------------------------\n"
    );
}

#[test]
fn happy_path_honors_output_name_override() {
    let ctx = PipelineContext {
        output_name: resolve_output_name(Some("Custom_P.pak".to_string())),
    };
    let entries = vec!["song.wem".to_string()];
    let (actions, fatal) = drive(&ctx, entries, &[]);
    assert_eq!(fatal, None);
    assert!(actions.contains(&Action::Rename {
        from: "apps/u4pakc/Marvel.pak".to_string(),
        to: "Custom_P.pak".to_string(),
    }));
}

#[test]
fn missing_compressor_aborts_without_cleanup() {
    let ctx = PipelineContext {
        output_name: resolve_output_name(None),
    };
    let entries = vec!["song.wem".to_string()];
    let (actions, fatal) = drive(&ctx, entries, &["apps/u4pakc/compress.bat"]);
    assert_eq!(fatal, Some(FatalKind::CompressorMissing));

    // The fatal message names the missing script.
    let message = fatal_message(&FatalKind::CompressorMissing, "");
    assert!(message.contains("apps/u4pakc/compress.bat"));
    // The intermediate artifact had already been staged...
    assert!(actions.contains(&Action::CopyFile {
        source: "apps/soundMod/Output/bnk_sfx_1031001.bnk".to_string(),
        dest: "apps/u4pakc/Marvel/Content/WwiseAudio/bnk_sfx_1031001.bnk".to_string(),
    }));
    // ...and stays in place: the abort skips every cleanup deletion.
    assert!(!actions.iter().any(|a| matches!(a, Action::RemovePath { .. })));
    assert!(!actions.contains(&Action::Finish));
}

#[test]
fn missing_asset_aborts_before_anything_else() {
    let ctx = PipelineContext {
        output_name: resolve_output_name(None),
    };
    let entries = vec!["readme.txt".to_string()];
    let (actions, fatal) = drive(&ctx, entries, &[]);
    assert_eq!(fatal, Some(FatalKind::NoAssetFound));
    assert_eq!(actions, vec![Action::ListWorkDir]);
}
