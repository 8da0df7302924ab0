use wempak::pipeline::cleanup_target;
use wempak::pipeline::path_value;
use wempak::pipeline::CleanupItem;
use wempak::pipeline::CopyJob;
use wempak::pipeline::FatalKind;
use wempak::pipeline::PathId;
use wempak::pipeline::WarnKind;
use wempak::report::banner;
use wempak::report::copy_failed_msg;
use wempak::report::dest_not_found_msg;
use wempak::report::fatal_message;
use wempak::report::invalid_source_msg;
use wempak::report::no_asset_msg;
use wempak::report::source_not_found_msg;
use wempak::report::warn_message;

#[test]
fn path_values_are_the_fixed_tool_layout() {
    assert_eq!(path_value(PathId::SoundmodRoot), "apps/soundMod");
    assert_eq!(path_value(PathId::EditorInputDir), "apps/soundMod/bnk_sfx_1031001");
    assert_eq!(path_value(PathId::EditorExe), "apps/soundMod/SoundFileEditor.exe");
    assert_eq!(
        path_value(PathId::EditorOutput),
        "apps/soundMod/Output/bnk_sfx_1031001.bnk"
    );
    assert_eq!(path_value(PathId::ArchiveRoot), "apps/u4pakc");
    assert_eq!(
        path_value(PathId::AudioDir),
        "apps/u4pakc/Marvel/Content/WwiseAudio"
    );
    assert_eq!(path_value(PathId::Compressor), "apps/u4pakc/compress.bat");
    assert_eq!(path_value(PathId::ArchiveArtifact), "apps/u4pakc/Marvel.pak");
    assert_eq!(path_value(PathId::CanonicalInput), "LunaUlt.wem");
}

#[test]
fn cleanup_targets_are_the_three_staged_copies() {
    assert_eq!(
        cleanup_target(CleanupItem::EditorInputCopy),
        "apps/soundMod/bnk_sfx_1031001/LunaUlt.wem"
    );
    assert_eq!(
        cleanup_target(CleanupItem::EditorOutputArtifact),
        "apps/soundMod/Output/bnk_sfx_1031001.bnk"
    );
    assert_eq!(
        cleanup_target(CleanupItem::AudioCopy),
        "apps/u4pakc/Marvel/Content/WwiseAudio/bnk_sfx_1031001.bnk"
    );
}

#[test]
fn precondition_messages_quote_the_exact_path() {
    assert_eq!(
        dest_not_found_msg("apps/soundMod"),
        "Error: Destination 'apps/soundMod' not found."
    );
    assert_eq!(
        source_not_found_msg("LunaUlt.wem"),
        "Error: Source 'LunaUlt.wem' not found."
    );
    assert_eq!(
        invalid_source_msg("apps/"),
        "Error: Could not extract the file name from 'apps/'."
    );
}

#[test]
fn copy_failed_message_names_both_ends_and_cause() {
    assert_eq!(
        copy_failed_msg("a.wem", "dir/a.wem", "permission denied"),
        "Error: Failed to copy 'a.wem' to 'dir/a.wem': permission denied"
    );
}

#[test]
fn no_asset_message_is_the_locate_failure() {
    assert_eq!(
        no_asset_msg(),
        "Error: No .wem file found in the working directory."
    );
    assert_eq!(fatal_message(&FatalKind::NoAssetFound, ""), no_asset_msg());
}

#[test]
fn fatal_messages_carry_the_underlying_cause() {
    assert_eq!(
        fatal_message(&FatalKind::RenameFailed, "access denied"),
        "Error: While renaming the input asset: access denied"
    );
    assert_eq!(
        fatal_message(&FatalKind::CopyFailed { job: CopyJob::StageInput }, "disk full"),
        "Error: Failed to copy 'LunaUlt.wem' to 'apps/soundMod/bnk_sfx_1031001/LunaUlt.wem': disk full"
    );
}

#[test]
fn warn_messages_name_their_subject() {
    assert_eq!(
        warn_message(&WarnKind::TerminateFailed, "no such process"),
        "Error: While closing SoundFileEditor.exe: no such process"
    );
    assert_eq!(
        warn_message(&WarnKind::FinalRenameFailed, "busy"),
        "Error: While renaming Marvel.pak: busy"
    );
    assert_eq!(
        warn_message(&WarnKind::RemoveFailed { item: CleanupItem::AudioCopy }, "gone"),
        "Error: While removing 'apps/u4pakc/Marvel/Content/WwiseAudio/bnk_sfx_1031001.bnk': gone"
    );
}

#[test]
fn banners_frame_their_label() {
    assert_eq!(
        banner("FAILURE"),
        "\n-------------------------\n\n\tFAILURE\n\n-------------------------\n"
    );
}
