use wempak::probe::find_asset_by_extension;
use wempak::probe::find_dir;
use wempak::probe::find_file;

#[test]
fn locate_with_zero_matches_finds_nothing() {
    let entries = vec!["notes.txt".to_string(), "bank.bnk".to_string()];
    assert_eq!(find_asset_by_extension(&entries, "wem"), None);
}

#[test]
fn locate_with_empty_directory_finds_nothing() {
    let entries: Vec<String> = vec![];
    assert_eq!(find_asset_by_extension(&entries, "wem"), None);
}

#[test]
fn locate_with_one_match_selects_it() {
    let entries = vec!["notes.txt".to_string(), "song.wem".to_string()];
    assert_eq!(find_asset_by_extension(&entries, "wem"), Some(1));
}

#[test]
fn locate_with_two_matches_selects_first_in_order() {
    let entries = vec![
        "first.wem".to_string(),
        "second.wem".to_string(),
        "notes.txt".to_string(),
    ];
    assert_eq!(find_asset_by_extension(&entries, "wem"), Some(0));
}

#[test]
fn probes_report_missing_paths_as_absent() {
    assert!(!find_file("surely/not/present/anywhere.wem"));
    assert!(!find_dir("surely/not/present/anywhere"));
}
