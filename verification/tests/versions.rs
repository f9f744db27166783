use startup_check::pattern::{is_version_name, VERSION_PATTERN};
use startup_check::severity::Severity;
use startup_check::versions::{
    check_api_ver_dir, judge_entry, judge_name, EntryVerdict, File, RawEntry, ScanError,
    VERSION_DIR,
};
use std::path::PathBuf;

fn child(name: &str, is_dir: bool) -> RawEntry {
    RawEntry::Found(file(name, is_dir))
}

fn file(name: &str, is_dir: bool) -> File {
    File::new(name.to_string(), PathBuf::from(format!("./core/version/{}", name)), is_dir)
}

#[test]
fn version_pattern_is_the_fixed_text() {
    assert_eq!(VERSION_PATTERN, r"^v[1-9]\d*$");
    assert_eq!(VERSION_DIR, "./core/version/");
}

#[test]
fn version_names_are_recognised() {
    for name in ["v1", "v2", "v10", "v999"] {
        assert_eq!(is_version_name(name), Some(true), "{}", name);
    }
}

#[test]
fn other_names_are_turned_down() {
    for name in ["v0", "v01", "1", "version1", "V1", "v1x", ""] {
        assert_eq!(is_version_name(name), Some(false), "{}", name);
    }
}

#[test]
fn version_name_allows_nothing_around_it() {
    assert_eq!(is_version_name("v1\n"), Some(false));
    assert_eq!(is_version_name(" v1"), Some(false));
    assert_eq!(is_version_name("v"), Some(false));
    assert_eq!(is_version_name("vv1"), Some(false));
    assert_eq!(is_version_name("v-1"), Some(false));
    assert_eq!(is_version_name("v100200300400500600700800900"), Some(true));
}

#[test]
fn judge_name_follows_the_match() {
    assert_eq!(judge_name(Some(true)), EntryVerdict::Accepted);
    assert_eq!(judge_name(Some(false)), EntryVerdict::InvalidName);
    assert_eq!(judge_name(None), EntryVerdict::PatternRejected);
}

#[test]
fn judge_entry_looks_at_readability_then_type_then_name() {
    let unreadable = RawEntry::Unreadable { detail: "permission denied".to_string() };
    assert_eq!(judge_entry(&unreadable), EntryVerdict::Unreadable);
    assert_eq!(judge_entry(&child("v1", false)), EntryVerdict::NotDirectory);
    assert_eq!(judge_entry(&child("notes", false)), EntryVerdict::NotDirectory);
    assert_eq!(judge_entry(&child("notes", true)), EntryVerdict::InvalidName);
    assert_eq!(judge_entry(&child("v1", true)), EntryVerdict::Accepted);
}

#[test]
fn verdict_levels() {
    assert_eq!(EntryVerdict::Accepted.severity(), Severity::Trace);
    assert_eq!(EntryVerdict::Unreadable.severity(), Severity::Warn);
    assert_eq!(EntryVerdict::NotDirectory.severity(), Severity::Warn);
    assert_eq!(EntryVerdict::InvalidName.severity(), Severity::Warn);
    assert_eq!(EntryVerdict::PatternRejected.severity(), Severity::Error);
}

#[test]
fn file_keeps_what_it_was_made_of() {
    let f = File::new("v3".to_string(), PathBuf::from("./core/version/v3"), true);
    assert_eq!(f.name(), "v3");
    assert_eq!(f.path(), &PathBuf::from("./core/version/v3"));
    assert!(f.is_dir());
    let g = File::new("notes".to_string(), PathBuf::from("/tmp/notes"), false);
    assert_eq!(g.name(), "notes");
    assert_eq!(g.path(), &PathBuf::from("/tmp/notes"));
    assert!(!g.is_dir());
}

#[test]
fn scan_keeps_version_directories_only() {
    let listing = vec![
        child("v1", true),
        child("v2", true),
        child("notes", false),
        child("v01", true),
    ];
    let report = check_api_ver_dir(Ok(listing));
    assert_eq!(report.outcome, Ok(vec![file("v1", true), file("v2", true)]));
    assert_eq!(
        report.verdicts,
        vec![
            EntryVerdict::Accepted,
            EntryVerdict::Accepted,
            EntryVerdict::NotDirectory,
            EntryVerdict::InvalidName,
        ]
    );
}

#[test]
fn scan_of_an_empty_directory_finds_no_version() {
    let report = check_api_ver_dir(Ok(Vec::new()));
    assert_eq!(
        report.outcome,
        Err(ScanError::NoValidVersions { path: "./core/version/".to_string() })
    );
    assert!(report.verdicts.is_empty());
}

#[test]
fn scan_of_an_unlistable_directory_fails() {
    let report = check_api_ver_dir(Err("No such file or directory (os error 2)".to_string()));
    assert_eq!(
        report.outcome,
        Err(ScanError::DirectoryUnreadable {
            path: "./core/version/".to_string(),
            cause: "No such file or directory (os error 2)".to_string(),
        })
    );
    assert!(report.verdicts.is_empty());
}

#[test]
fn scan_without_any_qualifying_child_finds_no_version() {
    let listing = vec![
        child("notes", false),
        child("v1", false),
        child("v0", true),
        RawEntry::Unreadable { detail: "stale handle".to_string() },
    ];
    let report = check_api_ver_dir(Ok(listing));
    assert_eq!(
        report.outcome,
        Err(ScanError::NoValidVersions { path: "./core/version/".to_string() })
    );
    assert_eq!(
        report.verdicts,
        vec![
            EntryVerdict::NotDirectory,
            EntryVerdict::NotDirectory,
            EntryVerdict::InvalidName,
            EntryVerdict::Unreadable,
        ]
    );
}

#[test]
fn scan_skips_an_unreadable_child_and_goes_on() {
    let listing = vec![
        RawEntry::Unreadable { detail: "permission denied".to_string() },
        child("v7", true),
    ];
    let report = check_api_ver_dir(Ok(listing));
    assert_eq!(report.outcome, Ok(vec![file("v7", true)]));
    assert_eq!(report.verdicts, vec![EntryVerdict::Unreadable, EntryVerdict::Accepted]);
}

#[test]
fn scan_returns_versions_in_listing_order() {
    let listing = vec![child("v10", true), child("x", true), child("v2", true), child("v1", true)];
    let report = check_api_ver_dir(Ok(listing));
    let files = report.outcome.unwrap();
    let names: Vec<&str> = files.iter().map(|f| f.name()).collect();
    assert_eq!(names, vec!["v10", "v2", "v1"]);
    assert!(files.iter().all(|f| f.is_dir()));
    assert_eq!(files[0].path(), &PathBuf::from("./core/version/v10"));
}

#[test]
fn scan_gives_one_verdict_per_child() {
    let listing = vec![child("v1", true), child("v1", true), child("a", false)];
    let report = check_api_ver_dir(Ok(listing));
    assert_eq!(report.verdicts.len(), 3);
    assert_eq!(report.outcome, Ok(vec![file("v1", true), file("v1", true)]));
}

#[test]
fn scan_error_messages() {
    let unreadable = ScanError::DirectoryUnreadable {
        path: "./core/version/".to_string(),
        cause: "permission denied".to_string(),
    };
    assert_eq!(
        unreadable.message(),
        " The directory ./core/version/ is not accessible. permission denied"
    );
    let none = ScanError::NoValidVersions { path: "./core/version/".to_string() };
    assert_eq!(
        none.message(),
        " The directory './core/version/' is empty or doesn't have any valid path."
    );
    let rejected = ScanError::PatternRejected { pattern: "v(".to_string() };
    assert_eq!(rejected.message(), " The version pattern v( is not usable.");
}

#[test]
fn digits_are_what_the_regex_engine_takes_for_digits() {
    assert_eq!(is_version_name("v1\u{0663}"), Some(true));
    assert_eq!(is_version_name("v\u{0663}"), Some(false));
    assert_eq!(is_version_name("v1\u{00b2}"), Some(false));
}
