use memoria_bootstrapper::config::{cached_version_file, FsPath, Kind};
use memoria_bootstrapper::installer::{
    checked_remote_version, global_version_action, is_cached_version_name, is_installed,
    is_plausible_version, launcher_update_target, resolve_target_version, starts_with_magic,
    launcher_outcome, GlobalVersionAction, LauncherFailure, LauncherOutcome, LauncherStep,
    VersionError,
};

#[test]
fn plausible_versions() {
    assert!(is_plausible_version("version-0123abcd"));
    assert!(is_plausible_version("  1.2.3_rc-1 \n"));
    assert!(is_plausible_version("3"));
    assert!(!is_plausible_version(""));
    assert!(!is_plausible_version("   \t\n"));
    assert!(!is_plausible_version("1.0 beta"));
    assert!(!is_plausible_version("<html>"));
    assert!(!is_plausible_version("versión"));
    assert!(is_plausible_version(&"a".repeat(64)));
    assert!(!is_plausible_version(&"a".repeat(65)));
    assert!(is_plausible_version("\u{3000}abc\u{a0}"));
}

#[test]
fn remote_version_is_trimmed() {
    assert_eq!(checked_remote_version(" version-1\r\n"), Some("version-1".to_string()));
    assert_eq!(checked_remote_version("<!doctype html>"), None);
    assert_eq!(checked_remote_version(""), None);
}

#[test]
fn target_version_falls_back_to_cache() {
    assert_eq!(
        resolve_target_version(Some("v2".to_string()), Some("v1".to_string())),
        Some("v2".to_string())
    );
    assert_eq!(
        resolve_target_version(None, Some("  v1\n".to_string())),
        Some("v1".to_string())
    );
    assert_eq!(resolve_target_version(None, Some(" \n ".to_string())), None);
    assert_eq!(resolve_target_version(None, None), None);
}

#[test]
fn installed_needs_exe_and_matching_version() {
    assert!(is_installed(true, Some("v1\n"), "v1"));
    assert!(!is_installed(false, Some("v1"), "v1"));
    assert!(!is_installed(true, Some("v0"), "v1"));
    assert!(!is_installed(true, None, "v1"));
}

#[test]
fn launcher_updates_only_to_other_plausible_versions() {
    assert_eq!(launcher_update_target("4\n"), Some("4".to_string()));
    assert_eq!(launcher_update_target(" 3 "), None);
    assert_eq!(launcher_update_target("not a version"), None);
    assert_eq!(launcher_update_target(""), None);
}

#[test]
fn global_version_decisions() {
    assert_eq!(global_version_action("7\n", Some("7")), Ok(GlobalVersionAction::UpToDate));
    assert_eq!(
        global_version_action("8", Some("7\n")),
        Ok(GlobalVersionAction::WipeAndRecord("8".to_string()))
    );
    assert_eq!(global_version_action(" 8 ", None), Ok(GlobalVersionAction::Record("8".to_string())));
    assert_eq!(global_version_action("8", Some("  ")), Ok(GlobalVersionAction::Record("8".to_string())));
    assert_eq!(global_version_action("bad version", Some("7")), Err(VersionError::Implausible));
}

#[test]
fn recorded_global_version_is_then_current() {
    match global_version_action("  v9\n", Some("v8")) {
        Ok(GlobalVersionAction::WipeAndRecord(v)) => {
            assert_eq!(global_version_action("  v9\n", Some(&v)), Ok(GlobalVersionAction::UpToDate));
        }
        other => panic!("unexpected {:?}", other),
    }
}

#[test]
fn wipe_filter_matches_cached_version_files() {
    let root = FsPath::from_parts(vec!["R".to_string()]);
    for kind in [Kind::Player, Kind::Studio] {
        let f = cached_version_file(&root, kind, "2019");
        assert!(is_cached_version_name(f.parts.last().unwrap()));
    }
    assert!(!is_cached_version_name("GLOBAL-VERSION"));
    assert!(!is_cached_version_name("LATEST"));
    assert!(!is_cached_version_name("latest-2021"));
}

#[test]
fn magic_bytes() {
    assert!(starts_with_magic(b"PK\x03\x04", b"PK"));
    assert!(starts_with_magic(b"MZ", b"MZ"));
    assert!(!starts_with_magic(b"M", b"MZ"));
    assert!(!starts_with_magic(b"<html>", b"PK"));
    assert!(starts_with_magic(b"", b""));
}

#[test]
fn launcher_refresh_falls_back_on_installed_copy() {
    assert_eq!(launcher_outcome(LauncherStep::Placed, false), LauncherOutcome::Ready);
    assert_eq!(launcher_outcome(LauncherStep::Placed, true), LauncherOutcome::Ready);
    assert_eq!(launcher_outcome(LauncherStep::CopyFailed, true), LauncherOutcome::KeepExisting);
    assert_eq!(
        launcher_outcome(LauncherStep::CopyFailed, false),
        LauncherOutcome::Fail(LauncherFailure::CopyFailed)
    );
    assert_eq!(launcher_outcome(LauncherStep::DownloadFailed, true), LauncherOutcome::KeepExisting);
    assert_eq!(
        launcher_outcome(LauncherStep::DownloadFailed, false),
        LauncherOutcome::Fail(LauncherFailure::NoCachedLauncher)
    );
    assert_eq!(launcher_outcome(LauncherStep::RenameFailed, true), LauncherOutcome::KeepExisting);
    assert_eq!(
        launcher_outcome(LauncherStep::RenameFailed, false),
        LauncherOutcome::Fail(LauncherFailure::RenameFailed)
    );
    assert_eq!(
        launcher_outcome(LauncherStep::NotExecutable, true),
        LauncherOutcome::Fail(LauncherFailure::NotExecutable)
    );
}
