use bob_core::{
    get_current_version, handle_subprocess, is_version_installed, is_version_used, used_marker_path,
    version_from_probe, CoreError, CurrentVersion, MarkerRead,
};

fn entries() -> Vec<String> {
    vec!["v0.9.0".to_string(), "nightly".to_string()]
}

#[test]
fn installed_version_is_found() {
    assert!(is_version_installed("v0.9.0", &entries()));
    assert!(is_version_installed("nightly", &entries()));
}

#[test]
fn missing_version_is_not_installed() {
    assert!(!is_version_installed("v0.8.0", &entries()));
    assert!(!is_version_installed("", &entries()));
    assert!(!is_version_installed("v0.9.0", &Vec::new()));
}

#[test]
fn installed_check_looks_for_stored_name_inside_request() {
    assert!(is_version_installed("nightly-old", &entries()));
    assert!(!is_version_installed("night", &entries()));
}

#[test]
fn marker_contents_are_the_version() {
    assert_eq!(
        get_current_version(MarkerRead::Present("v0.9.1".to_string()), "/d/used"),
        Ok(CurrentVersion::Recorded("v0.9.1".to_string()))
    );
}

#[test]
fn missing_marker_probes_binary() {
    assert_eq!(get_current_version(MarkerRead::Missing, "/d/used"), Ok(CurrentVersion::ProbeBinary));
}

#[test]
fn unreadable_marker_is_corrupted() {
    assert_eq!(
        get_current_version(MarkerRead::Unreadable, "/d/used"),
        Err(CoreError::CorruptedStateFile("/d/used".to_string()))
    );
}

#[test]
fn marker_path_is_under_downloads() {
    assert_eq!(used_marker_path("/home/u/.local/share/bob"), "/home/u/.local/share/bob/used");
}

#[test]
fn probe_of_dev_build_is_nightly() {
    let out = "NVIM v0.10.0-dev-1234+g5678\nBuild type: RelWithDebInfo\n".to_string();
    assert_eq!(version_from_probe(Some(out)), Ok("nightly".to_string()));
}

#[test]
fn probe_of_release_gives_version() {
    assert_eq!(version_from_probe(Some("NVIM v0.9.1".to_string())), Ok("v0.9.1".to_string()));
    let out = "NVIM v0.8.3\nBuild type: Release\nLuaJIT 2.1.0\n".to_string();
    assert_eq!(version_from_probe(Some(out)), Ok("v0.8.3".to_string()));
}

#[test]
fn probe_reads_multi_digit_parts() {
    assert_eq!(version_from_probe(Some("NVIM v0.10.0".to_string())), Ok("v0.10.0".to_string()));
    let out = "NVIM v10.20.300-rc1\nBuild type: Release\n".to_string();
    assert_eq!(version_from_probe(Some(out)), Ok("v10.20.300".to_string()));
}

#[test]
fn probe_skips_incomplete_versions() {
    let out = "v1.2 then v3.4.5".to_string();
    assert_eq!(version_from_probe(Some(out)), Ok("v3.4.5".to_string()));
}

#[test]
fn probe_takes_first_version() {
    let out = "x v1.2.3 and v4.5.6".to_string();
    assert_eq!(version_from_probe(Some(out)), Ok("v1.2.3".to_string()));
}

#[test]
fn probe_without_binary_fails() {
    assert_eq!(version_from_probe(None), Err(CoreError::ApplicationNotInstalled));
}

#[test]
fn probe_without_version_fails() {
    let out = "NVIM release".to_string();
    assert_eq!(
        version_from_probe(Some(out.clone())),
        Err(CoreError::UnrecognizedVersionOutput(out))
    );
}

#[test]
fn used_when_current_contains_version() {
    assert!(is_version_used("v0.9.1", Some("v0.9.1".to_string())));
    assert!(is_version_used("0.9", Some("v0.9.1".to_string())));
    assert!(!is_version_used("v0.9.1-x", Some("v0.9.1".to_string())));
    assert!(!is_version_used("v0.9.1", None));
}

#[test]
fn subprocess_codes() {
    assert_eq!(handle_subprocess(Some(0)), Ok(()));
    assert_eq!(handle_subprocess(Some(2)), Err(CoreError::ProcessFailed(2)));
    assert_eq!(handle_subprocess(None), Err(CoreError::ProcessTerminated));
}
