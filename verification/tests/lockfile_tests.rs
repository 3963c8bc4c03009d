//! The lock-manifest guard: detection, downgrade, and restoration.

use cargo_gpu::lockfile::{
    handle_conflicting_cargo_lock_v4, lockfile_manifest_state, LockAction, LockManifestVersion,
    LockfileError, LockfileMismatchHandler,
};
use cargo_gpu::version::Version;

fn release(major: u64, minor: u64, patch: u64) -> Version {
    Version::release(major, minor, patch)
}

fn v4_lockfile() -> Vec<u8> {
    b"# This file is automatically @generated by Cargo.\n# It is not intended for manual editing.\nversion = 4\n\n[[package]]\nname = \"demo\"\nversion = \"0.1.0\"\n"
        .to_vec()
}

fn v3_lockfile() -> Vec<u8> {
    b"# This file is automatically @generated by Cargo.\n# It is not intended for manual editing.\nversion = 3\n\n[[package]]\nname = \"demo\"\nversion = \"0.1.0\"\n"
        .to_vec()
}

#[test]
fn the_third_line_carries_the_marker() {
    assert_eq!(
        lockfile_manifest_state(&v4_lockfile()),
        Ok(LockManifestVersion::V4)
    );
    assert_eq!(
        lockfile_manifest_state(&v3_lockfile()),
        Ok(LockManifestVersion::V3)
    );
}

#[test]
fn an_unknown_marker_is_unrecognized() {
    let contents = b"a\nb\nversion = 5\n".to_vec();
    assert_eq!(
        lockfile_manifest_state(&contents),
        Err(LockfileError::UnrecognizedVersion)
    );
}

#[test]
fn a_manifest_without_a_third_line_is_unrecognized() {
    let contents = b"one\ntwo".to_vec();
    assert_eq!(
        lockfile_manifest_state(&contents),
        Err(LockfileError::NoThirdLine)
    );
}

#[test]
fn a_version_four_marker_needs_authorization() {
    assert_eq!(
        handle_conflicting_cargo_lock_v4(&v4_lockfile(), false),
        Err(LockfileError::ForceRequired)
    );
    assert_eq!(
        handle_conflicting_cargo_lock_v4(&v4_lockfile(), true),
        Ok(LockAction::Rewrite)
    );
    assert_eq!(
        handle_conflicting_cargo_lock_v4(&v3_lockfile(), false),
        Ok(LockAction::Keep)
    );
}

#[test]
fn handle_v3v4_conflict() {
    let rewritten =
        LockfileMismatchHandler::handle_v3v4_conflict(&v4_lockfile(), true).unwrap();
    assert_eq!(rewritten, v3_lockfile());
    let refused = LockfileMismatchHandler::handle_v3v4_conflict(&v4_lockfile(), false);
    assert_eq!(refused, Err(LockfileError::ForceRequired));
}

#[test]
fn guarded_downgrade_restores_the_original_bytes() {
    // The round trip of the guard: downgrade under an old invoking
    // toolchain, then release and compare byte for byte.
    let original = v4_lockfile();
    let shader_crate = b"/proj/shader".to_vec();
    let (handler, writes) = LockfileMismatchHandler::new(
        &shader_crate,
        &release(1, 81, 0),
        &release(1, 90, 0),
        Some(&original),
        None,
        None,
        true,
    )
    .unwrap();
    assert_eq!(writes.len(), 1);
    assert_eq!(writes[0].path, b"/proj/shader/Cargo.lock".to_vec());
    assert_eq!(writes[0].new_contents, v3_lockfile());
    assert_eq!(
        handler.cargo_lock_files_with_changed_manifest_versions,
        vec![b"/proj/shader/Cargo.lock".to_vec()]
    );
    // While the guard holds, the bytes differ only in the single digit.
    assert_eq!(writes[0].new_contents.len(), original.len());
    let differing: Vec<usize> = (0..original.len())
        .filter(|i| original[*i] != writes[0].new_contents[*i])
        .collect();
    assert_eq!(differing.len(), 1);
    assert_eq!(original[differing[0]], b'4');
    assert_eq!(writes[0].new_contents[differing[0]], b'3');
    // Releasing the guard restores the original exactly.
    let reverts = handler.revert_cargo_lock_manifest_versions(&vec![writes[0]
        .new_contents
        .clone()]);
    assert_eq!(reverts.len(), 1);
    assert_eq!(reverts[0].path, b"/proj/shader/Cargo.lock".to_vec());
    assert_eq!(reverts[0].new_contents, original);
}

#[test]
fn new_toolchains_never_open_a_lockfile_for_writing() {
    // Both toolchains at or above the version-4 threshold: no rewrite is
    // planned, whatever the manifests hold and whatever the flag says.
    for force in [false, true] {
        let (handler, writes) = LockfileMismatchHandler::new(
            &b"/proj/shader".to_vec(),
            &release(1, 83, 0),
            &release(1, 83, 0),
            Some(&v4_lockfile()),
            Some(&b"/proj".to_vec()),
            Some(&v4_lockfile()),
            force,
        )
        .unwrap();
        assert!(writes.is_empty());
        assert!(handler
            .cargo_lock_files_with_changed_manifest_versions
            .is_empty());
    }
}

#[test]
fn a_pre_release_of_the_threshold_still_counts_as_old() {
    let v = Version {
        major: 1,
        minor: 83,
        patch: 0,
        pre: b"beta.1".to_vec(),
        build: Vec::new(),
    };
    assert!(v.is_below(1, 83, 0));
    assert!(!release(1, 83, 0).is_below(1, 83, 0));
    assert!(release(1, 82, 9).is_below(1, 83, 0));
    assert!(!release(1, 90, 0).is_below(1, 83, 0));
}

#[test]
fn an_old_invoking_toolchain_needs_the_shader_lockfile() {
    let err = LockfileMismatchHandler::new(
        &b"/proj/shader".to_vec(),
        &release(1, 81, 0),
        &release(1, 90, 0),
        None,
        None,
        None,
        true,
    )
    .unwrap_err();
    assert_eq!(err, LockfileError::MissingLockfile);
}

#[test]
fn unauthorized_downgrade_stops_the_run() {
    let err = LockfileMismatchHandler::new(
        &b"/proj/shader".to_vec(),
        &release(1, 81, 0),
        &release(1, 90, 0),
        Some(&v4_lockfile()),
        None,
        None,
        false,
    )
    .unwrap_err();
    assert_eq!(err, LockfileError::ForceRequired);
}

#[test]
fn workspace_lockfile_is_guarded_for_an_old_backend_toolchain() {
    let (handler, writes) = LockfileMismatchHandler::new(
        &b"/proj/shader".to_vec(),
        &release(1, 90, 0),
        &release(1, 76, 0),
        Some(&v3_lockfile()),
        Some(&b"/proj".to_vec()),
        Some(&v4_lockfile()),
        true,
    )
    .unwrap();
    assert_eq!(writes.len(), 1);
    assert_eq!(writes[0].path, b"/proj/Cargo.lock".to_vec());
    assert_eq!(writes[0].new_contents, v3_lockfile());
    assert_eq!(
        handler.cargo_lock_files_with_changed_manifest_versions,
        vec![b"/proj/Cargo.lock".to_vec()]
    );
}

#[test]
fn declares_workspace_is_a_literal_check() {
    assert!(cargo_gpu::bytes::contains(
        b"[package]\nname = \"s\"\n[package.metadata]\nworkspace = true\n",
        b"workspace = true"
    ));
    assert!(!cargo_gpu::bytes::contains(
        b"[package]\nname = \"s\"\n",
        b"workspace = true"
    ));
}
