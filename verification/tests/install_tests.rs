//! Driving the installation state machine through whole runs.

use cargo_gpu::install::{
    install_step, placeholder_cargo_toml, Install, InstallAction, InstallEnv, InstallError,
    InstallEvent, InstallState, InstalledBackend,
};
use cargo_gpu::source::{PackageMeta, SpirvSource};
use cargo_gpu::version::Version;

fn release(major: u64, minor: u64, patch: u64) -> Version {
    Version::release(major, minor, patch)
}

fn env() -> InstallEnv {
    InstallEnv {
        cache_root: b"/home/user/.cache/rust-gpu".to_vec(),
        dylib_prefix: b"lib".to_vec(),
        dylib_suffix: b".so".to_vec(),
    }
}

fn backend_package() -> PackageMeta {
    PackageMeta {
        name: b"rustc_codegen_spirv".to_vec(),
        version: release(0, 9, 0),
        manifest_path: b"/registry/src/index/rustc_codegen_spirv-0.9.0/Cargo.toml".to_vec(),
        source_repr: Some(b"registry+https://github.com/rust-lang/crates.io-index".to_vec()),
    }
}

#[test]
fn from_shader_crate_defaults() {
    let install = Install::from_shader_crate(b"./shader".to_vec());
    assert_eq!(install.shader_crate, b"./shader".to_vec());
    assert!(install.spirv_builder_source.is_none());
    assert!(install.spirv_builder_version.is_none());
    assert!(!install.rebuild_codegen);
    assert!(install.auto_install_rust_toolchain);
    assert!(install.clear_target);
    assert!(!install.force_overwrite_lockfiles_v4_to_v3);
}

#[test]
fn placeholder_manifest_for_a_registry_version() {
    let source = SpirvSource::CratesIO(release(0, 9, 0));
    let manifest = placeholder_cargo_toml(&source);
    let expected = format!(
        "\n[package]\nname = \"rustc_codegen_spirv_dummy\"\nversion = \"0.1.0\"\nedition = \"2021\"\n\n[dependencies.spirv-builder]\npackage = \"rustc_codegen_spirv\"\nversion = \"0.9.0\"\n            "
    );
    assert_eq!(manifest, expected.into_bytes());
}

#[test]
fn placeholder_manifest_for_a_git_reference() {
    let source = SpirvSource::Git {
        url: b"https://github.com/Rust-GPU/rust-gpu".to_vec(),
        rev: b"86fc4803".to_vec(),
    };
    let manifest = placeholder_cargo_toml(&source);
    let expected = format!(
        "\n[package]\nname = \"rustc_codegen_spirv_dummy\"\nversion = \"0.1.0\"\nedition = \"2021\"\n\n[dependencies.spirv-builder]\npackage = \"rustc_codegen_spirv\"\ngit = \"https://github.com/Rust-GPU/rust-gpu\"\nrev = \"86fc4803\"\n            "
    );
    assert_eq!(manifest, expected.into_bytes());
}

/// Drives one full forced rebuild of a registry-sourced backend on a
/// machine where toolchain and components are present, checking that no
/// consent is ever asked, and returns the finished record.
fn run_forced_rebuild() -> InstalledBackend {
    let mut install = Install::from_shader_crate(b"./shader".to_vec());
    install.spirv_builder_version = Some(b"0.9.0".to_vec());
    install.rebuild_codegen = true;
    install.auto_install_rust_toolchain = false;
    let env = env();

    let step = |state: InstallState, event: InstallEvent| -> (InstallState, InstallAction) {
        let (next, action) = install_step(&install, &env, state, event).unwrap();
        assert!(
            !matches!(action, InstallAction::RequestConsent { .. }),
            "no consent prompt may appear when everything is present"
        );
        (next, action)
    };

    let (state, action) = step(InstallState::Start, InstallEvent::Begin);
    match &action {
        InstallAction::EnsureCacheDir { path } => {
            assert_eq!(path, &b"/home/user/.cache/rust-gpu".to_vec());
        }
        other => panic!("unexpected action {other:?}"),
    }

    let (state, action) = step(state, InstallEvent::CacheDirReady);
    match &action {
        InstallAction::ProbeDestFile { path } => {
            assert_eq!(
                path,
                &b"/home/user/.cache/rust-gpu/codegen/0_9_0/librustc_codegen_spirv.so".to_vec()
            );
        }
        other => panic!("unexpected action {other:?}"),
    }

    // The artifact is cached, but the forced rebuild ignores that.
    let (state, action) = step(state, InstallEvent::DestProbed { dest_is_file: true });
    match &action {
        InstallAction::WritePlaceholder { dir, manifest } => {
            assert_eq!(dir, &b"/home/user/.cache/rust-gpu/codegen/0_9_0".to_vec());
            assert!(manifest.windows(17).any(|w| w == b"version = \"0.9.0\""));
        }
        other => panic!("unexpected action {other:?}"),
    }

    let (state, action) = step(state, InstallEvent::PlaceholderWritten { success: true });
    assert!(matches!(action, InstallAction::QueryInstallMetadata { .. }));

    let (state, action) = step(
        state,
        InstallEvent::InstallMetadata {
            packages: vec![backend_package()],
        },
    );
    match &action {
        InstallAction::ReadBuildScript { path } => {
            assert_eq!(
                path,
                &b"/registry/src/index/rustc_codegen_spirv-0.9.0/build.rs".to_vec()
            );
        }
        other => panic!("unexpected action {other:?}"),
    }

    let (state, action) = step(
        state,
        InstallEvent::BuildScript {
            contents: Some(b"fn main() {}\nchannel = \"nightly-2023-05-27\"\n".to_vec()),
        },
    );
    match &action {
        InstallAction::WriteLegacySpecs { dir } => {
            assert_eq!(
                dir,
                &b"/home/user/.cache/rust-gpu/codegen/0_9_0/target-specs".to_vec()
            );
        }
        other => panic!("unexpected action {other:?}"),
    }

    let (state, action) = step(state, InstallEvent::SpecFilesWritten { success: true });
    assert!(matches!(action, InstallAction::QueryToolchainList));

    let (state, action) = step(
        state,
        InstallEvent::ToolchainList {
            output: Some(
                b"stable-x86_64-unknown-linux-gnu (default)\nnightly-2023-05-27-x86_64-unknown-linux-gnu\n"
                    .to_vec(),
            ),
        },
    );
    assert!(matches!(action, InstallAction::QueryComponentList { .. }));

    let (state, action) = step(
        state,
        InstallEvent::ComponentList {
            output: Some(
                b"cargo-x86_64-unknown-linux-gnu (installed)\nrust-src (installed)\nrustc-dev-x86_64-unknown-linux-gnu (installed)\nllvm-tools-x86_64-unknown-linux-gnu (installed)\n"
                    .to_vec(),
            ),
        },
    );
    match &action {
        InstallAction::RemoveLockfile { path } => {
            assert_eq!(
                path,
                &b"/home/user/.cache/rust-gpu/codegen/0_9_0/Cargo.lock".to_vec()
            );
        }
        other => panic!("unexpected action {other:?}"),
    }

    let (state, action) = step(state, InstallEvent::LockfileRemoved { success: true });
    match &action {
        InstallAction::RunBuild {
            dir,
            channel,
            package_only,
        } => {
            assert_eq!(dir, &b"/home/user/.cache/rust-gpu/codegen/0_9_0".to_vec());
            assert_eq!(channel, &b"nightly-2023-05-27".to_vec());
            assert!(!package_only);
        }
        other => panic!("unexpected action {other:?}"),
    }

    let (state, action) = step(
        state,
        InstallEvent::BuildFinished {
            success: true,
            artifact_is_file: true,
        },
    );
    match &action {
        InstallAction::RenameArtifact { from, to } => {
            assert_eq!(
                from,
                &b"/home/user/.cache/rust-gpu/codegen/0_9_0/target/release/librustc_codegen_spirv.so"
                    .to_vec()
            );
            assert_eq!(
                to,
                &b"/home/user/.cache/rust-gpu/codegen/0_9_0/librustc_codegen_spirv.so".to_vec()
            );
        }
        other => panic!("unexpected action {other:?}"),
    }

    let (state, action) = step(state, InstallEvent::ArtifactRenamed { success: true });
    match &action {
        InstallAction::ClearTargetDir { path } => {
            assert_eq!(
                path,
                &b"/home/user/.cache/rust-gpu/codegen/0_9_0/target".to_vec()
            );
        }
        other => panic!("unexpected action {other:?}"),
    }

    let (state, action) = step(state, InstallEvent::TargetCleared { success: true });
    assert!(matches!(action, InstallAction::Complete));
    match state {
        InstallState::Done { backend } => backend,
        other => panic!("expected a finished run, got {other:?}"),
    }
}

#[test]
fn forced_rebuild_completes_without_consent() {
    let backend = run_forced_rebuild();
    assert_eq!(backend.toolchain_channel, b"nightly-2023-05-27".to_vec());
    assert_eq!(
        backend.rustc_codegen_spirv_location,
        b"/home/user/.cache/rust-gpu/codegen/0_9_0/librustc_codegen_spirv.so".to_vec()
    );
    assert_eq!(
        backend.target_spec_dir,
        b"/home/user/.cache/rust-gpu/codegen/0_9_0/target-specs".to_vec()
    );
}

/// Drives the cached path: the artifact is present and no rebuild is
/// forced, so the run must reach the finished record without any action
/// that changes the machine.
fn run_cached() -> InstalledBackend {
    let mut install = Install::from_shader_crate(b"./shader".to_vec());
    install.spirv_builder_version = Some(b"0.9.0".to_vec());
    install.auto_install_rust_toolchain = false;
    let env = env();

    let step = |state: InstallState, event: InstallEvent| -> (InstallState, InstallAction) {
        let (next, action) = install_step(&install, &env, state, event).unwrap();
        assert!(
            !matches!(
                action,
                InstallAction::RunBuild { .. }
                    | InstallAction::WritePlaceholder { .. }
                    | InstallAction::WriteLegacySpecs { .. }
                    | InstallAction::CopySpecFiles { .. }
                    | InstallAction::InstallToolchain { .. }
                    | InstallAction::InstallComponents { .. }
                    | InstallAction::RemoveLockfile { .. }
                    | InstallAction::RenameArtifact { .. }
                    | InstallAction::ClearTargetDir { .. }
                    | InstallAction::RequestConsent { .. }
            ),
            "a cached run may not change anything"
        );
        (next, action)
    };

    let (state, _) = step(InstallState::Start, InstallEvent::Begin);
    let (state, _) = step(state, InstallEvent::CacheDirReady);
    let (state, _) = step(state, InstallEvent::DestProbed { dest_is_file: true });
    let (state, _) = step(
        state,
        InstallEvent::InstallMetadata {
            packages: vec![backend_package()],
        },
    );
    let (state, action) = step(
        state,
        InstallEvent::BuildScript {
            contents: Some(b"fn main() {}\nchannel = \"nightly-2023-05-27\"\n".to_vec()),
        },
    );
    assert!(matches!(action, InstallAction::Complete));
    match state {
        InstallState::Done { backend } => backend,
        other => panic!("expected a finished run, got {other:?}"),
    }
}

#[test]
fn second_invocation_reuses_the_cache_and_matches_field_for_field() {
    // A build run and a later cached run of the same source end in
    // identical records, and the cached run performs no build.
    let built = run_forced_rebuild();
    let cached = run_cached();
    assert_eq!(
        built.rustc_codegen_spirv_location,
        cached.rustc_codegen_spirv_location
    );
    assert_eq!(built.toolchain_channel, cached.toolchain_channel);
    assert_eq!(built.target_spec_dir, cached.target_spec_dir);
}

#[test]
fn failed_builds_are_reported() {
    let mut install = Install::from_shader_crate(b"./shader".to_vec());
    install.spirv_builder_version = Some(b"0.9.0".to_vec());
    let env = env();
    let source = SpirvSource::CratesIO(release(0, 9, 0));
    let building = InstallState::Building {
        source,
        channel: b"nightly-2023-05-27".to_vec(),
        spec_dir: b"/cache/codegen/0_9_0/target-specs".to_vec(),
    };
    let err = install_step(
        &install,
        &env,
        building,
        InstallEvent::BuildFinished {
            success: false,
            artifact_is_file: false,
        },
    )
    .unwrap_err();
    assert_eq!(err, InstallError::BuildFailed);
}

#[test]
fn a_build_that_leaves_no_artifact_is_an_error() {
    let install = Install::from_shader_crate(b"./shader".to_vec());
    let env = env();
    let building = InstallState::Building {
        source: SpirvSource::CratesIO(release(0, 9, 0)),
        channel: b"nightly".to_vec(),
        spec_dir: b"/d".to_vec(),
    };
    let err = install_step(
        &install,
        &env,
        building,
        InstallEvent::BuildFinished {
            success: true,
            artifact_is_file: false,
        },
    )
    .unwrap_err();
    assert_eq!(err, InstallError::ArtifactMissing);
}

#[test]
fn declined_consent_ends_the_run_cleanly() {
    let install = Install::from_shader_crate(b"./shader".to_vec());
    let env = env();
    let waiting = InstallState::AwaitingToolchainConsent {
        source: SpirvSource::CratesIO(release(0, 9, 0)),
        channel: b"nightly".to_vec(),
        spec_dir: b"/d".to_vec(),
    };
    let (state, action) = install_step(
        &install,
        &env,
        waiting,
        InstallEvent::ConsentAnswer { yes: false },
    )
    .unwrap();
    assert!(matches!(state, InstallState::Declined));
    assert!(matches!(action, InstallAction::Complete));
}

#[test]
fn events_out_of_order_are_refused() {
    let install = Install::from_shader_crate(b"./shader".to_vec());
    let env = env();
    let err = install_step(
        &install,
        &env,
        InstallState::Start,
        InstallEvent::CacheDirReady,
    )
    .unwrap_err();
    assert_eq!(err, InstallError::UnexpectedEvent);
}

#[test]
fn a_missing_backend_dependency_is_fatal() {
    let install = Install::from_shader_crate(b"./shader".to_vec());
    let env = env();
    let state = InstallState::QueryingInstallMeta {
        source: SpirvSource::CratesIO(release(0, 9, 0)),
        skip_rebuild: false,
    };
    let err = install_step(
        &install,
        &env,
        state,
        InstallEvent::InstallMetadata {
            packages: Vec::new(),
        },
    )
    .unwrap_err();
    assert_eq!(err, InstallError::BackendDependencyAbsent);
}

#[test]
fn target_spec_file_path_joins_the_triple() {
    let backend = InstalledBackend {
        rustc_codegen_spirv_location: b"/cache/lib.so".to_vec(),
        toolchain_channel: b"nightly".to_vec(),
        target_spec_dir: b"/cache/target-specs".to_vec(),
    };
    assert_eq!(
        backend.target_spec_file_path(b"spirv-unknown-vulkan1.2"),
        b"/cache/target-specs/spirv-unknown-vulkan1.2.json".to_vec()
    );
}

#[test]
fn every_failed_outside_step_has_its_own_error() {
    let install = Install::from_shader_crate(b"./shader".to_vec());
    let env = env();
    let source = || SpirvSource::CratesIO(release(0, 9, 0));
    let staged = |state: InstallState, event: InstallEvent| -> InstallError {
        install_step(&install, &env, state, event).unwrap_err()
    };

    assert_eq!(
        staged(
            InstallState::WritingPlaceholder { source: source() },
            InstallEvent::PlaceholderWritten { success: false },
        ),
        InstallError::PlaceholderWriteFailed
    );
    assert_eq!(
        staged(
            InstallState::ReadingBuildScript {
                source: source(),
                skip_rebuild: false,
                companion_manifest: None,
            },
            InstallEvent::BuildScript { contents: None },
        ),
        InstallError::BuildScriptUnreadable
    );
    assert_eq!(
        staged(
            InstallState::WritingSpecs {
                source: source(),
                skip_rebuild: false,
                channel: b"nightly".to_vec(),
                spec_dir: b"/d".to_vec(),
            },
            InstallEvent::SpecFilesWritten { success: false },
        ),
        InstallError::SpecWriteFailed
    );
    assert_eq!(
        staged(
            InstallState::QueryingToolchainList {
                source: source(),
                channel: b"nightly".to_vec(),
                spec_dir: b"/d".to_vec(),
            },
            InstallEvent::ToolchainList { output: None },
        ),
        InstallError::ToolchainListingFailed
    );
    assert_eq!(
        staged(
            InstallState::InstallingToolchain {
                source: source(),
                channel: b"nightly".to_vec(),
                spec_dir: b"/d".to_vec(),
            },
            InstallEvent::ToolchainInstalled { success: false },
        ),
        InstallError::ToolchainInstallFailed
    );
    assert_eq!(
        staged(
            InstallState::QueryingComponentList {
                source: source(),
                channel: b"nightly".to_vec(),
                spec_dir: b"/d".to_vec(),
            },
            InstallEvent::ComponentList { output: None },
        ),
        InstallError::ComponentListingFailed
    );
    assert_eq!(
        staged(
            InstallState::InstallingComponents {
                source: source(),
                channel: b"nightly".to_vec(),
                spec_dir: b"/d".to_vec(),
            },
            InstallEvent::ComponentsInstalled { success: false },
        ),
        InstallError::ComponentInstallFailed
    );
    assert_eq!(
        staged(
            InstallState::RemovingLockfile {
                source: source(),
                channel: b"nightly".to_vec(),
                spec_dir: b"/d".to_vec(),
            },
            InstallEvent::LockfileRemoved { success: false },
        ),
        InstallError::LockfileRemovalFailed
    );
    assert_eq!(
        staged(
            InstallState::RenamingArtifact {
                source: source(),
                channel: b"nightly".to_vec(),
                spec_dir: b"/d".to_vec(),
            },
            InstallEvent::ArtifactRenamed { success: false },
        ),
        InstallError::ArtifactRenameFailed
    );
    assert_eq!(
        staged(
            InstallState::ClearingTarget {
                source: source(),
                channel: b"nightly".to_vec(),
                spec_dir: b"/d".to_vec(),
            },
            InstallEvent::TargetCleared { success: false },
        ),
        InstallError::TargetClearFailed
    );
    assert_eq!(
        staged(
            InstallState::ReadingBuildScript {
                source: source(),
                skip_rebuild: false,
                companion_manifest: None,
            },
            InstallEvent::BuildScript {
                contents: Some(b"fn main() {}\n".to_vec()),
            },
        ),
        InstallError::Channel(cargo_gpu::source::ChannelError::ChannelMarkerAbsent)
    );
}

#[test]
fn a_local_checkout_is_built_in_place_without_probe_or_rename() {
    // A local checkout always rebuilds, is built with the backend package
    // alone, and its artifact stays inside its own build output.
    let install = Install::from_shader_crate(b"./shader".to_vec());
    let env = env();
    let source = SpirvSource::Path {
        rust_gpu_repo_root: b"/work/rust-gpu".to_vec(),
        version: release(0, 10, 0),
    };
    let state = InstallState::InstallingComponents {
        source,
        channel: b"nightly".to_vec(),
        spec_dir: b"/work/rust-gpu/crates/rustc_codegen_spirv-target-specs/target-specs".to_vec(),
    };
    let (state, action) = install_step(
        &install,
        &env,
        state,
        InstallEvent::ComponentsInstalled { success: true },
    )
    .unwrap();
    match &action {
        InstallAction::RunBuild {
            dir,
            channel,
            package_only,
        } => {
            assert_eq!(dir, &b"/work/rust-gpu".to_vec());
            assert_eq!(channel, &b"nightly".to_vec());
            assert!(package_only);
        }
        other => panic!("unexpected action {other:?}"),
    }
    let (state, action) = install_step(
        &install,
        &env,
        state,
        InstallEvent::BuildFinished {
            success: true,
            artifact_is_file: true,
        },
    )
    .unwrap();
    assert!(matches!(action, InstallAction::Complete));
    match state {
        InstallState::Done { backend } => {
            assert_eq!(
                backend.rustc_codegen_spirv_location,
                b"/work/rust-gpu/target/release/librustc_codegen_spirv.so".to_vec()
            );
        }
        other => panic!("expected a finished run, got {other:?}"),
    }
}
