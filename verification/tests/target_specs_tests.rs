//! Resolving the target-spec directory across the backend's generations.

use cargo_gpu::show::available_spirv_targets;
use cargo_gpu::source::SpirvSource;
use cargo_gpu::target_specs::{
    companion_specs_dir, legacy_target_spec_list, update_target_specs_files, SpecResolutionError,
    SpecWrite,
};
use cargo_gpu::version::Version;

fn release(major: u64, minor: u64, patch: u64) -> Version {
    Version::release(major, minor, patch)
}

fn registry_source() -> SpirvSource {
    SpirvSource::CratesIO(release(0, 9, 0))
}

fn local_source() -> SpirvSource {
    SpirvSource::Path {
        rust_gpu_repo_root: b"/work/rust-gpu".to_vec(),
        version: release(0, 10, 0),
    }
}

#[test]
fn companion_package_fills_the_cache_owned_directory() {
    let manifest = b"/registry/src/index/rustc_codegen_spirv-target-specs-0.9.0/Cargo.toml".to_vec();
    let (dir, write) = update_target_specs_files(
        &registry_source(),
        &b"/cache".to_vec(),
        Some(&manifest),
        true,
        true,
    )
    .unwrap();
    assert_eq!(dir, b"/cache/codegen/0_9_0/target-specs".to_vec());
    match write {
        SpecWrite::CopyFromCompanion { source_dir } => {
            assert_eq!(
                source_dir,
                b"/registry/src/index/rustc_codegen_spirv-target-specs-0.9.0/target-specs"
                    .to_vec()
            );
        }
        other => panic!("expected a copy, got {other:?}"),
    }
}

#[test]
fn companion_package_of_a_local_checkout_is_used_in_place() {
    let manifest = b"/work/rust-gpu/crates/rustc_codegen_spirv-target-specs/Cargo.toml".to_vec();
    let (dir, write) = update_target_specs_files(
        &local_source(),
        &b"/cache".to_vec(),
        Some(&manifest),
        true,
        true,
    )
    .unwrap();
    assert_eq!(
        dir,
        b"/work/rust-gpu/crates/rustc_codegen_spirv-target-specs/target-specs".to_vec()
    );
    assert!(matches!(write, SpecWrite::NoWrite));
}

#[test]
fn a_companion_without_its_directory_is_an_error() {
    let manifest = b"/registry/src/index/rustc_codegen_spirv-target-specs-0.9.0/Cargo.toml".to_vec();
    let err = update_target_specs_files(
        &registry_source(),
        &b"/cache".to_vec(),
        Some(&manifest),
        false,
        true,
    )
    .unwrap_err();
    assert_eq!(err, SpecResolutionError::CompanionSpecsDirMissing);
}

#[test]
fn no_companion_falls_back_to_the_legacy_bundle() {
    let (dir, write) = update_target_specs_files(
        &registry_source(),
        &b"/cache".to_vec(),
        None,
        false,
        true,
    )
    .unwrap();
    assert_eq!(dir, b"/cache/codegen/0_9_0/target-specs".to_vec());
    assert!(matches!(write, SpecWrite::WriteLegacy));
}

#[test]
fn local_checkout_without_companion_uses_the_shared_directory() {
    let (dir, write) = update_target_specs_files(
        &local_source(),
        &b"/cache".to_vec(),
        None,
        false,
        true,
    )
    .unwrap();
    assert_eq!(
        dir,
        b"/cache/legacy-target-specs-for-local-checkout".to_vec()
    );
    assert!(matches!(write, SpecWrite::WriteLegacy));
}

#[test]
fn without_write_permission_nothing_is_written() {
    let (dir, write) = update_target_specs_files(
        &registry_source(),
        &b"/cache".to_vec(),
        None,
        false,
        false,
    )
    .unwrap();
    assert_eq!(dir, b"/cache/codegen/0_9_0/target-specs".to_vec());
    assert!(matches!(write, SpecWrite::NoWrite));
}

#[test]
fn resolution_is_identical_on_every_invocation() {
    let first = update_target_specs_files(&registry_source(), &b"/cache".to_vec(), None, false, true)
        .unwrap();
    let second =
        update_target_specs_files(&registry_source(), &b"/cache".to_vec(), None, false, true)
            .unwrap();
    assert_eq!(first.0, second.0);
}

#[test]
fn companion_specs_dir_lies_next_to_the_manifest() {
    let manifest = b"/pkg/Cargo.toml".to_vec();
    assert_eq!(
        companion_specs_dir(&manifest).unwrap(),
        b"/pkg/target-specs".to_vec()
    );
}

#[test]
fn the_legacy_bundle_is_fixed_and_non_empty() {
    let first = legacy_target_spec_list();
    let second = legacy_target_spec_list();
    assert_eq!(first.len(), 15);
    assert_eq!(first.len(), second.len());
    for i in 0..first.len() {
        assert_eq!(first[i].0, second[i].0);
        assert_eq!(first[i].1, second[i].1);
        assert!(first[i].0.ends_with(b".json"));
        assert!(!first[i].1.is_empty());
        // The contents are spec data, not an echo of the name.
        assert_ne!(first[i].0, first[i].1);
    }
    assert_eq!(first[0].0, b"spirv-unknown-opengl4.0.json".to_vec());
    assert_eq!(first[14].0, b"spirv-unknown-vulkan1.2.json".to_vec());
}

#[test]
fn the_legacy_bundle_names_a_non_empty_target_set() {
    let names: Vec<Vec<u8>> = legacy_target_spec_list()
        .into_iter()
        .map(|(name, _contents)| name)
        .collect();
    let targets = available_spirv_targets(&names);
    assert_eq!(targets.len(), 15);
    assert!(targets.contains(&b"spirv-unknown-vulkan1.2".to_vec()));
    assert!(targets.contains(&b"spirv-unknown-spv1.0".to_vec()));
    // Sorted, and stable across invocations.
    let again = available_spirv_targets(&names);
    assert_eq!(targets, again);
    for pair in targets.windows(2) {
        assert!(pair[0] <= pair[1]);
    }
}
