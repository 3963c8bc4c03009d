//! Resolving the backend source from provenance text and overrides.

use cargo_gpu::source::{
    build_script_path, find_package, get_channel_from_rustc_codegen_spirv_build_script,
    parse_spirv_std_source_and_version, spirv_std_local_root, to_dirname, ChannelError,
    PackageMeta, SourceResolutionError, SpirvSource,
};
use cargo_gpu::version::{parse_version, Version};

fn registry_package(name: &str, version: Version) -> PackageMeta {
    PackageMeta {
        name: name.as_bytes().to_vec(),
        version,
        manifest_path: b"/registry/src/index/pkg-0.9.0/Cargo.toml".to_vec(),
        source_repr: Some(b"registry+https://github.com/rust-lang/crates.io-index".to_vec()),
    }
}

fn release(major: u64, minor: u64, patch: u64) -> Version {
    Version::release(major, minor, patch)
}

#[test]
fn parsing_spirv_std_dep_for_shader_template() {
    // The shader crate template pins its backend by git revision; its
    // recorded provenance resolves to that url and revision.
    let pkg = PackageMeta {
        name: b"spirv-std".to_vec(),
        version: release(0, 9, 0),
        manifest_path: b"/cargo/git/checkouts/rust-gpu-1234/86fc480/crates/spirv-std/Cargo.toml"
            .to_vec(),
        source_repr: Some(
            b"git+https://github.com/Rust-GPU/rust-gpu?rev=86fc48032c4cd4afb74f1d81ae859711d20386a1#86fc48032c4cd4afb74f1d81ae859711d20386a1"
                .to_vec(),
        ),
    };
    let source = parse_spirv_std_source_and_version(&pkg, false).unwrap();
    assert_eq!(
        source,
        SpirvSource::Git {
            url: b"https://github.com/Rust-GPU/rust-gpu".to_vec(),
            rev: b"86fc48032c4cd4afb74f1d81ae859711d20386a1".to_vec(),
        }
    );
}

#[test]
fn path_sanity() {
    let path = std::path::PathBuf::from("./");
    assert!(path.is_relative());
}

#[test]
fn cached_checkout_dir_sanity() {
    let source = SpirvSource::Git {
        url: b"https://github.com/Rust-GPU/rust-gpu".to_vec(),
        rev: b"86fc48032c4cd4afb74f1d81ae859711d20386a1".to_vec(),
    };
    let cache_root = b"/home/user/.cache/rust-gpu".to_vec();
    let dir = source.install_dir(&cache_root);
    let name = dir.rsplit(|b| *b == b'/').next().unwrap();
    assert_eq!(b"https___github_com_Rust-GPU_rust-gpu+86fc4803".as_slice(), name);
    assert_eq!(
        b"/home/user/.cache/rust-gpu/codegen/https___github_com_Rust-GPU_rust-gpu+86fc4803"
            .as_slice(),
        dir.as_slice()
    );
}

#[test]
fn registry_dependency_resolves_to_registry_version() {
    // `spirv-std = "0.9.0"` arrives as a crates.io provenance with no
    // explicit source field and resolves to that registry version.
    let pkg = registry_package("spirv-std", release(0, 9, 0));
    let source = parse_spirv_std_source_and_version(&pkg, false).unwrap();
    match source {
        SpirvSource::CratesIO(v) => {
            assert_eq!(v.major, 0);
            assert_eq!(v.minor, 9);
            assert_eq!(v.patch, 0);
            assert!(v.pre.is_empty());
            assert!(v.build.is_empty());
        }
        other => panic!("expected a registry version, got {other:?}"),
    }
}

#[test]
fn git_provenance_without_query_mark_is_rejected() {
    let mut pkg = registry_package("spirv-std", release(0, 9, 0));
    pkg.source_repr = Some(b"git+https://github.com/Rust-GPU/rust-gpu#86fc4803".to_vec());
    let err = parse_spirv_std_source_and_version(&pkg, false).unwrap_err();
    assert_eq!(err, SourceResolutionError::GitUrlUnparsable);
}

#[test]
fn unknown_provenance_is_rejected() {
    let mut pkg = registry_package("spirv-std", release(0, 9, 0));
    pkg.source_repr = Some(b"svn+https://example.com/repo".to_vec());
    let err = parse_spirv_std_source_and_version(&pkg, false).unwrap_err();
    assert_eq!(err, SourceResolutionError::UnknownSourceFormat);
}

#[test]
fn local_path_three_levels_above_manifest() {
    let pkg = PackageMeta {
        name: b"spirv-std".to_vec(),
        version: release(0, 10, 0),
        manifest_path: b"/work/rust-gpu/crates/spirv-std/Cargo.toml".to_vec(),
        source_repr: None,
    };
    let root = spirv_std_local_root(&pkg.manifest_path).unwrap();
    assert_eq!(root, b"/work/rust-gpu".to_vec());
    let source = parse_spirv_std_source_and_version(&pkg, true).unwrap();
    match source {
        SpirvSource::Path {
            rust_gpu_repo_root,
            version,
        } => {
            assert_eq!(rust_gpu_repo_root, b"/work/rust-gpu".to_vec());
            assert_eq!(version.major, 0);
            assert_eq!(version.minor, 10);
        }
        other => panic!("expected a local path, got {other:?}"),
    }
}

#[test]
fn local_path_must_exist_as_directory() {
    let pkg = PackageMeta {
        name: b"spirv-std".to_vec(),
        version: release(0, 10, 0),
        manifest_path: b"/work/rust-gpu/crates/spirv-std/Cargo.toml".to_vec(),
        source_repr: None,
    };
    let err = parse_spirv_std_source_and_version(&pkg, false).unwrap_err();
    assert_eq!(err, SourceResolutionError::LocalPathNotDirectory);
}

#[test]
fn shallow_manifest_has_no_workspace_root() {
    let manifest = b"Cargo.toml".to_vec();
    let err = spirv_std_local_root(&manifest).unwrap_err();
    assert_eq!(err, SourceResolutionError::WorkspaceRootUnselectable);
}

#[test]
fn override_version_with_source_is_a_git_reference() {
    let packages: Vec<PackageMeta> = Vec::new();
    let url = b"https://github.com/Rust-GPU/rust-gpu".to_vec();
    let rev = b"main".to_vec();
    let source = SpirvSource::new(Some(&url), Some(&rev), &packages, false).unwrap();
    assert_eq!(
        source,
        SpirvSource::Git {
            url: b"https://github.com/Rust-GPU/rust-gpu".to_vec(),
            rev: b"main".to_vec(),
        }
    );
}

#[test]
fn override_version_alone_is_a_registry_version() {
    let packages: Vec<PackageMeta> = Vec::new();
    let version = b"0.9.0".to_vec();
    let source = SpirvSource::new(None, Some(&version), &packages, false).unwrap();
    match source {
        SpirvSource::CratesIO(v) => {
            assert_eq!((v.major, v.minor, v.patch), (0, 9, 0));
        }
        other => panic!("expected a registry version, got {other:?}"),
    }
}

#[test]
fn override_version_must_parse() {
    let packages: Vec<PackageMeta> = Vec::new();
    let version = b"not-a-version".to_vec();
    let err = SpirvSource::new(None, Some(&version), &packages, false).unwrap_err();
    assert_eq!(err, SourceResolutionError::VersionUnparsable);
}

#[test]
fn absent_dependency_is_reported() {
    let packages = vec![registry_package("serde", release(1, 0, 0))];
    let err = SpirvSource::new(None, None, &packages, false).unwrap_err();
    assert_eq!(err, SourceResolutionError::DependencyAbsent);
}

#[test]
fn find_package_returns_first_match() {
    let packages = vec![
        registry_package("serde", release(1, 0, 0)),
        registry_package("spirv-std", release(0, 9, 0)),
        registry_package("spirv-std", release(0, 8, 0)),
    ];
    let i = find_package(&packages, b"spirv-std").unwrap();
    assert_eq!(i, 1);
    assert!(find_package(&packages, b"absent").is_none());
}

#[test]
fn parse_version_reports_components() {
    let v = parse_version(&b"1.2.3-alpha.1+build7".to_vec()).unwrap();
    assert_eq!((v.major, v.minor, v.patch), (1, 2, 3));
    assert_eq!(v.pre, b"alpha.1".to_vec());
    assert_eq!(v.build, b"build7".to_vec());
    assert!(parse_version(&b"three point one".to_vec()).is_err());
}

#[test]
fn display_shortens_long_revisions() {
    let source = SpirvSource::Git {
        url: b"https://example.com/r".to_vec(),
        rev: b"0123456789abcdef".to_vec(),
    };
    assert_eq!(source.display(), b"https://example.com/r+01234567".to_vec());
    let short = SpirvSource::Git {
        url: b"https://example.com/r".to_vec(),
        rev: b"012345".to_vec(),
    };
    assert_eq!(short.display(), b"https://example.com/r+012345".to_vec());
}

#[test]
fn display_renders_versions_with_pre_release() {
    let source = SpirvSource::CratesIO(Version {
        major: 0,
        minor: 9,
        patch: 0,
        pre: b"alpha".to_vec(),
        build: b"5".to_vec(),
    });
    assert_eq!(source.display(), b"0.9.0-alpha+5".to_vec());
}

#[test]
fn to_dirname_sanitizes_punctuation() {
    assert_eq!(
        to_dirname(b"https://github.com/Rust-GPU/rust-gpu+86fc4803"),
        b"https___github_com_Rust-GPU_rust-gpu+86fc4803".to_vec()
    );
    assert_eq!(to_dirname(b"a.b:c@d=e\\f"), b"a_b_c_d_e_f".to_vec());
    assert_eq!(to_dirname(b"{a b}\n\"c'"), b"abc".to_vec());
}

#[test]
fn channel_is_read_from_the_build_script() {
    let script = b"use std::io;\nchannel = \"nightly-2023-05-27\"\nmore\n".to_vec();
    let channel = get_channel_from_rustc_codegen_spirv_build_script(&script).unwrap();
    assert_eq!(channel, b"nightly-2023-05-27".to_vec());
}

#[test]
fn channel_marker_must_open_a_line() {
    let script = b"let channel = \"nightly\"\n".to_vec();
    let err = get_channel_from_rustc_codegen_spirv_build_script(&script).unwrap_err();
    assert_eq!(err, ChannelError::ChannelMarkerAbsent);
}

#[test]
fn channel_must_be_closed_by_a_quote() {
    let script = b"channel = \"nightly-2023-05-27\nrest\n".to_vec();
    let err = get_channel_from_rustc_codegen_spirv_build_script(&script).unwrap_err();
    assert_eq!(err, ChannelError::UnterminatedChannel);
}

#[test]
fn install_dir_is_stable_across_calls() {
    let cache_root = b"/cache".to_vec();
    let source = SpirvSource::CratesIO(Version {
        major: 0,
        minor: 9,
        patch: 0,
        pre: Vec::new(),
        build: Vec::new(),
    });
    let first = source.install_dir(&cache_root);
    let second = source.install_dir(&cache_root);
    assert_eq!(first, second);
    assert_eq!(first, b"/cache/codegen/0_9_0".to_vec());
}

#[test]
fn install_dir_of_local_path_is_the_checkout() {
    let cache_root = b"/cache".to_vec();
    let source = SpirvSource::Path {
        rust_gpu_repo_root: b"/work/rust-gpu".to_vec(),
        version: Version {
            major: 0,
            minor: 10,
            patch: 0,
            pre: Vec::new(),
            build: Vec::new(),
        },
    };
    assert_eq!(source.install_dir(&cache_root), b"/work/rust-gpu".to_vec());
    assert!(source.is_path());
}

#[test]
fn a_rootless_manifest_names_no_build_script() {
    assert_eq!(
        build_script_path(&b"/pkg/Cargo.toml".to_vec()).unwrap(),
        b"/pkg/build.rs".to_vec()
    );
    assert_eq!(
        build_script_path(&b"".to_vec()).unwrap_err(),
        ChannelError::NoCrateRoot
    );
}
