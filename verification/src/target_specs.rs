//! Resolving the target-spec file set for a resolved backend.
//!
//! The backend needs one spec file per target triple, and the files have
//! travelled differently across its generations: newer backends ship them in
//! a companion package next to whose manifest they lie, older ones rely on a
//! fixed legacy bundle carried by this tool. Resolution decides which
//! directory holds the files and what, if anything, has to be written there;
//! the caller performs the writing.

use vstd::prelude::*;

use crate::bytes::opt_view;
use crate::paths::{join_spec, parent_spec, path_join};
use crate::source::{install_dir_spec, SpirvSource};

verus! {

/// The name of the companion package that ships target-spec files.
/// The text is `rustc_codegen_spirv-target-specs`.
pub open spec fn target_specs_pkg_name() -> Seq<u8> {
    seq![114u8, 117u8, 115u8, 116u8, 99u8, 95u8, 99u8, 111u8, 100u8, 101u8, 103u8, 101u8, 110u8, 95u8, 115u8, 112u8, 105u8, 114u8, 118u8, 45u8, 116u8, 97u8, 114u8, 103u8, 101u8, 116u8, 45u8, 115u8, 112u8, 101u8, 99u8, 115u8]
}

/// Runtime value of `target_specs_pkg_name`.
pub fn target_specs_pkg_name_bytes() -> (r: Vec<u8>)
    ensures
        r@ == target_specs_pkg_name(),
{
    let mut v: Vec<u8> = Vec::new();
    v.push(114);
    v.push(117);
    v.push(115);
    v.push(116);
    v.push(99);
    v.push(95);
    v.push(99);
    v.push(111);
    v.push(100);
    v.push(101);
    v.push(103);
    v.push(101);
    v.push(110);
    v.push(95);
    v.push(115);
    v.push(112);
    v.push(105);
    v.push(114);
    v.push(118);
    v.push(45);
    v.push(116);
    v.push(97);
    v.push(114);
    v.push(103);
    v.push(101);
    v.push(116);
    v.push(45);
    v.push(115);
    v.push(112);
    v.push(101);
    v.push(99);
    v.push(115);
    proof {
        assert(v@ =~= target_specs_pkg_name());
    }
    v
}


/// The subdirectory that holds the target-spec files.
/// The text is `target-specs`.
pub open spec fn target_specs_dir_name() -> Seq<u8> {
    seq![116u8, 97u8, 114u8, 103u8, 101u8, 116u8, 45u8, 115u8, 112u8, 101u8, 99u8, 115u8]
}

/// Runtime value of `target_specs_dir_name`.
pub fn target_specs_dir_name_bytes() -> (r: Vec<u8>)
    ensures
        r@ == target_specs_dir_name(),
{
    let mut v: Vec<u8> = Vec::new();
    v.push(116);
    v.push(97);
    v.push(114);
    v.push(103);
    v.push(101);
    v.push(116);
    v.push(45);
    v.push(115);
    v.push(112);
    v.push(101);
    v.push(99);
    v.push(115);
    proof {
        assert(v@ =~= target_specs_dir_name());
    }
    v
}


/// The shared fallback directory for local checkouts without a companion package.
/// The text is `legacy-target-specs-for-local-checkout`.
pub open spec fn legacy_shared_dir_name() -> Seq<u8> {
    seq![108u8, 101u8, 103u8, 97u8, 99u8, 121u8, 45u8, 116u8, 97u8, 114u8, 103u8, 101u8, 116u8, 45u8, 115u8, 112u8, 101u8, 99u8, 115u8, 45u8, 102u8, 111u8, 114u8, 45u8, 108u8, 111u8, 99u8, 97u8, 108u8, 45u8, 99u8, 104u8, 101u8, 99u8, 107u8, 111u8, 117u8, 116u8]
}

/// Runtime value of `legacy_shared_dir_name`.
pub fn legacy_shared_dir_name_bytes() -> (r: Vec<u8>)
    ensures
        r@ == legacy_shared_dir_name(),
{
    let mut v: Vec<u8> = Vec::new();
    v.push(108);
    v.push(101);
    v.push(103);
    v.push(97);
    v.push(99);
    v.push(121);
    v.push(45);
    v.push(116);
    v.push(97);
    v.push(114);
    v.push(103);
    v.push(101);
    v.push(116);
    v.push(45);
    v.push(115);
    v.push(112);
    v.push(101);
    v.push(99);
    v.push(115);
    v.push(45);
    v.push(102);
    v.push(111);
    v.push(114);
    v.push(45);
    v.push(108);
    v.push(111);
    v.push(99);
    v.push(97);
    v.push(108);
    v.push(45);
    v.push(99);
    v.push(104);
    v.push(101);
    v.push(99);
    v.push(107);
    v.push(111);
    v.push(117);
    v.push(116);
    proof {
        assert(v@ =~= legacy_shared_dir_name());
    }
    v
}


/// The file names of the fixed legacy target-spec bundle, in order.
pub open spec fn legacy_spec_names() -> Seq<Seq<u8>> {
    seq![
        seq![115u8, 112u8, 105u8, 114u8, 118u8, 45u8, 117u8, 110u8, 107u8, 110u8, 111u8, 119u8, 110u8, 45u8, 111u8, 112u8, 101u8, 110u8, 103u8, 108u8, 52u8, 46u8, 48u8, 46u8, 106u8, 115u8, 111u8, 110u8],
        seq![115u8, 112u8, 105u8, 114u8, 118u8, 45u8, 117u8, 110u8, 107u8, 110u8, 111u8, 119u8, 110u8, 45u8, 111u8, 112u8, 101u8, 110u8, 103u8, 108u8, 52u8, 46u8, 49u8, 46u8, 106u8, 115u8, 111u8, 110u8],
        seq![115u8, 112u8, 105u8, 114u8, 118u8, 45u8, 117u8, 110u8, 107u8, 110u8, 111u8, 119u8, 110u8, 45u8, 111u8, 112u8, 101u8, 110u8, 103u8, 108u8, 52u8, 46u8, 50u8, 46u8, 106u8, 115u8, 111u8, 110u8],
        seq![115u8, 112u8, 105u8, 114u8, 118u8, 45u8, 117u8, 110u8, 107u8, 110u8, 111u8, 119u8, 110u8, 45u8, 111u8, 112u8, 101u8, 110u8, 103u8, 108u8, 52u8, 46u8, 51u8, 46u8, 106u8, 115u8, 111u8, 110u8],
        seq![115u8, 112u8, 105u8, 114u8, 118u8, 45u8, 117u8, 110u8, 107u8, 110u8, 111u8, 119u8, 110u8, 45u8, 111u8, 112u8, 101u8, 110u8, 103u8, 108u8, 52u8, 46u8, 53u8, 46u8, 106u8, 115u8, 111u8, 110u8],
        seq![115u8, 112u8, 105u8, 114u8, 118u8, 45u8, 117u8, 110u8, 107u8, 110u8, 111u8, 119u8, 110u8, 45u8, 115u8, 112u8, 118u8, 49u8, 46u8, 48u8, 46u8, 106u8, 115u8, 111u8, 110u8],
        seq![115u8, 112u8, 105u8, 114u8, 118u8, 45u8, 117u8, 110u8, 107u8, 110u8, 111u8, 119u8, 110u8, 45u8, 115u8, 112u8, 118u8, 49u8, 46u8, 49u8, 46u8, 106u8, 115u8, 111u8, 110u8],
        seq![115u8, 112u8, 105u8, 114u8, 118u8, 45u8, 117u8, 110u8, 107u8, 110u8, 111u8, 119u8, 110u8, 45u8, 115u8, 112u8, 118u8, 49u8, 46u8, 50u8, 46u8, 106u8, 115u8, 111u8, 110u8],
        seq![115u8, 112u8, 105u8, 114u8, 118u8, 45u8, 117u8, 110u8, 107u8, 110u8, 111u8, 119u8, 110u8, 45u8, 115u8, 112u8, 118u8, 49u8, 46u8, 51u8, 46u8, 106u8, 115u8, 111u8, 110u8],
        seq![115u8, 112u8, 105u8, 114u8, 118u8, 45u8, 117u8, 110u8, 107u8, 110u8, 111u8, 119u8, 110u8, 45u8, 115u8, 112u8, 118u8, 49u8, 46u8, 52u8, 46u8, 106u8, 115u8, 111u8, 110u8],
        seq![115u8, 112u8, 105u8, 114u8, 118u8, 45u8, 117u8, 110u8, 107u8, 110u8, 111u8, 119u8, 110u8, 45u8, 115u8, 112u8, 118u8, 49u8, 46u8, 53u8, 46u8, 106u8, 115u8, 111u8, 110u8],
        seq![115u8, 112u8, 105u8, 114u8, 118u8, 45u8, 117u8, 110u8, 107u8, 110u8, 111u8, 119u8, 110u8, 45u8, 118u8, 117u8, 108u8, 107u8, 97u8, 110u8, 49u8, 46u8, 48u8, 46u8, 106u8, 115u8, 111u8, 110u8],
        seq![115u8, 112u8, 105u8, 114u8, 118u8, 45u8, 117u8, 110u8, 107u8, 110u8, 111u8, 119u8, 110u8, 45u8, 118u8, 117u8, 108u8, 107u8, 97u8, 110u8, 49u8, 46u8, 49u8, 46u8, 106u8, 115u8, 111u8, 110u8],
        seq![115u8, 112u8, 105u8, 114u8, 118u8, 45u8, 117u8, 110u8, 107u8, 110u8, 111u8, 119u8, 110u8, 45u8, 118u8, 117u8, 108u8, 107u8, 97u8, 110u8, 49u8, 46u8, 49u8, 115u8, 112u8, 118u8, 49u8, 46u8, 52u8, 46u8, 106u8, 115u8, 111u8, 110u8],
        seq![115u8, 112u8, 105u8, 114u8, 118u8, 45u8, 117u8, 110u8, 107u8, 110u8, 111u8, 119u8, 110u8, 45u8, 118u8, 117u8, 108u8, 107u8, 97u8, 110u8, 49u8, 46u8, 50u8, 46u8, 106u8, 115u8, 111u8, 110u8],
    ]
}
/// Why no target-spec directory could be resolved.
#[derive(Clone, Copy, Debug, PartialEq, Eq, Structural)]
pub enum SpecResolutionError {
    /// The companion package stands in the dependency graph but no
    /// `target-specs` directory lies next to its manifest.
    CompanionSpecsDirMissing,
}

/// What has to be written into the resolved directory.
#[derive(Clone, Debug)]
pub enum SpecWrite {
    /// Nothing; the directory is used as it stands.
    NoWrite,
    /// Every regular file of the companion package's spec directory is
    /// copied into the resolved directory.
    CopyFromCompanion { source_dir: Vec<u8> },
    /// The fixed legacy bundle is written into the resolved directory.
    WriteLegacy,
}

/// The spec directory that lies next to a companion package's manifest.
pub open spec fn companion_dir_spec(manifest_path: Seq<u8>) -> Option<Seq<u8>> {
    match parent_spec(manifest_path) {
        None => None,
        Some(d) => Some(join_spec(d, target_specs_dir_name())),
    }
}

/// Derives the companion package's spec directory from its manifest path,
/// for the caller to test on disk before resolving.
pub fn companion_specs_dir(manifest_path: &Vec<u8>) -> (r: Result<Vec<u8>, SpecResolutionError>)
    ensures
        match r {
            Ok(d) => companion_dir_spec(manifest_path@) == Some(d@),
            Err(e) => companion_dir_spec(manifest_path@) is None && e
                == SpecResolutionError::CompanionSpecsDirMissing,
        },
{
    match crate::paths::parent_path(manifest_path.as_slice()) {
        None => Err(SpecResolutionError::CompanionSpecsDirMissing),
        Some(d) => {
            let name = target_specs_dir_name_bytes();
            Ok(crate::paths::path_join(d.as_slice(), name.as_slice()))
        },
    }
}

/// What resolving the spec directory must yield.
///
/// With a companion package: its spec directory must lie next to its
/// manifest and exist, a local-checkout source uses it in place, and any
/// other source owns a `target-specs` directory in its install directory,
/// filled by copying when writing is permitted. Without one: a local
/// checkout falls back to the one shared legacy directory under the cache
/// root, any other source again to its install directory, and the legacy
/// bundle is written when writing is permitted.
pub open spec fn spec_plan_matches(
    source: SpirvSource,
    cache_root: Seq<u8>,
    companion_manifest: Option<Seq<u8>>,
    companion_dir_is_dir: bool,
    update_files: bool,
    r: Result<(Vec<u8>, SpecWrite), SpecResolutionError>,
) -> bool {
    let cache_owned = join_spec(install_dir_spec(source, cache_root), target_specs_dir_name());
    match companion_manifest {
        Some(mp) => match companion_dir_spec(mp) {
            None => r == Err::<(Vec<u8>, SpecWrite), _>(
                SpecResolutionError::CompanionSpecsDirMissing,
            ),
            Some(src_dir) => if !companion_dir_is_dir {
                r == Err::<(Vec<u8>, SpecWrite), _>(SpecResolutionError::CompanionSpecsDirMissing)
            } else if source is Path {
                match r {
                    Ok((dir, SpecWrite::NoWrite)) => dir@ == src_dir,
                    _ => false,
                }
            } else if update_files {
                match r {
                    Ok((dir, SpecWrite::CopyFromCompanion { source_dir })) => dir@ == cache_owned
                        && source_dir@ == src_dir,
                    _ => false,
                }
            } else {
                match r {
                    Ok((dir, SpecWrite::NoWrite)) => dir@ == cache_owned,
                    _ => false,
                }
            },
        },
        None => {
            let dir_expected: Seq<u8> = if source is Path {
                join_spec(cache_root, legacy_shared_dir_name())
            } else {
                cache_owned
            };
            if update_files {
                match r {
                    Ok((dir, SpecWrite::WriteLegacy)) => dir@ == dir_expected,
                    _ => false,
                }
            } else {
                match r {
                    Ok((dir, SpecWrite::NoWrite)) => dir@ == dir_expected,
                    _ => false,
                }
            }
        },
    }
}

/// Resolves the directory that holds the target-spec files, and what to
/// write into it. `companion_manifest_path` is the manifest path of the
/// companion package when the dependency graph holds one;
/// `companion_dir_is_dir` reports whether the directory next to it (from
/// [`companion_specs_dir`]) exists as a directory, and is read only then.
pub fn update_target_specs_files(
    source: &SpirvSource,
    cache_root: &Vec<u8>,
    companion_manifest_path: Option<&Vec<u8>>,
    companion_dir_is_dir: bool,
    update_files: bool,
) -> (r: Result<(Vec<u8>, SpecWrite), SpecResolutionError>)
    ensures
        spec_plan_matches(
            *source,
            cache_root@,
            opt_view(companion_manifest_path),
            companion_dir_is_dir,
            update_files,
            r,
        ),
{
    let specs_name = target_specs_dir_name_bytes();
    match companion_manifest_path {
        Some(mp) => {
            let src_dir = companion_specs_dir(mp)?;
            if !companion_dir_is_dir {
                return Err(SpecResolutionError::CompanionSpecsDirMissing);
            }
            if source.is_path() {
                Ok((src_dir, SpecWrite::NoWrite))
            } else {
                let base = source.install_dir(cache_root);
                let dir = crate::paths::path_join(base.as_slice(), specs_name.as_slice());
                if update_files {
                    Ok((dir, SpecWrite::CopyFromCompanion { source_dir: src_dir }))
                } else {
                    Ok((dir, SpecWrite::NoWrite))
                }
            }
        },
        None => {
            let dir = if source.is_path() {
                let shared = legacy_shared_dir_name_bytes();
                crate::paths::path_join(cache_root.as_slice(), shared.as_slice())
            } else {
                let base = source.install_dir(cache_root);
                crate::paths::path_join(base.as_slice(), specs_name.as_slice())
            };
            if update_files {
                Ok((dir, SpecWrite::WriteLegacy))
            } else {
                Ok((dir, SpecWrite::NoWrite))
            }
        },
    }
}

/// Law: spec resolution is a pure function of the source, the cache root,
/// the reported companion package and the write permission; equal inputs
/// resolve to equal directories and equal write plans on every invocation.
pub proof fn lemma_spec_plan_deterministic(
    source: SpirvSource,
    cache_root: Seq<u8>,
    companion_manifest: Option<Seq<u8>>,
    companion_dir_is_dir: bool,
    update_files: bool,
    r1: Result<(Vec<u8>, SpecWrite), SpecResolutionError>,
    r2: Result<(Vec<u8>, SpecWrite), SpecResolutionError>,
)
    requires
        spec_plan_matches(
            source,
            cache_root,
            companion_manifest,
            companion_dir_is_dir,
            update_files,
            r1,
        ),
        spec_plan_matches(
            source,
            cache_root,
            companion_manifest,
            companion_dir_is_dir,
            update_files,
            r2,
        ),
    ensures
        match (r1, r2) {
            (Ok((d1, _)), Ok((d2, _))) => d1@ == d2@,
            (Err(e1), Err(e2)) => e1 == e2,
            _ => false,
        },
{
}

/// Relies on the companion package's fixed spec-file constant: the legacy
/// bundle is a compile-time list of file names and contents, the same in
/// every process, with exactly these fifteen names and no empty file.
#[verifier::external_body]
pub fn legacy_target_spec_list() -> (r: Vec<(Vec<u8>, Vec<u8>)>)
    ensures
        r@.len() == legacy_spec_names().len(),
        forall|i: int|
            0 <= i < r@.len() ==> (#[trigger] r@[i]).0@ == legacy_spec_names()[i]
                && r@[i].1@.len() > 0,
{
    rustc_codegen_spirv_target_specs::TARGET_SPECS
        .iter()
        .map(|(name, contents)| (name.as_bytes().to_vec(), contents.as_bytes().to_vec()))
        .collect()
}

} // verus!
