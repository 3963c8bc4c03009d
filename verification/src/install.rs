//! The installation orchestrator.
//!
//! Installing a backend is a fixed sequence of steps: ensure the cache
//! directory, resolve the source, probe the cache for the finished
//! artifact, materialize a placeholder project on a miss, discover the
//! toolchain channel from the backend's build script, resolve the
//! target-spec files, provision the toolchain, build, and move the artifact
//! into place. Every decision in that sequence lives here, as a state
//! machine: each step names the one outside action to perform next, the
//! caller performs it and reports what happened as a plain event, and the
//! machine decides the step after. The caller never decides anything; it
//! only executes actions and relays outcomes.

use vstd::prelude::*;

use crate::bytes::push_all;
use crate::paths::{join_spec, path_join};
use crate::source::{
    find_package, install_dir_spec, new_matches, rustc_codegen_spirv_name,
    rustc_codegen_spirv_name_bytes, ChannelError, PackageMeta, SourceResolutionError, SpirvSource,
};
use crate::version::render_spec;
use crate::target_specs::{SpecResolutionError, SpecWrite};

verus! {

/// The fixed opening of the placeholder project's manifest, through the dependency table header.
pub open spec fn manifest_head() -> Seq<u8> {
    seq![10u8, 91u8, 112u8, 97u8, 99u8, 107u8, 97u8, 103u8, 101u8, 93u8, 10u8, 110u8, 97u8, 109u8, 101u8, 32u8, 61u8, 32u8, 34u8, 114u8, 117u8, 115u8, 116u8, 99u8, 95u8, 99u8, 111u8, 100u8, 101u8, 103u8, 101u8, 110u8, 95u8, 115u8, 112u8, 105u8, 114u8, 118u8, 95u8, 100u8, 117u8, 109u8, 109u8, 121u8, 34u8, 10u8, 118u8, 101u8, 114u8, 115u8, 105u8, 111u8, 110u8, 32u8, 61u8, 32u8, 34u8, 48u8, 46u8, 49u8, 46u8, 48u8, 34u8, 10u8, 101u8, 100u8, 105u8, 116u8, 105u8, 111u8, 110u8, 32u8, 61u8, 32u8, 34u8, 50u8, 48u8, 50u8, 49u8, 34u8, 10u8, 10u8, 91u8, 100u8, 101u8, 112u8, 101u8, 110u8, 100u8, 101u8, 110u8, 99u8, 105u8, 101u8, 115u8, 46u8, 115u8, 112u8, 105u8, 114u8, 118u8, 45u8, 98u8, 117u8, 105u8, 108u8, 100u8, 101u8, 114u8, 93u8, 10u8, 112u8, 97u8, 99u8, 107u8, 97u8, 103u8, 101u8, 32u8, 61u8, 32u8, 34u8, 114u8, 117u8, 115u8, 116u8, 99u8, 95u8, 99u8, 111u8, 100u8, 101u8, 103u8, 101u8, 110u8, 95u8, 115u8, 112u8, 105u8, 114u8, 118u8, 34u8, 10u8]
}

/// Runtime value of `manifest_head`.
#[verifier::rlimit(100)]
fn manifest_head_bytes() -> (r: Vec<u8>)
    ensures
        r@ == manifest_head(),
{
    let mut v: Vec<u8> = Vec::new();
    v.push(10);
    v.push(91);
    v.push(112);
    v.push(97);
    v.push(99);
    v.push(107);
    v.push(97);
    v.push(103);
    v.push(101);
    v.push(93);
    v.push(10);
    v.push(110);
    v.push(97);
    v.push(109);
    v.push(101);
    v.push(32);
    v.push(61);
    v.push(32);
    v.push(34);
    v.push(114);
    v.push(117);
    v.push(115);
    v.push(116);
    v.push(99);
    v.push(95);
    proof {
        assert(v@ =~= manifest_head().take(25));
    }
    v.push(99);
    v.push(111);
    v.push(100);
    v.push(101);
    v.push(103);
    v.push(101);
    v.push(110);
    v.push(95);
    v.push(115);
    v.push(112);
    v.push(105);
    v.push(114);
    v.push(118);
    v.push(95);
    v.push(100);
    v.push(117);
    v.push(109);
    v.push(109);
    v.push(121);
    v.push(34);
    v.push(10);
    v.push(118);
    v.push(101);
    v.push(114);
    v.push(115);
    proof {
        assert(v@ =~= manifest_head().take(50));
    }
    v.push(105);
    v.push(111);
    v.push(110);
    v.push(32);
    v.push(61);
    v.push(32);
    v.push(34);
    v.push(48);
    v.push(46);
    v.push(49);
    v.push(46);
    v.push(48);
    v.push(34);
    v.push(10);
    v.push(101);
    v.push(100);
    v.push(105);
    v.push(116);
    v.push(105);
    v.push(111);
    v.push(110);
    v.push(32);
    v.push(61);
    v.push(32);
    v.push(34);
    proof {
        assert(v@ =~= manifest_head().take(75));
    }
    v.push(50);
    v.push(48);
    v.push(50);
    v.push(49);
    v.push(34);
    v.push(10);
    v.push(10);
    v.push(91);
    v.push(100);
    v.push(101);
    v.push(112);
    v.push(101);
    v.push(110);
    v.push(100);
    v.push(101);
    v.push(110);
    v.push(99);
    v.push(105);
    v.push(101);
    v.push(115);
    v.push(46);
    v.push(115);
    v.push(112);
    v.push(105);
    v.push(114);
    proof {
        assert(v@ =~= manifest_head().take(100));
    }
    v.push(118);
    v.push(45);
    v.push(98);
    v.push(117);
    v.push(105);
    v.push(108);
    v.push(100);
    v.push(101);
    v.push(114);
    v.push(93);
    v.push(10);
    v.push(112);
    v.push(97);
    v.push(99);
    v.push(107);
    v.push(97);
    v.push(103);
    v.push(101);
    v.push(32);
    v.push(61);
    v.push(32);
    v.push(34);
    v.push(114);
    v.push(117);
    v.push(115);
    proof {
        assert(v@ =~= manifest_head().take(125));
    }
    v.push(116);
    v.push(99);
    v.push(95);
    v.push(99);
    v.push(111);
    v.push(100);
    v.push(101);
    v.push(103);
    v.push(101);
    v.push(110);
    v.push(95);
    v.push(115);
    v.push(112);
    v.push(105);
    v.push(114);
    v.push(118);
    v.push(34);
    v.push(10);
    proof {
        assert(v@ =~= manifest_head());
    }
    v
}


/// The fixed closing of the placeholder project's manifest.
pub open spec fn manifest_tail() -> Seq<u8> {
    seq![10u8, 32u8, 32u8, 32u8, 32u8, 32u8, 32u8, 32u8, 32u8, 32u8, 32u8, 32u8, 32u8]
}

/// Runtime value of `manifest_tail`.
fn manifest_tail_bytes() -> (r: Vec<u8>)
    ensures
        r@ == manifest_tail(),
{
    let mut v: Vec<u8> = Vec::new();
    v.push(10);
    v.push(32);
    v.push(32);
    v.push(32);
    v.push(32);
    v.push(32);
    v.push(32);
    v.push(32);
    v.push(32);
    v.push(32);
    v.push(32);
    v.push(32);
    v.push(32);
    proof {
        assert(v@ =~= manifest_tail());
    }
    v
}


/// A version key and its opening quote.
/// The text is `version = \"`.
pub open spec fn version_eq_quote() -> Seq<u8> {
    seq![118u8, 101u8, 114u8, 115u8, 105u8, 111u8, 110u8, 32u8, 61u8, 32u8, 34u8]
}

/// Runtime value of `version_eq_quote`.
fn version_eq_quote_bytes() -> (r: Vec<u8>)
    ensures
        r@ == version_eq_quote(),
{
    let mut v: Vec<u8> = Vec::new();
    v.push(118);
    v.push(101);
    v.push(114);
    v.push(115);
    v.push(105);
    v.push(111);
    v.push(110);
    v.push(32);
    v.push(61);
    v.push(32);
    v.push(34);
    proof {
        assert(v@ =~= version_eq_quote());
    }
    v
}


/// A git key and its opening quote.
/// The text is `git = \"`.
pub open spec fn git_eq_quote() -> Seq<u8> {
    seq![103u8, 105u8, 116u8, 32u8, 61u8, 32u8, 34u8]
}

/// Runtime value of `git_eq_quote`.
fn git_eq_quote_bytes() -> (r: Vec<u8>)
    ensures
        r@ == git_eq_quote(),
{
    let mut v: Vec<u8> = Vec::new();
    v.push(103);
    v.push(105);
    v.push(116);
    v.push(32);
    v.push(61);
    v.push(32);
    v.push(34);
    proof {
        assert(v@ =~= git_eq_quote());
    }
    v
}


/// The quote closing a url, and the revision key with its quote.
pub open spec fn quote_nl_rev() -> Seq<u8> {
    seq![34u8, 10u8, 114u8, 101u8, 118u8, 32u8, 61u8, 32u8, 34u8]
}

/// Runtime value of `quote_nl_rev`.
fn quote_nl_rev_bytes() -> (r: Vec<u8>)
    ensures
        r@ == quote_nl_rev(),
{
    let mut v: Vec<u8> = Vec::new();
    v.push(34);
    v.push(10);
    v.push(114);
    v.push(101);
    v.push(118);
    v.push(32);
    v.push(61);
    v.push(32);
    v.push(34);
    proof {
        assert(v@ =~= quote_nl_rev());
    }
    v
}


/// A path key and its opening quote.
/// The text is `path = \"`.
pub open spec fn path_eq_quote() -> Seq<u8> {
    seq![112u8, 97u8, 116u8, 104u8, 32u8, 61u8, 32u8, 34u8]
}

/// Runtime value of `path_eq_quote`.
fn path_eq_quote_bytes() -> (r: Vec<u8>)
    ensures
        r@ == path_eq_quote(),
{
    let mut v: Vec<u8> = Vec::new();
    v.push(112);
    v.push(97);
    v.push(116);
    v.push(104);
    v.push(32);
    v.push(61);
    v.push(32);
    v.push(34);
    proof {
        assert(v@ =~= path_eq_quote());
    }
    v
}


/// The quote closing a path, and the version key with its quote.
pub open spec fn quote_nl_version() -> Seq<u8> {
    seq![34u8, 10u8, 118u8, 101u8, 114u8, 115u8, 105u8, 111u8, 110u8, 32u8, 61u8, 32u8, 34u8]
}

/// Runtime value of `quote_nl_version`.
fn quote_nl_version_bytes() -> (r: Vec<u8>)
    ensures
        r@ == quote_nl_version(),
{
    let mut v: Vec<u8> = Vec::new();
    v.push(34);
    v.push(10);
    v.push(118);
    v.push(101);
    v.push(114);
    v.push(115);
    v.push(105);
    v.push(111);
    v.push(110);
    v.push(32);
    v.push(61);
    v.push(32);
    v.push(34);
    proof {
        assert(v@ =~= quote_nl_version());
    }
    v
}


/// A closing quote.
/// The text is `\"`.
pub open spec fn quote_only() -> Seq<u8> {
    seq![34u8]
}

/// Runtime value of `quote_only`.
fn quote_only_bytes() -> (r: Vec<u8>)
    ensures
        r@ == quote_only(),
{
    let mut v: Vec<u8> = Vec::new();
    v.push(34);
    proof {
        assert(v@ =~= quote_only());
    }
    v
}


/// Where the builder crate lies inside a backend checkout.
/// The text is `crates/spirv-builder`.
pub open spec fn builder_subdir() -> Seq<u8> {
    seq![99u8, 114u8, 97u8, 116u8, 101u8, 115u8, 47u8, 115u8, 112u8, 105u8, 114u8, 118u8, 45u8, 98u8, 117u8, 105u8, 108u8, 100u8, 101u8, 114u8]
}

/// Runtime value of `builder_subdir`.
fn builder_subdir_bytes() -> (r: Vec<u8>)
    ensures
        r@ == builder_subdir(),
{
    let mut v: Vec<u8> = Vec::new();
    v.push(99);
    v.push(114);
    v.push(97);
    v.push(116);
    v.push(101);
    v.push(115);
    v.push(47);
    v.push(115);
    v.push(112);
    v.push(105);
    v.push(114);
    v.push(118);
    v.push(45);
    v.push(98);
    v.push(117);
    v.push(105);
    v.push(108);
    v.push(100);
    v.push(101);
    v.push(114);
    proof {
        assert(v@ =~= builder_subdir());
    }
    v
}


/// The build output directory of a project.
/// The text is `target`.
pub open spec fn target_dir_name() -> Seq<u8> {
    seq![116u8, 97u8, 114u8, 103u8, 101u8, 116u8]
}

/// Runtime value of `target_dir_name`.
fn target_dir_name_bytes() -> (r: Vec<u8>)
    ensures
        r@ == target_dir_name(),
{
    let mut v: Vec<u8> = Vec::new();
    v.push(116);
    v.push(97);
    v.push(114);
    v.push(103);
    v.push(101);
    v.push(116);
    proof {
        assert(v@ =~= target_dir_name());
    }
    v
}


/// The release subdirectory of the build output.
/// The text is `release`.
pub open spec fn release_dir_name() -> Seq<u8> {
    seq![114u8, 101u8, 108u8, 101u8, 97u8, 115u8, 101u8]
}

/// Runtime value of `release_dir_name`.
fn release_dir_name_bytes() -> (r: Vec<u8>)
    ensures
        r@ == release_dir_name(),
{
    let mut v: Vec<u8> = Vec::new();
    v.push(114);
    v.push(101);
    v.push(108);
    v.push(101);
    v.push(97);
    v.push(115);
    v.push(101);
    proof {
        assert(v@ =~= release_dir_name());
    }
    v
}


/// The file suffix of a target-spec file.
/// The text is `.json`.
pub open spec fn json_suffix() -> Seq<u8> {
    seq![46u8, 106u8, 115u8, 111u8, 110u8]
}

/// Runtime value of `json_suffix`.
pub fn json_suffix_bytes() -> (r: Vec<u8>)
    ensures
        r@ == json_suffix(),
{
    let mut v: Vec<u8> = Vec::new();
    v.push(46);
    v.push(106);
    v.push(115);
    v.push(111);
    v.push(110);
    proof {
        assert(v@ =~= json_suffix());
    }
    v
}

/// The inputs of an installation, as the command line hands them over.
#[derive(Clone, Debug)]
pub struct Install {
    /// Directory containing the shader crate to compile.
    pub shader_crate: Vec<u8>,
    /// Explicit source url of the backend, overriding the dependency graph.
    pub spirv_builder_source: Option<Vec<u8>>,
    /// Explicit version or revision of the backend.
    pub spirv_builder_version: Option<Vec<u8>>,
    /// Rebuild the backend even when a cached artifact exists.
    pub rebuild_codegen: bool,
    /// Install toolchains without asking for consent.
    pub auto_install_rust_toolchain: bool,
    /// Remove the intermediate build output after a successful build.
    pub clear_target: bool,
    /// Authorize the temporary downgrade of lock-manifest markers.
    pub force_overwrite_lockfiles_v4_to_v3: bool,
}

impl Install {
    /// The default installation for a shader crate at the given path:
    /// no overrides, no forced rebuild, consent assumed, build output
    /// cleared, lock manifests left alone.
    pub fn from_shader_crate(shader_crate: Vec<u8>) -> (r: Install)
        ensures
            r.shader_crate@ == shader_crate@,
            r.spirv_builder_source is None,
            r.spirv_builder_version is None,
            !r.rebuild_codegen,
            r.auto_install_rust_toolchain,
            r.clear_target,
            !r.force_overwrite_lockfiles_v4_to_v3,
    {
        Install {
            shader_crate,
            spirv_builder_source: None,
            spirv_builder_version: None,
            rebuild_codegen: false,
            auto_install_rust_toolchain: true,
            clear_target: true,
            force_overwrite_lockfiles_v4_to_v3: false,
        }
    }
}

/// A finished backend installation, whether cached or freshly built.
#[derive(Clone, Debug)]
pub struct InstalledBackend {
    /// Path of the backend's compiled library.
    pub rustc_codegen_spirv_location: Vec<u8>,
    /// The toolchain channel the backend must be driven with.
    pub toolchain_channel: Vec<u8>,
    /// The directory holding one spec file per supported target.
    pub target_spec_dir: Vec<u8>,
}

impl InstalledBackend {
    /// The spec file for one target triple: the triple's name with the
    /// spec-file suffix, inside the spec directory.
    pub fn target_spec_file_path(&self, target: &[u8]) -> (r: Vec<u8>)
        ensures
            r@ == join_spec(self.target_spec_dir@, target@ + json_suffix()),
    {
        let mut name = crate::bytes::copy_range(target, 0, target.len());
        proof {
            assert(name@ =~= target@);
        }
        let suffix = json_suffix_bytes();
        push_all(&mut name, suffix.as_slice());
        crate::paths::path_join(self.target_spec_dir.as_slice(), name.as_slice())
    }
}

/// Why an installation cannot go on.
#[derive(Clone, Copy, Debug, PartialEq, Eq, Structural)]
pub enum InstallError {
    /// No backend source could be resolved.
    Source(SourceResolutionError),
    /// No toolchain channel could be read for the backend.
    Channel(ChannelError),
    /// No target-spec directory could be resolved.
    Specs(SpecResolutionError),
    /// The placeholder project's dependency graph lacks the backend.
    BackendDependencyAbsent,
    /// The placeholder project could not be written.
    PlaceholderWriteFailed,
    /// The backend's build script could not be read.
    BuildScriptUnreadable,
    /// The spec files could not be written or copied.
    SpecWriteFailed,
    /// The installed toolchains could not be listed.
    ToolchainListingFailed,
    /// Installing the required toolchain failed.
    ToolchainInstallFailed,
    /// The installed components could not be listed.
    ComponentListingFailed,
    /// Installing the required components failed.
    ComponentInstallFailed,
    /// The placeholder project's stale lock manifest could not be removed.
    LockfileRemovalFailed,
    /// The compiler build exited with failure.
    BuildFailed,
    /// The build succeeded but left no artifact behind.
    ArtifactMissing,
    /// The artifact could not be moved into the cache.
    ArtifactRenameFailed,
    /// The intermediate build output could not be removed.
    TargetClearFailed,
    /// The reported event does not belong to the current step.
    UnexpectedEvent,
}

/// The version table of the placeholder project's manifest, naming the
/// backend dependency at the resolved source.
pub open spec fn version_table_spec(s: SpirvSource) -> Seq<u8> {
    match s {
        SpirvSource::CratesIO(v) => version_eq_quote() + render_spec(v) + quote_only(),
        SpirvSource::Git { url, rev } => git_eq_quote() + url@ + quote_nl_rev() + rev@
            + quote_only(),
        SpirvSource::Path { rust_gpu_repo_root, version } => path_eq_quote() + join_spec(
            rust_gpu_repo_root@,
            builder_subdir(),
        ) + quote_nl_version() + render_spec(version) + quote_only(),
    }
}

/// The whole manifest of the placeholder project.
pub open spec fn placeholder_manifest_spec(s: SpirvSource) -> Seq<u8> {
    manifest_head() + version_table_spec(s) + manifest_tail()
}

/// Renders the placeholder project's manifest for a source.
pub fn placeholder_cargo_toml(source: &SpirvSource) -> (r: Vec<u8>)
    ensures
        r@ == placeholder_manifest_spec(*source),
{
    let mut out = manifest_head_bytes();
    match source {
        SpirvSource::CratesIO(v) => {
            let piece = version_eq_quote_bytes();
            push_all(&mut out, piece.as_slice());
            let rendered = v.render();
            push_all(&mut out, rendered.as_slice());
            let q = quote_only_bytes();
            push_all(&mut out, q.as_slice());
        },
        SpirvSource::Git { url, rev } => {
            let piece = git_eq_quote_bytes();
            push_all(&mut out, piece.as_slice());
            push_all(&mut out, url.as_slice());
            let mid = quote_nl_rev_bytes();
            push_all(&mut out, mid.as_slice());
            push_all(&mut out, rev.as_slice());
            let q = quote_only_bytes();
            push_all(&mut out, q.as_slice());
        },
        SpirvSource::Path { rust_gpu_repo_root, version } => {
            let piece = path_eq_quote_bytes();
            push_all(&mut out, piece.as_slice());
            let sub = builder_subdir_bytes();
            let joined = crate::paths::path_join(rust_gpu_repo_root.as_slice(), sub.as_slice());
            push_all(&mut out, joined.as_slice());
            let mid = quote_nl_version_bytes();
            push_all(&mut out, mid.as_slice());
            let rendered = version.render();
            push_all(&mut out, rendered.as_slice());
            let q = quote_only_bytes();
            push_all(&mut out, q.as_slice());
        },
    }
    let tail = manifest_tail_bytes();
    push_all(&mut out, tail.as_slice());
    proof {
        assert(out@ =~= placeholder_manifest_spec(*source));
    }
    out
}

/// Ambient facts of one run that the command line supplies once: where the
/// cache root lies, and how the platform names a dynamic library.
#[derive(Clone, Debug)]
pub struct InstallEnv {
    pub cache_root: Vec<u8>,
    pub dylib_prefix: Vec<u8>,
    pub dylib_suffix: Vec<u8>,
}

/// The file name of the backend's compiled library on this platform.
pub open spec fn dylib_filename_spec(env: InstallEnv) -> Seq<u8> {
    env.dylib_prefix@ + rustc_codegen_spirv_name() + env.dylib_suffix@
}

/// Where a fresh build leaves the backend's library: under the release
/// output of the install directory.
pub open spec fn built_dylib_spec(source: SpirvSource, env: InstallEnv) -> Seq<u8> {
    join_spec(
        join_spec(
            join_spec(install_dir_spec(source, env.cache_root@), target_dir_name()),
            release_dir_name(),
        ),
        dylib_filename_spec(env),
    )
}

/// Where the finished library must lie: for a local checkout inside its own
/// build output, else directly in the install directory.
pub open spec fn dest_dylib_spec(source: SpirvSource, env: InstallEnv) -> Seq<u8> {
    if source is Path {
        built_dylib_spec(source, env)
    } else {
        join_spec(install_dir_spec(source, env.cache_root@), dylib_filename_spec(env))
    }
}

/// The fields a finished installation must carry, given the source, the
/// environment, the discovered channel and the resolved spec directory.
pub open spec fn backend_matches(
    source: SpirvSource,
    env: InstallEnv,
    channel: Seq<u8>,
    spec_dir: Seq<u8>,
    b: InstalledBackend,
) -> bool {
    &&& b.rustc_codegen_spirv_location@ == dest_dylib_spec(source, env)
    &&& b.toolchain_channel@ == channel
    &&& b.target_spec_dir@ == spec_dir
}

/// The shared legacy spec directory for local checkouts, or the
/// cache-owned spec directory for every other source.
pub open spec fn legacy_dir_spec(source: SpirvSource, cache_root: Seq<u8>) -> Seq<u8> {
    if source is Path {
        join_spec(cache_root, crate::target_specs::legacy_shared_dir_name())
    } else {
        join_spec(
            install_dir_spec(source, cache_root),
            crate::target_specs::target_specs_dir_name(),
        )
    }
}

/// The cache-owned spec directory of a source.
pub open spec fn cache_owned_specs_spec(source: SpirvSource, cache_root: Seq<u8>) -> Seq<u8> {
    join_spec(install_dir_spec(source, cache_root), crate::target_specs::target_specs_dir_name())
}

/// Where the orchestration stands. Each state waits for the outcome of
/// exactly one outside action.
#[derive(Debug)]
pub enum InstallState {
    /// Nothing has happened yet.
    Start,
    /// The cache root is being created.
    EnsuringCacheDir,
    /// The shader crate's dependency graph is being queried.
    ResolvingSource,
    /// The cache is being probed for the finished artifact.
    Probing { source: SpirvSource },
    /// The placeholder project is being written.
    WritingPlaceholder { source: SpirvSource },
    /// The install directory's dependency graph is being queried.
    QueryingInstallMeta { source: SpirvSource, skip_rebuild: bool },
    /// The backend's build script is being read.
    ReadingBuildScript {
        source: SpirvSource,
        skip_rebuild: bool,
        companion_manifest: Option<Vec<u8>>,
    },
    /// The companion package's spec directory is being probed.
    ProbingSpecsDir {
        source: SpirvSource,
        skip_rebuild: bool,
        channel: Vec<u8>,
        companion_manifest: Vec<u8>,
    },
    /// Spec files are being written or copied into the resolved directory.
    WritingSpecs { source: SpirvSource, skip_rebuild: bool, channel: Vec<u8>, spec_dir: Vec<u8> },
    /// The installed toolchains are being listed.
    QueryingToolchainList { source: SpirvSource, channel: Vec<u8>, spec_dir: Vec<u8> },
    /// The user is being asked to consent to a toolchain install.
    AwaitingToolchainConsent { source: SpirvSource, channel: Vec<u8>, spec_dir: Vec<u8> },
    /// The toolchain is being installed.
    InstallingToolchain { source: SpirvSource, channel: Vec<u8>, spec_dir: Vec<u8> },
    /// The installed components are being listed.
    QueryingComponentList { source: SpirvSource, channel: Vec<u8>, spec_dir: Vec<u8> },
    /// The user is being asked to consent to a component install.
    AwaitingComponentConsent { source: SpirvSource, channel: Vec<u8>, spec_dir: Vec<u8> },
    /// The components are being installed.
    InstallingComponents { source: SpirvSource, channel: Vec<u8>, spec_dir: Vec<u8> },
    /// The placeholder's stale lock manifest is being removed.
    RemovingLockfile { source: SpirvSource, channel: Vec<u8>, spec_dir: Vec<u8> },
    /// The compiler build is running.
    Building { source: SpirvSource, channel: Vec<u8>, spec_dir: Vec<u8> },
    /// The artifact is being moved into the cache.
    RenamingArtifact { source: SpirvSource, channel: Vec<u8>, spec_dir: Vec<u8> },
    /// The intermediate build output is being removed.
    ClearingTarget { source: SpirvSource, channel: Vec<u8>, spec_dir: Vec<u8> },
    /// The installation is complete.
    Done { backend: InstalledBackend },
    /// The user declined an installation; the run stops cleanly.
    Declined,
}

/// What the caller reports back after performing an action.
#[derive(Debug)]
pub enum InstallEvent {
    /// The run begins.
    Begin,
    /// The cache root exists.
    CacheDirReady,
    /// The shader crate's dependency graph, and whether the candidate
    /// local root of the companion package exists as a directory.
    ShaderMetadata { packages: Vec<PackageMeta>, local_root_is_dir: bool },
    /// Whether the finished artifact already lies at its destination.
    DestProbed { dest_is_file: bool },
    /// Whether the placeholder project was written.
    PlaceholderWritten { success: bool },
    /// The install directory's dependency graph.
    InstallMetadata { packages: Vec<PackageMeta> },
    /// The backend's build script text, if it could be read.
    BuildScript { contents: Option<Vec<u8>> },
    /// Whether the companion package's spec directory exists.
    SpecsDirProbed { is_dir: bool },
    /// The toolchain listing, if the listing command succeeded.
    ToolchainList { output: Option<Vec<u8>> },
    /// The user's answer to a consent prompt.
    ConsentAnswer { yes: bool },
    /// Whether the toolchain install succeeded.
    ToolchainInstalled { success: bool },
    /// The component listing, if the listing command succeeded.
    ComponentList { output: Option<Vec<u8>> },
    /// Whether the component install succeeded.
    ComponentsInstalled { success: bool },
    /// Whether the stale lock manifest was removed.
    LockfileRemoved { success: bool },
    /// Whether the build exited successfully, and whether it left the
    /// artifact behind.
    BuildFinished { success: bool, artifact_is_file: bool },
    /// Whether the artifact was moved into place.
    ArtifactRenamed { success: bool },
    /// Whether the intermediate build output was removed.
    TargetCleared { success: bool },
    /// The spec files were written or copied, or not.
    SpecFilesWritten { success: bool },
}

/// The one outside action the caller must perform next.
#[derive(Debug)]
pub enum InstallAction {
    /// Create this directory and everything above it.
    EnsureCacheDir { path: Vec<u8> },
    /// Query the dependency graph of the project at this path.
    QueryShaderMetadata { path: Vec<u8> },
    /// Report whether a file lies at this path.
    ProbeDestFile { path: Vec<u8> },
    /// Write the placeholder project: this manifest into `Cargo.toml` of
    /// the directory, and an empty library source file under `src`.
    WritePlaceholder { dir: Vec<u8>, manifest: Vec<u8> },
    /// Query the dependency graph of the project in this directory.
    QueryInstallMetadata { dir: Vec<u8> },
    /// Read the file at this path.
    ReadBuildScript { path: Vec<u8> },
    /// Report whether a directory lies at this path.
    ProbeSpecsDir { path: Vec<u8> },
    /// Copy every regular file of `from` into `to`.
    CopySpecFiles { from: Vec<u8>, to: Vec<u8> },
    /// Write the fixed legacy spec bundle into this directory.
    WriteLegacySpecs { dir: Vec<u8> },
    /// List the installed toolchains.
    QueryToolchainList,
    /// Ask for consent to install the toolchain, or the components.
    RequestConsent { for_toolchain: bool },
    /// Install this toolchain.
    InstallToolchain { channel: Vec<u8> },
    /// List the installed components of this toolchain.
    QueryComponentList { channel: Vec<u8> },
    /// Install the three required components for this toolchain.
    InstallComponents { channel: Vec<u8> },
    /// Remove the file at this path.
    RemoveLockfile { path: Vec<u8> },
    /// Run the release build in this directory under this toolchain,
    /// restricted to the backend package alone for a local checkout.
    RunBuild { dir: Vec<u8>, channel: Vec<u8>, package_only: bool },
    /// Move the file at `from` to `to`.
    RenameArtifact { from: Vec<u8>, to: Vec<u8> },
    /// Remove the directory at this path and everything in it.
    ClearTargetDir { path: Vec<u8> },
    /// Nothing; the run has ended.
    Complete,
}

/// Whether the run is in skip mode: the artifact was found in the cache
/// and no rebuild was forced, so nothing on disk may change any more.
pub open spec fn skip_state(s: InstallState) -> bool {
    match s {
        InstallState::QueryingInstallMeta { skip_rebuild, .. } => skip_rebuild,
        InstallState::ReadingBuildScript { skip_rebuild, .. } => skip_rebuild,
        InstallState::ProbingSpecsDir { skip_rebuild, .. } => skip_rebuild,
        InstallState::WritingSpecs { skip_rebuild, .. } => skip_rebuild,
        _ => false,
    }
}

/// Whether an action changes anything outside: writes, installs, builds,
/// renames, removals, and the consent prompt that precedes an install.
pub open spec fn action_mutates(a: InstallAction) -> bool {
    ||| a is WritePlaceholder
    ||| a is CopySpecFiles
    ||| a is WriteLegacySpecs
    ||| a is RequestConsent
    ||| a is InstallToolchain
    ||| a is InstallComponents
    ||| a is RemoveLockfile
    ||| a is RunBuild
    ||| a is RenameArtifact
    ||| a is ClearTargetDir
    ||| a is EnsureCacheDir
}

/// What must follow a freshly resolved source: a local checkout goes
/// straight to the metadata query of its own directory, every other source
/// is probed for a cached artifact first.
pub open spec fn resolution_step_matches(
    install: Install,
    env: InstallEnv,
    packages: Seq<PackageMeta>,
    local_root_is_dir: bool,
    r: Result<(InstallState, InstallAction), InstallError>,
) -> bool {
    match r {
        Err(InstallError::Source(e)) => new_matches(
            crate::bytes::opt_view_owned(install.spirv_builder_source),
            crate::bytes::opt_view_owned(install.spirv_builder_version),
            packages,
            local_root_is_dir,
            Err(e),
        ),
        Ok(
            (
                InstallState::QueryingInstallMeta { source, skip_rebuild },
                InstallAction::QueryInstallMetadata { dir },
            ),
        ) => {
            &&& new_matches(
                crate::bytes::opt_view_owned(install.spirv_builder_source),
                crate::bytes::opt_view_owned(install.spirv_builder_version),
                packages,
                local_root_is_dir,
                Ok(source),
            )
            &&& source is Path
            &&& !skip_rebuild
            &&& dir@ == install_dir_spec(source, env.cache_root@)
        },
        Ok((InstallState::Probing { source }, InstallAction::ProbeDestFile { path })) => {
            &&& new_matches(
                crate::bytes::opt_view_owned(install.spirv_builder_source),
                crate::bytes::opt_view_owned(install.spirv_builder_version),
                packages,
                local_root_is_dir,
                Ok(source),
            )
            &&& !(source is Path)
            &&& path@ == dest_dylib_spec(source, env)
        },
        _ => false,
    }
}

/// What must follow a resolved spec directory: in skip mode the run is
/// done and the backend assembled, otherwise the toolchain listing is next.
pub open spec fn advance_matches(
    env: InstallEnv,
    source: SpirvSource,
    skip: bool,
    channel: Seq<u8>,
    spec_dir: Seq<u8>,
    r: Result<(InstallState, InstallAction), InstallError>,
) -> bool {
    if skip {
        match r {
            Ok((InstallState::Done { backend }, InstallAction::Complete)) => backend_matches(
                source,
                env,
                channel,
                spec_dir,
                backend,
            ),
            _ => false,
        }
    } else {
        match r {
            Ok(
                (
                    InstallState::QueryingToolchainList { source: s2, channel: c2, spec_dir: d2 },
                    InstallAction::QueryToolchainList,
                ),
            ) => s2 == source && c2@ == channel && d2@ == spec_dir,
            _ => false,
        }
    }
}

/// What must follow a provisioned toolchain: a local checkout is built in
/// place, restricted to the backend package; any other source first has
/// the placeholder's stale lock manifest removed.
pub open spec fn build_prep_matches(
    env: InstallEnv,
    source: SpirvSource,
    channel: Seq<u8>,
    spec_dir: Seq<u8>,
    r: Result<(InstallState, InstallAction), InstallError>,
) -> bool {
    if source is Path {
        match r {
            Ok(
                (
                    InstallState::Building { source: s2, channel: c2, spec_dir: d2 },
                    InstallAction::RunBuild { dir, channel: c3, package_only },
                ),
            ) => {
                &&& s2 == source
                &&& c2@ == channel
                &&& d2@ == spec_dir
                &&& dir@ == install_dir_spec(source, env.cache_root@)
                &&& c3@ == channel
                &&& package_only
            },
            _ => false,
        }
    } else {
        match r {
            Ok(
                (
                    InstallState::RemovingLockfile { source: s2, channel: c2, spec_dir: d2 },
                    InstallAction::RemoveLockfile { path },
                ),
            ) => {
                &&& s2 == source
                &&& c2@ == channel
                &&& d2@ == spec_dir
                &&& path@ == join_spec(
                    install_dir_spec(source, env.cache_root@),
                    crate::lockfile::cargo_lock_name(),
                )
            },
            _ => false,
        }
    }
}

/// The whole transition relation of the orchestrator: for the state the
/// run is in and the event the caller reports, which error stops the run,
/// or which state and action follow. Every pair not listed is a protocol
/// violation.
pub open spec fn step_matches(
    install: Install,
    env: InstallEnv,
    state: InstallState,
    event: InstallEvent,
    r: Result<(InstallState, InstallAction), InstallError>,
) -> bool {
    match (state, event) {
        (InstallState::Start, InstallEvent::Begin) => match r {
            Ok((InstallState::EnsuringCacheDir, InstallAction::EnsureCacheDir { path })) => path@
                == env.cache_root@,
            _ => false,
        },
        (InstallState::EnsuringCacheDir, InstallEvent::CacheDirReady) => {
            if install.spirv_builder_version is Some {
                resolution_step_matches(install, env, Seq::empty(), false, r)
            } else {
                match r {
                    Ok(
                        (
                            InstallState::ResolvingSource,
                            InstallAction::QueryShaderMetadata { path },
                        ),
                    ) => path@ == install.shader_crate@,
                    _ => false,
                }
            }
        },
        (
            InstallState::ResolvingSource,
            InstallEvent::ShaderMetadata { packages, local_root_is_dir },
        ) => resolution_step_matches(install, env, packages@, local_root_is_dir, r),
        (InstallState::Probing { source }, InstallEvent::DestProbed { dest_is_file }) => {
            if dest_is_file && !install.rebuild_codegen {
                match r {
                    Ok(
                        (
                            InstallState::QueryingInstallMeta { source: s2, skip_rebuild },
                            InstallAction::QueryInstallMetadata { dir },
                        ),
                    ) => s2 == source && skip_rebuild && dir@ == install_dir_spec(
                        source,
                        env.cache_root@,
                    ),
                    _ => false,
                }
            } else {
                match r {
                    Ok(
                        (
                            InstallState::WritingPlaceholder { source: s2 },
                            InstallAction::WritePlaceholder { dir, manifest },
                        ),
                    ) => s2 == source && dir@ == install_dir_spec(source, env.cache_root@)
                        && manifest@ == placeholder_manifest_spec(source),
                    _ => false,
                }
            }
        },
        (
            InstallState::WritingPlaceholder { source },
            InstallEvent::PlaceholderWritten { success },
        ) => {
            if !success {
                r is Err && r->Err_0 == InstallError::PlaceholderWriteFailed
            } else {
                match r {
                    Ok(
                        (
                            InstallState::QueryingInstallMeta { source: s2, skip_rebuild },
                            InstallAction::QueryInstallMetadata { dir },
                        ),
                    ) => s2 == source && !skip_rebuild && dir@ == install_dir_spec(
                        source,
                        env.cache_root@,
                    ),
                    _ => false,
                }
            }
        },
        (
            InstallState::QueryingInstallMeta { source, skip_rebuild },
            InstallEvent::InstallMetadata { packages },
        ) => {
            match crate::source::find_package_spec(
                packages@,
                rustc_codegen_spirv_name(),
            ) {
                None => r is Err && r->Err_0 == InstallError::BackendDependencyAbsent,
                Some(i) => match crate::paths::parent_spec(packages@[i].manifest_path@) {
                    None => r is Err && r->Err_0 == InstallError::Channel(
                        ChannelError::NoCrateRoot,
                    ),
                    Some(d) => match r {
                        Ok(
                            (
                                InstallState::ReadingBuildScript {
                                    source: s2,
                                    skip_rebuild: k2,
                                    companion_manifest,
                                },
                                InstallAction::ReadBuildScript { path },
                            ),
                        ) => {
                            &&& s2 == source
                            &&& k2 == skip_rebuild
                            &&& path@ == join_spec(d, crate::source::build_rs_name())
                            &&& match crate::source::find_package_spec(
                                packages@,
                                crate::target_specs::target_specs_pkg_name(),
                            ) {
                                None => companion_manifest is None,
                                Some(j) => companion_manifest is Some
                                    && companion_manifest->Some_0@
                                    == packages@[j].manifest_path@,
                            }
                        },
                        _ => false,
                    },
                },
            }
        },
        (
            InstallState::ReadingBuildScript { source, skip_rebuild, companion_manifest },
            InstallEvent::BuildScript { contents },
        ) => {
            match contents {
                None => r is Err && r->Err_0 == InstallError::BuildScriptUnreadable,
                Some(c) => match crate::source::channel_spec(c@) {
                    Err(e) => r is Err && r->Err_0 == InstallError::Channel(e),
                    Ok(ch) => match companion_manifest {
                        Some(mp) => match crate::target_specs::companion_dir_spec(mp@) {
                            None => r is Err && r->Err_0 == InstallError::Specs(
                                SpecResolutionError::CompanionSpecsDirMissing,
                            ),
                            Some(sd) => match r {
                                Ok(
                                    (
                                        InstallState::ProbingSpecsDir {
                                            source: s2,
                                            skip_rebuild: k2,
                                            channel: c2,
                                            companion_manifest: m2,
                                        },
                                        InstallAction::ProbeSpecsDir { path },
                                    ),
                                ) => s2 == source && k2 == skip_rebuild && c2@ == ch && m2 == mp
                                    && path@ == sd,
                                _ => false,
                            },
                        },
                        None => {
                            let dir = legacy_dir_spec(source, env.cache_root@);
                            if skip_rebuild {
                                advance_matches(env, source, true, ch, dir, r)
                            } else {
                                match r {
                                    Ok(
                                        (
                                            InstallState::WritingSpecs {
                                                source: s2,
                                                skip_rebuild: k2,
                                                channel: c2,
                                                spec_dir: d2,
                                            },
                                            InstallAction::WriteLegacySpecs { dir: ad },
                                        ),
                                    ) => s2 == source && !k2 && c2@ == ch && d2@ == dir && ad@
                                        == dir,
                                    _ => false,
                                }
                            }
                        },
                    },
                },
            }
        },
        (
            InstallState::ProbingSpecsDir { source, skip_rebuild, channel, companion_manifest },
            InstallEvent::SpecsDirProbed { is_dir },
        ) => {
            if !is_dir {
                r is Err && r->Err_0 == InstallError::Specs(
                    SpecResolutionError::CompanionSpecsDirMissing,
                )
            } else {
                match crate::target_specs::companion_dir_spec(companion_manifest@) {
                    None => r is Err && r->Err_0 == InstallError::Specs(
                        SpecResolutionError::CompanionSpecsDirMissing,
                    ),
                    Some(sd) => {
                        if source is Path {
                            advance_matches(env, source, skip_rebuild, channel@, sd, r)
                        } else {
                            let owned = cache_owned_specs_spec(source, env.cache_root@);
                            if skip_rebuild {
                                advance_matches(env, source, true, channel@, owned, r)
                            } else {
                                match r {
                                    Ok(
                                        (
                                            InstallState::WritingSpecs {
                                                source: s2,
                                                skip_rebuild: k2,
                                                channel: c2,
                                                spec_dir: d2,
                                            },
                                            InstallAction::CopySpecFiles { from, to },
                                        ),
                                    ) => s2 == source && !k2 && c2@ == channel@ && d2@ == owned
                                        && from@ == sd && to@ == owned,
                                    _ => false,
                                }
                            }
                        }
                    },
                }
            }
        },
        (
            InstallState::WritingSpecs { source, skip_rebuild, channel, spec_dir },
            InstallEvent::SpecFilesWritten { success },
        ) => {
            if !success {
                r is Err && r->Err_0 == InstallError::SpecWriteFailed
            } else {
                advance_matches(env, source, skip_rebuild, channel@, spec_dir@, r)
            }
        },
        (
            InstallState::QueryingToolchainList { source, channel, spec_dir },
            InstallEvent::ToolchainList { output },
        ) => {
            match output {
                None => r is Err && r->Err_0 == InstallError::ToolchainListingFailed,
                Some(out) => {
                    if crate::toolchain::toolchain_listed(out@, channel@) {
                        match r {
                            Ok(
                                (
                                    InstallState::QueryingComponentList {
                                        source: s2,
                                        channel: c2,
                                        spec_dir: d2,
                                    },
                                    InstallAction::QueryComponentList { channel: c3 },
                                ),
                            ) => s2 == source && c2@ == channel@ && d2@ == spec_dir@ && c3@
                                == channel@,
                            _ => false,
                        }
                    } else if install.auto_install_rust_toolchain {
                        match r {
                            Ok(
                                (
                                    InstallState::InstallingToolchain {
                                        source: s2,
                                        channel: c2,
                                        spec_dir: d2,
                                    },
                                    InstallAction::InstallToolchain { channel: c3 },
                                ),
                            ) => s2 == source && c2@ == channel@ && d2@ == spec_dir@ && c3@
                                == channel@,
                            _ => false,
                        }
                    } else {
                        match r {
                            Ok(
                                (
                                    InstallState::AwaitingToolchainConsent {
                                        source: s2,
                                        channel: c2,
                                        spec_dir: d2,
                                    },
                                    InstallAction::RequestConsent { for_toolchain },
                                ),
                            ) => s2 == source && c2@ == channel@ && d2@ == spec_dir@
                                && for_toolchain,
                            _ => false,
                        }
                    }
                },
            }
        },
        (
            InstallState::AwaitingToolchainConsent { source, channel, spec_dir },
            InstallEvent::ConsentAnswer { yes },
        ) => {
            if yes {
                match r {
                    Ok(
                        (
                            InstallState::InstallingToolchain {
                                source: s2,
                                channel: c2,
                                spec_dir: d2,
                            },
                            InstallAction::InstallToolchain { channel: c3 },
                        ),
                    ) => s2 == source && c2@ == channel@ && d2@ == spec_dir@ && c3@ == channel@,
                    _ => false,
                }
            } else {
                match r {
                    Ok((InstallState::Declined, InstallAction::Complete)) => true,
                    _ => false,
                }
            }
        },
        (
            InstallState::InstallingToolchain { source, channel, spec_dir },
            InstallEvent::ToolchainInstalled { success },
        ) => {
            if !success {
                r is Err && r->Err_0 == InstallError::ToolchainInstallFailed
            } else {
                match r {
                    Ok(
                        (
                            InstallState::QueryingComponentList {
                                source: s2,
                                channel: c2,
                                spec_dir: d2,
                            },
                            InstallAction::QueryComponentList { channel: c3 },
                        ),
                    ) => s2 == source && c2@ == channel@ && d2@ == spec_dir@ && c3@ == channel@,
                    _ => false,
                }
            }
        },
        (
            InstallState::QueryingComponentList { source, channel, spec_dir },
            InstallEvent::ComponentList { output },
        ) => {
            match output {
                None => r is Err && r->Err_0 == InstallError::ComponentListingFailed,
                Some(out) => {
                    if crate::toolchain::all_components_listed(out@) {
                        build_prep_matches(env, source, channel@, spec_dir@, r)
                    } else if install.auto_install_rust_toolchain {
                        match r {
                            Ok(
                                (
                                    InstallState::InstallingComponents {
                                        source: s2,
                                        channel: c2,
                                        spec_dir: d2,
                                    },
                                    InstallAction::InstallComponents { channel: c3 },
                                ),
                            ) => s2 == source && c2@ == channel@ && d2@ == spec_dir@ && c3@
                                == channel@,
                            _ => false,
                        }
                    } else {
                        match r {
                            Ok(
                                (
                                    InstallState::AwaitingComponentConsent {
                                        source: s2,
                                        channel: c2,
                                        spec_dir: d2,
                                    },
                                    InstallAction::RequestConsent { for_toolchain },
                                ),
                            ) => s2 == source && c2@ == channel@ && d2@ == spec_dir@
                                && !for_toolchain,
                            _ => false,
                        }
                    }
                },
            }
        },
        (
            InstallState::AwaitingComponentConsent { source, channel, spec_dir },
            InstallEvent::ConsentAnswer { yes },
        ) => {
            if yes {
                match r {
                    Ok(
                        (
                            InstallState::InstallingComponents {
                                source: s2,
                                channel: c2,
                                spec_dir: d2,
                            },
                            InstallAction::InstallComponents { channel: c3 },
                        ),
                    ) => s2 == source && c2@ == channel@ && d2@ == spec_dir@ && c3@ == channel@,
                    _ => false,
                }
            } else {
                match r {
                    Ok((InstallState::Declined, InstallAction::Complete)) => true,
                    _ => false,
                }
            }
        },
        (
            InstallState::InstallingComponents { source, channel, spec_dir },
            InstallEvent::ComponentsInstalled { success },
        ) => {
            if !success {
                r is Err && r->Err_0 == InstallError::ComponentInstallFailed
            } else {
                build_prep_matches(env, source, channel@, spec_dir@, r)
            }
        },
        (
            InstallState::RemovingLockfile { source, channel, spec_dir },
            InstallEvent::LockfileRemoved { success },
        ) => {
            if !success {
                r is Err && r->Err_0 == InstallError::LockfileRemovalFailed
            } else {
                match r {
                    Ok(
                        (
                            InstallState::Building { source: s2, channel: c2, spec_dir: d2 },
                            InstallAction::RunBuild { dir, channel: c3, package_only },
                        ),
                    ) => {
                        &&& s2 == source
                        &&& c2@ == channel@
                        &&& d2@ == spec_dir@
                        &&& dir@ == install_dir_spec(source, env.cache_root@)
                        &&& c3@ == channel@
                        &&& !package_only
                    },
                    _ => false,
                }
            }
        },
        (
            InstallState::Building { source, channel, spec_dir },
            InstallEvent::BuildFinished { success, artifact_is_file },
        ) => {
            if !success {
                r is Err && r->Err_0 == InstallError::BuildFailed
            } else if !artifact_is_file {
                r is Err && r->Err_0 == InstallError::ArtifactMissing
            } else if source is Path {
                match r {
                    Ok((InstallState::Done { backend }, InstallAction::Complete)) =>
                        backend_matches(source, env, channel@, spec_dir@, backend),
                    _ => false,
                }
            } else {
                match r {
                    Ok(
                        (
                            InstallState::RenamingArtifact {
                                source: s2,
                                channel: c2,
                                spec_dir: d2,
                            },
                            InstallAction::RenameArtifact { from, to },
                        ),
                    ) => s2 == source && c2@ == channel@ && d2@ == spec_dir@ && from@
                        == built_dylib_spec(source, env) && to@ == dest_dylib_spec(source, env),
                    _ => false,
                }
            }
        },
        (
            InstallState::RenamingArtifact { source, channel, spec_dir },
            InstallEvent::ArtifactRenamed { success },
        ) => {
            if !success {
                r is Err && r->Err_0 == InstallError::ArtifactRenameFailed
            } else if install.clear_target {
                match r {
                    Ok(
                        (
                            InstallState::ClearingTarget { source: s2, channel: c2, spec_dir: d2 },
                            InstallAction::ClearTargetDir { path },
                        ),
                    ) => s2 == source && c2@ == channel@ && d2@ == spec_dir@ && path@ == join_spec(
                        install_dir_spec(source, env.cache_root@),
                        target_dir_name(),
                    ),
                    _ => false,
                }
            } else {
                match r {
                    Ok((InstallState::Done { backend }, InstallAction::Complete)) =>
                        backend_matches(source, env, channel@, spec_dir@, backend),
                    _ => false,
                }
            }
        },
        (
            InstallState::ClearingTarget { source, channel, spec_dir },
            InstallEvent::TargetCleared { success },
        ) => {
            if !success {
                r is Err && r->Err_0 == InstallError::TargetClearFailed
            } else {
                match r {
                    Ok((InstallState::Done { backend }, InstallAction::Complete)) =>
                        backend_matches(source, env, channel@, spec_dir@, backend),
                    _ => false,
                }
            }
        },
        _ => r is Err && r->Err_0 == InstallError::UnexpectedEvent,
    }
}

/// The platform's file name for the backend library.
fn dylib_filename(env: &InstallEnv) -> (r: Vec<u8>)
    ensures
        r@ == dylib_filename_spec(*env),
{
    let mut out = crate::bytes::copy_range(env.dylib_prefix.as_slice(), 0, env.dylib_prefix.len());
    proof {
        assert(out@ =~= env.dylib_prefix@);
    }
    let name = rustc_codegen_spirv_name_bytes();
    push_all(&mut out, name.as_slice());
    push_all(&mut out, env.dylib_suffix.as_slice());
    proof {
        assert(out@ =~= dylib_filename_spec(*env));
    }
    out
}

/// Where a fresh build leaves the backend library.
fn built_dylib_path(source: &SpirvSource, env: &InstallEnv) -> (r: Vec<u8>)
    ensures
        r@ == built_dylib_spec(*source, *env),
{
    let base = source.install_dir(&env.cache_root);
    let target = target_dir_name_bytes();
    let release = release_dir_name_bytes();
    let filename = dylib_filename(env);
    let a = path_join(base.as_slice(), target.as_slice());
    let b = path_join(a.as_slice(), release.as_slice());
    path_join(b.as_slice(), filename.as_slice())
}

/// Where the finished backend library must lie.
fn dest_dylib_path(source: &SpirvSource, env: &InstallEnv) -> (r: Vec<u8>)
    ensures
        r@ == dest_dylib_spec(*source, *env),
{
    if source.is_path() {
        built_dylib_path(source, env)
    } else {
        let base = source.install_dir(&env.cache_root);
        let filename = dylib_filename(env);
        path_join(base.as_slice(), filename.as_slice())
    }
}

/// Assembles the finished installation record.
fn make_backend(source: &SpirvSource, env: &InstallEnv, channel: Vec<u8>, spec_dir: Vec<u8>) -> (r:
    InstalledBackend)
    ensures
        backend_matches(*source, *env, channel@, spec_dir@, r),
{
    let location = dest_dylib_path(source, env);
    InstalledBackend {
        rustc_codegen_spirv_location: location,
        toolchain_channel: channel,
        target_spec_dir: spec_dir,
    }
}

/// One step after a resolved source: local checkouts go straight to their
/// own metadata query, everything else to the cache probe.
fn after_resolution(source: SpirvSource, env: &InstallEnv) -> (r: (InstallState, InstallAction))
    ensures
        ({
            let (s2, a) = r;
            if source is Path {
                match (s2, a) {
                    (
                        InstallState::QueryingInstallMeta { source: sr, skip_rebuild },
                        InstallAction::QueryInstallMetadata { dir },
                    ) => sr == source && !skip_rebuild && dir@ == install_dir_spec(
                        source,
                        env.cache_root@,
                    ),
                    _ => false,
                }
            } else {
                match (s2, a) {
                    (
                        InstallState::Probing { source: sr },
                        InstallAction::ProbeDestFile { path },
                    ) => sr == source && path@ == dest_dylib_spec(source, *env),
                    _ => false,
                }
            }
        }),
{
    if source.is_path() {
        let dir = source.install_dir(&env.cache_root);
        (
            InstallState::QueryingInstallMeta { source, skip_rebuild: false },
            InstallAction::QueryInstallMetadata { dir },
        )
    } else {
        let path = dest_dylib_path(&source, env);
        (InstallState::Probing { source }, InstallAction::ProbeDestFile { path })
    }
}

/// One step after a resolved spec directory: done in skip mode, else on to
/// the toolchain listing.
fn advance_after_specs(
    source: SpirvSource,
    env: &InstallEnv,
    skip: bool,
    channel: Vec<u8>,
    spec_dir: Vec<u8>,
) -> (r: (InstallState, InstallAction))
    ensures
        advance_matches(*env, source, skip, channel@, spec_dir@, Ok(r)),
{
    if skip {
        let backend = make_backend(&source, env, channel, spec_dir);
        (InstallState::Done { backend }, InstallAction::Complete)
    } else {
        (
            InstallState::QueryingToolchainList { source, channel, spec_dir },
            InstallAction::QueryToolchainList,
        )
    }
}

/// One step after a provisioned toolchain: remove the placeholder's stale
/// lock manifest, or build a local checkout directly.
fn prepare_build(
    source: SpirvSource,
    env: &InstallEnv,
    channel: Vec<u8>,
    spec_dir: Vec<u8>,
) -> (r: (InstallState, InstallAction))
    ensures
        build_prep_matches(*env, source, channel@, spec_dir@, Ok(r)),
{
    let dir = source.install_dir(&env.cache_root);
    if source.is_path() {
        let channel_copy = crate::bytes::copy_range(channel.as_slice(), 0, channel.len());
        proof {
            assert(channel_copy@ =~= channel@);
        }
        (
            InstallState::Building { source, channel, spec_dir },
            InstallAction::RunBuild { dir, channel: channel_copy, package_only: true },
        )
    } else {
        let lock_name = crate::lockfile::cargo_lock_file_name();
        let path = path_join(dir.as_slice(), lock_name.as_slice());
        (
            InstallState::RemovingLockfile { source, channel, spec_dir },
            InstallAction::RemoveLockfile { path },
        )
    }
}

/// Performs one step of the orchestration: takes the state the run is in
/// and the event the caller reports, and decides the next state and the
/// one outside action to perform, or the error that stops the run.
///
/// Law (idempotence): once the cache probe has found the artifact and no
/// rebuild is forced, the run enters skip mode; from then on no planned
/// action changes anything outside — nothing is written, installed, built,
/// moved or removed, and no consent is asked — and the run ends in the
/// finished record whose fields are functions of the source, the
/// environment, the channel and the spec directory alone.
pub fn install_step(
    install: &Install,
    env: &InstallEnv,
    state: InstallState,
    event: InstallEvent,
) -> (r: Result<(InstallState, InstallAction), InstallError>)
    ensures
        step_matches(*install, *env, state, event, r),
        skip_state(state) ==> match r {
            Ok((s2, a)) => (skip_state(s2) || s2 is Done) && !action_mutates(a),
            Err(_) => true,
        },
{
    match (state, event) {
        (InstallState::Start, InstallEvent::Begin) => {
            let path = crate::bytes::copy_range(env.cache_root.as_slice(), 0, env.cache_root.len());
            proof {
                assert(path@ =~= env.cache_root@);
            }
            Ok((InstallState::EnsuringCacheDir, InstallAction::EnsureCacheDir { path }))
        },
        (InstallState::EnsuringCacheDir, InstallEvent::CacheDirReady) => {
            match &install.spirv_builder_version {
                Some(_) => {
                    let no_packages: Vec<PackageMeta> = Vec::new();
                    match SpirvSource::new(
                        install.spirv_builder_source.as_ref(),
                        install.spirv_builder_version.as_ref(),
                        &no_packages,
                        false,
                    ) {
                        Err(e) => Err(InstallError::Source(e)),
                        Ok(source) => Ok(after_resolution(source, env)),
                    }
                },
                None => {
                    let path = crate::bytes::copy_range(
                        install.shader_crate.as_slice(),
                        0,
                        install.shader_crate.len(),
                    );
                    proof {
                        assert(path@ =~= install.shader_crate@);
                    }
                    Ok((InstallState::ResolvingSource, InstallAction::QueryShaderMetadata { path }))
                },
            }
        },
        (
            InstallState::ResolvingSource,
            InstallEvent::ShaderMetadata { packages, local_root_is_dir },
        ) => {
            match SpirvSource::new(
                install.spirv_builder_source.as_ref(),
                install.spirv_builder_version.as_ref(),
                &packages,
                local_root_is_dir,
            ) {
                Err(e) => Err(InstallError::Source(e)),
                Ok(source) => Ok(after_resolution(source, env)),
            }
        },
        (InstallState::Probing { source }, InstallEvent::DestProbed { dest_is_file }) => {
            let dir = source.install_dir(&env.cache_root);
            if dest_is_file && !install.rebuild_codegen {
                Ok(
                    (
                        InstallState::QueryingInstallMeta { source, skip_rebuild: true },
                        InstallAction::QueryInstallMetadata { dir },
                    ),
                )
            } else {
                let manifest = placeholder_cargo_toml(&source);
                Ok(
                    (
                        InstallState::WritingPlaceholder { source },
                        InstallAction::WritePlaceholder { dir, manifest },
                    ),
                )
            }
        },
        (
            InstallState::WritingPlaceholder { source },
            InstallEvent::PlaceholderWritten { success },
        ) => {
            if !success {
                Err(InstallError::PlaceholderWriteFailed)
            } else {
                let dir = source.install_dir(&env.cache_root);
                Ok(
                    (
                        InstallState::QueryingInstallMeta { source, skip_rebuild: false },
                        InstallAction::QueryInstallMetadata { dir },
                    ),
                )
            }
        },
        (
            InstallState::QueryingInstallMeta { source, skip_rebuild },
            InstallEvent::InstallMetadata { packages },
        ) => {
            let backend_name = rustc_codegen_spirv_name_bytes();
            let i = match find_package(&packages, backend_name.as_slice()) {
                None => {
                    return Err(InstallError::BackendDependencyAbsent);
                },
                Some(i) => i,
            };
            let path = match crate::source::build_script_path(&packages[i].manifest_path) {
                Err(e) => {
                    return Err(InstallError::Channel(e));
                },
                Ok(p) => p,
            };
            let specs_name = crate::target_specs::target_specs_pkg_name_bytes();
            let companion_manifest: Option<Vec<u8>> = match find_package(
                &packages,
                specs_name.as_slice(),
            ) {
                None => None,
                Some(j) => {
                    let mp = crate::bytes::copy_range(
                        packages[j].manifest_path.as_slice(),
                        0,
                        packages[j].manifest_path.len(),
                    );
                    proof {
                        assert(mp@ =~= packages@[j as int].manifest_path@);
                    }
                    Some(mp)
                },
            };
            Ok(
                (
                    InstallState::ReadingBuildScript { source, skip_rebuild, companion_manifest },
                    InstallAction::ReadBuildScript { path },
                ),
            )
        },
        (
            InstallState::ReadingBuildScript { source, skip_rebuild, companion_manifest },
            InstallEvent::BuildScript { contents },
        ) => {
            let c = match contents {
                None => {
                    return Err(InstallError::BuildScriptUnreadable);
                },
                Some(c) => c,
            };
            let channel = match crate::source::get_channel_from_rustc_codegen_spirv_build_script(
                c.as_slice(),
            ) {
                Err(e) => {
                    return Err(InstallError::Channel(e));
                },
                Ok(ch) => ch,
            };
            match companion_manifest {
                Some(mp) => {
                    let path = match crate::target_specs::companion_specs_dir(&mp) {
                        Err(_) => {
                            return Err(
                                InstallError::Specs(SpecResolutionError::CompanionSpecsDirMissing),
                            );
                        },
                        Ok(p) => p,
                    };
                    Ok(
                        (
                            InstallState::ProbingSpecsDir {
                                source,
                                skip_rebuild,
                                channel,
                                companion_manifest: mp,
                            },
                            InstallAction::ProbeSpecsDir { path },
                        ),
                    )
                },
                None => {
                    let dir = if source.is_path() {
                        let shared = crate::target_specs::legacy_shared_dir_name_bytes();
                        path_join(env.cache_root.as_slice(), shared.as_slice())
                    } else {
                        let base = source.install_dir(&env.cache_root);
                        let specs = crate::target_specs::target_specs_dir_name_bytes();
                        path_join(base.as_slice(), specs.as_slice())
                    };
                    if skip_rebuild {
                        Ok(advance_after_specs(source, env, true, channel, dir))
                    } else {
                        let dir_copy = crate::bytes::copy_range(dir.as_slice(), 0, dir.len());
                        proof {
                            assert(dir_copy@ =~= dir@);
                        }
                        Ok(
                            (
                                InstallState::WritingSpecs {
                                    source,
                                    skip_rebuild: false,
                                    channel,
                                    spec_dir: dir_copy,
                                },
                                InstallAction::WriteLegacySpecs { dir },
                            ),
                        )
                    }
                },
            }
        },
        (
            InstallState::ProbingSpecsDir { source, skip_rebuild, channel, companion_manifest },
            InstallEvent::SpecsDirProbed { is_dir },
        ) => {
            if !is_dir {
                return Err(InstallError::Specs(SpecResolutionError::CompanionSpecsDirMissing));
            }
            let sd = match crate::target_specs::companion_specs_dir(&companion_manifest) {
                Err(_) => {
                    return Err(
                        InstallError::Specs(SpecResolutionError::CompanionSpecsDirMissing),
                    );
                },
                Ok(p) => p,
            };
            if source.is_path() {
                Ok(advance_after_specs(source, env, skip_rebuild, channel, sd))
            } else {
                let base = source.install_dir(&env.cache_root);
                let specs = crate::target_specs::target_specs_dir_name_bytes();
                let owned = path_join(base.as_slice(), specs.as_slice());
                if skip_rebuild {
                    Ok(advance_after_specs(source, env, true, channel, owned))
                } else {
                    let owned_copy = crate::bytes::copy_range(owned.as_slice(), 0, owned.len());
                    proof {
                        assert(owned_copy@ =~= owned@);
                    }
                    Ok(
                        (
                            InstallState::WritingSpecs {
                                source,
                                skip_rebuild: false,
                                channel,
                                spec_dir: owned_copy,
                            },
                            InstallAction::CopySpecFiles { from: sd, to: owned },
                        ),
                    )
                }
            }
        },
        (
            InstallState::WritingSpecs { source, skip_rebuild, channel, spec_dir },
            InstallEvent::SpecFilesWritten { success },
        ) => {
            if !success {
                Err(InstallError::SpecWriteFailed)
            } else {
                Ok(advance_after_specs(source, env, skip_rebuild, channel, spec_dir))
            }
        },
        (
            InstallState::QueryingToolchainList { source, channel, spec_dir },
            InstallEvent::ToolchainList { output },
        ) => {
            let out = match output {
                None => {
                    return Err(InstallError::ToolchainListingFailed);
                },
                Some(out) => out,
            };
            let channel_copy = crate::bytes::copy_range(channel.as_slice(), 0, channel.len());
            proof {
                assert(channel_copy@ =~= channel@);
            }
            if crate::toolchain::toolchain_is_installed(out.as_slice(), channel.as_slice()) {
                Ok(
                    (
                        InstallState::QueryingComponentList { source, channel, spec_dir },
                        InstallAction::QueryComponentList { channel: channel_copy },
                    ),
                )
            } else if install.auto_install_rust_toolchain {
                Ok(
                    (
                        InstallState::InstallingToolchain { source, channel, spec_dir },
                        InstallAction::InstallToolchain { channel: channel_copy },
                    ),
                )
            } else {
                Ok(
                    (
                        InstallState::AwaitingToolchainConsent { source, channel, spec_dir },
                        InstallAction::RequestConsent { for_toolchain: true },
                    ),
                )
            }
        },
        (
            InstallState::AwaitingToolchainConsent { source, channel, spec_dir },
            InstallEvent::ConsentAnswer { yes },
        ) => {
            if yes {
                let channel_copy = crate::bytes::copy_range(channel.as_slice(), 0, channel.len());
                proof {
                    assert(channel_copy@ =~= channel@);
                }
                Ok(
                    (
                        InstallState::InstallingToolchain { source, channel, spec_dir },
                        InstallAction::InstallToolchain { channel: channel_copy },
                    ),
                )
            } else {
                Ok((InstallState::Declined, InstallAction::Complete))
            }
        },
        (
            InstallState::InstallingToolchain { source, channel, spec_dir },
            InstallEvent::ToolchainInstalled { success },
        ) => {
            if !success {
                Err(InstallError::ToolchainInstallFailed)
            } else {
                let channel_copy = crate::bytes::copy_range(channel.as_slice(), 0, channel.len());
                proof {
                    assert(channel_copy@ =~= channel@);
                }
                Ok(
                    (
                        InstallState::QueryingComponentList { source, channel, spec_dir },
                        InstallAction::QueryComponentList { channel: channel_copy },
                    ),
                )
            }
        },
        (
            InstallState::QueryingComponentList { source, channel, spec_dir },
            InstallEvent::ComponentList { output },
        ) => {
            let out = match output {
                None => {
                    return Err(InstallError::ComponentListingFailed);
                },
                Some(out) => out,
            };
            if crate::toolchain::all_components_installed(out.as_slice()) {
                Ok(prepare_build(source, env, channel, spec_dir))
            } else if install.auto_install_rust_toolchain {
                let channel_copy = crate::bytes::copy_range(channel.as_slice(), 0, channel.len());
                proof {
                    assert(channel_copy@ =~= channel@);
                }
                Ok(
                    (
                        InstallState::InstallingComponents { source, channel, spec_dir },
                        InstallAction::InstallComponents { channel: channel_copy },
                    ),
                )
            } else {
                Ok(
                    (
                        InstallState::AwaitingComponentConsent { source, channel, spec_dir },
                        InstallAction::RequestConsent { for_toolchain: false },
                    ),
                )
            }
        },
        (
            InstallState::AwaitingComponentConsent { source, channel, spec_dir },
            InstallEvent::ConsentAnswer { yes },
        ) => {
            if yes {
                let channel_copy = crate::bytes::copy_range(channel.as_slice(), 0, channel.len());
                proof {
                    assert(channel_copy@ =~= channel@);
                }
                Ok(
                    (
                        InstallState::InstallingComponents { source, channel, spec_dir },
                        InstallAction::InstallComponents { channel: channel_copy },
                    ),
                )
            } else {
                Ok((InstallState::Declined, InstallAction::Complete))
            }
        },
        (
            InstallState::InstallingComponents { source, channel, spec_dir },
            InstallEvent::ComponentsInstalled { success },
        ) => {
            if !success {
                Err(InstallError::ComponentInstallFailed)
            } else {
                Ok(prepare_build(source, env, channel, spec_dir))
            }
        },
        (
            InstallState::RemovingLockfile { source, channel, spec_dir },
            InstallEvent::LockfileRemoved { success },
        ) => {
            if !success {
                Err(InstallError::LockfileRemovalFailed)
            } else {
                let dir = source.install_dir(&env.cache_root);
                let channel_copy = crate::bytes::copy_range(channel.as_slice(), 0, channel.len());
                proof {
                    assert(channel_copy@ =~= channel@);
                }
                Ok(
                    (
                        InstallState::Building { source, channel, spec_dir },
                        InstallAction::RunBuild { dir, channel: channel_copy, package_only: false },
                    ),
                )
            }
        },
        (
            InstallState::Building { source, channel, spec_dir },
            InstallEvent::BuildFinished { success, artifact_is_file },
        ) => {
            if !success {
                Err(InstallError::BuildFailed)
            } else if !artifact_is_file {
                Err(InstallError::ArtifactMissing)
            } else if source.is_path() {
                let backend = make_backend(&source, env, channel, spec_dir);
                Ok((InstallState::Done { backend }, InstallAction::Complete))
            } else {
                let from = built_dylib_path(&source, env);
                let to = dest_dylib_path(&source, env);
                Ok(
                    (
                        InstallState::RenamingArtifact { source, channel, spec_dir },
                        InstallAction::RenameArtifact { from, to },
                    ),
                )
            }
        },
        (
            InstallState::RenamingArtifact { source, channel, spec_dir },
            InstallEvent::ArtifactRenamed { success },
        ) => {
            if !success {
                Err(InstallError::ArtifactRenameFailed)
            } else if install.clear_target {
                let base = source.install_dir(&env.cache_root);
                let target = target_dir_name_bytes();
                let path = path_join(base.as_slice(), target.as_slice());
                Ok(
                    (
                        InstallState::ClearingTarget { source, channel, spec_dir },
                        InstallAction::ClearTargetDir { path },
                    ),
                )
            } else {
                let backend = make_backend(&source, env, channel, spec_dir);
                Ok((InstallState::Done { backend }, InstallAction::Complete))
            }
        },
        (
            InstallState::ClearingTarget { source, channel, spec_dir },
            InstallEvent::TargetCleared { success },
        ) => {
            if !success {
                Err(InstallError::TargetClearFailed)
            } else {
                let backend = make_backend(&source, env, channel, spec_dir);
                Ok((InstallState::Done { backend }, InstallAction::Complete))
            }
        },
        (_, _) => Err(InstallError::UnexpectedEvent),
    }
}

/// Law (idempotence, preservation): any step taken from a skip-mode state
/// leaves the run in skip mode or finished, and plans no action that
/// changes anything outside — nothing is written, installed, built, moved
/// or removed, and no consent is asked.
pub proof fn lemma_skip_mode_preserved(
    install: Install,
    env: InstallEnv,
    state: InstallState,
    event: InstallEvent,
    r: Result<(InstallState, InstallAction), InstallError>,
)
    requires
        step_matches(install, env, state, event, r),
        skip_state(state),
        r is Ok,
    ensures
        skip_state(r->Ok_0.0) || r->Ok_0.0 is Done,
        !action_mutates(r->Ok_0.1),
{
}

/// Law (idempotence, entry): a cache probe that finds the artifact, with no
/// forced rebuild, puts the run into skip mode.
pub proof fn lemma_probe_hit_enters_skip(
    install: Install,
    env: InstallEnv,
    source: SpirvSource,
    r: Result<(InstallState, InstallAction), InstallError>,
)
    requires
        step_matches(
            install,
            env,
            InstallState::Probing { source },
            InstallEvent::DestProbed { dest_is_file: true },
            r,
        ),
        !install.rebuild_codegen,
        r is Ok,
    ensures
        skip_state(r->Ok_0.0),
{
}

/// Law (idempotence, result): two finished installations assembled from
/// the same source, environment, channel and spec directory are identical
/// field for field.
pub proof fn lemma_cached_backend_identical(
    source: SpirvSource,
    env: InstallEnv,
    channel: Seq<u8>,
    spec_dir: Seq<u8>,
    b1: InstalledBackend,
    b2: InstalledBackend,
)
    requires
        backend_matches(source, env, channel, spec_dir, b1),
        backend_matches(source, env, channel, spec_dir, b2),
    ensures
        b1.rustc_codegen_spirv_location@ == b2.rustc_codegen_spirv_location@,
        b1.toolchain_channel@ == b2.toolchain_channel@,
        b1.target_spec_dir@ == b2.target_spec_dir@,
{
}

} // verus!
