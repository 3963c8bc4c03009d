//! The combined argument record for building and installing.

use vstd::prelude::*;

verus! {

/// Arguments of an installation as the command line carries them, with the
/// resolved backend library path added once it is known.
#[derive(Clone, Debug)]
pub struct InstallArgs {
    /// Path of the backend's compiled library.
    pub dylib_path: Vec<u8>,
    /// Directory containing the shader crate to compile.
    pub shader_crate: Vec<u8>,
    /// Explicit source url of the backend, overriding the dependency graph.
    pub spirv_builder_source: Option<Vec<u8>>,
    /// Explicit version or revision of the backend.
    pub spirv_builder_version: Option<Vec<u8>>,
    /// Rebuild the backend even when a cached artifact exists.
    pub rebuild_codegen: bool,
    /// Install toolchains without asking for consent.
    pub auto_install_rust_toolchain: bool,
    /// Remove the intermediate build output after a successful build.
    pub clear_target: bool,
    /// Authorize the temporary downgrade of lock-manifest markers.
    pub force_overwrite_lockfiles_v4_to_v3: bool,
}

} // verus!
