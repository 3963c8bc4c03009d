//! Resolves, caches, and provisions the version-pinned `rustc_codegen_spirv`
//! compiler backend that a shader crate needs, without forcing the shader
//! crate's own toolchain to match the backend's.
//!
//! The library holds the logic: classifying where the backend comes from
//! (registry version, git reference, or local checkout), deriving the cache
//! directory for it, discovering the toolchain channel it needs, planning
//! the target-spec file set across the backend's packaging generations,
//! driving the installation step by step, and guarding lock-manifest format
//! markers for the duration of a build with guaranteed restoration. All
//! file, process and terminal work is done by the thin command-line layer
//! around the library, which feeds plain values in and carries the decided
//! actions out.
//!
//! Text is modelled as bytes throughout: paths, urls, file contents and
//! command output enter and leave as byte vectors, and every contract
//! speaks of their byte sequences.

pub mod args;
pub mod bytes;
pub mod install;
pub mod linkage;
pub mod lockfile;
pub mod paths;
pub mod show;
pub mod source;
pub mod target_specs;
pub mod toolchain;
pub mod version;
