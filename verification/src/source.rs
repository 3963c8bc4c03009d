//! Resolving where the compiler backend comes from.
//!
//! A shader crate names its backend through its dependency on the companion
//! standard-library package. The dependency graph reports that package's
//! provenance as text; this module classifies it as a registry version, a
//! git reference, or a local checkout, renders the result as a stable cache
//! key, and derives the install directory from it. It also reads the
//! toolchain channel marker out of the backend's build script text.

use vstd::prelude::*;

use crate::bytes::{
    after_first_newline, first_line_raw, has_prefix, index_of_first,
    lemma_after_first_newline_at, lemma_after_first_newline_none, lemma_first_line_raw_at,
    lemma_first_line_raw_none, lemma_index_of_first_is, lemma_index_of_first_none, opt_view,
    strip_cr,
};
use crate::paths::{join_spec, parent_spec, path_join};
use crate::version::{render_spec, semver_of, version_views_match, Version};

verus! {

/// The provenance prefix that marks a git source.
/// The text is `git+`.
pub open spec fn git_source_prefix() -> Seq<u8> {
    seq![103u8, 105u8, 116u8, 43u8]
}

/// Runtime value of `git_source_prefix`.
fn git_source_prefix_bytes() -> (r: Vec<u8>)
    ensures
        r@ == git_source_prefix(),
{
    let mut v: Vec<u8> = Vec::new();
    v.push(103);
    v.push(105);
    v.push(116);
    v.push(43);
    proof {
        assert(v@ =~= git_source_prefix());
    }
    v
}

/// The provenance text of a crates.io registry source.
/// The text is `registry+https://github.com/rust-lang/crates.io-index`.
pub open spec fn crates_io_repr() -> Seq<u8> {
    seq![114u8, 101u8, 103u8, 105u8, 115u8, 116u8, 114u8, 121u8, 43u8, 104u8, 116u8, 116u8, 112u8, 115u8, 58u8, 47u8, 47u8, 103u8, 105u8, 116u8, 104u8, 117u8, 98u8, 46u8, 99u8, 111u8, 109u8, 47u8, 114u8, 117u8, 115u8, 116u8, 45u8, 108u8, 97u8, 110u8, 103u8, 47u8, 99u8, 114u8, 97u8, 116u8, 101u8, 115u8, 46u8, 105u8, 111u8, 45u8, 105u8, 110u8, 100u8, 101u8, 120u8]
}

/// Runtime value of `crates_io_repr`.
fn crates_io_repr_bytes() -> (r: Vec<u8>)
    ensures
        r@ == crates_io_repr(),
{
    let mut v: Vec<u8> = Vec::new();
    v.push(114);
    v.push(101);
    v.push(103);
    v.push(105);
    v.push(115);
    v.push(116);
    v.push(114);
    v.push(121);
    v.push(43);
    v.push(104);
    v.push(116);
    v.push(116);
    v.push(112);
    v.push(115);
    v.push(58);
    v.push(47);
    v.push(47);
    v.push(103);
    v.push(105);
    v.push(116);
    v.push(104);
    v.push(117);
    v.push(98);
    v.push(46);
    v.push(99);
    v.push(111);
    v.push(109);
    v.push(47);
    v.push(114);
    v.push(117);
    v.push(115);
    v.push(116);
    v.push(45);
    v.push(108);
    v.push(97);
    v.push(110);
    v.push(103);
    v.push(47);
    v.push(99);
    v.push(114);
    v.push(97);
    v.push(116);
    v.push(101);
    v.push(115);
    v.push(46);
    v.push(105);
    v.push(111);
    v.push(45);
    v.push(105);
    v.push(110);
    v.push(100);
    v.push(101);
    v.push(120);
    proof {
        assert(v@ =~= crates_io_repr());
    }
    v
}

/// The name of the backend's companion standard-library package.
/// The text is `spirv-std`.
pub open spec fn spirv_std_name() -> Seq<u8> {
    seq![115u8, 112u8, 105u8, 114u8, 118u8, 45u8, 115u8, 116u8, 100u8]
}

/// Runtime value of `spirv_std_name`.
fn spirv_std_name_bytes() -> (r: Vec<u8>)
    ensures
        r@ == spirv_std_name(),
{
    let mut v: Vec<u8> = Vec::new();
    v.push(115);
    v.push(112);
    v.push(105);
    v.push(114);
    v.push(118);
    v.push(45);
    v.push(115);
    v.push(116);
    v.push(100);
    proof {
        assert(v@ =~= spirv_std_name());
    }
    v
}

/// The name of the backend package itself.
/// The text is `rustc_codegen_spirv`.
pub open spec fn rustc_codegen_spirv_name() -> Seq<u8> {
    seq![114u8, 117u8, 115u8, 116u8, 99u8, 95u8, 99u8, 111u8, 100u8, 101u8, 103u8, 101u8, 110u8, 95u8, 115u8, 112u8, 105u8, 114u8, 118u8]
}

/// Runtime value of `rustc_codegen_spirv_name`.
pub fn rustc_codegen_spirv_name_bytes() -> (r: Vec<u8>)
    ensures
        r@ == rustc_codegen_spirv_name(),
{
    let mut v: Vec<u8> = Vec::new();
    v.push(114);
    v.push(117);
    v.push(115);
    v.push(116);
    v.push(99);
    v.push(95);
    v.push(99);
    v.push(111);
    v.push(100);
    v.push(101);
    v.push(103);
    v.push(101);
    v.push(110);
    v.push(95);
    v.push(115);
    v.push(112);
    v.push(105);
    v.push(114);
    v.push(118);
    proof {
        assert(v@ =~= rustc_codegen_spirv_name());
    }
    v
}

/// The cache subdirectory that holds backend installs.
/// The text is `codegen`.
pub open spec fn codegen_dir_name() -> Seq<u8> {
    seq![99u8, 111u8, 100u8, 101u8, 103u8, 101u8, 110u8]
}

/// Runtime value of `codegen_dir_name`.
fn codegen_dir_name_bytes() -> (r: Vec<u8>)
    ensures
        r@ == codegen_dir_name(),
{
    let mut v: Vec<u8> = Vec::new();
    v.push(99);
    v.push(111);
    v.push(100);
    v.push(101);
    v.push(103);
    v.push(101);
    v.push(110);
    proof {
        assert(v@ =~= codegen_dir_name());
    }
    v
}

/// The marker that opens the toolchain channel in the backend's build script.
/// The text is `channel = "`.
pub open spec fn channel_marker() -> Seq<u8> {
    seq![99u8, 104u8, 97u8, 110u8, 110u8, 101u8, 108u8, 32u8, 61u8, 32u8, 34u8]
}

/// Runtime value of `channel_marker`.
fn channel_marker_bytes() -> (r: Vec<u8>)
    ensures
        r@ == channel_marker(),
{
    let mut v: Vec<u8> = Vec::new();
    v.push(99);
    v.push(104);
    v.push(97);
    v.push(110);
    v.push(110);
    v.push(101);
    v.push(108);
    v.push(32);
    v.push(61);
    v.push(32);
    v.push(34);
    proof {
        assert(v@ =~= channel_marker());
    }
    v
}

/// The file name of a package's build script.
/// The text is `build.rs`.
pub open spec fn build_rs_name() -> Seq<u8> {
    seq![98u8, 117u8, 105u8, 108u8, 100u8, 46u8, 114u8, 115u8]
}

/// Runtime value of `build_rs_name`.
fn build_rs_name_bytes() -> (r: Vec<u8>)
    ensures
        r@ == build_rs_name(),
{
    let mut v: Vec<u8> = Vec::new();
    v.push(98);
    v.push(117);
    v.push(105);
    v.push(108);
    v.push(100);
    v.push(46);
    v.push(114);
    v.push(115);
    proof {
        assert(v@ =~= build_rs_name());
    }
    v
}

/// What the dependency-graph query reports of one package: its name, its
/// version, where its manifest lies, and its recorded provenance text, which
/// is absent for a package taken from a local path.
#[derive(Clone, Debug)]
pub struct PackageMeta {
    pub name: Vec<u8>,
    pub version: Version,
    pub manifest_path: Vec<u8>,
    pub source_repr: Option<Vec<u8>>,
}

/// The resolved provenance of the compiler backend.
#[derive(Clone, Debug, PartialEq, Eq)]
pub enum SpirvSource {
    /// A plain registry version from crates.io.
    CratesIO(Version),
    /// A git repository and the revision to check out.
    Git { url: Vec<u8>, rev: Vec<u8> },
    /// A local checkout of the backend's repository, and the version it
    /// declares.
    Path { rust_gpu_repo_root: Vec<u8>, version: Version },
}

/// Why no backend source could be resolved.
#[derive(Clone, Copy, Debug, PartialEq, Eq, Structural)]
pub enum SourceResolutionError {
    /// The shader crate has no dependency on the companion package.
    DependencyAbsent,
    /// The recorded provenance reads as both a git and a registry source.
    ConflictingProvenance,
    /// The recorded provenance matches no known pattern.
    UnknownSourceFormat,
    /// A git provenance lacks the revision or the query mark of its text.
    GitUrlUnparsable,
    /// The companion package's manifest does not lie three levels below a
    /// repository root.
    WorkspaceRootUnselectable,
    /// A local-path source does not name an existing directory.
    LocalPathNotDirectory,
    /// An explicit registry version override is not a semantic version.
    VersionUnparsable,
}

/// The position of the first package of the given name, if any.
pub open spec fn find_package_spec(ps: Seq<PackageMeta>, name: Seq<u8>) -> Option<int>
    decreases ps.len(),
{
    if ps.len() == 0 {
        None
    } else if ps[0].name@ == name {
        Some(0int)
    } else {
        match find_package_spec(ps.skip(1), name) {
            Some(i) => Some(i + 1),
            None => None,
        }
    }
}

proof fn lemma_find_package_spec_is(ps: Seq<PackageMeta>, name: Seq<u8>, i: int)
    requires
        0 <= i < ps.len(),
        ps[i].name@ == name,
        forall|k: int| 0 <= k < i ==> ps[k].name@ != name,
    ensures
        find_package_spec(ps, name) == Some(i),
    decreases i,
{
    if i > 0 {
        lemma_find_package_spec_is(ps.skip(1), name, i - 1);
    }
}

proof fn lemma_find_package_spec_none(ps: Seq<PackageMeta>, name: Seq<u8>)
    requires
        forall|k: int| 0 <= k < ps.len() ==> ps[k].name@ != name,
    ensures
        find_package_spec(ps, name) is None,
    decreases ps.len(),
{
    if ps.len() > 0 {
        lemma_find_package_spec_none(ps.skip(1), name);
    }
}

/// Looks a package up by name in a dependency-graph report; the first
/// package of that name counts.
pub fn find_package(packages: &Vec<PackageMeta>, crate_name: &[u8]) -> (r: Option<usize>)
    ensures
        match r {
            Some(i) => i < packages@.len() && find_package_spec(packages@, crate_name@) == Some(
                i as int,
            ),
            None => find_package_spec(packages@, crate_name@) is None,
        },
{
    let n = packages.len();
    let mut i: usize = 0;
    while i < n
        invariant
            0 <= i <= n,
            n == packages@.len(),
            forall|k: int| 0 <= k < i ==> packages@[k].name@ != crate_name@,
        decreases n - i,
    {
        if crate::bytes::bytes_eq(packages[i].name.as_slice(), crate_name) {
            proof {
                lemma_find_package_spec_is(packages@, crate_name@, i as int);
            }
            return Some(i);
        }
        i += 1;
    }
    proof {
        lemma_find_package_spec_none(packages@, crate_name@);
    }
    None
}

/// The url and revision encoded in a git provenance text: the url runs up
/// to the first query mark, the revision follows the first hash mark.
pub open spec fn git_parse_spec(repr: Seq<u8>) -> Option<(Seq<u8>, Seq<u8>)> {
    let link = repr.skip(git_source_prefix().len() as int);
    if index_of_first(link, 35u8) is Some && index_of_first(link, 63u8) is Some {
        let h = index_of_first(link, 35u8)->Some_0;
        let q = index_of_first(link, 63u8)->Some_0;
        Some((link.take(q), link.skip(h + 1)))
    } else {
        None
    }
}

/// Splits a git provenance text into url and revision.
fn parse_git_link(repr: &[u8]) -> (r: Option<(Vec<u8>, Vec<u8>)>)
    requires
        has_prefix(repr@, git_source_prefix()),
    ensures
        match r {
            Some(p) => git_parse_spec(repr@) == Some((p.0@, p.1@)),
            None => git_parse_spec(repr@) is None,
        },
{
    let n = repr.len();
    let ghost link = repr@.skip(4);
    proof {
        assert(forall|k: int| 0 <= k < link.len() ==> link[k] == repr@[k + 4]);
    }
    let h_abs = match crate::bytes::find_byte_from(repr, 35, 4) {
        Some(i) => {
            proof {
                lemma_index_of_first_is(link, 35u8, i - 4);
            }
            i
        },
        None => {
            proof {
                lemma_index_of_first_none(link, 35u8);
            }
            return None;
        },
    };
    let q_abs = match crate::bytes::find_byte_from(repr, 63, 4) {
        Some(i) => {
            proof {
                lemma_index_of_first_is(link, 63u8, i - 4);
            }
            i
        },
        None => {
            proof {
                lemma_index_of_first_none(link, 63u8);
            }
            return None;
        },
    };
    let url = crate::bytes::copy_range(repr, 4, q_abs);
    let rev = crate::bytes::copy_range(repr, h_abs + 1, n);
    proof {
        assert(url@ =~= link.take(q_abs - 4));
        assert(rev@ =~= link.skip(h_abs - 4 + 1));
    }
    Some((url, rev))
}

/// The repository root that lies three levels above the companion package's
/// manifest: the manifest's directory, that directory's parent, and its
/// parent again.
pub open spec fn local_root_spec(manifest_path: Seq<u8>) -> Option<Seq<u8>> {
    match parent_spec(manifest_path) {
        None => None,
        Some(p1) => match parent_spec(p1) {
            None => None,
            Some(p2) => parent_spec(p2),
        },
    }
}

/// Derives the local repository root from the companion package's manifest
/// path, for the caller to test on disk before resolving a local source.
pub fn spirv_std_local_root(manifest_path: &Vec<u8>) -> (r: Result<Vec<u8>, SourceResolutionError>)
    ensures
        match r {
            Ok(root) => local_root_spec(manifest_path@) == Some(root@),
            Err(e) => local_root_spec(manifest_path@) is None && e
                == SourceResolutionError::WorkspaceRootUnselectable,
        },
{
    let p1 = match crate::paths::parent_path(manifest_path.as_slice()) {
        Some(p) => p,
        None => {
            return Err(SourceResolutionError::WorkspaceRootUnselectable);
        },
    };
    let p2 = match crate::paths::parent_path(p1.as_slice()) {
        Some(p) => p,
        None => {
            return Err(SourceResolutionError::WorkspaceRootUnselectable);
        },
    };
    match crate::paths::parent_path(p2.as_slice()) {
        Some(p) => Ok(p),
        None => Err(SourceResolutionError::WorkspaceRootUnselectable),
    }
}

/// What resolving the companion package's provenance must yield: a git
/// provenance parses to its url and revision, a crates.io provenance keeps
/// the recorded version, no provenance at all is a local checkout whose
/// root must lie three levels up and exist as a directory, and anything
/// else is rejected.
pub open spec fn parse_result_matches(
    pkg: PackageMeta,
    local_root_is_dir: bool,
    r: Result<SpirvSource, SourceResolutionError>,
) -> bool {
    match pkg.source_repr {
        Some(sr) => {
            let is_git = has_prefix(sr@, git_source_prefix());
            let is_crates = sr@ == crates_io_repr();
            if is_git && is_crates {
                r == Err::<SpirvSource, _>(SourceResolutionError::ConflictingProvenance)
            } else if is_git {
                match git_parse_spec(sr@) {
                    Some(p) => match r {
                        Ok(SpirvSource::Git { url, rev }) => url@ == p.0 && rev@ == p.1,
                        _ => false,
                    },
                    None => r == Err::<SpirvSource, _>(SourceResolutionError::GitUrlUnparsable),
                }
            } else if is_crates {
                match r {
                    Ok(SpirvSource::CratesIO(v)) => version_views_match(v, pkg.version),
                    _ => false,
                }
            } else {
                r == Err::<SpirvSource, _>(SourceResolutionError::UnknownSourceFormat)
            }
        },
        None => match local_root_spec(pkg.manifest_path@) {
            None => r == Err::<SpirvSource, _>(SourceResolutionError::WorkspaceRootUnselectable),
            Some(root) => if !local_root_is_dir {
                r == Err::<SpirvSource, _>(SourceResolutionError::LocalPathNotDirectory)
            } else {
                match r {
                    Ok(SpirvSource::Path { rust_gpu_repo_root, version }) => rust_gpu_repo_root@
                        == root && version_views_match(version, pkg.version),
                    _ => false,
                }
            },
        },
    }
}

/// Classifies the companion package's recorded provenance. The caller
/// reports in `local_root_is_dir` whether the candidate local root (from
/// [`spirv_std_local_root`]) exists as a directory; the flag is read only
/// when the package has no recorded provenance.
pub fn parse_spirv_std_source_and_version(pkg: &PackageMeta, local_root_is_dir: bool) -> (r:
    Result<SpirvSource, SourceResolutionError>)
    ensures
        parse_result_matches(*pkg, local_root_is_dir, r),
{
    match &pkg.source_repr {
        Some(sr) => {
            let prefix = git_source_prefix_bytes();
            let crates_io = crates_io_repr_bytes();
            let is_git = crate::bytes::starts_with(sr.as_slice(), prefix.as_slice());
            let is_crates = crate::bytes::bytes_eq(sr.as_slice(), crates_io.as_slice());
            if is_git && is_crates {
                Err(SourceResolutionError::ConflictingProvenance)
            } else if is_git {
                match parse_git_link(sr.as_slice()) {
                    Some((url, rev)) => Ok(SpirvSource::Git { url, rev }),
                    None => Err(SourceResolutionError::GitUrlUnparsable),
                }
            } else if is_crates {
                Ok(SpirvSource::CratesIO(pkg.version.duplicate()))
            } else {
                Err(SourceResolutionError::UnknownSourceFormat)
            }
        },
        None => {
            let root = spirv_std_local_root(&pkg.manifest_path)?;
            if !local_root_is_dir {
                return Err(SourceResolutionError::LocalPathNotDirectory);
            }
            Ok(SpirvSource::Path { rust_gpu_repo_root: root, version: pkg.version.duplicate() })
        },
    }
}

/// The first eight bytes of a revision, when the ninth byte starts a new
/// character; otherwise the whole revision, as slicing text by bytes does.
pub open spec fn short_rev_spec(rev: Seq<u8>) -> Seq<u8> {
    if rev.len() < 8 {
        rev
    } else if rev.len() == 8 {
        rev
    } else if rev[8] < 128 || rev[8] >= 192 {
        rev.take(8)
    } else {
        rev
    }
}

/// The stable textual rendering of a source, used as its cache key: the
/// version for a registry source; the url, a plus, and the shortened
/// revision for a git source; the root, a plus, and the version for a
/// local checkout.
pub open spec fn display_spec(s: SpirvSource) -> Seq<u8> {
    match s {
        SpirvSource::CratesIO(v) => render_spec(v),
        SpirvSource::Git { url, rev } => url@ + seq![43u8] + short_rev_spec(rev@),
        SpirvSource::Path { rust_gpu_repo_root, version } => rust_gpu_repo_root@ + seq![43u8]
            + render_spec(version),
    }
}

/// A byte of the rendering mapped for use in a directory name: path and
/// version punctuation becomes an underscore.
pub open spec fn dirname_byte(b: u8) -> u8 {
    if b == 92 || b == 47 || b == 46 || b == 58 || b == 64 || b == 61 {
        95u8
    } else {
        b
    }
}

/// Whether a byte of the rendering survives into the directory name:
/// braces, quotes and whitespace are dropped.
pub open spec fn dirname_kept(b: u8) -> bool {
    !(b == 123 || b == 125 || b == 32 || b == 10 || b == 34 || b == 39)
}

/// A text turned into a directory name: punctuation mapped to underscores,
/// braces, quotes and whitespace dropped, all other bytes kept in order.
pub open spec fn to_dirname_spec(s: Seq<u8>) -> Seq<u8>
    decreases s.len(),
{
    if s.len() == 0 {
        Seq::empty()
    } else {
        (if dirname_kept(s[0]) {
            seq![dirname_byte(s[0])]
        } else {
            Seq::<u8>::empty()
        }) + to_dirname_spec(s.skip(1))
    }
}

/// Turns a source rendering into a token usable as a directory name.
pub fn to_dirname(text: &[u8]) -> (r: Vec<u8>)
    ensures
        r@ == to_dirname_spec(text@),
{
    let n = text.len();
    let mut out: Vec<u8> = Vec::new();
    let mut i: usize = 0;
    proof {
        assert(text@.skip(0) =~= text@);
        assert(Seq::<u8>::empty() + to_dirname_spec(text@) =~= to_dirname_spec(text@));
    }
    while i < n
        invariant
            0 <= i <= n,
            n == text@.len(),
            to_dirname_spec(text@) == out@ + to_dirname_spec(text@.skip(i as int)),
        decreases n - i,
    {
        let ghost rest = text@.skip(i as int);
        let b = text[i];
        let mapped: u8 = if b == 92 || b == 47 || b == 46 || b == 58 || b == 64 || b == 61 {
            95
        } else {
            b
        };
        if !(b == 123 || b == 125 || b == 32 || b == 10 || b == 34 || b == 39) {
            out.push(mapped);
        }
        proof {
            assert(rest.skip(1) =~= text@.skip(i + 1));
            assert(out@ + to_dirname_spec(text@.skip(i + 1)) =~= to_dirname_spec(text@));
        }
        i += 1;
    }
    proof {
        assert(text@.skip(n as int) =~= Seq::<u8>::empty());
        assert(out@ =~= to_dirname_spec(text@));
    }
    out
}

impl SpirvSource {
    /// Whether this source is a local checkout.
    pub fn is_path(&self) -> (r: bool)
        ensures
            r == (self is Path),
    {
        match self {
            SpirvSource::Path { .. } => true,
            _ => false,
        }
    }

    /// A copy of this source with the same components.
    pub fn duplicate(&self) -> (r: SpirvSource)
        ensures
            source_views_match(*self, r),
    {
        match self {
            SpirvSource::CratesIO(v) => SpirvSource::CratesIO(v.duplicate()),
            SpirvSource::Git { url, rev } => {
                let u = crate::bytes::copy_range(url.as_slice(), 0, url.len());
                let r2 = crate::bytes::copy_range(rev.as_slice(), 0, rev.len());
                proof {
                    assert(u@ =~= url@);
                    assert(r2@ =~= rev@);
                }
                SpirvSource::Git { url: u, rev: r2 }
            },
            SpirvSource::Path { rust_gpu_repo_root, version } => {
                let root = crate::bytes::copy_range(
                    rust_gpu_repo_root.as_slice(),
                    0,
                    rust_gpu_repo_root.len(),
                );
                proof {
                    assert(root@ =~= rust_gpu_repo_root@);
                }
                SpirvSource::Path { rust_gpu_repo_root: root, version: version.duplicate() }
            },
        }
    }

    /// The stable textual rendering of this source.
    pub fn display(&self) -> (r: Vec<u8>)
        ensures
            r@ == display_spec(*self),
    {
        match self {
            SpirvSource::CratesIO(v) => v.render(),
            SpirvSource::Git { url, rev } => {
                let mut out = crate::bytes::copy_range(url.as_slice(), 0, url.len());
                proof {
                    assert(out@ =~= url@);
                }
                out.push(43);
                let n = rev.len();
                if n > 8 && rev[8] >= 128 && rev[8] < 192 {
                    crate::bytes::push_all(&mut out, rev.as_slice());
                } else if n > 8 {
                    let head = crate::bytes::copy_range(rev.as_slice(), 0, 8);
                    crate::bytes::push_all(&mut out, head.as_slice());
                } else {
                    crate::bytes::push_all(&mut out, rev.as_slice());
                }
                proof {
                    assert(out@ =~= display_spec(*self));
                }
                out
            },
            SpirvSource::Path { rust_gpu_repo_root, version } => {
                let mut out = crate::bytes::copy_range(
                    rust_gpu_repo_root.as_slice(),
                    0,
                    rust_gpu_repo_root.len(),
                );
                proof {
                    assert(out@ =~= rust_gpu_repo_root@);
                }
                out.push(43);
                let rendered = version.render();
                crate::bytes::push_all(&mut out, rendered.as_slice());
                proof {
                    assert(out@ =~= display_spec(*self));
                }
                out
            },
        }
    }

    /// The directory this source is cached and built in: the local root
    /// itself for a local checkout, else the sanitized rendering under the
    /// `codegen` subdirectory of the cache root. A pure function of the
    /// source and the cache root.
    pub fn install_dir(&self, cache_root: &Vec<u8>) -> (r: Vec<u8>)
        ensures
            r@ == install_dir_spec(*self, cache_root@),
    {
        match self {
            SpirvSource::Path { rust_gpu_repo_root, .. } => {
                let r = crate::bytes::copy_range(
                    rust_gpu_repo_root.as_slice(),
                    0,
                    rust_gpu_repo_root.len(),
                );
                proof {
                    assert(r@ =~= rust_gpu_repo_root@);
                }
                r
            },
            _ => {
                let rendered = self.display();
                let dir = to_dirname(rendered.as_slice());
                let codegen = codegen_dir_name_bytes();
                let base = crate::paths::path_join(cache_root.as_slice(), codegen.as_slice());
                crate::paths::path_join(base.as_slice(), dir.as_slice())
            },
        }
    }

    /// Resolves which backend source to use. An explicit version with an
    /// explicit source url names a git reference; an explicit version alone
    /// names a registry version; with no override the companion package's
    /// recorded provenance decides, as [`parse_spirv_std_source_and_version`]
    /// says. `local_root_is_dir` reports whether the candidate local root
    /// exists as a directory, and is read only for a provenance-free
    /// companion package.
    pub fn new(
        maybe_rust_gpu_source: Option<&Vec<u8>>,
        maybe_rust_gpu_version: Option<&Vec<u8>>,
        shader_packages: &Vec<PackageMeta>,
        local_root_is_dir: bool,
    ) -> (r: Result<SpirvSource, SourceResolutionError>)
        ensures
            new_matches(
                opt_view(maybe_rust_gpu_source),
                opt_view(maybe_rust_gpu_version),
                shader_packages@,
                local_root_is_dir,
                r,
            ),
    {
        match maybe_rust_gpu_version {
            Some(version_text) => {
                match maybe_rust_gpu_source {
                    Some(source_text) => {
                        let url = crate::bytes::copy_range(
                            source_text.as_slice(),
                            0,
                            source_text.len(),
                        );
                        let rev = crate::bytes::copy_range(
                            version_text.as_slice(),
                            0,
                            version_text.len(),
                        );
                        proof {
                            assert(url@ =~= source_text@);
                            assert(rev@ =~= version_text@);
                        }
                        Ok(SpirvSource::Git { url, rev })
                    },
                    None => {
                        match crate::version::parse_version(version_text) {
                            Ok(v) => Ok(SpirvSource::CratesIO(v)),
                            Err(_) => Err(SourceResolutionError::VersionUnparsable),
                        }
                    },
                }
            },
            None => Self::get_rust_gpu_deps_from_shader(shader_packages, local_root_is_dir),
        }
    }

    /// Resolves the backend source from the shader crate's dependency
    /// graph alone: the companion package is looked up and its recorded
    /// provenance classified.
    pub fn get_rust_gpu_deps_from_shader(
        shader_packages: &Vec<PackageMeta>,
        local_root_is_dir: bool,
    ) -> (r: Result<SpirvSource, SourceResolutionError>)
        ensures
            match find_package_spec(shader_packages@, spirv_std_name()) {
                None => r == Err::<SpirvSource, _>(SourceResolutionError::DependencyAbsent),
                Some(i) => parse_result_matches(shader_packages@[i], local_root_is_dir, r),
            },
    {
        let name = spirv_std_name_bytes();
        match find_package(shader_packages, name.as_slice()) {
            None => Err(SourceResolutionError::DependencyAbsent),
            Some(i) => parse_spirv_std_source_and_version(&shader_packages[i], local_root_is_dir),
        }
    }
}

/// True when two sources carry the same components.
pub open spec fn source_views_match(a: SpirvSource, b: SpirvSource) -> bool {
    match (a, b) {
        (SpirvSource::CratesIO(va), SpirvSource::CratesIO(vb)) => version_views_match(va, vb),
        (
            SpirvSource::Git { url: ua, rev: ra },
            SpirvSource::Git { url: ub, rev: rb },
        ) => ua@ == ub@ && ra@ == rb@,
        (
            SpirvSource::Path { rust_gpu_repo_root: pa, version: va },
            SpirvSource::Path { rust_gpu_repo_root: pb, version: vb },
        ) => pa@ == pb@ && version_views_match(va, vb),
        _ => false,
    }
}

/// The install directory of a source under a cache root.
pub open spec fn install_dir_spec(s: SpirvSource, cache_root: Seq<u8>) -> Seq<u8> {
    match s {
        SpirvSource::Path { rust_gpu_repo_root, .. } => rust_gpu_repo_root@,
        _ => join_spec(
            join_spec(cache_root, codegen_dir_name()),
            to_dirname_spec(display_spec(s)),
        ),
    }
}

/// What resolving a source must yield for each combination of overrides
/// and dependency-graph report.
pub open spec fn new_matches(
    source_opt: Option<Seq<u8>>,
    version_opt: Option<Seq<u8>>,
    packages: Seq<PackageMeta>,
    local_root_is_dir: bool,
    r: Result<SpirvSource, SourceResolutionError>,
) -> bool {
    match version_opt {
        Some(vtext) => match source_opt {
            Some(stext) => match r {
                Ok(SpirvSource::Git { url, rev }) => url@ == stext && rev@ == vtext,
                _ => false,
            },
            None => match semver_of(vtext) {
                Some(t) => match r {
                    Ok(SpirvSource::CratesIO(v)) => v.major == t.0 && v.minor == t.1 && v.patch
                        == t.2 && v.pre@ == t.3 && v.build@ == t.4,
                    _ => false,
                },
                None => r == Err::<SpirvSource, _>(SourceResolutionError::VersionUnparsable),
            },
        },
        None => match find_package_spec(packages, spirv_std_name()) {
            None => r == Err::<SpirvSource, _>(SourceResolutionError::DependencyAbsent),
            Some(i) => parse_result_matches(packages[i], local_root_is_dir, r),
        },
    }
}

/// Law: the install directory is a pure function of the source and the
/// cache root; equal sources under one cache root have equal directories,
/// and no reading of the machine takes part in the computation.
pub proof fn lemma_install_dir_deterministic(a: SpirvSource, b: SpirvSource, cache_root: Seq<u8>)
    requires
        a == b,
    ensures
        install_dir_spec(a, cache_root) == install_dir_spec(b, cache_root),
{
}

/// Why no toolchain channel could be read out of a build script.
#[derive(Clone, Copy, Debug, PartialEq, Eq, Structural)]
pub enum ChannelError {
    /// No line of the text opens with the channel marker.
    ChannelMarkerAbsent,
    /// The channel text is not closed by a quote on its line.
    UnterminatedChannel,
    /// The backend package's manifest path has no parent directory.
    NoCrateRoot,
}

/// The channel named on the first line of the text that opens with the
/// channel marker: the text between the marker's quote and the next quote.
/// A marker line without a closing quote is malformed, and a text without
/// a marker line names no channel.
pub open spec fn channel_spec(s: Seq<u8>) -> Result<Seq<u8>, ChannelError>
    decreases s.len(),
    via channel_spec_decreases
{
    if has_prefix(strip_cr(first_line_raw(s)), channel_marker()) {
        let rest = strip_cr(first_line_raw(s)).skip(channel_marker().len() as int);
        match index_of_first(rest, 34u8) {
            Some(q) => Ok(rest.take(q)),
            None => Err(ChannelError::UnterminatedChannel),
        }
    } else {
        match after_first_newline(s) {
            None => Err(ChannelError::ChannelMarkerAbsent),
            Some(r1) => channel_spec(r1),
        }
    }
}

#[via_fn]
proof fn channel_spec_decreases(s: Seq<u8>) {
    crate::bytes::lemma_after_first_newline_shrinks(s);
}

/// Reads the toolchain channel out of the backend's build script text.
pub fn get_channel_from_rustc_codegen_spirv_build_script(contents: &[u8]) -> (r: Result<
    Vec<u8>,
    ChannelError,
>)
    ensures
        match r {
            Ok(c) => channel_spec(contents@) == Ok::<Seq<u8>, ChannelError>(c@),
            Err(e) => channel_spec(contents@) == Err::<Seq<u8>, ChannelError>(e),
        },
{
    let n = contents.len();
    let marker = channel_marker_bytes();
    let mut pos: usize = 0;
    proof {
        assert(contents@.skip(0) =~= contents@);
    }
    loop
        invariant
            0 <= pos <= n,
            n == contents@.len(),
            marker@ == channel_marker(),
            channel_spec(contents@) == channel_spec(contents@.skip(pos as int)),
        decreases n - pos,
    {
        let ghost seg = contents@.skip(pos as int);
        proof {
            assert(forall|k: int| 0 <= k < seg.len() ==> seg[k] == contents@[pos + k]);
        }
        let found_newline = crate::bytes::find_byte_from(contents, 10, pos);
        let line_end = match found_newline {
            Some(i) => {
                proof {
                    lemma_first_line_raw_at(seg, i - pos);
                    assert(seg.take(i - pos) =~= contents@.subrange(pos as int, i as int));
                }
                i
            },
            None => {
                proof {
                    lemma_first_line_raw_none(seg);
                    assert(seg =~= contents@.subrange(pos as int, n as int));
                }
                n
            },
        };
        let mut line = crate::bytes::copy_range(contents, pos, line_end);
        if line.len() > 0 && line[line.len() - 1] == 13 {
            let _last = line.pop();
        }
        proof {
            assert(line@ =~= strip_cr(first_line_raw(seg)));
        }
        if crate::bytes::starts_with(line.as_slice(), marker.as_slice()) {
            let rest = crate::bytes::copy_range(line.as_slice(), 11, line.len());
            proof {
                assert(rest@ =~= strip_cr(first_line_raw(seg)).skip(channel_marker().len() as int));
            }
            match crate::bytes::find_byte_from(rest.as_slice(), 34, 0) {
                Some(q) => {
                    proof {
                        crate::bytes::lemma_index_of_first_is(rest@, 34u8, q as int);
                    }
                    let channel = crate::bytes::copy_range(rest.as_slice(), 0, q);
                    proof {
                        assert(channel@ =~= rest@.take(q as int));
                    }
                    return Ok(channel);
                },
                None => {
                    proof {
                        crate::bytes::lemma_index_of_first_none(rest@, 34u8);
                    }
                    return Err(ChannelError::UnterminatedChannel);
                },
            }
        }
        match found_newline {
            None => {
                proof {
                    lemma_after_first_newline_none(seg);
                }
                return Err(ChannelError::ChannelMarkerAbsent);
            },
            Some(i) => {
                proof {
                    lemma_after_first_newline_at(seg, i - pos);
                    assert(seg.skip(i - pos + 1) =~= contents@.skip(i + 1));
                }
                pos = i + 1;
            },
        }
    }
}

/// The path of the backend package's build script: the manifest's
/// directory extended by the build script's file name.
pub fn build_script_path(manifest_path: &Vec<u8>) -> (r: Result<Vec<u8>, ChannelError>)
    ensures
        match r {
            Ok(p) => match parent_spec(manifest_path@) {
                Some(d) => p@ == join_spec(d, build_rs_name()),
                None => false,
            },
            Err(e) => parent_spec(manifest_path@) is None && e == ChannelError::NoCrateRoot,
        },
{
    match crate::paths::parent_path(manifest_path.as_slice()) {
        None => Err(ChannelError::NoCrateRoot),
        Some(dir) => {
            let name = build_rs_name_bytes();
            Ok(crate::paths::path_join(dir.as_slice(), name.as_slice()))
        },
    }
}

} // verus!
