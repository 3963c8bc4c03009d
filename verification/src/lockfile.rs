//! The lock-manifest compatibility guard.
//!
//! Old toolchains cannot parse a lock manifest whose format marker says
//! `version = 4`. When such a toolchain is involved, the guard inspects the
//! marker on the third line of the manifest text, rewrites the literal
//! `\nversion = 4\n` to `\nversion = 3\n` when explicitly authorized, records
//! which files it rewrote, and on release rewrites them back. Detection is
//! deliberately a narrow literal match, not a structural parse: the set of
//! accepted files is part of the contract.

use vstd::prelude::*;

use crate::bytes::{
    contains_seq, first_line_raw, has_prefix, lemma_after_first_newline_at,
    lemma_after_first_newline_none, lemma_first_line_raw_at, lemma_first_line_raw_none,
    lemma_replace_all_pointwise, matches_at, opt_view, replace_all, strip_cr, third_line,
};
use crate::paths::join_spec;
use crate::version::{below_release, Version};

verus! {

/// Components of the first toolchain release whose lock manifests use format
/// version 4 by default.
pub const V4_LOCKS_RUST_MAJOR: u64 = 1;

pub const V4_LOCKS_RUST_MINOR: u64 = 83;

pub const V4_LOCKS_RUST_PATCH: u64 = 0;

/// The marker line of a version-4 lock manifest, with the newlines around it.
pub open spec fn v4_marker() -> Seq<u8> {
    seq![10u8, 118u8, 101u8, 114u8, 115u8, 105u8, 111u8, 110u8, 32u8, 61u8, 32u8, 52u8, 10u8]
}

/// The marker line of a version-3 lock manifest, with the newlines around it.
pub open spec fn v3_marker() -> Seq<u8> {
    seq![10u8, 118u8, 101u8, 114u8, 115u8, 105u8, 111u8, 110u8, 32u8, 61u8, 32u8, 51u8, 10u8]
}

/// The marker line of a version-4 lock manifest, as a runtime value.
fn v4_marker_bytes() -> (r: Vec<u8>)
    ensures
        r@ == v4_marker(),
{
    let mut v: Vec<u8> = Vec::new();
    v.push(10);
    v.push(118);
    v.push(101);
    v.push(114);
    v.push(115);
    v.push(105);
    v.push(111);
    v.push(110);
    v.push(32);
    v.push(61);
    v.push(32);
    v.push(52);
    v.push(10);
    proof {
        assert(v@ =~= v4_marker());
    }
    v
}

/// The marker line of a version-3 lock manifest, as a runtime value.
fn v3_marker_bytes() -> (r: Vec<u8>)
    ensures
        r@ == v3_marker(),
{
    let mut v: Vec<u8> = Vec::new();
    v.push(10);
    v.push(118);
    v.push(101);
    v.push(114);
    v.push(115);
    v.push(105);
    v.push(111);
    v.push(110);
    v.push(32);
    v.push(61);
    v.push(32);
    v.push(51);
    v.push(10);
    proof {
        assert(v@ =~= v3_marker());
    }
    v
}

/// The bare marker text of a version-4 manifest, without the newlines.
pub open spec fn version4_line() -> Seq<u8> {
    v4_marker().subrange(1, 12)
}

/// The bare marker text of a version-3 manifest, without the newlines.
pub open spec fn version3_line() -> Seq<u8> {
    v3_marker().subrange(1, 12)
}


/// The third line of the given text, as an owned value.
pub fn third_line_of(contents: &[u8]) -> (r: Option<Vec<u8>>)
    ensures
        match r {
            Some(l) => third_line(contents@) == Some(l@),
            None => third_line(contents@) is None,
        },
{
    let n = contents.len();
    let i1 = match crate::bytes::find_byte_from(contents, 10, 0) {
        Some(i) => i,
        None => {
            proof {
                lemma_after_first_newline_none(contents@);
            }
            return None;
        },
    };
    proof {
        lemma_after_first_newline_at(contents@, i1 as int);
    }
    let ghost r1 = contents@.skip(i1 + 1);
    let i2 = match crate::bytes::find_byte_from(contents, 10, i1 + 1) {
        Some(i) => i,
        None => {
            proof {
                assert(forall|k: int| 0 <= k < r1.len() ==> r1[k] == contents@[i1 + 1 + k]);
                lemma_after_first_newline_none(r1);
            }
            return None;
        },
    };
    proof {
        assert(forall|k: int| 0 <= k < r1.len() ==> r1[k] == contents@[i1 + 1 + k]);
        lemma_after_first_newline_at(r1, i2 - i1 - 1);
        assert(r1.skip(i2 - i1) =~= contents@.skip(i2 + 1));
    }
    let start = i2 + 1;
    let ghost r2 = contents@.skip(start as int);
    if start >= n {
        proof {
            assert(r2.len() == 0);
        }
        return None;
    }
    let end = match crate::bytes::find_byte_from(contents, 10, start) {
        Some(i) => {
            proof {
                assert(forall|k: int| 0 <= k < r2.len() ==> r2[k] == contents@[start + k]);
                lemma_first_line_raw_at(r2, i - start);
                assert(r2.take(i - start) =~= contents@.subrange(start as int, i as int));
            }
            i
        },
        None => {
            proof {
                assert(forall|k: int| 0 <= k < r2.len() ==> r2[k] == contents@[start + k]);
                lemma_first_line_raw_none(r2);
                assert(r2 =~= contents@.subrange(start as int, n as int));
            }
            n
        },
    };
    let mut line = crate::bytes::copy_range(contents, start, end);
    if line.len() > 0 && line[line.len() - 1] == 13 {
        let _last = line.pop();
        proof {
            assert(line@ =~= strip_cr(first_line_raw(r2)));
        }
    }
    Some(line)
}

/// The lock-manifest format generation that a marker names.
#[derive(Clone, Copy, Debug, PartialEq, Eq, Structural)]
pub enum LockManifestVersion {
    V4,
    V3,
}

/// Why the guard could not handle a lock manifest.
#[derive(Clone, Copy, Debug, PartialEq, Eq, Structural)]
pub enum LockfileError {
    /// The manifest text has no third line to carry the marker.
    NoThirdLine,
    /// The third line names neither format version 4 nor 3.
    UnrecognizedVersion,
    /// A manifest that had to be inspected was not readable.
    MissingLockfile,
    /// A version-4 marker must be rewritten for the build to proceed, but
    /// authorization to overwrite it was not given; the caller should stop
    /// with guidance instead of building.
    ForceRequired,
}

/// The bare version-4 marker text, as a runtime value.
fn version4_line_bytes() -> (r: Vec<u8>)
    ensures
        r@ == version4_line(),
{
    let m = v4_marker_bytes();
    let r = crate::bytes::copy_range(m.as_slice(), 1, 12);
    r
}

/// The bare version-3 marker text, as a runtime value.
fn version3_line_bytes() -> (r: Vec<u8>)
    ensures
        r@ == version3_line(),
{
    let m = v3_marker_bytes();
    let r = crate::bytes::copy_range(m.as_slice(), 1, 12);
    r
}

/// What the marker on the third line of a manifest says: format 4 when the
/// line holds the version-4 marker text, else format 3 when it holds the
/// version-3 marker text, else the text is unrecognized. A manifest without
/// a third line is unrecognized too.
pub open spec fn lock_state(s: Seq<u8>) -> Result<LockManifestVersion, LockfileError> {
    match third_line(s) {
        None => Err(LockfileError::NoThirdLine),
        Some(l) => if contains_seq(l, version4_line()) {
            Ok(LockManifestVersion::V4)
        } else if contains_seq(l, version3_line()) {
            Ok(LockManifestVersion::V3)
        } else {
            Err(LockfileError::UnrecognizedVersion)
        },
    }
}

/// Reads the format marker from the third line of a lock manifest.
pub fn lockfile_manifest_state(contents: &[u8]) -> (r: Result<
    LockManifestVersion,
    LockfileError,
>)
    ensures
        r == lock_state(contents@),
{
    let line = match third_line_of(contents) {
        None => {
            return Err(LockfileError::NoThirdLine);
        },
        Some(l) => l,
    };
    let v4 = version4_line_bytes();
    if crate::bytes::contains(line.as_slice(), v4.as_slice()) {
        return Ok(LockManifestVersion::V4);
    }
    let v3 = version3_line_bytes();
    if crate::bytes::contains(line.as_slice(), v3.as_slice()) {
        return Ok(LockManifestVersion::V3);
    }
    Err(LockfileError::UnrecognizedVersion)
}

/// What to do with one lock manifest: leave it alone, or rewrite its marker.
#[derive(Clone, Copy, Debug, PartialEq, Eq, Structural)]
pub enum LockAction {
    Keep,
    Rewrite,
}

/// The decision for one manifest text: a version-3 marker is left alone, a
/// version-4 marker is rewritten when authorized and refused when not, and
/// anything else is an unrecognized format.
pub open spec fn conflict_plan(s: Seq<u8>, force: bool) -> Result<LockAction, LockfileError> {
    match lock_state(s) {
        Err(e) => Err(e),
        Ok(LockManifestVersion::V3) => Ok(LockAction::Keep),
        Ok(LockManifestVersion::V4) => if force {
            Ok(LockAction::Rewrite)
        } else {
            Err(LockfileError::ForceRequired)
        },
    }
}

/// Decides what to do with the lock manifest of one directory.
pub fn handle_conflicting_cargo_lock_v4(contents: &[u8], force: bool) -> (r: Result<
    LockAction,
    LockfileError,
>)
    ensures
        r == conflict_plan(contents@, force),
{
    match lockfile_manifest_state(contents)? {
        LockManifestVersion::V3 => Ok(LockAction::Keep),
        LockManifestVersion::V4 => {
            if force {
                Ok(LockAction::Rewrite)
            } else {
                Err(LockfileError::ForceRequired)
            }
        },
    }
}

/// If a tail of the version-3 marker is a prefix of a rewritten text, that
/// same tail already stood at the front of the original text: the rewrite
/// cannot conjure the marker's tail out of other bytes.
proof fn lemma_v3_tail_prefix(s: Seq<u8>, j: int)
    requires
        1 <= j < 13,
        has_prefix(replace_all(s, v4_marker(), v3_marker()), v3_marker().skip(j)),
    ensures
        has_prefix(s, v3_marker().skip(j)),
    decreases s.len(),
{
    let f = v4_marker();
    let t = v3_marker();
    let tail = t.skip(j);
    let r = replace_all(s, f, t);
    assert(tail.len() == 13 - j);
    if s.len() >= 13 && s.subrange(0, 13) == f {
        let r1 = replace_all(s.skip(13), f, t);
        assert(r == t + r1);
        // The tail equals the front of the full marker, so the marker
        // overlaps itself; its bytes allow that only for the final newline.
        assert(forall|k: int| 0 <= k < tail.len() ==> tail[k] == r[k]);
        if j < 12 {
            assert(tail[12 - j] == t[12]);
            assert(r[12 - j] == t[12 - j]);
            assert(t[12] == 10);
            assert(t[12 - j] != 10);
            assert(false);
        }
        assert(j == 12);
        assert(tail[0] == t[12]);
        assert(s[0] == f[0]);
        assert(s.subrange(0, 1) =~= tail);
    } else if s.len() == 0 {
        assert(r.len() == 0);
        assert(false);
    } else {
        let r1 = replace_all(s.skip(1), f, t);
        assert(r == seq![s[0]] + r1);
        assert(tail[0] == r[0]);
        assert(r[0] == s[0]);
        if j == 12 {
            assert(s.subrange(0, 1) =~= tail);
        } else {
            let tail1 = t.skip(j + 1);
            assert(has_prefix(r1, tail1)) by {
                assert(forall|k: int| 0 <= k < tail1.len() ==> tail1[k] == tail[k + 1]);
                assert(forall|k: int| 0 <= k < tail1.len() ==> r1[k] == r[k + 1]);
                assert(r1.subrange(0, tail1.len() as int) =~= tail1);
            }
            lemma_v3_tail_prefix(s.skip(1), j + 1);
            assert(s.skip(1).subrange(0, tail1.len() as int) == tail1);
            assert(tail.len() <= s.len());
            assert forall|k: int| 0 <= k < tail.len() implies s[k] == tail[k] by {
                if k > 0 {
                    assert(tail[k] == t[j + k]);
                    assert(tail1[k - 1] == t[j + k]);
                    assert(s.skip(1).subrange(0, tail1.len() as int)[k - 1] == tail1[k - 1]);
                    assert(s.skip(1)[k - 1] == s[k]);
                }
            }
            assert(s.subrange(0, tail.len() as int) =~= tail);
        }
    }
}

/// An occurrence of a pattern in a suffix is an occurrence in the whole.
proof fn lemma_contains_skip(s: Seq<u8>, pat: Seq<u8>, n: int)
    requires
        0 <= n <= s.len(),
        !contains_seq(s, pat),
    ensures
        !contains_seq(s.skip(n), pat),
{
    assert forall|i: int| !matches_at(s.skip(n), pat, i) by {
        if 0 <= i && i + pat.len() <= s.skip(n).len() {
            assert(s.skip(n).subrange(i, i + pat.len()) =~= s.subrange(n + i, n + i + pat.len()));
            assert(!matches_at(s, pat, n + i));
        }
    }
}

/// Rewriting every version-4 marker to version-3 and then every version-3
/// marker back to version-4 restores the original text, provided the
/// original did not already contain a version-3 marker line.
pub proof fn lemma_marker_round_trip(s: Seq<u8>)
    requires
        !contains_seq(s, v3_marker()),
    ensures
        replace_all(replace_all(s, v4_marker(), v3_marker()), v3_marker(), v4_marker()) == s,
    decreases s.len(),
{
    let f = v4_marker();
    let t = v3_marker();
    let r = replace_all(s, f, t);
    if s.len() >= 13 && s.subrange(0, 13) == f {
        let s1 = s.skip(13);
        let r1 = replace_all(s1, f, t);
        assert(r == t + r1);
        lemma_contains_skip(s, t, 13);
        lemma_marker_round_trip(s1);
        assert((t + r1).subrange(0, 13) =~= t);
        assert((t + r1).len() >= 13);
        assert(replace_all(t + r1, t, f) == f + replace_all((t + r1).skip(13), t, f));
        assert((t + r1).skip(13) =~= r1);
        assert(f + replace_all(r1, t, f) =~= s);
    } else if s.len() == 0 {
        assert(r =~= Seq::<u8>::empty());
        assert(replace_all(r, t, f) =~= Seq::<u8>::empty());
        assert(replace_all(replace_all(s, f, t), t, f) =~= s);
    } else {
        let s1 = s.skip(1);
        let r1 = replace_all(s1, f, t);
        assert(r == seq![s[0]] + r1);
        lemma_contains_skip(s, t, 1);
        lemma_marker_round_trip(s1);
        // The reverse pass cannot see a version-3 marker at the front: its
        // tail would have had to stand at the front of the rest of the
        // original, which would put a whole marker in the original.
        assert(!(r.len() >= 13 && r.subrange(0, 13) == t)) by {
            if r.len() >= 13 && r.subrange(0, 13) == t {
                assert(s[0] == t[0]);
                assert(has_prefix(r1, t.skip(1))) by {
                    assert(forall|k: int| 0 <= k < 12 ==> t.skip(1)[k] == t[k + 1]);
                    assert(forall|k: int|
                        0 <= k < 13 ==> r[k] == r.subrange(0, 13)[k] && r.subrange(0, 13)[k]
                            == t[k]);
                    assert(forall|k: int| 0 <= k < 12 ==> r1[k] == r[k + 1]);
                    assert(r1.subrange(0, 12) =~= t.skip(1));
                }
                lemma_v3_tail_prefix(s1, 1);
                assert(t.skip(1).len() == 12);
                assert(s1.subrange(0, 12) == t.skip(1));
                assert(s.len() >= 13);
                assert forall|k: int| 0 <= k < 13 implies s[k] == t[k] by {
                    if k > 0 {
                        assert(s1.subrange(0, 12)[k - 1] == t.skip(1)[k - 1]);
                        assert(s1[k - 1] == s[k]);
                        assert(t.skip(1)[k - 1] == t[k]);
                    }
                }
                assert(s.subrange(0, 13) =~= t);
                assert(matches_at(s, t, 0));
                assert(false);
            }
        }
        assert(replace_all(r, t, f) == seq![r[0]] + replace_all(r.skip(1), t, f));
        assert(r.skip(1) =~= r1);
        assert(r[0] == s[0]);
        assert(seq![s[0]] + replace_all(r1, t, f) =~= s);
    }
}

/// The file name of a lock manifest.
pub open spec fn cargo_lock_name() -> Seq<u8> {
    seq![67u8, 97u8, 114u8, 103u8, 111u8, 46u8, 108u8, 111u8, 99u8, 107u8]
}

/// The file name of a lock manifest, as a runtime value.
pub fn cargo_lock_file_name() -> (r: Vec<u8>)
    ensures
        r@ == cargo_lock_name(),
{
    let mut v: Vec<u8> = Vec::new();
    v.push(67);
    v.push(97);
    v.push(114);
    v.push(103);
    v.push(111);
    v.push(46);
    v.push(108);
    v.push(111);
    v.push(99);
    v.push(107);
    proof {
        assert(v@ =~= cargo_lock_name());
    }
    v
}

/// One file rewrite that the guard asks its caller to perform.
#[derive(Clone, Debug)]
pub struct FileRewrite {
    /// The file to overwrite.
    pub path: Vec<u8>,
    /// The full new contents of the file.
    pub new_contents: Vec<u8>,
}

/// The guard over lock-manifest format markers. It holds the paths of the
/// files whose markers were rewritten, and exactly those, so that every
/// rewrite is undone when the guard is released.
#[derive(Clone, Debug)]
pub struct LockfileMismatchHandler {
    /// Lock manifests whose format markers were rewritten and must be
    /// rewritten back when the guarded work ends.
    pub cargo_lock_files_with_changed_manifest_versions: Vec<Vec<u8>>,
}

/// The text `s` rewritten from version-4 markers to version-3 markers.
pub open spec fn downgraded(s: Seq<u8>) -> Seq<u8> {
    replace_all(s, v4_marker(), v3_marker())
}

/// The rewrites that the guard performs, in order, given the two toolchain
/// versions and the candidate lock manifests. Each pair is a file path and
/// the full new contents of that file.
///
/// When the invoking toolchain is below the version-4 threshold, the shader
/// crate's manifest must be readable and is downgraded if it carries a
/// version-4 marker. When the backend's required toolchain is below the
/// threshold, the shader crate's manifest (as left by the first step) is
/// checked the same way if it is present, and so is the enclosing
/// workspace's manifest if the caller found one. A version-4 marker without
/// authorization stops everything; an unrecognizable marker is an error.
pub open spec fn guard_plan(
    shader_crate_path: Seq<u8>,
    host_rustc: Version,
    shader_rustc: Version,
    shader_lock: Option<Seq<u8>>,
    workspace_root: Option<Seq<u8>>,
    workspace_lock: Option<Seq<u8>>,
    force: bool,
) -> Result<Seq<(Seq<u8>, Seq<u8>)>, LockfileError> {
    let lock_path = join_spec(shader_crate_path, cargo_lock_name());
    let host_old = below_release(
        host_rustc,
        V4_LOCKS_RUST_MAJOR,
        V4_LOCKS_RUST_MINOR,
        V4_LOCKS_RUST_PATCH,
    );
    let shader_old = below_release(
        shader_rustc,
        V4_LOCKS_RUST_MAJOR,
        V4_LOCKS_RUST_MINOR,
        V4_LOCKS_RUST_PATCH,
    );
    if host_old && shader_lock is None {
        Err(LockfileError::MissingLockfile)
    } else {
        let step1: Result<Seq<(Seq<u8>, Seq<u8>)>, LockfileError> = if host_old {
            match conflict_plan(shader_lock->Some_0, force) {
                Err(e) => Err(e),
                Ok(LockAction::Keep) => Ok(seq![]),
                Ok(LockAction::Rewrite) => Ok(
                    seq![(lock_path, downgraded(shader_lock->Some_0))],
                ),
            }
        } else {
            Ok(seq![])
        };
        match step1 {
            Err(e) => Err(e),
            Ok(writes1) => {
                if !shader_old {
                    Ok(writes1)
                } else {
                    let current_shader_lock: Option<Seq<u8>> = if writes1.len() > 0 {
                        Some(writes1[0].1)
                    } else {
                        shader_lock
                    };
                    let step2: Result<Seq<(Seq<u8>, Seq<u8>)>, LockfileError> = match
                        current_shader_lock {
                        None => Ok(seq![]),
                        Some(c) => match conflict_plan(c, force) {
                            Err(e) => Err(e),
                            Ok(LockAction::Keep) => Ok(seq![]),
                            Ok(LockAction::Rewrite) => Ok(seq![(lock_path, downgraded(c))]),
                        },
                    };
                    match step2 {
                        Err(e) => Err(e),
                        Ok(writes2) => match workspace_root {
                            None => Ok(writes1 + writes2),
                            Some(root) => match workspace_lock {
                                None => Err(LockfileError::MissingLockfile),
                                Some(wc) => match conflict_plan(wc, force) {
                                    Err(e) => Err(e),
                                    Ok(LockAction::Keep) => Ok(writes1 + writes2),
                                    Ok(LockAction::Rewrite) => Ok(
                                        writes1 + writes2 + seq![
                                            (join_spec(root, cargo_lock_name()), downgraded(wc)),
                                        ],
                                    ),
                                },
                            },
                        },
                    }
                }
            },
        }
    }
}


impl LockfileMismatchHandler {
    /// Plans the guarded downgrade of lock-manifest markers.
    ///
    /// The caller supplies the two toolchain versions it queried, the
    /// contents of the shader crate's lock manifest if that file could be
    /// read, and the workspace root with its lock manifest where its upward
    /// walk found one. Back come the guard, holding exactly the paths whose
    /// markers are to be rewritten, and the rewrites for the caller to
    /// perform.
    pub fn new(
        shader_crate_path: &Vec<u8>,
        host_rustc: &Version,
        shader_rustc: &Version,
        shader_lock: Option<&Vec<u8>>,
        workspace_root: Option<&Vec<u8>>,
        workspace_lock: Option<&Vec<u8>>,
        is_force_overwrite_lockfiles_v4_to_v3: bool,
    ) -> (r: Result<(Self, Vec<FileRewrite>), LockfileError>)
        ensures
            match guard_plan(
                shader_crate_path@,
                *host_rustc,
                *shader_rustc,
                opt_view(shader_lock),
                opt_view(workspace_root),
                opt_view(workspace_lock),
                is_force_overwrite_lockfiles_v4_to_v3,
            ) {
                Ok(planned) => {
                    &&& r is Ok
                    &&& r->Ok_0.1@.len() == planned.len()
                    &&& forall|i: int|
                        0 <= i < planned.len() ==> r->Ok_0.1@[i].path@ == planned[i].0
                            && r->Ok_0.1@[i].new_contents@ == planned[i].1
                    &&& r->Ok_0.0.cargo_lock_files_with_changed_manifest_versions@.len()
                        == planned.len()
                    &&& forall|i: int|
                        0 <= i < planned.len()
                            ==> r->Ok_0.0.cargo_lock_files_with_changed_manifest_versions@[i]@
                            == planned[i].0
                },
                Err(e) => r == Err::<(Self, Vec<FileRewrite>), LockfileError>(e),
            },
    {
        let force = is_force_overwrite_lockfiles_v4_to_v3;
        let lock_name = cargo_lock_file_name();
        let lock_path = crate::paths::path_join(shader_crate_path.as_slice(), lock_name.as_slice());
        let host_old = host_rustc.is_below(
            V4_LOCKS_RUST_MAJOR,
            V4_LOCKS_RUST_MINOR,
            V4_LOCKS_RUST_PATCH,
        );
        let shader_old = shader_rustc.is_below(
            V4_LOCKS_RUST_MAJOR,
            V4_LOCKS_RUST_MINOR,
            V4_LOCKS_RUST_PATCH,
        );
        let mut paths: Vec<Vec<u8>> = Vec::new();
        let mut writes: Vec<FileRewrite> = Vec::new();
        let mut current_shader_lock: Option<Vec<u8>> = match shader_lock {
            Some(c) => Some(crate::bytes::copy_range(c.as_slice(), 0, c.len())),
            None => None,
        };
        proof {
            match shader_lock {
                Some(c) => assert(current_shader_lock->Some_0@ =~= c@),
                None => (),
            }
        }
        if host_old {
            let contents = match &current_shader_lock {
                None => {
                    return Err(LockfileError::MissingLockfile);
                },
                Some(c) => c,
            };
            match handle_conflicting_cargo_lock_v4(contents.as_slice(), force) {
                Err(e) => {
                    return Err(e);
                },
                Ok(LockAction::Keep) => {},
                Ok(LockAction::Rewrite) => {
                    let v4 = v4_marker_bytes();
                    let v3 = v3_marker_bytes();
                    let new_contents = crate::bytes::replace_all_bytes(
                        contents.as_slice(),
                        v4.as_slice(),
                        v3.as_slice(),
                    );
                    let path_copy = crate::bytes::copy_range(lock_path.as_slice(), 0, lock_path.len());
                    proof {
                        assert(path_copy@ =~= lock_path@);
                    }
                    paths.push(path_copy);
                    let contents_copy = crate::bytes::copy_range(new_contents.as_slice(), 0, new_contents.len());
                    proof {
                        assert(contents_copy@ =~= new_contents@);
                    }
                    writes.push(FileRewrite { path: lock_path.clone(), new_contents: contents_copy });
                    proof {
                        assert(writes@[0].path@ =~= lock_path@);
                    }
                    current_shader_lock = Some(new_contents);
                },
            }
        }
        if shader_old {
            match &current_shader_lock {
                None => {},
                Some(c) => {
                    match handle_conflicting_cargo_lock_v4(c.as_slice(), force) {
                        Err(e) => {
                            return Err(e);
                        },
                        Ok(LockAction::Keep) => {},
                        Ok(LockAction::Rewrite) => {
                            let v4 = v4_marker_bytes();
                            let v3 = v3_marker_bytes();
                            let new_contents = crate::bytes::replace_all_bytes(
                                c.as_slice(),
                                v4.as_slice(),
                                v3.as_slice(),
                            );
                            let path_copy = crate::bytes::copy_range(
                                lock_path.as_slice(),
                                0,
                                lock_path.len(),
                            );
                            proof {
                                assert(path_copy@ =~= lock_path@);
                            }
                            paths.push(path_copy);
                            writes.push(
                                FileRewrite { path: lock_path.clone(), new_contents },
                            );
                        },
                    }
                },
            }
            match workspace_root {
                None => {},
                Some(root) => {
                    let wc = match workspace_lock {
                        None => {
                            return Err(LockfileError::MissingLockfile);
                        },
                        Some(wc) => wc,
                    };
                    match handle_conflicting_cargo_lock_v4(wc.as_slice(), force) {
                        Err(e) => {
                            return Err(e);
                        },
                        Ok(LockAction::Keep) => {},
                        Ok(LockAction::Rewrite) => {
                            let v4 = v4_marker_bytes();
                            let v3 = v3_marker_bytes();
                            let new_contents = crate::bytes::replace_all_bytes(
                                wc.as_slice(),
                                v4.as_slice(),
                                v3.as_slice(),
                            );
                            let ws_lock_path = crate::paths::path_join(
                                root.as_slice(),
                                lock_name.as_slice(),
                            );
                            let path_copy = crate::bytes::copy_range(
                                ws_lock_path.as_slice(),
                                0,
                                ws_lock_path.len(),
                            );
                            proof {
                                assert(path_copy@ =~= ws_lock_path@);
                            }
                            paths.push(path_copy);
                            writes.push(
                                FileRewrite { path: ws_lock_path, new_contents },
                            );
                        },
                    }
                },
            }
        }
        Ok((Self { cargo_lock_files_with_changed_manifest_versions: paths }, writes))
    }

    /// The rewrites that put every recorded lock manifest back to its
    /// version-4 marker: one for each recorded path, in order, with the
    /// markers of the caller-supplied current contents rewritten from
    /// version 3 to version 4.
    pub fn revert_cargo_lock_manifest_versions(&self, current_contents: &Vec<Vec<u8>>) -> (r: Vec<
        FileRewrite,
    >)
        requires
            current_contents@.len()
                == self.cargo_lock_files_with_changed_manifest_versions@.len(),
        ensures
            r@.len() == self.cargo_lock_files_with_changed_manifest_versions@.len(),
            forall|i: int|
                0 <= i < r@.len() ==> r@[i].path@
                    == self.cargo_lock_files_with_changed_manifest_versions@[i]@
                    && r@[i].new_contents@ == replace_all(
                    current_contents@[i]@,
                    v3_marker(),
                    v4_marker(),
                ),
    {
        let n = self.cargo_lock_files_with_changed_manifest_versions.len();
        let v4 = v4_marker_bytes();
        let v3 = v3_marker_bytes();
        let mut out: Vec<FileRewrite> = Vec::new();
        let mut i: usize = 0;
        while i < n
            invariant
                0 <= i <= n,
                n == self.cargo_lock_files_with_changed_manifest_versions@.len(),
                current_contents@.len() == n,
                v4@ == v4_marker(),
                v3@ == v3_marker(),
                out@.len() == i,
                forall|k: int|
                    0 <= k < i ==> out@[k].path@
                        == self.cargo_lock_files_with_changed_manifest_versions@[k]@
                        && out@[k].new_contents@ == replace_all(
                        current_contents@[k]@,
                        v3_marker(),
                        v4_marker(),
                    ),
            decreases n - i,
        {
            let path = &self.cargo_lock_files_with_changed_manifest_versions[i];
            let path_copy = crate::bytes::copy_range(path.as_slice(), 0, path.len());
            proof {
                assert(path_copy@ =~= path@);
            }
            let new_contents = crate::bytes::replace_all_bytes(
                current_contents[i].as_slice(),
                v3.as_slice(),
                v4.as_slice(),
            );
            out.push(FileRewrite { path: path_copy, new_contents });
            i += 1;
        }
        out
    }

    /// The new contents for one lock manifest that is known to carry a
    /// version-4 marker: with authorization the markers are downgraded,
    /// without it the build must stop with guidance.
    pub fn handle_v3v4_conflict(
        offending_cargo_lock: &Vec<u8>,
        is_force_overwrite_lockfiles_v4_to_v3: bool,
    ) -> (r: Result<Vec<u8>, LockfileError>)
        ensures
            match r {
                Ok(w) => is_force_overwrite_lockfiles_v4_to_v3 && w@ == downgraded(
                    offending_cargo_lock@,
                ),
                Err(e) => !is_force_overwrite_lockfiles_v4_to_v3 && e
                    == LockfileError::ForceRequired,
            },
    {
        if !is_force_overwrite_lockfiles_v4_to_v3 {
            return Err(LockfileError::ForceRequired);
        }
        let v4 = v4_marker_bytes();
        let v3 = v3_marker_bytes();
        Ok(crate::bytes::replace_all_bytes(
            offending_cargo_lock.as_slice(),
            v4.as_slice(),
            v3.as_slice(),
        ))
    }
}

/// Law: a guarded manifest is restored byte for byte when the guard is
/// released, and while the guard holds its text differs from the original
/// only where the digit of a version-4 marker became a 3 — provided the
/// original held no version-3 marker line of its own.
pub proof fn lemma_guard_round_trip(original: Seq<u8>)
    requires
        !contains_seq(original, v3_marker()),
    ensures
        replace_all(downgraded(original), v3_marker(), v4_marker()) == original,
        downgraded(original).len() == original.len(),
        forall|k: int|
            0 <= k < original.len() ==> downgraded(original)[k] == original[k] || (original[k]
                == 52 && downgraded(original)[k] == 51),
{
    lemma_marker_round_trip(original);
    lemma_replace_all_pointwise(original, v4_marker(), v3_marker(), 11);
}

/// Law: when both the invoking and the required toolchain are at or above
/// the first release that writes version-4 lock manifests, the guard plans
/// no rewrite of any file, whatever the manifests hold and whether or not
/// overwriting was authorized.
pub proof fn lemma_thresholds_no_writes(
    shader_crate_path: Seq<u8>,
    host_rustc: Version,
    shader_rustc: Version,
    shader_lock: Option<Seq<u8>>,
    workspace_root: Option<Seq<u8>>,
    workspace_lock: Option<Seq<u8>>,
    force: bool,
)
    requires
        !below_release(host_rustc, V4_LOCKS_RUST_MAJOR, V4_LOCKS_RUST_MINOR, V4_LOCKS_RUST_PATCH),
        !below_release(
            shader_rustc,
            V4_LOCKS_RUST_MAJOR,
            V4_LOCKS_RUST_MINOR,
            V4_LOCKS_RUST_PATCH,
        ),
    ensures
        guard_plan(
            shader_crate_path,
            host_rustc,
            shader_rustc,
            shader_lock,
            workspace_root,
            workspace_lock,
            force,
        ) == Ok::<Seq<(Seq<u8>, Seq<u8>)>, LockfileError>(Seq::empty()),
{
    assert(guard_plan(
        shader_crate_path,
        host_rustc,
        shader_rustc,
        shader_lock,
        workspace_root,
        workspace_lock,
        force,
    ) == Ok::<Seq<(Seq<u8>, Seq<u8>)>, LockfileError>(seq![]));
    assert(seq![] =~= Seq::<(Seq<u8>, Seq<u8>)>::empty());
}

} // verus!
