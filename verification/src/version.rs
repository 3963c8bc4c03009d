//! Semantic version values, as far as this library needs them: carrying the
//! parsed components around, rendering them, and ordering a version against a
//! plain release version (used for the lock-manifest format threshold).

use vstd::prelude::*;

verus! {

/// A parsed semantic version. `pre` and `build` hold the pre-release and
/// build-metadata identifiers as raw text, empty when absent.
#[derive(Clone, Debug, PartialEq, Eq)]
pub struct Version {
    pub major: u64,
    pub minor: u64,
    pub patch: u64,
    pub pre: Vec<u8>,
    pub build: Vec<u8>,
}

/// Decimal rendering of a number, most significant digit first.
pub open spec fn dec_digits(n: nat) -> Seq<u8>
    decreases n,
{
    if n < 10 {
        seq![(48 + n) as u8]
    } else {
        dec_digits(n / 10) + seq![(48 + n % 10) as u8]
    }
}

/// Rendering of a version: `major.minor.patch`, then `-pre` when a
/// pre-release is present and `+build` when build metadata is present.
pub open spec fn render_spec(v: Version) -> Seq<u8> {
    dec_digits(v.major as nat) + seq![46u8] + dec_digits(v.minor as nat) + seq![46u8] + dec_digits(
        v.patch as nat,
    ) + (if v.pre.len() > 0 {
        seq![45u8] + v.pre@
    } else {
        Seq::<u8>::empty()
    }) + (if v.build.len() > 0 {
        seq![43u8] + v.build@
    } else {
        Seq::<u8>::empty()
    })
}

/// Semantic-version order of `v` against the plain release version
/// `major.minor.patch`: the number triples are compared first, and on a tie a
/// pre-release sorts before the release.
pub open spec fn below_release(v: Version, major: u64, minor: u64, patch: u64) -> bool {
    ||| v.major < major
    ||| (v.major == major && v.minor < minor)
    ||| (v.major == major && v.minor == minor && v.patch < patch)
    ||| (v.major == major && v.minor == minor && v.patch == patch && v.pre.len() > 0)
}

/// Appends the decimal rendering of `n`.
fn push_dec(out: &mut Vec<u8>, n: u64)
    ensures
        final(out)@ == old(out)@ + dec_digits(n as nat),
    decreases n,
{
    if n < 10 {
        out.push(48 + n as u8);
        proof {
            assert(final(out)@ =~= old(out)@ + dec_digits(n as nat));
        }
    } else {
        push_dec(out, n / 10);
        out.push(48 + (n % 10) as u8);
        proof {
            assert(final(out)@ =~= old(out)@ + dec_digits(n as nat));
        }
    }
}

/// True when two versions carry the same components.
pub open spec fn version_views_match(a: Version, b: Version) -> bool {
    &&& a.major == b.major
    &&& a.minor == b.minor
    &&& a.patch == b.patch
    &&& a.pre@ == b.pre@
    &&& a.build@ == b.build@
}

impl Version {
    /// A copy of this version with the same components.
    pub fn duplicate(&self) -> (r: Version)
        ensures
            version_views_match(*self, r),
    {
        let r = Version {
            major: self.major,
            minor: self.minor,
            patch: self.patch,
            pre: crate::bytes::copy_range(self.pre.as_slice(), 0, self.pre.len()),
            build: crate::bytes::copy_range(self.build.as_slice(), 0, self.build.len()),
        };
        proof {
            assert(r.pre@ =~= self.pre@);
            assert(r.build@ =~= self.build@);
        }
        r
    }

    /// A version with neither pre-release nor build metadata.
    pub fn release(major: u64, minor: u64, patch: u64) -> (r: Version)
        ensures
            r.major == major,
            r.minor == minor,
            r.patch == patch,
            r.pre@ == Seq::<u8>::empty(),
            r.build@ == Seq::<u8>::empty(),
    {
        let pre: Vec<u8> = Vec::new();
        let build: Vec<u8> = Vec::new();
        Version { major, minor, patch, pre, build }
    }

    /// Whether this version sorts strictly below the plain release version
    /// `major.minor.patch`.
    pub fn is_below(&self, major: u64, minor: u64, patch: u64) -> (r: bool)
        ensures
            r == below_release(*self, major, minor, patch),
    {
        if self.major != major {
            self.major < major
        } else if self.minor != minor {
            self.minor < minor
        } else if self.patch != patch {
            self.patch < patch
        } else {
            self.pre.len() > 0
        }
    }

    /// The textual rendering of this version.
    pub fn render(&self) -> (r: Vec<u8>)
        ensures
            r@ == render_spec(*self),
    {
        let mut out: Vec<u8> = Vec::new();
        push_dec(&mut out, self.major);
        out.push(46);
        push_dec(&mut out, self.minor);
        out.push(46);
        push_dec(&mut out, self.patch);
        if self.pre.len() > 0 {
            out.push(45);
            crate::bytes::push_all(&mut out, self.pre.as_slice());
        }
        if self.build.len() > 0 {
            out.push(43);
            crate::bytes::push_all(&mut out, self.build.as_slice());
        }
        proof {
            assert(out@ =~= render_spec(*self));
        }
        out
    }
}

/// Marker for text that the semantic-version grammar rejects.
#[derive(Clone, Copy, Debug, PartialEq, Eq, Structural)]
pub struct VersionParseError;

/// The components that the semantic-version grammar gives to a text, if it
/// accepts the text at all. Stated only through the trusted parser below.
pub uninterp spec fn semver_of(s: Seq<u8>) -> Option<(u64, u64, u64, Seq<u8>, Seq<u8>)>;

/// Relies on `semver::Version::parse`: the parsed components are a function
/// of the text alone, and parsing fails exactly where the grammar rejects it.
#[verifier::external_body]
pub fn parse_version(s: &Vec<u8>) -> (r: Result<Version, VersionParseError>)
    ensures
        match r {
            Ok(v) => semver_of(s@) == Some::<(u64, u64, u64, Seq<u8>, Seq<u8>)>(
                (v.major, v.minor, v.patch, v.pre@, v.build@),
            ),
            Err(_) => semver_of(s@) is None,
        },
{
    let text = match core::str::from_utf8(s) {
        Ok(text) => text,
        Err(_) => return Err(VersionParseError),
    };
    match semver::Version::parse(text) {
        Ok(v) => Ok(Version {
            major: v.major,
            minor: v.minor,
            patch: v.patch,
            pre: v.pre.as_str().as_bytes().to_vec(),
            build: v.build.as_str().as_bytes().to_vec(),
        }),
        Err(_) => Err(VersionParseError),
    }
}

} // verus!
