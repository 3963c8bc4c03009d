//! The data behind the information subcommand, and the target listing.
//!
//! Listing the available targets means reading the resolved spec
//! directory: every file name carrying the spec-file suffix names one
//! target triple, and the triples are reported sorted. The directory
//! reading happens outside; the stripping and ordering is decided here.

use vstd::prelude::*;
use vstd::assert_multisets_equal;

use crate::bytes::has_suffix;
use crate::install::{json_suffix, json_suffix_bytes};

verus! {

/// Where the shader crate to inspect lies.
#[derive(Clone, Debug)]
pub struct SpirvSourceDep {
    /// The location of the shader crate whose backend dependency is read.
    pub shader_crate: Vec<u8>,
}

/// The pieces of information that can be asked for.
#[derive(Debug)]
pub enum Info {
    /// The cache directory's location.
    CacheDirectory,
    /// The resolved backend source of a shader crate.
    SpirvSource(SpirvSourceDep),
    /// The revision this tool was built from.
    Commitsh,
    /// The capabilities that can be switched on for a build.
    Capabilities,
    /// The targets available for a shader crate's backend.
    Targets(SpirvSourceDep),
}

/// The information subcommand.
#[derive(Debug)]
pub struct Show {
    /// What to show.
    pub command: Info,
}

/// Byte-wise lexicographic order on names.
pub open spec fn lex_le(a: Seq<u8>, b: Seq<u8>) -> bool
    decreases a.len(),
{
    if a.len() == 0 {
        true
    } else if b.len() == 0 {
        false
    } else if a[0] < b[0] {
        true
    } else if a[0] > b[0] {
        false
    } else {
        lex_le(a.skip(1), b.skip(1))
    }
}

/// The order is total.
pub proof fn lemma_lex_le_total(a: Seq<u8>, b: Seq<u8>)
    ensures
        lex_le(a, b) || lex_le(b, a),
    decreases a.len(),
{
    if a.len() > 0 && b.len() > 0 && a[0] == b[0] {
        lemma_lex_le_total(a.skip(1), b.skip(1));
    }
}

/// The order is transitive.
pub proof fn lemma_lex_le_trans(a: Seq<u8>, b: Seq<u8>, c: Seq<u8>)
    requires
        lex_le(a, b),
        lex_le(b, c),
    ensures
        lex_le(a, c),
    decreases a.len(),
{
    if a.len() > 0 && b.len() > 0 && c.len() > 0 && a[0] == b[0] && b[0] == c[0] {
        lemma_lex_le_trans(a.skip(1), b.skip(1), c.skip(1));
    }
}

/// Decides the lexicographic order on two names.
pub fn lex_le_bytes(a: &[u8], b: &[u8]) -> (r: bool)
    ensures
        r == lex_le(a@, b@),
{
    let na = a.len();
    let nb = b.len();
    let mut i: usize = 0;
    proof {
        assert(a@.skip(0) =~= a@);
        assert(b@.skip(0) =~= b@);
    }
    loop
        invariant
            0 <= i <= na,
            i <= nb,
            na == a@.len(),
            nb == b@.len(),
            lex_le(a@, b@) == lex_le(a@.skip(i as int), b@.skip(i as int)),
        decreases na - i,
    {
        let ghost ra = a@.skip(i as int);
        let ghost rb = b@.skip(i as int);
        if i >= na {
            proof {
                assert(ra.len() == 0);
            }
            return true;
        }
        if i >= nb {
            proof {
                assert(ra.len() > 0 && rb.len() == 0);
            }
            return false;
        }
        if a[i] < b[i] {
            return true;
        }
        if a[i] > b[i] {
            return false;
        }
        proof {
            assert(ra.skip(1) =~= a@.skip(i + 1));
            assert(rb.skip(1) =~= b@.skip(i + 1));
        }
        i += 1;
    }
}

/// The views of a list of owned names.
pub open spec fn views_of(s: Seq<Vec<u8>>) -> Seq<Seq<u8>> {
    s.map_values(|v: Vec<u8>| v@)
}

proof fn lemma_views_push(s: Seq<Vec<u8>>, v: Vec<u8>)
    ensures
        views_of(s.push(v)).to_multiset() == views_of(s).to_multiset().insert(v@),
{
    broadcast use vstd::seq_lib::group_to_multiset_ensures;

    assert(views_of(s.push(v)) =~= views_of(s).push(v@));
}

proof fn lemma_views_remove(s: Seq<Vec<u8>>, i: int)
    requires
        0 <= i < s.len(),
    ensures
        views_of(s.remove(i)).to_multiset() == views_of(s).to_multiset().remove(s[i]@),
{
    broadcast use vstd::seq_lib::group_to_multiset_ensures;

    assert(views_of(s.remove(i)) =~= views_of(s).remove(i));
    assert(views_of(s)[i] == s[i]@);
}

/// Sorts a list of names into byte-wise lexicographic order. The result
/// holds the same names, each as often as before.
pub fn sort_names(items: Vec<Vec<u8>>) -> (r: Vec<Vec<u8>>)
    ensures
        r@.len() == items@.len(),
        forall|i: int, j: int| 0 <= i <= j < r@.len() ==> lex_le(r@[i]@, r@[j]@),
        views_of(r@).to_multiset() == views_of(items@).to_multiset(),
{
    let ghost orig = views_of(items@).to_multiset();
    let mut rem = items;
    let mut out: Vec<Vec<u8>> = Vec::new();
    proof {
        broadcast use vstd::seq_lib::group_to_multiset_ensures;

        assert(views_of(out@) =~= Seq::<Seq<u8>>::empty());
        assert(views_of(out@).to_multiset().add(views_of(rem@).to_multiset()) =~= orig);
    }
    while rem.len() > 0
        invariant
            views_of(out@).to_multiset().add(views_of(rem@).to_multiset()) == orig,
            out@.len() + rem@.len() == views_of(out@).to_multiset().len() + views_of(
                rem@,
            ).to_multiset().len(),
            forall|i: int, j: int| 0 <= i <= j < out@.len() ==> lex_le(out@[i]@, out@[j]@),
            forall|i: int, j: int|
                0 <= i < out@.len() && 0 <= j < rem@.len() ==> lex_le(out@[i]@, rem@[j]@),
        decreases rem@.len(),
    {
        let n = rem.len();
        let mut m: usize = 0;
        let mut k: usize = 1;
        proof {
            lemma_lex_le_total(rem@[0]@, rem@[0]@);
        }
        while k < n
            invariant
                0 <= m < k <= n,
                n == rem@.len(),
                forall|j: int| 0 <= j < k ==> lex_le(rem@[m as int]@, rem@[j]@),
            decreases n - k,
        {
            if !lex_le_bytes(rem[m].as_slice(), rem[k].as_slice()) {
                proof {
                    lemma_lex_le_total(rem@[m as int]@, rem@[k as int]@);
                    assert forall|j: int| 0 <= j < k + 1 implies lex_le(
                        rem@[k as int]@,
                        rem@[j]@,
                    ) by {
                        if j < k {
                            lemma_lex_le_trans(rem@[k as int]@, rem@[m as int]@, rem@[j]@);
                        } else {
                            lemma_lex_le_total(rem@[k as int]@, rem@[k as int]@);
                        }
                    }
                }
                m = k;
            }
            k += 1;
        }
        let ghost rem_before = rem@;
        let chosen = rem.remove(m);
        proof {
            broadcast use vstd::seq_lib::group_to_multiset_ensures;

            lemma_views_remove(rem_before, m as int);
            lemma_views_push(out@, chosen);
            assert(rem_before[m as int] == chosen);
            assert(views_of(rem_before)[m as int] == chosen@);
            assert(views_of(rem_before).contains(chosen@));
            assert(views_of(rem_before).to_multiset().contains(chosen@));
            assert_multisets_equal!(
                views_of(out@.push(chosen)).to_multiset().add(views_of(rem@).to_multiset()),
                orig
            );
            assert forall|i: int, j: int|
                0 <= i < out@.push(chosen).len() && 0 <= j < rem@.len() implies lex_le(
                out@.push(chosen)[i]@,
                rem@[j]@,
            ) by {
                let before_j: int = if j < m {
                    j
                } else {
                    j + 1
                };
                assert(rem@[j] == rem_before[before_j]);
                if i < out@.len() {
                    assert(lex_le(out@[i]@, rem_before[before_j]@));
                } else {
                    assert(out@.push(chosen)[i] == chosen);
                    assert(lex_le(chosen@, rem_before[before_j]@));
                }
            }
        }
        out.push(chosen);
    }
    proof {
        broadcast use vstd::seq_lib::group_to_multiset_ensures;

        assert(views_of(rem@) =~= Seq::<Seq<u8>>::empty());
        assert(views_of(out@).to_multiset().add(views_of(rem@).to_multiset()) =~= views_of(
            out@,
        ).to_multiset());
        assert(out@.len() == views_of(out@).len());
        assert(views_of(out@).to_multiset().len() == views_of(out@).len());
    }
    out
}

/// The target names among a list of file names: every name carrying the
/// spec-file suffix, with the suffix removed, in order.
pub open spec fn stripped_targets(names: Seq<Seq<u8>>) -> Seq<Seq<u8>>
    decreases names.len(),
{
    if names.len() == 0 {
        Seq::empty()
    } else {
        (if has_suffix(names[0], json_suffix()) {
            seq![names[0].take(names[0].len() - json_suffix().len())]
        } else {
            Seq::<Seq<u8>>::empty()
        }) + stripped_targets(names.skip(1))
    }
}

/// The targets available in a spec directory, given its file names: the
/// names carrying the spec-file suffix, suffix stripped, sorted.
pub fn available_spirv_targets(filenames: &Vec<Vec<u8>>) -> (r: Vec<Vec<u8>>)
    ensures
        forall|i: int, j: int| 0 <= i <= j < r@.len() ==> lex_le(r@[i]@, r@[j]@),
        views_of(r@).to_multiset() == stripped_targets(views_of(filenames@)).to_multiset(),
{
    let suffix = json_suffix_bytes();
    let n = filenames.len();
    let mut kept: Vec<Vec<u8>> = Vec::new();
    let ghost mut done: Seq<Seq<u8>> = Seq::empty();
    let mut i: usize = 0;
    proof {
        assert(views_of(filenames@).skip(0) =~= views_of(filenames@));
        assert(done + stripped_targets(views_of(filenames@)) =~= stripped_targets(
            views_of(filenames@),
        ));
    }
    while i < n
        invariant
            0 <= i <= n,
            n == filenames@.len(),
            suffix@ == json_suffix(),
            stripped_targets(views_of(filenames@)) == done + stripped_targets(
                views_of(filenames@).skip(i as int),
            ),
            kept@.len() == done.len(),
            forall|k: int| 0 <= k < kept@.len() ==> kept@[k]@ == done[k],
        decreases n - i,
    {
        let ghost rest = views_of(filenames@).skip(i as int);
        proof {
            assert(forall|k: int| 0 <= k < rest.len() ==> rest[k] == filenames@[i + k]@);
            assert(rest[0] == filenames@[i as int]@);
            assert(rest.skip(1) =~= views_of(filenames@).skip(i + 1));
        }
        let name = &filenames[i];
        if crate::bytes::ends_with(name.as_slice(), suffix.as_slice()) {
            let stripped = crate::bytes::copy_range(name.as_slice(), 0, name.len() - suffix.len());
            proof {
                assert(stripped@ =~= rest[0].take(rest[0].len() - json_suffix().len()));
                done = done.push(stripped@);
            }
            kept.push(stripped);
        } else {
            proof {
                assert(stripped_targets(rest) =~= stripped_targets(rest.skip(1)));
            }
        }
        proof {
            assert(done + stripped_targets(views_of(filenames@).skip(i + 1)) =~= stripped_targets(
                views_of(filenames@),
            ));
        }
        i += 1;
    }
    proof {
        assert(views_of(filenames@).skip(n as int) =~= Seq::<Seq<u8>>::empty());
        assert(stripped_targets(views_of(filenames@).skip(n as int)) =~= Seq::<Seq<u8>>::empty());
        assert(done =~= stripped_targets(views_of(filenames@)));
        assert(views_of(kept@) =~= done);
    }
    sort_names(kept)
}

} // verus!
