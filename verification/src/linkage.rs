//! Shader linkage records, as they are written into the output manifest.
//!
//! A linkage names one shader entry point and the compiled module it lives
//! in. The module path is normalized to forward slashes so the manifest
//! reads the same on every platform, and the entry point gets a second
//! rendering without path separators for use from wgsl.

use vstd::prelude::*;

use crate::bytes::{push_all, replace_all};

verus! {

/// What stands after the first path separator of `s`, if `s` has one.
pub open spec fn after_first_sep(s: Seq<u8>) -> Option<Seq<u8>>
    decreases s.len(),
{
    if s.len() == 0 {
        None
    } else if s[0] == 47 {
        Some(s.skip(1))
    } else {
        after_first_sep(s.skip(1))
    }
}

/// The bytes of `s` before its first path separator, or all of `s`.
pub open spec fn first_seg_raw(s: Seq<u8>) -> Seq<u8>
    decreases s.len(),
{
    if s.len() == 0 {
        Seq::empty()
    } else if s[0] == 47 {
        Seq::empty()
    } else {
        seq![s[0]] + first_seg_raw(s.skip(1))
    }
}

proof fn lemma_after_first_sep_shrinks(s: Seq<u8>)
    ensures
        match after_first_sep(s) {
            Some(r) => r.len() < s.len(),
            None => true,
        },
    decreases s.len(),
{
    if s.len() > 0 && s[0] != 47 {
        lemma_after_first_sep_shrinks(s.skip(1));
    }
}

proof fn lemma_after_first_sep_at(s: Seq<u8>, i: int)
    requires
        0 <= i < s.len(),
        s[i] == 47,
        forall|k: int| 0 <= k < i ==> s[k] != 47,
    ensures
        after_first_sep(s) == Some(s.skip(i + 1)),
    decreases i,
{
    if i > 0 {
        lemma_after_first_sep_at(s.skip(1), i - 1);
        assert(s.skip(1).skip(i) =~= s.skip(i + 1));
    }
}

proof fn lemma_after_first_sep_none(s: Seq<u8>)
    requires
        forall|k: int| 0 <= k < s.len() ==> s[k] != 47,
    ensures
        after_first_sep(s) is None,
    decreases s.len(),
{
    if s.len() > 0 {
        lemma_after_first_sep_none(s.skip(1));
    }
}

proof fn lemma_first_seg_raw_at(s: Seq<u8>, i: int)
    requires
        0 <= i < s.len(),
        s[i] == 47,
        forall|k: int| 0 <= k < i ==> s[k] != 47,
    ensures
        first_seg_raw(s) == s.take(i),
    decreases i,
{
    if i == 0 {
        assert(s.take(0) =~= Seq::<u8>::empty());
    } else {
        lemma_first_seg_raw_at(s.skip(1), i - 1);
        assert(seq![s[0]] + s.skip(1).take(i - 1) =~= s.take(i));
    }
}

proof fn lemma_first_seg_raw_none(s: Seq<u8>)
    requires
        forall|k: int| 0 <= k < s.len() ==> s[k] != 47,
    ensures
        first_seg_raw(s) == s,
    decreases s.len(),
{
    if s.len() > 0 {
        lemma_first_seg_raw_none(s.skip(1));
        assert(seq![s[0]] + s.skip(1) =~= s);
    }
}

/// Whether a raw segment survives: empty runs between separators and bare
/// current-directory dots are dropped.
pub open spec fn seg_kept(seg: Seq<u8>) -> bool {
    seg.len() > 0 && seg != seq![46u8]
}

/// The kept segments of a path, in order.
pub open spec fn segs(s: Seq<u8>) -> Seq<Seq<u8>>
    decreases s.len(),
    via segs_decreases
{
    if s.len() == 0 {
        Seq::empty()
    } else {
        let head: Seq<Seq<u8>> = if seg_kept(first_seg_raw(s)) {
            seq![first_seg_raw(s)]
        } else {
            Seq::empty()
        };
        match after_first_sep(s) {
            None => head,
            Some(r) => head + segs(r),
        }
    }
}

#[via_fn]
proof fn segs_decreases(s: Seq<u8>) {
    lemma_after_first_sep_shrinks(s);
}

/// The components of a path: a leading separator is the root component, a
/// leading current-directory dot is kept, and then the kept segments
/// follow.
pub open spec fn path_components(s: Seq<u8>) -> Seq<Seq<u8>> {
    if s.len() > 0 && s[0] == 47 {
        seq![seq![47u8]] + segs(s)
    } else if s.len() > 0 && s[0] == 46 && (s.len() == 1 || s[1] == 47) {
        seq![seq![46u8]] + segs(s)
    } else {
        segs(s)
    }
}

/// Components joined by single forward slashes.
pub open spec fn join_components(cs: Seq<Seq<u8>>) -> Seq<u8>
    decreases cs.len(),
{
    if cs.len() == 0 {
        Seq::empty()
    } else if cs.len() == 1 {
        cs[0]
    } else {
        cs[0] + seq![47u8] + join_components(cs.skip(1))
    }
}

/// A path normalized to the forward-slash convention: its components,
/// joined by single slashes.
pub open spec fn normalized_path(s: Seq<u8>) -> Seq<u8> {
    join_components(path_components(s))
}

/// The separator pair that is removed from an entry point's name for wgsl.
pub open spec fn path_sep_pair() -> Seq<u8> {
    seq![58u8, 58u8]
}

/// Splits a path into its kept segments.
fn collect_segs(s: &[u8]) -> (r: Vec<Vec<u8>>)
    ensures
        r@.len() == segs(s@).len(),
        forall|i: int| 0 <= i < r@.len() ==> r@[i]@ == segs(s@)[i],
{
    let n = s.len();
    let mut out: Vec<Vec<u8>> = Vec::new();
    let ghost mut done: Seq<Seq<u8>> = Seq::empty();
    let mut pos: usize = 0;
    proof {
        assert(s@.skip(0) =~= s@);
        assert(done + segs(s@) =~= segs(s@));
    }
    while pos < n
        invariant
            0 <= pos <= n,
            n == s@.len(),
            segs(s@) == done + segs(s@.skip(pos as int)),
            out@.len() == done.len(),
            forall|i: int| 0 <= i < out@.len() ==> out@[i]@ == done[i],
        decreases n - pos,
    {
        let ghost seg_text = s@.skip(pos as int);
        proof {
            assert(forall|k: int| 0 <= k < seg_text.len() ==> seg_text[k] == s@[pos + k]);
        }
        let found = crate::bytes::find_byte_from(s, 47, pos);
        let seg_end = match found {
            Some(i) => {
                proof {
                    lemma_first_seg_raw_at(seg_text, i - pos);
                    assert(seg_text.take(i - pos) =~= s@.subrange(pos as int, i as int));
                }
                i
            },
            None => {
                proof {
                    lemma_first_seg_raw_none(seg_text);
                    assert(seg_text =~= s@.subrange(pos as int, n as int));
                }
                n
            },
        };
        let seg = crate::bytes::copy_range(s, pos, seg_end);
        proof {
            assert(seg@ =~= first_seg_raw(seg_text));
        }
        let keep = if seg.len() == 0 {
            false
        } else if seg.len() == 1 && seg[0] == 46 {
            proof {
                assert(seg@ =~= seq![46u8]);
            }
            false
        } else {
            proof {
                if seg@.len() == 1 {
                    assert(seg@[0] != 46);
                    assert(seg@ != seq![46u8]);
                } else {
                    assert(seg@.len() != seq![46u8].len());
                }
            }
            true
        };
        let ghost head: Seq<Seq<u8>> = if seg_kept(first_seg_raw(seg_text)) {
            seq![first_seg_raw(seg_text)]
        } else {
            Seq::empty()
        };
        if keep {
            out.push(seg);
        }
        proof {
            done = done + head;
        }
        match found {
            None => {
                proof {
                    lemma_after_first_sep_none(seg_text);
                    assert(segs(seg_text) =~= head);
                    assert(s@.skip(n as int).len() == 0);
                    assert(segs(s@.skip(n as int)) =~= Seq::<Seq<u8>>::empty());
                    assert(done + segs(s@.skip(n as int)) =~= segs(s@));
                }
                pos = n;
            },
            Some(i) => {
                proof {
                    lemma_after_first_sep_at(seg_text, i - pos);
                    assert(seg_text.skip(i - pos + 1) =~= s@.skip(i + 1));
                    assert(segs(seg_text) =~= head + segs(s@.skip(i + 1)));
                    assert(done + segs(s@.skip(i + 1)) =~= segs(s@));
                }
                pos = i + 1;
            },
        }
    }
    proof {
        assert(s@.skip(n as int).len() == 0);
        assert(segs(s@.skip(n as int)) =~= Seq::<Seq<u8>>::empty());
        assert(done =~= segs(s@));
    }
    out
}

/// The rest of a join: nothing when no components remain, else the
/// components joined, with a leading slash when something already stands
/// before them.
pub open spec fn join_rest(cs: Seq<Seq<u8>>, lead: bool) -> Seq<u8> {
    if cs.len() == 0 {
        Seq::empty()
    } else if lead {
        seq![47u8] + join_components(cs)
    } else {
        join_components(cs)
    }
}

proof fn lemma_join_rest_unfold(cs: Seq<Seq<u8>>, lead: bool)
    requires
        cs.len() > 0,
    ensures
        join_rest(cs, lead) == (if lead {
            seq![47u8]
        } else {
            Seq::<u8>::empty()
        }) + cs[0] + join_rest(cs.skip(1), true),
{
    if cs.len() == 1 {
        assert(cs.skip(1).len() == 0);
        assert(join_components(cs) == cs[0]);
        if lead {
            assert(seq![47u8] + join_components(cs) =~= seq![47u8] + cs[0] + Seq::<u8>::empty());
        } else {
            assert(join_components(cs) =~= Seq::<u8>::empty() + cs[0] + Seq::<u8>::empty());
        }
    } else {
        assert(join_components(cs) == cs[0] + seq![47u8] + join_components(cs.skip(1)));
        if lead {
            assert(seq![47u8] + join_components(cs) =~= seq![47u8] + cs[0] + (seq![47u8]
                + join_components(cs.skip(1))));
        } else {
            assert(join_components(cs) =~= Seq::<u8>::empty() + cs[0] + (seq![47u8]
                + join_components(cs.skip(1))));
        }
    }
}

/// Normalizes a path to the forward-slash convention.
pub fn normalize_path(s: &[u8]) -> (r: Vec<u8>)
    ensures
        r@ == normalized_path(s@),
{
    let pieces = collect_segs(s);
    let mut out: Vec<u8> = Vec::new();
    let mut lead = false;
    if s.len() > 0 && s[0] == 47 {
        out.push(47);
        lead = true;
        proof {
            assert(out@ =~= seq![47u8]);
        }
    } else if s.len() > 0 && s[0] == 46 && (s.len() == 1 || s[1] == 47) {
        out.push(46);
        lead = true;
        proof {
            assert(out@ =~= seq![46u8]);
        }
    }
    let ghost comps = path_components(s@);
    let extra: usize = if lead {
        1
    } else {
        0
    };
    proof {
        if lead {
            assert(comps =~= seq![out@] + segs(s@));
            assert(comps.skip(1) =~= segs(s@));
            if comps.len() == 1 {
                assert(join_components(comps) == out@);
                assert(join_components(comps) =~= out@ + join_rest(comps.skip(1), true));
            } else {
                assert(join_components(comps) == comps[0] + seq![47u8] + join_components(
                    comps.skip(1),
                ));
                assert(join_components(comps) =~= out@ + join_rest(comps.skip(1), true));
            }
        } else {
            assert(comps =~= segs(s@));
            assert(comps.skip(0) =~= comps);
            assert(out@ + join_rest(comps.skip(0), false) =~= join_rest(comps, false));
            assert(join_rest(comps, false) == join_components(comps));
        }
    }
    let n = pieces.len();
    let mut i: usize = 0;
    while i < n
        invariant
            0 <= i <= n,
            n == segs(s@).len(),
            pieces@.len() == n,
            forall|k: int| 0 <= k < n ==> pieces@[k]@ == segs(s@)[k],
            extra == if lead {
                1int
            } else {
                0int
            },
            comps == path_components(s@),
            comps.len() == n + extra,
            forall|k: int| 0 <= k < n ==> comps[k + extra] == segs(s@)[k],
            join_components(comps) == out@ + join_rest(
                comps.skip(i + extra),
                i + extra > 0,
            ),
        decreases n - i,
    {
        let ghost rest = comps.skip(i + extra);
        proof {
            assert(rest.len() > 0);
            assert(rest[0] == comps[i + extra]);
            assert(rest[0] == pieces@[i as int]@);
            lemma_join_rest_unfold(rest, i + extra > 0);
            assert(rest.skip(1) =~= comps.skip(i + extra + 1));
        }
        if i > 0 || lead {
            out.push(47);
        }
        push_all(&mut out, pieces[i].as_slice());
        i += 1;
        proof {
            assert(join_components(comps) =~= out@ + join_rest(
                comps.skip(i + extra),
                i + extra > 0,
            ));
        }
    }
    proof {
        assert(comps.skip(n + extra) =~= Seq::<Seq<u8>>::empty());
        assert(join_rest(comps.skip(n + extra), n + extra > 0) =~= Seq::<u8>::empty());
        assert(out@ =~= join_components(comps));
    }
    out
}

/// One shader entry point and the module that holds it.
#[derive(Clone, Debug, PartialEq, Eq)]
pub struct Linkage {
    /// Path of the compiled module, with forward slashes on every platform.
    pub source_path: Vec<u8>,
    /// The entry point's name.
    pub entry_point: Vec<u8>,
    /// The entry point's name with the path-separator pairs removed, as
    /// wgsl wants it.
    pub wgsl_entry_point: Vec<u8>,
}

impl Linkage {
    /// Builds the linkage record for one entry point: the module path
    /// normalized to forward slashes, the entry point kept as given, and
    /// its wgsl rendering with the separator pairs removed.
    pub fn new(entry_point: &Vec<u8>, source_path: &Vec<u8>) -> (r: Linkage)
        ensures
            r.source_path@ == normalized_path(source_path@),
            r.entry_point@ == entry_point@,
            r.wgsl_entry_point@ == replace_all(entry_point@, path_sep_pair(), Seq::empty()),
    {
        let normalized = normalize_path(source_path.as_slice());
        let entry = crate::bytes::copy_range(entry_point.as_slice(), 0, entry_point.len());
        proof {
            assert(entry@ =~= entry_point@);
        }
        let mut pair: Vec<u8> = Vec::new();
        pair.push(58);
        pair.push(58);
        proof {
            assert(pair@ =~= path_sep_pair());
        }
        let empty: Vec<u8> = Vec::new();
        let wgsl = crate::bytes::replace_all_bytes(
            entry_point.as_slice(),
            pair.as_slice(),
            empty.as_slice(),
        );
        proof {
            assert(empty@ =~= Seq::<u8>::empty());
        }
        Linkage { source_path: normalized, entry_point: entry, wgsl_entry_point: wgsl }
    }
}

} // verus!
