//! A byte-level model of slash-separated file paths.
//!
//! Paths are plain byte strings with `/` between segments. Joining appends a
//! segment; taking the parent drops the last segment. A lone leading
//! separator (the filesystem root) is kept by `parent`, and the parent of a
//! separator-free non-empty path is the empty path, which has no parent
//! itself.

use vstd::prelude::*;

use crate::bytes::{copy_range, push_all, rfind_byte};

verus! {

/// The path separator.
pub open spec fn sep() -> u8 {
    47u8
}

/// `a` extended by the segment `b`.
pub open spec fn join_spec(a: Seq<u8>, b: Seq<u8>) -> Seq<u8> {
    if a.len() == 0 {
        b
    } else if a[a.len() - 1] == sep() {
        a + b
    } else {
        a + seq![sep()] + b
    }
}

/// The path without its last segment, `None` when nothing is above it.
pub open spec fn parent_spec(s: Seq<u8>) -> Option<Seq<u8>> {
    if s.len() == 0 {
        None
    } else if !exists|k: int| 0 <= k < s.len() && s[k] == sep() {
        Some(Seq::<u8>::empty())
    } else {
        let p = choose|p: int|
            0 <= p < s.len() && s[p] == sep() && (forall|k: int| p < k < s.len() ==> s[k] != sep());
        if p == 0 {
            if s.len() == 1 {
                None
            } else {
                Some(seq![sep()])
            }
        } else {
            Some(s.take(p))
        }
    }
}

/// Joins a path and a further segment.
pub fn path_join(a: &[u8], b: &[u8]) -> (r: Vec<u8>)
    ensures
        r@ == join_spec(a@, b@),
{
    let mut out = copy_range(a, 0, a.len());
    proof {
        assert(out@ =~= a@);
    }
    if a.len() > 0 && a[a.len() - 1] != 47 {
        out.push(47);
    }
    push_all(&mut out, b);
    proof {
        assert(out@ =~= join_spec(a@, b@));
    }
    out
}

/// The parent of a path.
pub fn parent_path(s: &[u8]) -> (r: Option<Vec<u8>>)
    ensures
        match r {
            Some(p) => parent_spec(s@) == Some(p@),
            None => parent_spec(s@) is None,
        },
{
    if s.len() == 0 {
        return None;
    }
    match rfind_byte(s, 47) {
        None => {
            proof {
                assert(parent_spec(s@) == Some(Seq::<u8>::empty()));
            }
            Some(Vec::new())
        },
        Some(p) => {
            proof {
                let q = choose|q: int|
                    0 <= q < s@.len() && s@[q] == sep() && (forall|k: int|
                        q < k < s@.len() ==> s@[k] != sep());
                assert(s@[q] == sep());
                assert(q == p) by {
                    if q < p {
                        assert(s@[p as int] != sep());
                    }
                    if q > p {
                        assert(s@[q] != sep());
                    }
                }
            }
            if p == 0 {
                if s.len() == 1 {
                    None
                } else {
                    let mut out: Vec<u8> = Vec::new();
                    out.push(47);
                    proof {
                        assert(out@ =~= seq![sep()]);
                    }
                    Some(out)
                }
            } else {
                Some(copy_range(s, 0, p))
            }
        },
    }
}

} // verus!
