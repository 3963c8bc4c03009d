//! Deciding whether the required toolchain and its components are present.
//!
//! The caller runs the toolchain manager's listing commands and hands the
//! raw output here; these functions decide whether the channel is already
//! installed and whether all required components are. A toolchain counts
//! when a whitespace-split token of the listing starts with the channel
//! name, a component counts when a line of its listing starts with the
//! component name and ends with the installed marker.

use vstd::prelude::*;

use crate::bytes::{has_prefix, has_suffix, lines_spec, matches_at};

verus! {

/// Whitespace, as the token split of the listings sees it.
pub open spec fn is_ws(b: u8) -> bool {
    b == 32 || b == 9 || b == 10 || b == 13 || b == 11 || b == 12
}

/// Whether a whitespace-delimited token begins at position `i`.
pub open spec fn token_start(s: Seq<u8>, i: int) -> bool {
    &&& 0 <= i < s.len()
    &&& !is_ws(s[i])
    &&& (i == 0 || is_ws(s[i - 1]))
}

/// Whether the token beginning at `i` starts with `channel`: the channel
/// text stands there and no whitespace cuts it short.
pub open spec fn channel_token_at(s: Seq<u8>, channel: Seq<u8>, i: int) -> bool {
    &&& token_start(s, i)
    &&& matches_at(s, channel, i)
    &&& forall|k: int| i <= k < i + channel.len() ==> !is_ws(s[k])
}

/// Whether some token of the toolchain listing starts with the channel.
pub open spec fn toolchain_listed(s: Seq<u8>, channel: Seq<u8>) -> bool {
    exists|i: int| channel_token_at(s, channel, i)
}

/// Decides [`channel_token_at`] for one position.
fn is_channel_token_at(s: &[u8], channel: &[u8], i: usize) -> (r: bool)
    requires
        i < s@.len(),
    ensures
        r == channel_token_at(s@, channel@, i as int),
{
    let n = s.len();
    let m = channel.len();
    let b = s[i];
    if b == 32 || b == 9 || b == 10 || b == 13 || b == 11 || b == 12 {
        return false;
    }
    if i > 0 {
        let p = s[i - 1];
        if !(p == 32 || p == 9 || p == 10 || p == 13 || p == 11 || p == 12) {
            return false;
        }
    }
    if m > n - i {
        proof {
            assert(!matches_at(s@, channel@, i as int));
        }
        return false;
    }
    if !crate::bytes::is_match_at(s, channel, i) {
        return false;
    }
    let mut k: usize = i;
    while k < i + m
        invariant
            i <= k <= i + m,
            i + m <= n,
            n == s@.len(),
            m == channel@.len(),
            forall|j: int| i <= j < k ==> !is_ws(s@[j]),
        decreases i + m - k,
    {
        let c = s[k];
        if c == 32 || c == 9 || c == 10 || c == 13 || c == 11 || c == 12 {
            return false;
        }
        k += 1;
    }
    true
}

/// Whether the toolchain listing already shows the channel: some
/// whitespace-separated token of the listing starts with the channel name.
pub fn toolchain_is_installed(toolchain_list: &[u8], channel: &[u8]) -> (r: bool)
    ensures
        r == toolchain_listed(toolchain_list@, channel@),
{
    let n = toolchain_list.len();
    let mut i: usize = 0;
    while i < n
        invariant
            0 <= i <= n,
            n == toolchain_list@.len(),
            forall|k: int| 0 <= k < i ==> !channel_token_at(toolchain_list@, channel@, k),
        decreases n - i,
    {
        if is_channel_token_at(toolchain_list, channel, i) {
            return true;
        }
        i += 1;
    }
    proof {
        assert(forall|k: int|
            channel_token_at(toolchain_list@, channel@, k) ==> 0 <= k < n);
    }
    false
}

/// The names of the three components the backend build needs.
/// The texts are `rust-src`, `rustc-dev` and `llvm-tools`.
pub open spec fn rust_src_name() -> Seq<u8> {
    seq![114u8, 117u8, 115u8, 116u8, 45u8, 115u8, 114u8, 99u8]
}

pub open spec fn rustc_dev_name() -> Seq<u8> {
    seq![114u8, 117u8, 115u8, 116u8, 99u8, 45u8, 100u8, 101u8, 118u8]
}

pub open spec fn llvm_tools_name() -> Seq<u8> {
    seq![108u8, 108u8, 118u8, 109u8, 45u8, 116u8, 111u8, 111u8, 108u8, 115u8]
}

/// The marker that closes the line of an installed component.
/// The text is `(installed)`.
pub open spec fn installed_marker() -> Seq<u8> {
    seq![40u8, 105u8, 110u8, 115u8, 116u8, 97u8, 108u8, 108u8, 101u8, 100u8, 41u8]
}

/// The name of the source component, as a runtime value.
fn rust_src_name_bytes() -> (r: Vec<u8>)
    ensures
        r@ == rust_src_name(),
{
    let mut v: Vec<u8> = Vec::new();
    v.push(114);
    v.push(117);
    v.push(115);
    v.push(116);
    v.push(45);
    v.push(115);
    v.push(114);
    v.push(99);
    proof {
        assert(v@ =~= rust_src_name());
    }
    v
}

/// Runtime value of `rustc_dev_name`.
fn rustc_dev_name_bytes() -> (r: Vec<u8>)
    ensures
        r@ == rustc_dev_name(),
{
    let mut v: Vec<u8> = Vec::new();
    v.push(114);
    v.push(117);
    v.push(115);
    v.push(116);
    v.push(99);
    v.push(45);
    v.push(100);
    v.push(101);
    v.push(118);
    proof {
        assert(v@ =~= rustc_dev_name());
    }
    v
}

/// Runtime value of `llvm_tools_name`.
fn llvm_tools_name_bytes() -> (r: Vec<u8>)
    ensures
        r@ == llvm_tools_name(),
{
    let mut v: Vec<u8> = Vec::new();
    v.push(108);
    v.push(108);
    v.push(118);
    v.push(109);
    v.push(45);
    v.push(116);
    v.push(111);
    v.push(111);
    v.push(108);
    v.push(115);
    proof {
        assert(v@ =~= llvm_tools_name());
    }
    v
}

/// Runtime value of `installed_marker`.
fn installed_marker_bytes() -> (r: Vec<u8>)
    ensures
        r@ == installed_marker(),
{
    let mut v: Vec<u8> = Vec::new();
    v.push(40);
    v.push(105);
    v.push(110);
    v.push(115);
    v.push(116);
    v.push(97);
    v.push(108);
    v.push(108);
    v.push(101);
    v.push(100);
    v.push(41);
    proof {
        assert(v@ =~= installed_marker());
    }
    v
}

/// Whether some line of the listing names this component as installed.
pub open spec fn component_line_present(lines: Seq<Seq<u8>>, name: Seq<u8>) -> bool {
    exists|i: int|
        0 <= i < lines.len() && has_prefix(#[trigger] lines[i], name) && has_suffix(
            lines[i],
            installed_marker(),
        )
}

/// Whether the component listing shows all three required components as
/// installed: for each, some line starts with its name and ends with the
/// installed marker.
pub open spec fn all_components_listed(s: Seq<u8>) -> bool {
    &&& component_line_present(lines_spec(s), rust_src_name())
    &&& component_line_present(lines_spec(s), rustc_dev_name())
    &&& component_line_present(lines_spec(s), llvm_tools_name())
}

proof fn lemma_component_line_push(lines: Seq<Seq<u8>>, line: Seq<u8>, name: Seq<u8>)
    ensures
        component_line_present(lines.push(line), name) == (component_line_present(lines, name)
            || (has_prefix(line, name) && has_suffix(line, installed_marker()))),
{
    if component_line_present(lines, name) {
        let i = choose|i: int|
            0 <= i < lines.len() && has_prefix(#[trigger] lines[i], name) && has_suffix(
                lines[i],
                installed_marker(),
            );
        assert(lines.push(line)[i] == lines[i]);
    }
    if has_prefix(line, name) && has_suffix(line, installed_marker()) {
        assert(lines.push(line)[lines.len() as int] == line);
        assert(component_line_present(lines.push(line), name));
    }
    if component_line_present(lines.push(line), name) {
        let i = choose|i: int|
            0 <= i < lines.push(line).len() && has_prefix(#[trigger] lines.push(line)[i], name)
                && has_suffix(lines.push(line)[i], installed_marker());
        if i < lines.len() {
            assert(lines[i] == lines.push(line)[i]);
        } else {
            assert(lines.push(line)[i] == line);
        }
    }
}

/// Whether all three required components are already installed, read off
/// the component listing.
pub fn all_components_installed(component_list: &[u8]) -> (r: bool)
    ensures
        r == all_components_listed(component_list@),
{
    let n = component_list.len();
    let rust_src = rust_src_name_bytes();
    let rustc_dev = rustc_dev_name_bytes();
    let llvm_tools = llvm_tools_name_bytes();
    let installed = installed_marker_bytes();
    let mut found_rust_src = false;
    let mut found_rustc_dev = false;
    let mut found_llvm_tools = false;
    let ghost mut processed: Seq<Seq<u8>> = Seq::empty();
    let mut pos: usize = 0;
    proof {
        assert(component_list@.skip(0) =~= component_list@);
        assert(processed + lines_spec(component_list@) =~= lines_spec(component_list@));
    }
    while pos < n
        invariant
            0 <= pos <= n,
            n == component_list@.len(),
            rust_src@ == rust_src_name(),
            rustc_dev@ == rustc_dev_name(),
            llvm_tools@ == llvm_tools_name(),
            installed@ == installed_marker(),
            lines_spec(component_list@) == processed + lines_spec(
                component_list@.skip(pos as int),
            ),
            found_rust_src == component_line_present(processed, rust_src_name()),
            found_rustc_dev == component_line_present(processed, rustc_dev_name()),
            found_llvm_tools == component_line_present(processed, llvm_tools_name()),
        decreases n - pos,
    {
        let ghost seg = component_list@.skip(pos as int);
        proof {
            assert(forall|k: int| 0 <= k < seg.len() ==> seg[k] == component_list@[pos + k]);
        }
        let found_newline = crate::bytes::find_byte_from(component_list, 10, pos);
        let line_end = match found_newline {
            Some(i) => {
                proof {
                    crate::bytes::lemma_first_line_raw_at(seg, i - pos);
                    assert(seg.take(i - pos) =~= component_list@.subrange(pos as int, i as int));
                }
                i
            },
            None => {
                proof {
                    crate::bytes::lemma_first_line_raw_none(seg);
                    assert(seg =~= component_list@.subrange(pos as int, n as int));
                }
                n
            },
        };
        let mut line = crate::bytes::copy_range(component_list, pos, line_end);
        if line.len() > 0 && line[line.len() - 1] == 13 {
            let _last = line.pop();
        }
        proof {
            assert(line@ =~= crate::bytes::strip_cr(crate::bytes::first_line_raw(seg)));
        }
        let is_installed_line = crate::bytes::ends_with(line.as_slice(), installed.as_slice());
        if is_installed_line && crate::bytes::starts_with(line.as_slice(), rust_src.as_slice()) {
            found_rust_src = true;
        }
        if is_installed_line && crate::bytes::starts_with(line.as_slice(), rustc_dev.as_slice()) {
            found_rustc_dev = true;
        }
        if is_installed_line && crate::bytes::starts_with(line.as_slice(), llvm_tools.as_slice()) {
            found_llvm_tools = true;
        }
        proof {
            lemma_component_line_push(processed, line@, rust_src_name());
            lemma_component_line_push(processed, line@, rustc_dev_name());
            lemma_component_line_push(processed, line@, llvm_tools_name());
            processed = processed.push(line@);
        }
        match found_newline {
            None => {
                proof {
                    crate::bytes::lemma_after_first_newline_none(seg);
                    assert(lines_spec(seg) =~= seq![line@]);
                    assert(component_list@.skip(n as int).len() == 0);
                    assert(lines_spec(component_list@.skip(n as int)) =~= Seq::<Seq<u8>>::empty());
                    assert(processed + lines_spec(component_list@.skip(n as int)) =~= lines_spec(
                        component_list@,
                    ));
                }
                pos = n;
            },
            Some(i) => {
                proof {
                    crate::bytes::lemma_after_first_newline_at(seg, i - pos);
                    assert(seg.skip(i - pos + 1) =~= component_list@.skip(i + 1));
                    assert(lines_spec(seg) =~= seq![line@] + lines_spec(
                        component_list@.skip(i + 1),
                    ));
                    assert(processed + lines_spec(component_list@.skip(i + 1)) =~= lines_spec(
                        component_list@,
                    ));
                }
                pos = i + 1;
            },
        }
    }
    proof {
        assert(component_list@.skip(n as int).len() == 0);
        assert(lines_spec(component_list@.skip(n as int)) =~= Seq::<Seq<u8>>::empty());
        assert(processed =~= lines_spec(component_list@));
    }
    found_rust_src && found_rustc_dev && found_llvm_tools
}

} // verus!
