//! The byte-string and path primitives.

use cargo_gpu::bytes::{
    bytes_eq, contains, ends_with, find_byte_from, find_first, replace_all_bytes, starts_with,
};
use cargo_gpu::paths::{parent_path, path_join};
use cargo_gpu::version::Version;

#[test]
fn matching_primitives() {
    assert!(starts_with(b"git+https://x", b"git+"));
    assert!(!starts_with(b"gi", b"git+"));
    assert!(ends_with(b"rust-src (installed)", b"(installed)"));
    assert!(!ends_with(b"x", b"(installed)"));
    assert!(contains(b"a version = 4 b", b"version = 4"));
    assert!(!contains(b"a version = 4 b", b"version = 3"));
    assert_eq!(find_first(b"abcabc", b"bc"), Some(1));
    assert_eq!(find_first(b"abc", b"zz"), None);
    assert_eq!(find_byte_from(b"a#b#c", b'#', 2), Some(3));
    assert!(bytes_eq(b"same", b"same"));
    assert!(!bytes_eq(b"same", b"sama"));
}

#[test]
fn replace_rewrites_every_occurrence_left_to_right() {
    assert_eq!(
        replace_all_bytes(b"x\nversion = 4\ny\nversion = 4\n", b"\nversion = 4\n", b"\nversion = 3\n"),
        b"x\nversion = 3\ny\nversion = 3\n".to_vec()
    );
    assert_eq!(replace_all_bytes(b"aaa", b"aa", b"b"), b"ba".to_vec());
    assert_eq!(replace_all_bytes(b"abc", b"zz", b"y"), b"abc".to_vec());
}

#[test]
fn joining_paths() {
    assert_eq!(path_join(b"/a/b", b"c"), b"/a/b/c".to_vec());
    assert_eq!(path_join(b"/a/b/", b"c"), b"/a/b/c".to_vec());
    assert_eq!(path_join(b"", b"c"), b"c".to_vec());
}

#[test]
fn taking_parents() {
    assert_eq!(parent_path(b"/a/b/c"), Some(b"/a/b".to_vec()));
    assert_eq!(parent_path(b"/a"), Some(b"/".to_vec()));
    assert_eq!(parent_path(b"a"), Some(b"".to_vec()));
    assert_eq!(parent_path(b"/"), None);
    assert_eq!(parent_path(b""), None);
}

#[test]
fn rendering_versions() {
    let plain = Version {
        major: 1,
        minor: 83,
        patch: 0,
        pre: Vec::new(),
        build: Vec::new(),
    };
    assert_eq!(plain.render(), b"1.83.0".to_vec());
    let full = Version {
        major: 0,
        minor: 10,
        patch: 3,
        pre: b"rc.1".to_vec(),
        build: b"f00".to_vec(),
    };
    assert_eq!(full.render(), b"0.10.3-rc.1+f00".to_vec());
}

#[test]
fn version_order_against_a_release() {
    let below = Version {
        major: 1,
        minor: 82,
        patch: 99,
        pre: Vec::new(),
        build: Vec::new(),
    };
    assert!(below.is_below(1, 83, 0));
    let above = Version {
        major: 2,
        minor: 0,
        patch: 0,
        pre: Vec::new(),
        build: Vec::new(),
    };
    assert!(!above.is_below(1, 83, 0));
}
