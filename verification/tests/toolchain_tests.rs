//! Reading toolchain and component listings.

use cargo_gpu::toolchain::{all_components_installed, toolchain_is_installed};

#[test]
fn a_channel_counts_when_a_token_starts_with_it() {
    let listing = b"stable-x86_64-unknown-linux-gnu (default)\nnightly-2024-04-24-x86_64-unknown-linux-gnu\n";
    assert!(toolchain_is_installed(listing, b"nightly-2024-04-24"));
    assert!(toolchain_is_installed(listing, b"stable"));
    assert!(!toolchain_is_installed(listing, b"nightly-2023-05-27"));
}

#[test]
fn a_channel_must_start_its_token() {
    let listing = b"xnightly-2024\n";
    assert!(!toolchain_is_installed(listing, b"nightly-2024"));
    assert!(toolchain_is_installed(b" nightly-2024\n", b"nightly-2024"));
}

#[test]
fn an_empty_listing_holds_no_channel() {
    assert!(!toolchain_is_installed(b"", b"nightly"));
    assert!(!toolchain_is_installed(b" \n\t", b"nightly"));
}

#[test]
fn all_three_components_must_be_installed() {
    let complete = b"cargo-x86_64 (installed)\nrust-src (installed)\nrustc-dev-x86_64 (installed)\nllvm-tools-x86_64 (installed)\n";
    assert!(all_components_installed(complete));

    let missing_llvm = b"rust-src (installed)\nrustc-dev (installed)\nllvm-tools\n";
    assert!(!all_components_installed(missing_llvm));

    let nothing = b"rust-src\nrustc-dev\nllvm-tools\n";
    assert!(!all_components_installed(nothing));
}

#[test]
fn the_installed_marker_must_close_the_line() {
    let wrong = b"rust-src (installed) extra\nrustc-dev (installed)\nllvm-tools (installed)\n";
    assert!(!all_components_installed(wrong));
}
