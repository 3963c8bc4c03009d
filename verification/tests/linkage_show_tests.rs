//! Linkage records and the target listing helpers.

use cargo_gpu::linkage::{normalize_path, Linkage};
use cargo_gpu::show::{available_spirv_targets, sort_names};

#[test]
fn linkage_keeps_the_entry_point_and_strips_it_for_wgsl() {
    let linkage = Linkage::new(&b"shaders::sky::main_fs".to_vec(), &b"out/sky.spv".to_vec());
    assert_eq!(linkage.entry_point, b"shaders::sky::main_fs".to_vec());
    assert_eq!(linkage.wgsl_entry_point, b"shadersskymain_fs".to_vec());
    assert_eq!(linkage.source_path, b"out/sky.spv".to_vec());
}

#[test]
fn linkage_normalizes_the_module_path() {
    let linkage = Linkage::new(
        &b"main".to_vec(),
        &b"shaders//./compiled/.//sky.spv".to_vec(),
    );
    assert_eq!(linkage.source_path, b"shaders/compiled/sky.spv".to_vec());
}

#[test]
fn normalize_keeps_roots_and_leading_dots() {
    assert_eq!(normalize_path(b"/a/b"), b"//a/b".to_vec());
    assert_eq!(normalize_path(b"./a/b"), b"./a/b".to_vec());
    assert_eq!(normalize_path(b"a/../b"), b"a/../b".to_vec());
    assert_eq!(normalize_path(b"a/b/"), b"a/b".to_vec());
    assert_eq!(normalize_path(b""), b"".to_vec());
}

#[test]
fn sort_orders_names_and_keeps_duplicates() {
    let names = vec![
        b"beta".to_vec(),
        b"alpha".to_vec(),
        b"beta".to_vec(),
        b"al".to_vec(),
    ];
    let sorted = sort_names(names);
    assert_eq!(
        sorted,
        vec![
            b"al".to_vec(),
            b"alpha".to_vec(),
            b"beta".to_vec(),
            b"beta".to_vec(),
        ]
    );
}

#[test]
fn targets_are_stripped_and_sorted() {
    let names = vec![
        b"spirv-unknown-vulkan1.2.json".to_vec(),
        b"notes.txt".to_vec(),
        b"spirv-unknown-spv1.0.json".to_vec(),
    ];
    let targets = available_spirv_targets(&names);
    assert_eq!(
        targets,
        vec![
            b"spirv-unknown-spv1.0".to_vec(),
            b"spirv-unknown-vulkan1.2".to_vec(),
        ]
    );
}
