//! The dispatch footprint: how many invocations a workgroup grid
//! launches, and so how many buffer words the bundled kind of kernel
//! touches.

use vulqueno::dispatch::dispatch_footprint;

#[test]
fn default_grid_with_the_bundled_local_size_covers_65536_words() {
    // The dispatcher's fixed (1024, 1, 1) grid with a local size of
    // (64, 1, 1) gives 65 536 invocations in total; a storage buffer
    // shorter than that leaves the overrun undefined at the shader
    // level, so callers size their buffer against this number.
    assert_eq!(dispatch_footprint([1024, 1, 1], [64, 1, 1]), Some(65_536));
}

#[test]
fn footprint_multiplies_all_six_extents() {
    assert_eq!(dispatch_footprint([2, 3, 4], [5, 6, 7]), Some(5_040));
}

#[test]
fn zero_sized_grid_has_zero_footprint() {
    assert_eq!(dispatch_footprint([0, 1, 1], [64, 1, 1]), Some(0));
    assert_eq!(dispatch_footprint([1024, 1, 1], [64, 0, 1]), Some(0));
}

#[test]
fn footprint_too_large_for_64_bits_is_reported() {
    assert_eq!(dispatch_footprint([u32::MAX; 3], [u32::MAX; 3]), None);
}
