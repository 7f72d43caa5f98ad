//! Queue-family selection over concrete capability lists.

use vulqueno::families::{select_queue_family, QueueFamilyCaps};

fn caps(graphics: bool, compute: bool, queue_count: u32) -> QueueFamilyCaps {
    QueueFamilyCaps { graphics, compute, queue_count }
}

#[test]
fn selects_lowest_usable_family() {
    let families = vec![
        caps(false, true, 1),
        caps(true, true, 4),
        caps(true, true, 2),
    ];
    assert_eq!(select_queue_family(&families), Some(1));
}

#[test]
fn selects_index_zero_when_first_family_is_usable() {
    let families = vec![caps(true, true, 1), caps(true, true, 16)];
    assert_eq!(select_queue_family(&families), Some(0));
}

#[test]
fn skips_graphics_family_without_compute() {
    // Strict Vulkan allows a graphics family without compute; the
    // selection demands both, so such a family is passed over.
    let families = vec![caps(true, false, 1), caps(true, true, 1)];
    assert_eq!(select_queue_family(&families), Some(1));
}

#[test]
fn no_graphics_family_means_no_selection() {
    let families = vec![caps(false, true, 8), caps(false, false, 1)];
    assert_eq!(select_queue_family(&families), None);
}

#[test]
fn empty_family_list_means_no_selection() {
    assert_eq!(select_queue_family(&Vec::new()), None);
}

#[test]
fn queue_counts_play_no_part_in_selection() {
    let few = vec![caps(false, false, 64), caps(true, true, 1)];
    let many = vec![caps(false, false, 1), caps(true, true, 64)];
    assert_eq!(select_queue_family(&few), select_queue_family(&many));
}
