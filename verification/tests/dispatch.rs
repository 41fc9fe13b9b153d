use compute_harness::dispatch::{
    group_count, DispatchSize, OUTPUT_HEIGHT, OUTPUT_WIDTH, WORKGROUP_HEIGHT, WORKGROUP_WIDTH,
};

#[test]
fn configured_output_takes_160_by_90_groups() {
    let size = DispatchSize::covering(OUTPUT_WIDTH, OUTPUT_HEIGHT, WORKGROUP_WIDTH, WORKGROUP_HEIGHT);
    assert_eq!(size, Some(DispatchSize { x: 160, y: 90, z: 1 }));
    assert_eq!(160 * WORKGROUP_WIDTH, OUTPUT_WIDTH);
    assert_eq!(90 * WORKGROUP_HEIGHT, OUTPUT_HEIGHT);
}

#[test]
fn partial_groups_round_up() {
    assert_eq!(
        DispatchSize::covering(1281, 721, 8, 8),
        Some(DispatchSize { x: 161, y: 91, z: 1 })
    );
    assert_eq!(
        DispatchSize::covering(1287, 727, 8, 8),
        Some(DispatchSize { x: 161, y: 91, z: 1 })
    );
    assert_eq!(
        DispatchSize::covering(1, 1, 8, 8),
        Some(DispatchSize { x: 1, y: 1, z: 1 })
    );
}

#[test]
fn one_group_covers_a_four_by_four_image() {
    assert_eq!(
        DispatchSize::covering(4, 4, 4, 4),
        Some(DispatchSize { x: 1, y: 1, z: 1 })
    );
}

#[test]
fn empty_workgroup_has_no_dispatch() {
    assert_eq!(DispatchSize::covering(1280, 720, 0, 8), None);
    assert_eq!(DispatchSize::covering(1280, 720, 8, 0), None);
    assert_eq!(DispatchSize::covering(0, 0, 0, 0), None);
}

#[test]
fn empty_image_takes_no_groups() {
    assert_eq!(
        DispatchSize::covering(0, 0, 8, 8),
        Some(DispatchSize { x: 0, y: 0, z: 1 })
    );
    assert_eq!(group_count(0, 1), 0);
}

#[test]
fn group_count_is_exact_at_the_limits() {
    assert_eq!(group_count(u32::MAX, 1), u32::MAX);
    assert_eq!(group_count(u32::MAX, u32::MAX), 1);
    assert_eq!(group_count(u32::MAX, 2), 1 << 31);
    assert_eq!(group_count(u32::MAX - 1, u32::MAX), 1);
    assert_eq!(group_count(7, 8), 1);
    assert_eq!(group_count(8, 8), 1);
    assert_eq!(group_count(9, 8), 2);
}

#[test]
fn every_pixel_lies_in_a_dispatched_group() {
    for (width, height, gw, gh) in [(10u32, 7u32, 4u32, 3u32), (13, 1, 5, 8), (64, 64, 8, 8)] {
        let size = DispatchSize::covering(width, height, gw, gh).unwrap();
        for y in 0..height {
            for x in 0..width {
                assert!(x / gw < size.x);
                assert!(y / gh < size.y);
            }
        }
        assert!(size.x * gw >= width && (size.x - 1) * gw < width);
        assert!(size.y * gh >= height && (size.y - 1) * gh < height);
    }
}
