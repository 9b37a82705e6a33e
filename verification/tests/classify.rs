//! Zone classification on concrete displays.

use screen_edge::screen_position::{get_screen_position, ScreenPosition};
use screen_edge::screen_size::{get_screen_size, ScreenGeometry};

fn geometry(width: i32, height: i32) -> ScreenGeometry {
    ScreenGeometry::new(width, height).expect("positive dimensions")
}

/// The classification written with floating-point rounding.
fn float_zone(x: i32, y: i32, width: i32, height: i32) -> ScreenPosition {
    let near = |dimension: i32| (dimension as f32 * 0.2).round() as i32;
    let far = |dimension: i32| (dimension as f32 * 0.8).round() as i32;
    if x <= 0 {
        if y <= 0 {
            ScreenPosition::LeftTop
        } else if y >= height - 1 {
            ScreenPosition::LeftBottom
        } else if y < near(height) {
            ScreenPosition::Left1
        } else if y <= far(height) {
            ScreenPosition::Left2
        } else {
            ScreenPosition::Left3
        }
    } else if x >= width - 1 {
        if y <= 0 {
            ScreenPosition::RightTop
        } else if y >= height - 1 {
            ScreenPosition::RightBottom
        } else if y < near(height) {
            ScreenPosition::Right1
        } else if y <= far(height) {
            ScreenPosition::Right2
        } else {
            ScreenPosition::Right3
        }
    } else if y <= 0 {
        if x < near(width) {
            ScreenPosition::Top1
        } else if x <= far(width) {
            ScreenPosition::Top2
        } else {
            ScreenPosition::Top3
        }
    } else if y >= height - 1 {
        if x < near(width) {
            ScreenPosition::Bottom1
        } else if x <= far(width) {
            ScreenPosition::Bottom2
        } else {
            ScreenPosition::Bottom3
        }
    } else {
        ScreenPosition::Center
    }
}

#[test]
fn geometry_needs_positive_dimensions() {
    assert!(ScreenGeometry::new(1, 1).is_some());
    assert!(ScreenGeometry::new(0, 5).is_none());
    assert!(ScreenGeometry::new(5, 0).is_none());
    assert!(ScreenGeometry::new(-1, 5).is_none());
    assert!(ScreenGeometry::new(5, i32::MIN).is_none());
    assert!(ScreenGeometry::new(i32::MAX, i32::MAX).is_some());
}

#[test]
fn geometry_keeps_its_size() {
    let g = geometry(1920, 1080);
    assert_eq!(g.width(), 1920);
    assert_eq!(g.height(), 1080);
    assert_eq!(get_screen_size(&g), (1920, 1080));
}

#[test]
fn boundary_points_of_a_1000_by_800_display() {
    let g = geometry(1000, 800);
    assert_eq!(get_screen_position(0, 0, &g), ScreenPosition::LeftTop);
    assert_eq!(get_screen_position(999, 0, &g), ScreenPosition::RightTop);
    assert_eq!(get_screen_position(500, 0, &g), ScreenPosition::Top2);
    assert_eq!(get_screen_position(0, 799, &g), ScreenPosition::LeftBottom);
    assert_eq!(get_screen_position(999, 799, &g), ScreenPosition::RightBottom);
    assert_eq!(get_screen_position(500, 400, &g), ScreenPosition::Center);
}

#[test]
fn bands_split_at_a_fifth_and_at_four_fifths() {
    let g = geometry(1000, 800);
    // top and bottom edges: splits at 200 and 800
    assert_eq!(get_screen_position(1, 0, &g), ScreenPosition::Top1);
    assert_eq!(get_screen_position(199, 0, &g), ScreenPosition::Top1);
    assert_eq!(get_screen_position(200, 0, &g), ScreenPosition::Top2);
    assert_eq!(get_screen_position(800, 0, &g), ScreenPosition::Top2);
    assert_eq!(get_screen_position(801, 0, &g), ScreenPosition::Top3);
    assert_eq!(get_screen_position(998, 0, &g), ScreenPosition::Top3);
    assert_eq!(get_screen_position(199, 799, &g), ScreenPosition::Bottom1);
    assert_eq!(get_screen_position(200, 799, &g), ScreenPosition::Bottom2);
    assert_eq!(get_screen_position(800, 799, &g), ScreenPosition::Bottom2);
    assert_eq!(get_screen_position(801, 799, &g), ScreenPosition::Bottom3);
    // left and right edges: splits at 160 and 640
    assert_eq!(get_screen_position(0, 1, &g), ScreenPosition::Left1);
    assert_eq!(get_screen_position(0, 159, &g), ScreenPosition::Left1);
    assert_eq!(get_screen_position(0, 160, &g), ScreenPosition::Left2);
    assert_eq!(get_screen_position(0, 640, &g), ScreenPosition::Left2);
    assert_eq!(get_screen_position(0, 641, &g), ScreenPosition::Left3);
    assert_eq!(get_screen_position(0, 798, &g), ScreenPosition::Left3);
    assert_eq!(get_screen_position(999, 159, &g), ScreenPosition::Right1);
    assert_eq!(get_screen_position(999, 160, &g), ScreenPosition::Right2);
    assert_eq!(get_screen_position(999, 640, &g), ScreenPosition::Right2);
    assert_eq!(get_screen_position(999, 641, &g), ScreenPosition::Right3);
}

#[test]
fn splits_round_to_the_nearest_integer() {
    // 13 / 5 = 2.6 rounds to 3, 13 * 4 / 5 = 10.4 rounds to 10
    let g = geometry(13, 13);
    assert_eq!(get_screen_position(2, 0, &g), ScreenPosition::Top1);
    assert_eq!(get_screen_position(3, 0, &g), ScreenPosition::Top2);
    assert_eq!(get_screen_position(10, 0, &g), ScreenPosition::Top2);
    assert_eq!(get_screen_position(11, 0, &g), ScreenPosition::Top3);
    // 12 / 5 = 2.4 rounds to 2, 12 * 4 / 5 = 9.6 rounds to 10
    let g = geometry(12, 12);
    assert_eq!(get_screen_position(0, 1, &g), ScreenPosition::Left1);
    assert_eq!(get_screen_position(0, 2, &g), ScreenPosition::Left2);
    assert_eq!(get_screen_position(0, 10, &g), ScreenPosition::Left2);
    assert_eq!(get_screen_position(11, 10, &g), ScreenPosition::Right2);
    // 1080 / 5 = 216, 1080 * 4 / 5 = 864
    let g = geometry(1920, 1080);
    assert_eq!(get_screen_position(0, 215, &g), ScreenPosition::Left1);
    assert_eq!(get_screen_position(0, 216, &g), ScreenPosition::Left2);
    assert_eq!(get_screen_position(0, 864, &g), ScreenPosition::Left2);
    assert_eq!(get_screen_position(0, 865, &g), ScreenPosition::Left3);
    assert_eq!(get_screen_position(383, 0, &g), ScreenPosition::Top1);
    assert_eq!(get_screen_position(384, 0, &g), ScreenPosition::Top2);
    assert_eq!(get_screen_position(1536, 0, &g), ScreenPosition::Top2);
    assert_eq!(get_screen_position(1537, 0, &g), ScreenPosition::Top3);
}

#[test]
fn points_outside_the_display_lie_on_its_boundary() {
    let g = geometry(1000, 800);
    assert_eq!(get_screen_position(-5, -5, &g), ScreenPosition::LeftTop);
    assert_eq!(get_screen_position(i32::MIN, i32::MIN, &g), ScreenPosition::LeftTop);
    assert_eq!(get_screen_position(5000, -1, &g), ScreenPosition::RightTop);
    assert_eq!(get_screen_position(-1, 5000, &g), ScreenPosition::LeftBottom);
    assert_eq!(get_screen_position(i32::MAX, i32::MAX, &g), ScreenPosition::RightBottom);
    assert_eq!(get_screen_position(500, -20, &g), ScreenPosition::Top2);
    assert_eq!(get_screen_position(500, 900, &g), ScreenPosition::Bottom2);
    assert_eq!(get_screen_position(-20, 400, &g), ScreenPosition::Left2);
    assert_eq!(get_screen_position(2000, 700, &g), ScreenPosition::Right3);
}

#[test]
fn left_and_top_win_on_a_display_one_pixel_long() {
    let g = geometry(1, 1);
    assert_eq!(get_screen_position(0, 0, &g), ScreenPosition::LeftTop);
    let g = geometry(1, 100);
    assert_eq!(get_screen_position(0, 50, &g), ScreenPosition::Left2);
    assert_eq!(get_screen_position(0, 99, &g), ScreenPosition::LeftBottom);
    assert_eq!(get_screen_position(1, 50, &g), ScreenPosition::Right2);
    let g = geometry(100, 1);
    assert_eq!(get_screen_position(50, 0, &g), ScreenPosition::Top2);
    assert_eq!(get_screen_position(99, 0, &g), ScreenPosition::RightTop);
    assert_eq!(get_screen_position(50, 1, &g), ScreenPosition::Bottom2);
    let g = geometry(2, 2);
    assert_eq!(get_screen_position(0, 0, &g), ScreenPosition::LeftTop);
    assert_eq!(get_screen_position(1, 0, &g), ScreenPosition::RightTop);
    assert_eq!(get_screen_position(0, 1, &g), ScreenPosition::LeftBottom);
    assert_eq!(get_screen_position(1, 1, &g), ScreenPosition::RightBottom);
}

#[test]
fn the_largest_display_does_not_overflow() {
    let g = geometry(i32::MAX, i32::MAX);
    // near split: round(2147483647 / 5) = 429496729, far split: 1717986918
    assert_eq!(get_screen_position(429_496_728, 0, &g), ScreenPosition::Top1);
    assert_eq!(get_screen_position(429_496_729, 0, &g), ScreenPosition::Top2);
    assert_eq!(get_screen_position(1_717_986_918, 0, &g), ScreenPosition::Top2);
    assert_eq!(get_screen_position(1_717_986_919, 0, &g), ScreenPosition::Top3);
    assert_eq!(get_screen_position(i32::MAX - 2, 5, &g), ScreenPosition::Center);
    assert_eq!(get_screen_position(i32::MAX - 1, 5, &g), ScreenPosition::Right1);
}

#[test]
fn every_pixel_has_one_zone_and_keeps_it() {
    let g = geometry(40, 30);
    let mut counts = [0usize; 17];
    let zones = ScreenPosition::all();
    for x in 0..40 {
        for y in 0..30 {
            let zone = get_screen_position(x, y, &g);
            assert_eq!(get_screen_position(x, y, &g), zone);
            let index = zones.iter().position(|z| *z == zone).expect("a known zone");
            counts[index] += 1;
            let interior = 0 < x && x < 39 && 0 < y && y < 29;
            assert_eq!(zone == ScreenPosition::Center, interior);
        }
    }
    assert_eq!(counts.iter().sum::<usize>(), 40 * 30);
    // corners: one pixel each; center: 38 * 28
    assert_eq!(counts[0], 1);
    assert_eq!(counts[4], 1);
    assert_eq!(counts[12], 1);
    assert_eq!(counts[16], 1);
    assert_eq!(counts[8], 38 * 28);
    // width 40: splits at 8 and 32; Top1 = 1..=7, Top2 = 8..=32, Top3 = 33..=38
    assert_eq!(counts[1], 7);
    assert_eq!(counts[2], 25);
    assert_eq!(counts[3], 6);
    // height 30: splits at 6 and 24; Left1 = 1..=5, Left2 = 6..=24, Left3 = 25..=28
    assert_eq!(counts[5], 5);
    assert_eq!(counts[6], 19);
    assert_eq!(counts[7], 4);
}

#[test]
fn agrees_with_floating_point_rounding_on_whole_displays() {
    for dimension in 1..=300 {
        let g = geometry(dimension, dimension);
        for x in -1..=dimension {
            for y in -1..=dimension {
                assert_eq!(get_screen_position(x, y, &g), float_zone(x, y, dimension, dimension));
            }
        }
    }
    for (width, height) in [(1920, 1080), (2560, 1440), (3840, 2160), (7680, 4320), (1366, 768)] {
        let g = geometry(width, height);
        for x in -1..=width {
            for y in [-1, 0, 1, height / 2, height - 2, height - 1, height] {
                assert_eq!(get_screen_position(x, y, &g), float_zone(x, y, width, height));
            }
        }
        for y in -1..=height {
            for x in [-1, 0, 1, width / 2, width - 2, width - 1, width] {
                assert_eq!(get_screen_position(x, y, &g), float_zone(x, y, width, height));
            }
        }
    }
}

#[test]
fn agrees_with_single_precision_rounding_at_every_split() {
    // Up to this length the single-precision products round to the exact
    // splits; beyond it they carry too few digits.
    for dimension in 1..=2_621_442 {
        let near = (dimension as f32 * 0.2).round() as i32;
        let far = (dimension as f32 * 0.8).round() as i32;
        let g = geometry(dimension, 3);
        for x in [near - 1, near, far, far + 1] {
            assert_eq!(get_screen_position(x, 0, &g), float_zone(x, 0, dimension, 3));
            assert_eq!(get_screen_position(x, 2, &g), float_zone(x, 2, dimension, 3));
        }
        let g = geometry(3, dimension);
        for y in [near - 1, near, far, far + 1] {
            assert_eq!(get_screen_position(0, y, &g), float_zone(0, y, 3, dimension));
            assert_eq!(get_screen_position(2, y, &g), float_zone(2, y, 3, dimension));
        }
    }
}

#[test]
fn splits_stay_exact_on_displays_too_long_for_single_precision() {
    // 2621443 * 4 / 5 = 2097154.4 rounds to 2097154
    let g = geometry(2_621_443, 10);
    assert_eq!(get_screen_position(2_097_154, 0, &g), ScreenPosition::Top2);
    assert_eq!(get_screen_position(2_097_155, 0, &g), ScreenPosition::Top3);
    // 10485762 / 5 = 2097152.4 rounds to 2097152
    let g = geometry(10, 10_485_762);
    assert_eq!(get_screen_position(0, 2_097_151, &g), ScreenPosition::Left1);
    assert_eq!(get_screen_position(0, 2_097_152, &g), ScreenPosition::Left2);
}

#[test]
fn all_zones_are_seventeen_and_distinct() {
    let zones = ScreenPosition::all();
    assert_eq!(zones.len(), 17);
    for (i, a) in zones.iter().enumerate() {
        for (j, b) in zones.iter().enumerate() {
            assert_eq!(a == b, i == j);
        }
    }
    assert_eq!(zones[0], ScreenPosition::LeftTop);
    assert_eq!(zones[8], ScreenPosition::Center);
    assert_eq!(zones[16], ScreenPosition::RightBottom);
}
