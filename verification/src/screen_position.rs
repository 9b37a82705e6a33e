//! Screen zones, and the classification of a pointer coordinate into one.
//!
//! The boundary pixels of the display form its edges and corners; every
//! other pixel is the center. Each edge is cut into three bands at a fifth
//! and at four fifths of its length.

use vstd::prelude::*;
use crate::screen_size::ScreenGeometry;

verus! {

/// One of the seventeen zones of the display: four corners, three bands on
/// each of the four edges, and the center. The bands of an edge are numbered
/// from left to right, or from top to bottom.
#[derive(Debug, Clone, Copy, PartialEq, Eq, Hash, Structural)]
pub enum ScreenPosition {
    LeftTop,
    Top1,
    Top2,
    Top3,
    RightTop,
    Left1,
    Left2,
    Left3,
    Center,
    Right1,
    Right2,
    Right3,
    LeftBottom,
    Bottom1,
    Bottom2,
    Bottom3,
    RightBottom,
}

/// The zones, in declaration order.
pub open spec fn all_zones() -> Seq<ScreenPosition> {
    seq![
        ScreenPosition::LeftTop,
        ScreenPosition::Top1,
        ScreenPosition::Top2,
        ScreenPosition::Top3,
        ScreenPosition::RightTop,
        ScreenPosition::Left1,
        ScreenPosition::Left2,
        ScreenPosition::Left3,
        ScreenPosition::Center,
        ScreenPosition::Right1,
        ScreenPosition::Right2,
        ScreenPosition::Right3,
        ScreenPosition::LeftBottom,
        ScreenPosition::Bottom1,
        ScreenPosition::Bottom2,
        ScreenPosition::Bottom3,
        ScreenPosition::RightBottom,
    ]
}

impl ScreenPosition {
    /// The seventeen zones, in declaration order.
    pub fn all() -> (zones: Vec<ScreenPosition>)
        ensures
            zones@ == all_zones(),
    {
        let zones: Vec<ScreenPosition> = vec![
            ScreenPosition::LeftTop,
            ScreenPosition::Top1,
            ScreenPosition::Top2,
            ScreenPosition::Top3,
            ScreenPosition::RightTop,
            ScreenPosition::Left1,
            ScreenPosition::Left2,
            ScreenPosition::Left3,
            ScreenPosition::Center,
            ScreenPosition::Right1,
            ScreenPosition::Right2,
            ScreenPosition::Right3,
            ScreenPosition::LeftBottom,
            ScreenPosition::Bottom1,
            ScreenPosition::Bottom2,
            ScreenPosition::Bottom3,
            ScreenPosition::RightBottom,
        ];
        assert(zones@ =~= all_zones());
        zones
    }
}

/// Where a coordinate lies along one axis of the display.
#[derive(Debug, Clone, Copy, PartialEq, Eq, Structural)]
pub enum Side {
    /// At or before the first pixel.
    Low,
    /// Strictly between the first and the last pixel.
    Inner,
    /// At or beyond the last pixel.
    High,
}

/// One of the three bands of an edge.
#[derive(Debug, Clone, Copy, PartialEq, Eq, Structural)]
pub enum Band {
    First,
    Second,
    Third,
}

/// The side of an axis of length `dimension` on which `coordinate` lies.
/// On an axis a single pixel long, that pixel is `Low`.
pub open spec fn side(coordinate: int, dimension: int) -> Side {
    if coordinate <= 0 {
        Side::Low
    } else if coordinate >= dimension - 1 {
        Side::High
    } else {
        Side::Inner
    }
}

/// A fifth of `dimension`, rounded to the nearest integer.
pub open spec fn near_split(dimension: int) -> int {
    (2 * dimension + 5) / 10
}

/// Four fifths of `dimension`, rounded to the nearest integer.
pub open spec fn far_split(dimension: int) -> int {
    (8 * dimension + 5) / 10
}

/// The band of an edge of length `dimension` that holds `coordinate`: the
/// first band ends just before the near split, the second includes the far
/// split.
pub open spec fn band(coordinate: int, dimension: int) -> Band {
    if coordinate < near_split(dimension) {
        Band::First
    } else if coordinate <= far_split(dimension) {
        Band::Second
    } else {
        Band::Third
    }
}

/// The zone of the pixel `(x, y)` on a display of the given size. A pixel on
/// two boundaries is a corner; a pixel on one is in a band of that edge,
/// chosen by its coordinate along the edge.
pub open spec fn classify(x: int, y: int, width: int, height: int) -> ScreenPosition {
    match (side(x, width), side(y, height)) {
        (Side::Low, Side::Low) => ScreenPosition::LeftTop,
        (Side::Low, Side::High) => ScreenPosition::LeftBottom,
        (Side::High, Side::Low) => ScreenPosition::RightTop,
        (Side::High, Side::High) => ScreenPosition::RightBottom,
        (Side::Low, Side::Inner) => match band(y, height) {
            Band::First => ScreenPosition::Left1,
            Band::Second => ScreenPosition::Left2,
            Band::Third => ScreenPosition::Left3,
        },
        (Side::High, Side::Inner) => match band(y, height) {
            Band::First => ScreenPosition::Right1,
            Band::Second => ScreenPosition::Right2,
            Band::Third => ScreenPosition::Right3,
        },
        (Side::Inner, Side::Low) => match band(x, width) {
            Band::First => ScreenPosition::Top1,
            Band::Second => ScreenPosition::Top2,
            Band::Third => ScreenPosition::Top3,
        },
        (Side::Inner, Side::High) => match band(x, width) {
            Band::First => ScreenPosition::Bottom1,
            Band::Second => ScreenPosition::Bottom2,
            Band::Third => ScreenPosition::Bottom3,
        },
        (Side::Inner, Side::Inner) => ScreenPosition::Center,
    }
}

/// The center is the interior of the display, and a corner is where two
/// boundaries meet; where the display is a single pixel wide or high, the
/// left and the top boundary come first.
pub proof fn lemma_center_and_corners(x: int, y: int, width: int, height: int)
    ensures
        classify(x, y, width, height) == ScreenPosition::Center <==> 0 < x < width - 1 && 0 < y
            < height - 1,
        classify(x, y, width, height) == ScreenPosition::LeftTop <==> x <= 0 && y <= 0,
        classify(x, y, width, height) == ScreenPosition::LeftBottom <==> x <= 0 && 0 < y && y
            >= height - 1,
        classify(x, y, width, height) == ScreenPosition::RightTop <==> 0 < x && x >= width - 1
            && y <= 0,
        classify(x, y, width, height) == ScreenPosition::RightBottom <==> 0 < x && x >= width
            - 1 && 0 < y && y >= height - 1,
{
}

/// The near split is the one integer within half a unit of a fifth of the
/// dimension, and the far split the one within half a unit of four fifths:
/// no rounding tie arises, since a multiple of a fifth is never half-way
/// between two integers.
pub proof fn lemma_splits_round_to_nearest(dimension: int, candidate: int)
    ensures
        -2 <= 5 * near_split(dimension) - dimension <= 2,
        -2 <= 5 * far_split(dimension) - 4 * dimension <= 2,
        -2 <= 5 * candidate - dimension <= 2 ==> candidate == near_split(dimension),
        -2 <= 5 * candidate - 4 * dimension <= 2 ==> candidate == far_split(dimension),
{
}

/// The splits lie in order within the display, so the three bands follow
/// one another along an edge.
pub proof fn lemma_splits_ordered(dimension: int)
    requires
        dimension > 0,
    ensures
        0 <= near_split(dimension) <= far_split(dimension) <= dimension,
{
}

fn band_of(coordinate: i32, dimension: i32) -> (b: Band)
    requires
        dimension > 0,
    ensures
        b == band(coordinate as int, dimension as int),
{
    let length: i64 = dimension as i64;
    let near: i64 = (2 * length + 5) / 10;
    let far: i64 = (8 * length + 5) / 10;
    let position: i64 = coordinate as i64;
    if position < near {
        Band::First
    } else if position <= far {
        Band::Second
    } else {
        Band::Third
    }
}

/// Classifies the pointer position `(x, y)` on the display `geometry`.
/// Every coordinate pair has a zone, those outside the display too: they
/// count as lying on the nearest boundary.
pub fn get_screen_position(x: i32, y: i32, geometry: &ScreenGeometry) -> (zone: ScreenPosition)
    ensures
        zone == classify(x as int, y as int, geometry.spec_width() as int, geometry.spec_height() as int),
{
    let screen_width: i32 = geometry.width();
    let screen_height: i32 = geometry.height();
    if x <= 0 {
        if y <= 0 {
            ScreenPosition::LeftTop
        } else if y >= screen_height - 1 {
            ScreenPosition::LeftBottom
        } else {
            match band_of(y, screen_height) {
                Band::First => ScreenPosition::Left1,
                Band::Second => ScreenPosition::Left2,
                Band::Third => ScreenPosition::Left3,
            }
        }
    } else if x >= screen_width - 1 {
        if y <= 0 {
            ScreenPosition::RightTop
        } else if y >= screen_height - 1 {
            ScreenPosition::RightBottom
        } else {
            match band_of(y, screen_height) {
                Band::First => ScreenPosition::Right1,
                Band::Second => ScreenPosition::Right2,
                Band::Third => ScreenPosition::Right3,
            }
        }
    } else {
        if y <= 0 {
            match band_of(x, screen_width) {
                Band::First => ScreenPosition::Top1,
                Band::Second => ScreenPosition::Top2,
                Band::Third => ScreenPosition::Top3,
            }
        } else if y >= screen_height - 1 {
            match band_of(x, screen_width) {
                Band::First => ScreenPosition::Bottom1,
                Band::Second => ScreenPosition::Bottom2,
                Band::Third => ScreenPosition::Bottom3,
            }
        } else {
            ScreenPosition::Center
        }
    }
}

} // verus!
