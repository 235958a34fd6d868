//! How far the metrics of a glyph vary.
use vstd::prelude::*;

use crate::glyph::Point;

verus! {

/// The integer nearest to a 16.16 fixed point number, halves rounded up; numbers from 32767.5 on
/// wrap around to -32768.
pub open spec fn rounded(value: int) -> int {
    if value + 0x8000 < 0x8000_0000 {
        (value + 0x8000) / 0x1_0000
    } else {
        -0x8000
    }
}

/// Rounds a 16.16 fixed point number to an integer.
pub fn fixed_to_i32(value: i32) -> (integer: i32)
    ensures
        integer == rounded(value as int),
        -0x8000 <= integer <= 0x7fff,
{
    let shifted: i32 = value.wrapping_add(0x8000);
    assert(shifted >> 16 == shifted as int / 0x1_0000) by (bit_vector);
    shifted >> 16
}

/// A delta that may be missing, as a whole number of font units.
pub open spec fn delta_units(delta: Option<i32>) -> int {
    match delta {
        Some(value) => rounded(value as int),
        None => 0,
    }
}

/// Rounds a delta to a whole number of font units; a missing one is none.
pub fn delta_to_i32(delta: Option<i32>) -> (units: i32)
    ensures
        units == delta_units(delta),
        -0x8000 <= units <= 0x7fff,
{
    match delta {
        Some(value) => fixed_to_i32(value),
        None => 0,
    }
}

/// Where the variation of a glyph metric is read.
#[derive(Clone, Copy, Debug)]
pub enum MetricDelta {
    /// At the default location metrics do not vary.
    Default,
    /// In a metrics variations table, which may have nothing readable for the glyph.
    Table(Option<i32>),
    /// At the left, right, top and bottom phantom points of the outline, if it varies.
    Phantom(Option<[Point; 4]>),
}

impl MetricDelta {
    /// How far an advance width varies: in an outline, by how far the right phantom point moves away
    /// from the left one.
    pub open spec fn width(self) -> int {
        match self {
            MetricDelta::Table(delta) => delta_units(delta),
            MetricDelta::Phantom(Some(points)) => rounded(points@[1].x as int) - rounded(
                points@[0].x as int,
            ),
            _ => 0,
        }
    }

    /// Returns how far an advance width varies, in font units.
    pub fn to_width(&self) -> (units: i32)
        ensures
            units == self.width(),
            -0xffff <= units <= 0xffff,
    {
        match self {
            MetricDelta::Table(delta) => delta_to_i32(*delta),
            MetricDelta::Phantom(Some(points)) => fixed_to_i32(points[1].x) - fixed_to_i32(
                points[0].x,
            ),
            _ => 0,
        }
    }

    /// How far an advance height varies: in an outline, by how far the bottom phantom point moves
    /// away from the top one.
    pub open spec fn height(self) -> int {
        match self {
            MetricDelta::Table(delta) => delta_units(delta),
            MetricDelta::Phantom(Some(points)) => rounded(points@[3].y as int) - rounded(
                points@[2].y as int,
            ),
            _ => 0,
        }
    }

    /// Returns how far an advance height varies, in font units.
    pub fn to_height(&self) -> (units: i32)
        ensures
            units == self.height(),
            -0xffff <= units <= 0xffff,
    {
        match self {
            MetricDelta::Table(delta) => delta_to_i32(*delta),
            MetricDelta::Phantom(Some(points)) => fixed_to_i32(points[3].y) - fixed_to_i32(
                points[2].y,
            ),
            _ => 0,
        }
    }

    /// How far a left side bearing varies: in an outline, by how far the left phantom point moves.
    pub open spec fn left_bearing(self) -> int {
        match self {
            MetricDelta::Table(delta) => delta_units(delta),
            MetricDelta::Phantom(Some(points)) => rounded(points@[0].x as int),
            _ => 0,
        }
    }

    /// Returns how far a left side bearing varies, in font units.
    pub fn to_left_bearing(&self) -> (units: i32)
        ensures
            units == self.left_bearing(),
            -0x8000 <= units <= 0x7fff,
    {
        match self {
            MetricDelta::Table(delta) => delta_to_i32(*delta),
            MetricDelta::Phantom(Some(points)) => fixed_to_i32(points[0].x),
            _ => 0,
        }
    }

    /// How far a top side bearing varies: in an outline, by how far the bottom phantom point moves.
    pub open spec fn top_bearing(self) -> int {
        match self {
            MetricDelta::Table(delta) => delta_units(delta),
            MetricDelta::Phantom(Some(points)) => rounded(points@[3].y as int),
            _ => 0,
        }
    }

    /// Returns how far a top side bearing varies, in font units.
    pub fn to_top_bearing(&self) -> (units: i32)
        ensures
            units == self.top_bearing(),
            -0x8000 <= units <= 0x7fff,
    {
        match self {
            MetricDelta::Table(delta) => delta_to_i32(*delta),
            MetricDelta::Phantom(Some(points)) => fixed_to_i32(points[3].y),
            _ => 0,
        }
    }
}

} // verus!
