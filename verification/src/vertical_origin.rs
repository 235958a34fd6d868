//! Where the origin of a glyph lies in vertical text.
use vstd::prelude::*;

use crate::glyph::BoundingBox;
use crate::metric_delta;
use crate::metric_delta::delta_to_i32;

verus! {

/// Half of a number, rounded towards zero.
pub open spec fn half(value: int) -> int {
    if value >= 0 {
        value / 2
    } else {
        -((-value) / 2)
    }
}

/// The height of a font, from its descent to its ascent, each with its delta.
pub open spec fn font_height(
    ascent: i16,
    descent: i16,
    ascent_delta: Option<i32>,
    descent_delta: Option<i32>,
) -> int {
    ascent - descent + metric_delta::delta_units(ascent_delta) - metric_delta::delta_units(
        descent_delta,
    )
}

/// Returns the height of a font.
pub fn to_font_height(
    ascent: i16,
    descent: i16,
    ascent_delta: Option<i32>,
    descent_delta: Option<i32>,
) -> (height: i32)
    ensures
        height == font_height(ascent, descent, ascent_delta, descent_delta),
        -0x1_ffff <= height <= 0x1_ffff,
{
    let height: i32 = ascent as i32 - descent as i32;
    height + (delta_to_i32(ascent_delta) - delta_to_i32(descent_delta))
}

/// The y coordinate of an origin that the font gives, or of its ascent, with its delta.
pub open spec fn given_origin_y(y: i16, delta: Option<i32>) -> int {
    y + metric_delta::delta_units(delta)
}

/// Returns the y coordinate of an origin that the font gives, or of its ascent.
pub fn to_given_origin_y(y: i16, delta: Option<i32>) -> (origin: i32)
    ensures
        origin == given_origin_y(y, delta),
{
    y as i32 + delta_to_i32(delta)
}

/// The y coordinate of an origin that lies the top side bearing above a box, with its delta.
pub open spec fn bearing_origin_y(bounds: BoundingBox, bearing: int, delta: Option<i32>) -> int {
    bounds.y_max + bearing + metric_delta::delta_units(delta)
}

/// Returns the y coordinate of an origin that lies the top side bearing above a box.
pub fn to_bearing_origin_y(bounds: BoundingBox, bearing: i32, delta: Option<i32>) -> (origin: i32)
    requires
        bounds.in_font_range(),
        -0x1_0000 <= bearing <= 0xffff,
    ensures
        origin == bearing_origin_y(bounds, bearing as int, delta),
{
    bounds.y_max + bearing + delta_to_i32(delta)
}

/// The y coordinate of the origin from which a box is centered in the height of a font; an odd
/// remainder goes below the box.
pub open spec fn centered_origin_y(bounds: BoundingBox, height: int) -> int {
    bounds.y_max + (height - (bounds.y_max - bounds.y_min)) / 2
}

/// Returns the y coordinate of the origin from which a box is centered in the height of a font.
pub fn to_centered_origin_y(bounds: BoundingBox, height: i32) -> (origin: i32)
    requires
        bounds.in_font_range(),
        -0x1_ffff <= height <= 0x1_ffff,
    ensures
        origin == centered_origin_y(bounds, height as int),
{
    let diff: i32 = height - (bounds.y_max - bounds.y_min);
    assert(diff >> 1 == diff as int / 2) by (bit_vector);
    bounds.y_max + (diff >> 1)
}

} // verus!
