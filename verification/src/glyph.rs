//! Glyph identifiers, per-glyph records and glyph boxes.
use vstd::prelude::*;

verus! {

/// A glyph identifier.
pub type GlyphId = u32;

/// A normalized variation coordinate, as the bits of a 2.14 fixed point number.
pub type NormalizedCoord = i16;

/// One glyph of a run of text.
#[derive(Clone, Copy, Debug, PartialEq, Eq, Structural)]
pub struct GlyphInfo {
    /// The glyph identifier.
    pub glyph_id: u32,
}

impl GlyphInfo {
    /// Returns the glyph identifier.
    pub fn as_glyph(&self) -> (glyph: GlyphId)
        ensures
            glyph == self.glyph_id,
    {
        self.glyph_id
    }
}

impl Default for GlyphInfo {
    fn default() -> (info: Self)
        ensures
            info == (GlyphInfo { glyph_id: 0 }),
    {
        GlyphInfo { glyph_id: 0 }
    }
}

/// The position of one glyph, in font units.
#[derive(Clone, Copy, Debug, PartialEq, Eq, Structural)]
pub struct GlyphPosition {
    /// How far the pen moves in horizontal text.
    pub x_advance: i32,
    /// How far the pen moves in vertical text.
    pub y_advance: i32,
    /// How far the glyph is moved horizontally before it is drawn.
    pub x_offset: i32,
    /// How far the glyph is moved vertically before it is drawn.
    pub y_offset: i32,
}

impl GlyphPosition {
    /// The position with no advance and no offset.
    pub open spec fn zero() -> Self {
        GlyphPosition { x_advance: 0, y_advance: 0, x_offset: 0, y_offset: 0 }
    }

    /// Whether this is `before` with the given horizontal advance.
    pub open spec fn has_x_advance(self, before: Self, x_advance: int) -> bool {
        &&& self.x_advance == x_advance
        &&& self == (GlyphPosition { x_advance: self.x_advance, ..before })
    }

    /// Whether this is `before` with the given vertical advance.
    pub open spec fn has_y_advance(self, before: Self, y_advance: int) -> bool {
        &&& self.y_advance == y_advance
        &&& self == (GlyphPosition { y_advance: self.y_advance, ..before })
    }

    /// Whether this is `before` with the given offsets.
    pub open spec fn has_offset(self, before: Self, x_offset: int, y_offset: int) -> bool {
        &&& self.x_offset == x_offset
        &&& self.y_offset == y_offset
        &&& self == (GlyphPosition { x_offset: self.x_offset, y_offset: self.y_offset, ..before })
    }
}

impl Default for GlyphPosition {
    fn default() -> (position: Self)
        ensures
            position == GlyphPosition::zero(),
    {
        GlyphPosition { x_advance: 0, y_advance: 0, x_offset: 0, y_offset: 0 }
    }
}

/// A point whose coordinates are the bits of 16.16 fixed point numbers.
#[derive(Clone, Copy, Debug, PartialEq, Eq, Structural)]
pub struct Point {
    /// The horizontal coordinate.
    pub x: i32,
    /// The vertical coordinate.
    pub y: i32,
}

/// The box around the outline of a glyph, in font units.
#[derive(Clone, Copy, Debug, PartialEq, Eq, Structural)]
pub struct BoundingBox {
    /// The left edge.
    pub x_min: i32,
    /// The bottom edge.
    pub y_min: i32,
    /// The right edge.
    pub x_max: i32,
    /// The top edge.
    pub y_max: i32,
}

impl BoundingBox {
    /// The box of a glyph that draws nothing.
    pub open spec fn zero() -> Self {
        BoundingBox { x_min: 0, y_min: 0, x_max: 0, y_max: 0 }
    }

    /// Whether every edge is a 16 bit number, as it is in a font file.
    pub open spec fn in_font_range(self) -> bool {
        &&& i16::MIN <= self.x_min <= i16::MAX
        &&& i16::MIN <= self.y_min <= i16::MAX
        &&& i16::MIN <= self.x_max <= i16::MAX
        &&& i16::MIN <= self.y_max <= i16::MAX
    }
}

impl Default for BoundingBox {
    fn default() -> (bounds: Self)
        ensures
            bounds == BoundingBox::zero(),
    {
        BoundingBox { x_min: 0, y_min: 0, x_max: 0, y_max: 0 }
    }
}

/// Glyph extent values, measured in font units.
///
/// Note that height is negative, in coordinate systems that grow up.
#[allow(non_camel_case_types)]
#[derive(Clone, Copy, Debug, PartialEq, Eq, Structural)]
pub struct hb_glyph_extents_t {
    /// Distance from the x-origin to the left extremum of the glyph.
    pub x_bearing: i32,
    /// Distance from the top extremum of the glyph to the y-origin.
    pub y_bearing: i32,
    /// Distance from the left extremum of the glyph to the right extremum.
    pub width: i32,
    /// Distance from the top extremum of the glyph to the bottom extremum.
    pub height: i32,
}

/// Glyph extent values, measured in font units.
pub type GlyphExtents = hb_glyph_extents_t;

impl hb_glyph_extents_t {
    /// Whether these are the extents of a box.
    pub open spec fn is_of(self, bounds: BoundingBox) -> bool {
        &&& self.x_bearing == bounds.x_min
        &&& self.y_bearing == bounds.y_max
        &&& self.width == bounds.x_max - bounds.x_min
        &&& self.height == bounds.y_min - bounds.y_max
    }
}

impl Default for hb_glyph_extents_t {
    fn default() -> (extents: Self)
        ensures
            extents == (hb_glyph_extents_t { x_bearing: 0, y_bearing: 0, width: 0, height: 0 }),
    {
        hb_glyph_extents_t { x_bearing: 0, y_bearing: 0, width: 0, height: 0 }
    }
}

} // verus!
