//! The font functions: how a shaper learns the metrics of a glyph.
use vstd::prelude::*;

use crate::font::FontRef;
use crate::glyph::{GlyphExtents, GlyphId, GlyphInfo, GlyphPosition, NormalizedCoord};

verus! {

/// A point size, as the bits of a single precision floating point number.
#[derive(Clone, Copy, Debug, PartialEq, Eq, Structural)]
pub struct PointSize(pub u32);

/// A font at one place in its variation space: what font functions see of a shaper.
#[derive(Clone, Copy)]
pub struct Face<'a> {
    /// The font.
    pub font: FontRef<'a>,
    /// The number of font units per em.
    pub units_per_em: u16,
    /// The point size, if one is set.
    pub points_per_em: Option<PointSize>,
    /// The active normalized coordinates, in axis order; none at the default location.
    pub coords: &'a [NormalizedCoord],
}

impl<'a> Face<'a> {
    /// Returns font's units per EM.
    pub fn units_per_em(&self) -> (units: i32)
        ensures
            units == self.units_per_em,
    {
        self.units_per_em as i32
    }

    /// Returns the currently active normalized coordinates.
    pub fn coords(&self) -> (coords: &'a [NormalizedCoord])
        ensures
            coords@ == self.coords@,
    {
        self.coords
    }
}

/// A run of text that is the one given glyph.
pub open spec fn single_glyph(glyph: GlyphId) -> Seq<GlyphInfo> {
    seq![GlyphInfo { glyph_id: glyph }]
}

/// The positions of a run of one glyph before anything is known of it.
pub open spec fn single_position() -> Seq<GlyphPosition> {
    seq![GlyphPosition::zero()]
}

/// A set of font functions used by the shaper to retrieve glyph metrics and other font data.
///
/// These functions should be overriden to reflect any modifications to the font metrics, such as
/// hinting, that are applied per-glyph.
///
/// What each function needs and what it does is up to the implementation, which says so in the
/// specification functions. One that says nothing needs nothing, and promises nothing.
pub trait FontFuncs {
    /// What `glyph_h_advances` needs.
    open spec fn h_advances_requires(
        &self,
        font: Face,
        glyph: Seq<GlyphInfo>,
        before: Seq<GlyphPosition>,
    ) -> bool {
        true
    }

    /// How `glyph_h_advances` changes the positions.
    open spec fn h_advances_ensures(
        &self,
        font: Face,
        glyph: Seq<GlyphInfo>,
        before: Seq<GlyphPosition>,
        after: Seq<GlyphPosition>,
    ) -> bool {
        true
    }

    /// What `glyph_v_advances` needs.
    open spec fn v_advances_requires(
        &self,
        font: Face,
        glyph: Seq<GlyphInfo>,
        before: Seq<GlyphPosition>,
    ) -> bool {
        true
    }

    /// How `glyph_v_advances` changes the positions.
    open spec fn v_advances_ensures(
        &self,
        font: Face,
        glyph: Seq<GlyphInfo>,
        before: Seq<GlyphPosition>,
        after: Seq<GlyphPosition>,
    ) -> bool {
        true
    }

    /// What `glyph_h_origins` needs.
    open spec fn h_origins_requires(
        &self,
        font: Face,
        glyph: Seq<GlyphInfo>,
        before: Seq<GlyphPosition>,
    ) -> bool {
        true
    }

    /// How `glyph_h_origins` changes the positions, and what it returns.
    open spec fn h_origins_ensures(
        &self,
        font: Face,
        glyph: Seq<GlyphInfo>,
        before: Seq<GlyphPosition>,
        after: Seq<GlyphPosition>,
        result: Result<(), ()>,
    ) -> bool {
        true
    }

    /// What `glyph_v_origins` needs.
    open spec fn v_origins_requires(
        &self,
        font: Face,
        glyph: Seq<GlyphInfo>,
        before: Seq<GlyphPosition>,
    ) -> bool {
        true
    }

    /// How `glyph_v_origins` changes the positions, and what it returns.
    open spec fn v_origins_ensures(
        &self,
        font: Face,
        glyph: Seq<GlyphInfo>,
        before: Seq<GlyphPosition>,
        after: Seq<GlyphPosition>,
        result: Result<(), ()>,
    ) -> bool {
        true
    }

    /// What `non_default_h_origins` returns.
    open spec fn non_default_h_origins_ensures(&self, font: Face, flag: bool) -> bool {
        true
    }

    /// What `glyph_extents` needs.
    open spec fn extents_requires(&self, font: Face, glyph: GlyphId) -> bool {
        true
    }

    /// What `glyph_extents` returns.
    open spec fn extents_ensures(
        &self,
        font: Face,
        glyph: GlyphId,
        extents: Option<GlyphExtents>,
    ) -> bool {
        true
    }

    /// Returns the advance of a glyph in horizontal text as it is in a run of its own. This is what
    /// `glyph_h_advance` returns unless it is overridden; it is not meant to be overridden itself.
    fn single_h_advance(&self, font: &Face<'_>, glyph: GlyphId) -> (advance: i32)
        requires
            self.h_advances_requires(*font, single_glyph(glyph), single_position()),
        ensures
            exists|after: Seq<GlyphPosition>|
                after.len() == 1 && advance == after[0].x_advance
                    && #[trigger] self.h_advances_ensures(
                    *font,
                    single_glyph(glyph),
                    single_position(),
                    after,
                ),
    {
        let info: [GlyphInfo; 1] = [GlyphInfo { glyph_id: glyph }];
        let mut position: [GlyphPosition; 1] = [GlyphPosition::default()];
        assert(info@ =~= single_glyph(glyph));
        assert(position@ =~= single_position());
        self.glyph_h_advances(font, &info, &mut position);
        position[0].x_advance
    }

    /// Retrieve the advance for a specific glyph, in horizontal-direction text segments. Returns a
    /// value in font coordinates.
    fn glyph_h_advance(&self, font: &Face<'_>, glyph: GlyphId) -> (advance: i32)
        requires
            self.h_advances_requires(*font, single_glyph(glyph), single_position()),
        default_ensures
            exists|after: Seq<GlyphPosition>|
                after.len() == 1 && advance == after[0].x_advance
                    && #[trigger] self.h_advances_ensures(
                    *font,
                    single_glyph(glyph),
                    single_position(),
                    after,
                ),
    {
        self.single_h_advance(font, glyph)
    }

    /// Returns the advance of a glyph in vertical text as it is in a run of its own. This is what
    /// `glyph_v_advance` returns unless it is overridden; it is not meant to be overridden itself.
    fn single_v_advance(&self, font: &Face<'_>, glyph: GlyphId) -> (advance: i32)
        requires
            self.v_advances_requires(*font, single_glyph(glyph), single_position()),
        ensures
            exists|after: Seq<GlyphPosition>|
                after.len() == 1 && advance == after[0].y_advance
                    && #[trigger] self.v_advances_ensures(
                    *font,
                    single_glyph(glyph),
                    single_position(),
                    after,
                ),
    {
        let info: [GlyphInfo; 1] = [GlyphInfo { glyph_id: glyph }];
        let mut position: [GlyphPosition; 1] = [GlyphPosition::default()];
        assert(info@ =~= single_glyph(glyph));
        assert(position@ =~= single_position());
        self.glyph_v_advances(font, &info, &mut position);
        position[0].y_advance
    }

    /// Retrieve the advance for a specific glyph, in vertical-direction text segments. Returns a
    /// value in font coordinates.
    fn glyph_v_advance(&self, font: &Face<'_>, glyph: GlyphId) -> (advance: i32)
        requires
            self.v_advances_requires(*font, single_glyph(glyph), single_position()),
        default_ensures
            exists|after: Seq<GlyphPosition>|
                after.len() == 1 && advance == after[0].y_advance
                    && #[trigger] self.v_advances_ensures(
                    *font,
                    single_glyph(glyph),
                    single_position(),
                    after,
                ),
    {
        self.single_v_advance(font, glyph)
    }

    /// Retrieve the advances for a specific sequence of glyphs into `advance[n].x_advance`, in
    /// horizontal-direction text segments.
    fn glyph_h_advances(&self, font: &Face<'_>, glyph: &[GlyphInfo], advance: &mut [GlyphPosition])
        requires
            self.h_advances_requires(*font, glyph@, old(advance)@),
        ensures
            final(advance)@.len() == old(advance)@.len(),
            self.h_advances_ensures(*font, glyph@, old(advance)@, final(advance)@),
    ;

    /// Retrieve the advances for a specific sequence of glyphs into `advance[n].y_advance`, in
    /// vertical-direction text segments.
    fn glyph_v_advances(&self, font: &Face<'_>, glyph: &[GlyphInfo], advance: &mut [GlyphPosition])
        requires
            self.v_advances_requires(*font, glyph@, old(advance)@),
        ensures
            final(advance)@.len() == old(advance)@.len(),
            self.v_advances_ensures(*font, glyph@, old(advance)@, final(advance)@),
    ;

    /// Returns the origin of a glyph in horizontal text as it is in a run of its own. This is what
    /// `glyph_h_origin` returns unless it is overridden; it is not meant to be overridden itself.
    fn single_h_origin(&self, font: &Face<'_>, glyph: GlyphId) -> (origin: Result<(i32, i32), ()>)
        requires
            self.h_origins_requires(*font, single_glyph(glyph), single_position()),
        ensures
            exists|after: Seq<GlyphPosition>, result: Result<(), ()>|
                after.len() == 1 && origin == origin_of(after[0], result)
                    && #[trigger] self.h_origins_ensures(
                    *font,
                    single_glyph(glyph),
                    single_position(),
                    after,
                    result,
                ),
    {
        let info: [GlyphInfo; 1] = [GlyphInfo { glyph_id: glyph }];
        let mut position: [GlyphPosition; 1] = [GlyphPosition::default()];
        assert(info@ =~= single_glyph(glyph));
        assert(position@ =~= single_position());
        match self.glyph_h_origins(font, &info, &mut position) {
            Ok(()) => Ok((position[0].x_offset, position[0].y_offset)),
            Err(()) => Err(()),
        }
    }

    /// Retrieve the (x, y) coordinates of the origin for a glyph, for horizontal-direction text
    /// segments.
    fn glyph_h_origin(&self, font: &Face<'_>, glyph: GlyphId) -> (origin: Result<(i32, i32), ()>)
        requires
            self.h_origins_requires(*font, single_glyph(glyph), single_position()),
        default_ensures
            exists|after: Seq<GlyphPosition>, result: Result<(), ()>|
                after.len() == 1 && origin == origin_of(after[0], result)
                    && #[trigger] self.h_origins_ensures(
                    *font,
                    single_glyph(glyph),
                    single_position(),
                    after,
                    result,
                ),
    {
        self.single_h_origin(font, glyph)
    }

    /// Returns the origin of a glyph in vertical text as it is in a run of its own. This is what
    /// `glyph_v_origin` returns unless it is overridden; it is not meant to be overridden itself.
    fn single_v_origin(&self, font: &Face<'_>, glyph: GlyphId) -> (origin: Result<(i32, i32), ()>)
        requires
            self.v_origins_requires(*font, single_glyph(glyph), single_position()),
        ensures
            exists|after: Seq<GlyphPosition>, result: Result<(), ()>|
                after.len() == 1 && origin == origin_of(after[0], result)
                    && #[trigger] self.v_origins_ensures(
                    *font,
                    single_glyph(glyph),
                    single_position(),
                    after,
                    result,
                ),
    {
        let info: [GlyphInfo; 1] = [GlyphInfo { glyph_id: glyph }];
        let mut position: [GlyphPosition; 1] = [GlyphPosition::default()];
        assert(info@ =~= single_glyph(glyph));
        assert(position@ =~= single_position());
        match self.glyph_v_origins(font, &info, &mut position) {
            Ok(()) => Ok((position[0].x_offset, position[0].y_offset)),
            Err(()) => Err(()),
        }
    }

    /// Retrieve the (x, y) coordinates of the origin for a glyph, for vertical-direction text
    /// segments.
    fn glyph_v_origin(&self, font: &Face<'_>, glyph: GlyphId) -> (origin: Result<(i32, i32), ()>)
        requires
            self.v_origins_requires(*font, single_glyph(glyph), single_position()),
        default_ensures
            exists|after: Seq<GlyphPosition>, result: Result<(), ()>|
                after.len() == 1 && origin == origin_of(after[0], result)
                    && #[trigger] self.v_origins_ensures(
                    *font,
                    single_glyph(glyph),
                    single_position(),
                    after,
                    result,
                ),
    {
        self.single_v_origin(font, glyph)
    }

    /// Retrieve the origins for a specific sequence of glyphs into `origin[n].{x,y}_offset`, for
    /// horizontal-direction text segments.
    fn glyph_h_origins(
        &self,
        font: &Face<'_>,
        glyph: &[GlyphInfo],
        origin: &mut [GlyphPosition],
    ) -> (result: Result<(), ()>)
        requires
            self.h_origins_requires(*font, glyph@, old(origin)@),
        ensures
            final(origin)@.len() == old(origin)@.len(),
            self.h_origins_ensures(*font, glyph@, old(origin)@, final(origin)@, result),
    ;

    /// Retrieve the origins for a specific sequence of glyphs into `origin[n].{x,y}_offset`, for
    /// vertical-direction text segments.
    fn glyph_v_origins(
        &self,
        font: &Face<'_>,
        glyph: &[GlyphInfo],
        origin: &mut [GlyphPosition],
    ) -> (result: Result<(), ()>)
        requires
            self.v_origins_requires(*font, glyph@, old(origin)@),
        ensures
            final(origin)@.len() == old(origin)@.len(),
            self.v_origins_ensures(*font, glyph@, old(origin)@, final(origin)@, result),
    ;

    /// Flag if the values returned by `glyph_h_origins` won't always be `(0, 0)`.
    fn non_default_h_origins(&self, font: &Face<'_>) -> (flag: bool)
        ensures
            self.non_default_h_origins_ensures(*font, flag),
    ;

    /// Retrieve the extents for a specified glyph.
    fn glyph_extents(&self, font: &Face<'_>, glyph: GlyphId) -> (extents: Option<GlyphExtents>)
        requires
            self.extents_requires(*font, glyph),
        ensures
            self.extents_ensures(*font, glyph, extents),
    ;
}

/// The origin that a position holds after a call with the given result.
pub open spec fn origin_of(position: GlyphPosition, result: Result<(), ()>) -> Result<
    (i32, i32),
    (),
> {
    match result {
        Ok(_) => Ok((position.x_offset, position.y_offset)),
        Err(_) => Err(()),
    }
}

} // verus!
