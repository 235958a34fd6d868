//! The font functions that a shaper calls.
use vstd::prelude::*;

use std::sync::Arc;

use crate::font_funcs::{Face, FontFuncs};
use crate::glyph::{GlyphExtents, GlyphId, GlyphInfo, GlyphPosition};
use crate::ot_font_funcs::OtFontFuncs;

verus! {

/// The font functions of a shaper.
pub enum FontClass<'a, F> {
    /// Those that use the metrics tables of the font.
    Default(Arc<OtFontFuncs<'a>>),
    /// Those that were set.
    Custom(Arc<F>),
}

impl<'a, F> FontClass<'a, F> {
    /// Whether the metrics tables, where they are used, can be read.
    pub open spec fn wf(self) -> bool {
        match self {
            FontClass::Default(funcs) => funcs.0.wf(),
            FontClass::Custom(_) => true,
        }
    }
}

impl<'a, F> Clone for FontClass<'a, F> {
    fn clone(&self) -> (class: Self)
        ensures
            class == *self,
    {
        match self {
            FontClass::Default(funcs) => FontClass::Default(funcs.clone()),
            FontClass::Custom(funcs) => FontClass::Custom(funcs.clone()),
        }
    }
}

impl<'a, F: FontFuncs> FontFuncs for FontClass<'a, F> {
    open spec fn h_advances_requires(
        &self,
        font: Face,
        glyph: Seq<GlyphInfo>,
        before: Seq<GlyphPosition>,
    ) -> bool {
        match self {
            FontClass::Default(funcs) => funcs.h_advances_requires(font, glyph, before),
            FontClass::Custom(funcs) => funcs.h_advances_requires(font, glyph, before),
        }
    }

    open spec fn h_advances_ensures(
        &self,
        font: Face,
        glyph: Seq<GlyphInfo>,
        before: Seq<GlyphPosition>,
        after: Seq<GlyphPosition>,
    ) -> bool {
        match self {
            FontClass::Default(funcs) => funcs.h_advances_ensures(font, glyph, before, after),
            FontClass::Custom(funcs) => funcs.h_advances_ensures(font, glyph, before, after),
        }
    }

    open spec fn v_advances_requires(
        &self,
        font: Face,
        glyph: Seq<GlyphInfo>,
        before: Seq<GlyphPosition>,
    ) -> bool {
        match self {
            FontClass::Default(funcs) => funcs.v_advances_requires(font, glyph, before),
            FontClass::Custom(funcs) => funcs.v_advances_requires(font, glyph, before),
        }
    }

    open spec fn v_advances_ensures(
        &self,
        font: Face,
        glyph: Seq<GlyphInfo>,
        before: Seq<GlyphPosition>,
        after: Seq<GlyphPosition>,
    ) -> bool {
        match self {
            FontClass::Default(funcs) => funcs.v_advances_ensures(font, glyph, before, after),
            FontClass::Custom(funcs) => funcs.v_advances_ensures(font, glyph, before, after),
        }
    }

    open spec fn h_origins_requires(
        &self,
        font: Face,
        glyph: Seq<GlyphInfo>,
        before: Seq<GlyphPosition>,
    ) -> bool {
        match self {
            FontClass::Default(funcs) => funcs.h_origins_requires(font, glyph, before),
            FontClass::Custom(funcs) => funcs.h_origins_requires(font, glyph, before),
        }
    }

    open spec fn h_origins_ensures(
        &self,
        font: Face,
        glyph: Seq<GlyphInfo>,
        before: Seq<GlyphPosition>,
        after: Seq<GlyphPosition>,
        result: Result<(), ()>,
    ) -> bool {
        match self {
            FontClass::Default(funcs) => funcs.h_origins_ensures(
                font,
                glyph,
                before,
                after,
                result,
            ),
            FontClass::Custom(funcs) => funcs.h_origins_ensures(font, glyph, before, after, result),
        }
    }

    open spec fn v_origins_requires(
        &self,
        font: Face,
        glyph: Seq<GlyphInfo>,
        before: Seq<GlyphPosition>,
    ) -> bool {
        match self {
            FontClass::Default(funcs) => funcs.v_origins_requires(font, glyph, before),
            FontClass::Custom(funcs) => funcs.v_origins_requires(font, glyph, before),
        }
    }

    open spec fn v_origins_ensures(
        &self,
        font: Face,
        glyph: Seq<GlyphInfo>,
        before: Seq<GlyphPosition>,
        after: Seq<GlyphPosition>,
        result: Result<(), ()>,
    ) -> bool {
        match self {
            FontClass::Default(funcs) => funcs.v_origins_ensures(
                font,
                glyph,
                before,
                after,
                result,
            ),
            FontClass::Custom(funcs) => funcs.v_origins_ensures(font, glyph, before, after, result),
        }
    }

    open spec fn non_default_h_origins_ensures(&self, font: Face, flag: bool) -> bool {
        match self {
            FontClass::Default(funcs) => funcs.non_default_h_origins_ensures(font, flag),
            FontClass::Custom(funcs) => funcs.non_default_h_origins_ensures(font, flag),
        }
    }

    open spec fn extents_requires(&self, font: Face, glyph: GlyphId) -> bool {
        match self {
            FontClass::Default(funcs) => funcs.extents_requires(font, glyph),
            FontClass::Custom(funcs) => funcs.extents_requires(font, glyph),
        }
    }

    open spec fn extents_ensures(
        &self,
        font: Face,
        glyph: GlyphId,
        extents: Option<GlyphExtents>,
    ) -> bool {
        match self {
            FontClass::Default(funcs) => funcs.extents_ensures(font, glyph, extents),
            FontClass::Custom(funcs) => funcs.extents_ensures(font, glyph, extents),
        }
    }

    fn glyph_h_advance(&self, font: &Face<'_>, glyph: GlyphId) -> (advance: i32)
        ensures
            match self {
                FontClass::Default(funcs) => advance == funcs.0.h_advance(glyph, font.coords@),
                FontClass::Custom(funcs) => call_ensures(
                    F::glyph_h_advance,
                    (&**funcs, font, glyph),
                    advance,
                ),
            },
    {
        match self {
            FontClass::Default(funcs) => (**funcs).glyph_h_advance(font, glyph),
            FontClass::Custom(funcs) => (**funcs).glyph_h_advance(font, glyph),
        }
    }

    fn glyph_v_advance(&self, font: &Face<'_>, glyph: GlyphId) -> (advance: i32)
        ensures
            match self {
                FontClass::Default(funcs) => advance == funcs.0.v_advance(glyph, font.coords@),
                FontClass::Custom(funcs) => call_ensures(
                    F::glyph_v_advance,
                    (&**funcs, font, glyph),
                    advance,
                ),
            },
    {
        match self {
            FontClass::Default(funcs) => (**funcs).glyph_v_advance(font, glyph),
            FontClass::Custom(funcs) => (**funcs).glyph_v_advance(font, glyph),
        }
    }

    fn glyph_h_advances(
        &self,
        font: &Face<'_>,
        glyph: &[GlyphInfo],
        advance: &mut [GlyphPosition],
    ) {
        match self {
            FontClass::Default(funcs) => (**funcs).glyph_h_advances(font, glyph, advance),
            FontClass::Custom(funcs) => (**funcs).glyph_h_advances(font, glyph, advance),
        }
    }

    fn glyph_v_advances(
        &self,
        font: &Face<'_>,
        glyph: &[GlyphInfo],
        advance: &mut [GlyphPosition],
    ) {
        match self {
            FontClass::Default(funcs) => (**funcs).glyph_v_advances(font, glyph, advance),
            FontClass::Custom(funcs) => (**funcs).glyph_v_advances(font, glyph, advance),
        }
    }

    fn glyph_h_origin(&self, font: &Face<'_>, glyph: GlyphId) -> (origin: Result<(i32, i32), ()>)
        ensures
            match self {
                FontClass::Default(_) => origin == Ok::<(i32, i32), ()>((0, 0)),
                FontClass::Custom(funcs) => call_ensures(
                    F::glyph_h_origin,
                    (&**funcs, font, glyph),
                    origin,
                ),
            },
    {
        match self {
            FontClass::Default(funcs) => (**funcs).glyph_h_origin(font, glyph),
            FontClass::Custom(funcs) => (**funcs).glyph_h_origin(font, glyph),
        }
    }

    fn glyph_v_origin(&self, font: &Face<'_>, glyph: GlyphId) -> (origin: Result<(i32, i32), ()>)
        ensures
            match self {
                FontClass::Default(funcs) => {
                    &&& origin is Ok
                    &&& origin->Ok_0.0 == funcs.0.v_origin_x(glyph, font.coords@)
                    &&& origin->Ok_0.1 == funcs.0.v_origin_y(glyph, font.coords@)
                },
                FontClass::Custom(funcs) => call_ensures(
                    F::glyph_v_origin,
                    (&**funcs, font, glyph),
                    origin,
                ),
            },
    {
        match self {
            FontClass::Default(funcs) => (**funcs).glyph_v_origin(font, glyph),
            FontClass::Custom(funcs) => (**funcs).glyph_v_origin(font, glyph),
        }
    }

    fn glyph_h_origins(
        &self,
        font: &Face<'_>,
        glyph: &[GlyphInfo],
        origin: &mut [GlyphPosition],
    ) -> (result: Result<(), ()>) {
        match self {
            FontClass::Default(funcs) => (**funcs).glyph_h_origins(font, glyph, origin),
            FontClass::Custom(funcs) => (**funcs).glyph_h_origins(font, glyph, origin),
        }
    }

    fn glyph_v_origins(
        &self,
        font: &Face<'_>,
        glyph: &[GlyphInfo],
        origin: &mut [GlyphPosition],
    ) -> (result: Result<(), ()>) {
        match self {
            FontClass::Default(funcs) => (**funcs).glyph_v_origins(font, glyph, origin),
            FontClass::Custom(funcs) => (**funcs).glyph_v_origins(font, glyph, origin),
        }
    }

    fn non_default_h_origins(&self, font: &Face<'_>) -> (flag: bool) {
        match self {
            FontClass::Default(funcs) => (**funcs).non_default_h_origins(font),
            FontClass::Custom(funcs) => (**funcs).non_default_h_origins(font),
        }
    }

    fn glyph_extents(&self, font: &Face<'_>, glyph: GlyphId) -> (extents: Option<GlyphExtents>) {
        match self {
            FontClass::Default(funcs) => (**funcs).glyph_extents(font, glyph),
            FontClass::Custom(funcs) => (**funcs).glyph_extents(font, glyph),
        }
    }
}

} // verus!
