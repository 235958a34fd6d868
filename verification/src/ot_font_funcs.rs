//! The font functions that use the metrics tables of a font.
use vstd::prelude::*;

use crate::engine::ShapingEngine;
use crate::font::FontRef;
use crate::font_funcs::{Face, FontFuncs};
use crate::font_tables;
use crate::font_tables::{
    hvar_advance_width_delta, mvar_metric_delta, vmtx_advance, vorg_vertical_origin_y,
    vvar_advance_height_delta, vvar_v_org_delta,
};
use crate::glyph::{
    hb_glyph_extents_t, GlyphExtents, GlyphId, GlyphInfo, GlyphPosition,
    NormalizedCoord,
};
use crate::glyph_metrics::{GlyphMetrics, HASC, HDSC};
use crate::metric_delta;
use crate::metric_delta::MetricDelta;
use crate::shaper_data::ShaperData;
use crate::vertical_origin;
use crate::vertical_origin::{
    to_bearing_origin_y, to_centered_origin_y, to_font_height, to_given_origin_y,
};

verus! {

impl<'a> GlyphMetrics<'a> {
    /// The advance width of a glyph at the default location. A glyph past the long metrics has the
    /// advance of the last of them; where there are none, a glyph of the font is half an em wide.
    pub open spec fn default_h_advance(self, glyph: GlyphId) -> int {
        if glyph < self.h_metrics@.len() {
            self.h_metrics@[glyph as int].advance as int
        } else if self.h_metrics@.len() > 0 {
            self.h_metrics@.last().advance as int
        } else if glyph < self.num_glyphs {
            self.upem as int / 2
        } else {
            0
        }
    }

    /// Where the variation of an advance width is read: in the metrics variations, or else in the
    /// outline.
    pub open spec fn h_advance_delta(
        self,
        glyph: GlyphId,
        coords: Seq<NormalizedCoord>,
    ) -> MetricDelta {
        if coords.len() == 0 {
            MetricDelta::Default
        } else if self.hvar is Some {
            MetricDelta::Table(font_tables::hvar_width(self.hvar->0@, glyph, coords))
        } else {
            MetricDelta::Phantom(self.phantom(glyph, coords))
        }
    }

    /// The advance width of a glyph.
    pub open spec fn h_advance(self, glyph: GlyphId, coords: Seq<NormalizedCoord>) -> int {
        self.default_h_advance(glyph) + self.h_advance_delta(glyph, coords).width()
    }

    /// The advance height of a glyph at the default location: that of the metrics table, or else the
    /// height of the font.
    pub open spec fn default_height(self, glyph: GlyphId) -> int {
        let advance = match self.vmtx {
            Some(vmtx) => font_tables::metrics_advance(vmtx.data@, vmtx.count as nat, glyph),
            None => None,
        };
        match advance {
            Some(advance) => advance as int,
            None => self.ascent - self.descent,
        }
    }

    /// Where the variation of an advance height is read: in the metrics variations, or else in the
    /// outline.
    pub open spec fn v_advance_delta(
        self,
        glyph: GlyphId,
        coords: Seq<NormalizedCoord>,
    ) -> MetricDelta {
        if coords.len() == 0 {
            MetricDelta::Default
        } else if self.vvar is Some {
            MetricDelta::Table(font_tables::vvar_height(self.vvar->0@, glyph, coords))
        } else {
            MetricDelta::Phantom(self.phantom(glyph, coords))
        }
    }

    /// The advance of a glyph in vertical text, which runs down.
    pub open spec fn v_advance(self, glyph: GlyphId, coords: Seq<NormalizedCoord>) -> int {
        -(self.default_height(glyph) + self.v_advance_delta(glyph, coords).height())
    }

    /// How far the vertical origin of a glyph varies, if that is known.
    pub open spec fn v_origin_delta(self, glyph: GlyphId, coords: Seq<NormalizedCoord>) -> Option<
        i32,
    > {
        if coords.len() > 0 && self.vvar is Some {
            font_tables::vvar_v_org(self.vvar->0@, glyph, coords)
        } else {
            None
        }
    }

    /// How far a metric of the whole font varies, if that is known.
    pub open spec fn metric_delta(self, tag: u32, coords: Seq<NormalizedCoord>) -> Option<i32> {
        if coords.len() > 0 && self.mvar is Some {
            font_tables::mvar_metric(self.mvar->0@, tag, coords)
        } else {
            None
        }
    }

    /// The height of the font: from its descent to its ascent.
    pub open spec fn font_height(self, coords: Seq<NormalizedCoord>) -> int {
        vertical_origin::font_height(
            self.ascent,
            self.descent,
            self.metric_delta(HASC, coords),
            self.metric_delta(HDSC, coords),
        )
    }

    /// The y coordinate of the vertical origin of a glyph:
    /// - the one that the vertical origin table gives;
    /// - or else, with vertical metrics, the top side bearing above the outline;
    /// - or else, with an outline, where the outline is centered in the height of the font;
    /// - or else the ascent of the font.
    pub open spec fn v_origin_y(self, glyph: GlyphId, coords: Seq<NormalizedCoord>) -> int {
        let delta = self.v_origin_delta(glyph, coords);
        match self.vorg {
            Some(vorg) => vertical_origin::given_origin_y(
                font_tables::vorg_origin_y(vorg@, glyph),
                delta,
            ),
            None => match self.bounds(glyph, coords) {
                Some(bounds) => match self.top_bearing(glyph, coords) {
                    Some(bearing) => vertical_origin::bearing_origin_y(bounds, bearing, delta),
                    None => vertical_origin::centered_origin_y(bounds, self.font_height(coords)),
                },
                None => vertical_origin::given_origin_y(
                    self.ascent,
                    self.metric_delta(HASC, coords),
                ),
            },
        }
    }

    /// The y coordinate of the vertical origin of a glyph at the default location.
    pub open spec fn default_v_origin_y(self, glyph: GlyphId) -> int {
        match self.vorg {
            Some(vorg) => font_tables::vorg_origin_y(vorg@, glyph) as int,
            None => match self.bounds(glyph, Seq::empty()) {
                Some(bounds) => match self.vmtx {
                    Some(vmtx) => bounds.y_max + match font_tables::metrics_side_bearing(
                        vmtx.data@,
                        vmtx.count as nat,
                        glyph,
                    ) {
                        Some(bearing) => bearing as int,
                        None => 0,
                    },
                    None => vertical_origin::centered_origin_y(
                        bounds,
                        self.ascent - self.descent,
                    ),
                },
                None => self.ascent as int,
            },
        }
    }

    /// The x coordinate of the vertical origin of a glyph: the middle of its advance width.
    pub open spec fn v_origin_x(self, glyph: GlyphId, coords: Seq<NormalizedCoord>) -> int {
        vertical_origin::half(self.h_advance(glyph, coords))
    }
}

/// A default set of font functions, using the builtin glyph metrics tables.
///
/// If you use hinting or any other process that modifies glyph metrics,
/// you should create your own [`FontFuncs`] implementation instead of using this struct,
/// otherwise the rendered and shaped metrics will not be in sync.
pub struct OtFontFuncs<'a>(pub GlyphMetrics<'a>);

impl<'a> OtFontFuncs<'a> {
    /// Create a default font function set.
    pub fn new<E: ShapingEngine>(font: &FontRef<'a>, data: &ShaperData<E>) -> (funcs: Self)
        ensures
            funcs.0.is_of(*font, data.table_ranges),
            funcs.0.wf(),
    {
        OtFontFuncs(GlyphMetrics::new(font, &data.table_ranges))
    }

    /// Returns the advance width of a glyph.
    fn h_advance(&self, glyph: GlyphId, coords: &[NormalizedCoord]) -> (advance: i32)
        ensures
            advance == self.0.h_advance(glyph, coords@),
            -0x1_0000 <= advance <= 0x1_ffff,
    {
        let h_metrics = &self.0.h_metrics;
        let index: usize = glyph as usize;
        let advance: i32 = if index < h_metrics.len() {
            h_metrics[index].advance as i32
        } else if h_metrics.len() > 0 {
            h_metrics[h_metrics.len() - 1].advance as i32
        } else if glyph < self.0.num_glyphs {
            self.0.upem as i32 / 2
        } else {
            0
        };
        let delta = if coords.is_empty() {
            MetricDelta::Default
        } else if let Some(hvar) = self.0.hvar {
            MetricDelta::Table(hvar_advance_width_delta(hvar, glyph, coords))
        } else {
            MetricDelta::Phantom(self.0.phantom_deltas(glyph, coords))
        };
        advance + delta.to_width()
    }

    /// Returns the advance of a glyph in vertical text.
    fn v_advance(&self, glyph: GlyphId, coords: &[NormalizedCoord]) -> (advance: i32)
        ensures
            advance == self.0.v_advance(glyph, coords@),
    {
        let height = match &self.0.vmtx {
            Some(vmtx) => vmtx_advance(vmtx.data, vmtx.count, glyph),
            None => None,
        };
        let advance: i32 = -(match height {
            Some(height) => height as i32,
            None => self.0.ascent as i32 - self.0.descent as i32,
        });
        let delta = if coords.is_empty() {
            MetricDelta::Default
        } else if let Some(vvar) = self.0.vvar {
            MetricDelta::Table(vvar_advance_height_delta(vvar, glyph, coords))
        } else {
            MetricDelta::Phantom(self.0.phantom_deltas(glyph, coords))
        };
        advance - delta.to_height()
    }

    /// Returns how far the vertical origin of a glyph varies, if that is known.
    fn v_origin_delta(&self, glyph: GlyphId, coords: &[NormalizedCoord]) -> (delta: Option<i32>)
        ensures
            delta == self.0.v_origin_delta(glyph, coords@),
    {
        match self.0.vvar {
            Some(vvar) if !coords.is_empty() => vvar_v_org_delta(vvar, glyph, coords),
            _ => None,
        }
    }

    /// Returns how far a metric of the whole font varies; one that is not known is as good as none.
    fn metric_delta(&self, tag: u32, coords: &[NormalizedCoord]) -> (delta: Option<i32>)
        ensures
            metric_delta::delta_units(delta) == metric_delta::delta_units(
                self.0.metric_delta(tag, coords@),
            ),
    {
        match self.0.mvar {
            Some(mvar) => mvar_metric_delta(mvar, tag, coords),
            None => None,
        }
    }

    /// Returns the y coordinate of the vertical origin of a glyph.
    fn v_origin_y(&self, glyph: GlyphId, coords: &[NormalizedCoord]) -> (y: i32)
        requires
            self.0.wf(),
        ensures
            y == self.0.v_origin_y(glyph, coords@),
    {
        if let Some(vorg) = self.0.vorg {
            return to_given_origin_y(
                vorg_vertical_origin_y(vorg, glyph),
                self.v_origin_delta(glyph, coords),
            );
        }
        match self.0.extents(glyph, coords) {
            Some(bounds) => match self.0.top_side_bearing(glyph, coords) {
                Some(bearing) => to_bearing_origin_y(
                    bounds,
                    bearing,
                    self.v_origin_delta(glyph, coords),
                ),
                None => to_centered_origin_y(
                    bounds,
                    to_font_height(
                        self.0.ascent,
                        self.0.descent,
                        self.metric_delta(HASC, coords),
                        self.metric_delta(HDSC, coords),
                    ),
                ),
            },
            None => to_given_origin_y(self.0.ascent, self.metric_delta(HASC, coords)),
        }
    }
}

impl<'a> FontFuncs for OtFontFuncs<'a> {
    open spec fn h_advances_requires(
        &self,
        font: Face,
        glyph: Seq<GlyphInfo>,
        before: Seq<GlyphPosition>,
    ) -> bool {
        true
    }

    /// The advance of each glyph that has a position goes into that position.
    open spec fn h_advances_ensures(
        &self,
        font: Face,
        glyph: Seq<GlyphInfo>,
        before: Seq<GlyphPosition>,
        after: Seq<GlyphPosition>,
    ) -> bool {
        &&& after.len() == before.len()
        &&& forall|i: int|
            0 <= i < before.len() ==> if i < glyph.len() {
                (#[trigger] after[i]).has_x_advance(
                    before[i],
                    self.0.h_advance(glyph[i].glyph_id, font.coords@),
                )
            } else {
                after[i] == before[i]
            }
    }

    fn glyph_h_advances(
        &self,
        font: &Face<'_>,
        glyph: &[GlyphInfo],
        advance: &mut [GlyphPosition],
    ) {
        let ghost before = advance@;
        let coords = font.coords();
        let mut i: usize = 0;
        while i < glyph.len() && i < advance.len()
            invariant
                i <= glyph@.len(),
                i <= advance@.len(),
                advance@.len() == before.len(),
                coords@ == font.coords@,
                forall|j: int|
                    0 <= j < before.len() ==> if j < i {
                        (#[trigger] advance@[j]).has_x_advance(
                            before[j],
                            self.0.h_advance(glyph@[j].glyph_id, coords@),
                        )
                    } else {
                        advance@[j] == before[j]
                    },
            decreases glyph.len() - i,
        {
            advance[i].x_advance = self.h_advance(glyph[i].as_glyph(), coords);
            i += 1;
        }
    }

    open spec fn v_advances_requires(
        &self,
        font: Face,
        glyph: Seq<GlyphInfo>,
        before: Seq<GlyphPosition>,
    ) -> bool {
        true
    }

    /// The advance of each glyph that has a position goes into that position.
    open spec fn v_advances_ensures(
        &self,
        font: Face,
        glyph: Seq<GlyphInfo>,
        before: Seq<GlyphPosition>,
        after: Seq<GlyphPosition>,
    ) -> bool {
        &&& after.len() == before.len()
        &&& forall|i: int|
            0 <= i < before.len() ==> if i < glyph.len() {
                (#[trigger] after[i]).has_y_advance(
                    before[i],
                    self.0.v_advance(glyph[i].glyph_id, font.coords@),
                )
            } else {
                after[i] == before[i]
            }
    }

    fn glyph_v_advances(
        &self,
        font: &Face<'_>,
        glyph: &[GlyphInfo],
        advance: &mut [GlyphPosition],
    ) {
        let ghost before = advance@;
        let coords = font.coords();
        let mut i: usize = 0;
        while i < glyph.len() && i < advance.len()
            invariant
                i <= glyph@.len(),
                i <= advance@.len(),
                advance@.len() == before.len(),
                coords@ == font.coords@,
                forall|j: int|
                    0 <= j < before.len() ==> if j < i {
                        (#[trigger] advance@[j]).has_y_advance(
                            before[j],
                            self.0.v_advance(glyph@[j].glyph_id, coords@),
                        )
                    } else {
                        advance@[j] == before[j]
                    },
            decreases glyph.len() - i,
        {
            advance[i].y_advance = self.v_advance(glyph[i].as_glyph(), coords);
            i += 1;
        }
    }

    open spec fn h_origins_requires(
        &self,
        font: Face,
        glyph: Seq<GlyphInfo>,
        before: Seq<GlyphPosition>,
    ) -> bool {
        true
    }

    /// Every position gets the origin (0, 0).
    open spec fn h_origins_ensures(
        &self,
        font: Face,
        glyph: Seq<GlyphInfo>,
        before: Seq<GlyphPosition>,
        after: Seq<GlyphPosition>,
        result: Result<(), ()>,
    ) -> bool {
        &&& result is Ok
        &&& after.len() == before.len()
        &&& forall|i: int|
            0 <= i < before.len() ==> (#[trigger] after[i]).has_offset(before[i], 0, 0)
    }

    fn glyph_h_origins(
        &self,
        font: &Face<'_>,
        glyph: &[GlyphInfo],
        origin: &mut [GlyphPosition],
    ) -> (result: Result<(), ()>) {
        let ghost before = origin@;
        let mut i: usize = 0;
        while i < origin.len()
            invariant
                i <= origin@.len(),
                origin@.len() == before.len(),
                forall|j: int|
                    0 <= j < before.len() ==> if j < i {
                        (#[trigger] origin@[j]).has_offset(before[j], 0, 0)
                    } else {
                        origin@[j] == before[j]
                    },
            decreases origin.len() - i,
        {
            origin[i].x_offset = 0;
            origin[i].y_offset = 0;
            i += 1;
        }
        Ok(())
    }

    /// Horizontal origins are always (0, 0).
    open spec fn non_default_h_origins_ensures(&self, font: Face, flag: bool) -> bool {
        !flag
    }

    fn non_default_h_origins(&self, font: &Face<'_>) -> (flag: bool) {
        false
    }

    open spec fn v_origins_requires(
        &self,
        font: Face,
        glyph: Seq<GlyphInfo>,
        before: Seq<GlyphPosition>,
    ) -> bool {
        self.0.wf()
    }

    /// The origin of each glyph that has a position goes into that position.
    open spec fn v_origins_ensures(
        &self,
        font: Face,
        glyph: Seq<GlyphInfo>,
        before: Seq<GlyphPosition>,
        after: Seq<GlyphPosition>,
        result: Result<(), ()>,
    ) -> bool {
        &&& result is Ok
        &&& after.len() == before.len()
        &&& forall|i: int|
            0 <= i < before.len() ==> if i < glyph.len() {
                (#[trigger] after[i]).has_offset(
                    before[i],
                    self.0.v_origin_x(glyph[i].glyph_id, font.coords@),
                    self.0.v_origin_y(glyph[i].glyph_id, font.coords@),
                )
            } else {
                after[i] == before[i]
            }
    }

    fn glyph_v_origins(
        &self,
        font: &Face<'_>,
        glyph: &[GlyphInfo],
        origin: &mut [GlyphPosition],
    ) -> (result: Result<(), ()>) {
        let ghost before = origin@;
        let coords = font.coords();
        let mut i: usize = 0;
        while i < glyph.len() && i < origin.len()
            invariant
                self.0.wf(),
                i <= glyph@.len(),
                i <= origin@.len(),
                origin@.len() == before.len(),
                coords@ == font.coords@,
                forall|j: int|
                    0 <= j < before.len() ==> if j < i {
                        (#[trigger] origin@[j]).has_offset(
                            before[j],
                            self.0.v_origin_x(glyph@[j].glyph_id, coords@),
                            self.0.v_origin_y(glyph@[j].glyph_id, coords@),
                        )
                    } else {
                        origin@[j] == before[j]
                    },
            decreases glyph.len() - i,
        {
            let info = glyph[i];
            origin[i].x_offset = self.h_advance(info.as_glyph(), coords) / 2;
            origin[i].y_offset = self.v_origin_y(info.as_glyph(), coords);
            i += 1;
        }
        Ok(())
    }

    open spec fn extents_requires(&self, font: Face, glyph: GlyphId) -> bool {
        true
    }

    /// The extents of the box of the glyph.
    open spec fn extents_ensures(
        &self,
        font: Face,
        glyph: GlyphId,
        extents: Option<GlyphExtents>,
    ) -> bool {
        match self.0.bounds(glyph, font.coords@) {
            Some(bounds) => extents is Some && extents->0.is_of(bounds),
            None => extents is None,
        }
    }

    fn glyph_extents(&self, font: &Face<'_>, glyph: GlyphId) -> (extents: Option<GlyphExtents>) {
        match self.0.extents(glyph, font.coords()) {
            Some(bounds) => Some(
                hb_glyph_extents_t {
                    x_bearing: bounds.x_min,
                    y_bearing: bounds.y_max,
                    width: bounds.x_max - bounds.x_min,
                    height: bounds.y_min - bounds.y_max,
                },
            ),
            None => None,
        }
    }
}

} // verus!
