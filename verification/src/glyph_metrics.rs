//! Glyph metrics from the tables of a font.
use vstd::prelude::*;

use crate::font::{FontRef, TableRanges};
use crate::font_tables;
use crate::font_tables::{
    gvar_phantom_point_deltas, gvar_read, hmtx_h_metrics, hmtx_side_bearing, hvar_lsb_delta,
    hvar_read, loca_get_glyf, loca_read, mvar_read, vmtx_side_bearing, vorg_read, vvar_read,
    vvar_tsb_delta, LongMetric,
};
use crate::glyph::{BoundingBox, GlyphId, NormalizedCoord, Point};
use crate::metric_delta::MetricDelta;

verus! {

/// The tag of the horizontal ascender in a metrics variations table, `hasc`.
pub const HASC: u32 = 0x6861_7363;

/// The tag of the horizontal descender in a metrics variations table, `hdsc`.
pub const HDSC: u32 = 0x6864_7363;

/// An `hmtx` or `vmtx` table with the number of its long metrics.
#[derive(Clone, Copy)]
pub struct MetricsTable<'a> {
    /// The bytes of the table.
    pub data: &'a [u8],
    /// The number of long metrics.
    pub count: u16,
}

/// The tables that hold the glyph outlines.
#[derive(Clone, Copy)]
pub struct GlyfTables<'a> {
    /// The index to the outlines.
    pub loca: &'a [u8],
    /// Whether the offsets in `loca` take 32 bits.
    pub loca_long: bool,
    /// The outlines.
    pub glyf: &'a [u8],
    /// How the outlines vary.
    pub gvar: Option<&'a [u8]>,
}

/// The tables of a font that glyph metrics come from.
pub struct GlyphMetrics<'a> {
    /// Horizontal metrics.
    pub hmtx: Option<MetricsTable<'a>>,
    /// The long metrics of `hmtx`.
    pub h_metrics: Vec<LongMetric>,
    /// Horizontal metrics variations.
    pub hvar: Option<&'a [u8]>,
    /// Vertical metrics.
    pub vmtx: Option<MetricsTable<'a>>,
    /// Vertical metrics variations.
    pub vvar: Option<&'a [u8]>,
    /// Vertical origins.
    pub vorg: Option<&'a [u8]>,
    /// Glyph outlines.
    pub glyf: Option<GlyfTables<'a>>,
    /// Metrics variations.
    pub mvar: Option<&'a [u8]>,
    /// The number of glyphs.
    pub num_glyphs: u32,
    /// The number of font units per em.
    pub upem: u16,
    /// The ascent of the font.
    pub ascent: i16,
    /// The descent of the font.
    pub descent: i16,
}

impl<'a> Clone for GlyphMetrics<'a> {
    fn clone(&self) -> (metrics: Self)
        ensures
            metrics.h_metrics@ == self.h_metrics@,
            metrics == (GlyphMetrics { h_metrics: metrics.h_metrics, ..*self }),
    {
        let h_metrics = self.h_metrics.clone();
        assert(h_metrics@ =~= self.h_metrics@);
        GlyphMetrics { h_metrics, ..*self }
    }
}

/// A table, if it is there and has at least `min_len` bytes.
pub open spec fn readable(table: Option<Seq<u8>>, min_len: nat) -> Option<Seq<u8>> {
    if table is Some && table->0.len() >= min_len {
        table
    } else {
        None
    }
}

impl<'a> MetricsTable<'a> {
    /// Whether `table` is the metrics table with the given bytes and number of long metrics.
    pub open spec fn is_table(table: Option<Self>, bytes: Option<Seq<u8>>, count: u16) -> bool {
        match table {
            Some(table) => bytes == Some(table.data@) && table.count == count,
            None => bytes is None,
        }
    }
}

impl<'a> GlyfTables<'a> {
    /// Whether `tables` are the outline tables of a font: they are there if the font has both a
    /// readable index and outlines.
    pub open spec fn are_tables(tables: Option<Self>, font: FontRef, ranges: TableRanges) -> bool {
        let loca = ranges.loca.bytes(font);
        let glyf = ranges.glyf.bytes(font);
        match tables {
            Some(tables) => {
                &&& loca == Some(tables.loca@)
                &&& font_tables::loca_readable(tables.loca@, ranges.loca_long)
                &&& glyf == Some(tables.glyf@)
                &&& tables.loca_long == ranges.loca_long
                &&& font_tables::table_bytes(tables.gvar) == readable(ranges.gvar.bytes(font), 20)
            },
            None => glyf is None || loca is None || !font_tables::loca_readable(
                loca->0,
                ranges.loca_long,
            ),
        }
    }
}

impl<'a> GlyphMetrics<'a> {
    /// Whether a vertical origin table, where there is one, is long enough for its header.
    pub open spec fn wf(self) -> bool {
        self.vorg is Some ==> self.vorg->0@.len() >= 8
    }

    /// Whether these are the metrics tables of the given font.
    pub open spec fn is_of(self, font: FontRef, ranges: TableRanges) -> bool {
        let hmtx = ranges.hmtx.bytes(font);
        &&& MetricsTable::is_table(self.hmtx, hmtx, ranges.num_h_metrics)
        &&& self.h_metrics@ == (if hmtx is Some {
            font_tables::long_metrics(hmtx->0, ranges.num_h_metrics as nat)
        } else {
            Seq::empty()
        })
        &&& font_tables::table_bytes(self.hvar) == readable(ranges.hvar.bytes(font), 20)
        &&& MetricsTable::is_table(self.vmtx, ranges.vmtx.bytes(font), ranges.num_v_metrics)
        &&& font_tables::table_bytes(self.vvar) == readable(ranges.vvar.bytes(font), 24)
        &&& font_tables::table_bytes(self.vorg) == readable(ranges.vorg.bytes(font), 8)
        &&& GlyfTables::are_tables(self.glyf, font, ranges)
        &&& font_tables::table_bytes(self.mvar) == readable(ranges.mvar.bytes(font), 12)
        &&& self.num_glyphs == ranges.num_glyphs
        &&& self.upem == ranges.units_per_em
        &&& self.ascent == ranges.ascent
        &&& self.descent == ranges.descent
    }

    /// Finds the tables of a font.
    pub fn new(font: &FontRef<'a>, table_ranges: &TableRanges) -> (metrics: Self)
        ensures
            metrics.is_of(*font, *table_ranges),
            metrics.wf(),
    {
        let hmtx = match table_ranges.hmtx.resolve_data(font) {
            Some(data) => Some(MetricsTable { data, count: table_ranges.num_h_metrics }),
            None => None,
        };
        let h_metrics = match &hmtx {
            Some(hmtx) => hmtx_h_metrics(hmtx.data, hmtx.count),
            None => Vec::new(),
        };
        let hvar = match table_ranges.hvar.resolve_data(font) {
            Some(data) if hvar_read(data) => Some(data),
            _ => None,
        };
        let vmtx = match table_ranges.vmtx.resolve_data(font) {
            Some(data) => Some(MetricsTable { data, count: table_ranges.num_v_metrics }),
            None => None,
        };
        let vvar = match table_ranges.vvar.resolve_data(font) {
            Some(data) if vvar_read(data) => Some(data),
            _ => None,
        };
        let vorg = match table_ranges.vorg.resolve_data(font) {
            Some(data) if vorg_read(data) => Some(data),
            _ => None,
        };
        let loca_long = table_ranges.loca_long;
        let glyf = match (
            table_ranges.loca.resolve_data(font),
            table_ranges.glyf.resolve_data(font),
        ) {
            (Some(loca), Some(glyf)) => if loca_read(loca, loca_long) {
                let gvar = match table_ranges.gvar.resolve_data(font) {
                    Some(data) if gvar_read(data) => Some(data),
                    _ => None,
                };
                Some(GlyfTables { loca, loca_long, glyf, gvar })
            } else {
                None
            },
            _ => None,
        };
        let mvar = match table_ranges.mvar.resolve_data(font) {
            Some(data) if mvar_read(data) => Some(data),
            _ => None,
        };
        GlyphMetrics {
            hmtx,
            h_metrics,
            hvar,
            vmtx,
            vvar,
            vorg,
            glyf,
            mvar,
            num_glyphs: table_ranges.num_glyphs,
            upem: table_ranges.units_per_em,
            ascent: table_ranges.ascent,
            descent: table_ranges.descent,
        }
    }

    /// How far the phantom points of a glyph move at a location in variation space.
    pub open spec fn phantom(self, glyph: GlyphId, coords: Seq<NormalizedCoord>) -> Option<
        [Point; 4],
    > {
        match self.glyf {
            Some(tables) => match tables.gvar {
                Some(gvar) => font_tables::gvar_phantom(
                    gvar@,
                    tables.glyf@,
                    tables.loca@,
                    tables.loca_long,
                    coords,
                    glyph,
                ),
                None => None,
            },
            None => None,
        }
    }

    /// Returns how far the phantom points of a glyph move: the left, right, top and bottom one.
    pub fn phantom_deltas(&self, gid: GlyphId, coords: &[NormalizedCoord]) -> (deltas: Option<
        [Point; 4],
    >)
        ensures
            deltas == self.phantom(gid, coords@),
    {
        let tables = match &self.glyf {
            Some(tables) => tables,
            None => return None,
        };
        let gvar = match tables.gvar {
            Some(gvar) => gvar,
            None => return None,
        };
        gvar_phantom_point_deltas(
            gvar,
            tables.glyf,
            tables.loca,
            tables.loca_long,
            coords,
            gid,
        )
    }

    /// The box of a glyph: the zero box for a glyph that draws nothing, and none for an outline that
    /// varies or cannot be read.
    pub open spec fn bounds(self, glyph: GlyphId, coords: Seq<NormalizedCoord>) -> Option<
        BoundingBox,
    > {
        match self.glyf {
            Some(tables) => match font_tables::glyph_bounds(
                tables.loca@,
                tables.loca_long,
                tables.glyf@,
                glyph,
            ) {
                Some(None) => Some(BoundingBox::zero()),
                Some(Some(bounds)) if coords.len() == 0 => Some(bounds),
                _ => None,
            },
            None => None,
        }
    }

    /// Returns the box of a glyph.
    pub fn extents(&self, gid: GlyphId, coords: &[NormalizedCoord]) -> (extents: Option<
        BoundingBox,
    >)
        ensures
            extents == self.bounds(gid, coords@),
            extents is Some ==> extents->0.in_font_range(),
    {
        let tables = match &self.glyf {
            Some(tables) => tables,
            None => return None,
        };
        let outline = match loca_get_glyf(tables.loca, tables.loca_long, tables.glyf, gid) {
            Some(outline) => outline,
            None => return None,
        };
        match outline {
            None => Some(BoundingBox::default()),
            Some(bounds) => if coords.is_empty() {
                Some(bounds)
            } else {
                None
            },
        }
    }

    /// Where the variation of a left side bearing is read: in the metrics variations, or else in the
    /// outline.
    pub open spec fn left_bearing_delta(
        self,
        glyph: GlyphId,
        coords: Seq<NormalizedCoord>,
    ) -> MetricDelta {
        if coords.len() == 0 {
            MetricDelta::Default
        } else if self.hvar is Some {
            MetricDelta::Table(font_tables::hvar_lsb(self.hvar->0@, glyph, coords))
        } else {
            MetricDelta::Phantom(self.phantom(glyph, coords))
        }
    }

    /// The left side bearing of a glyph: that of the metrics table, or else the left edge of the
    /// outline.
    pub open spec fn left_bearing(self, glyph: GlyphId, coords: Seq<NormalizedCoord>) -> Option<
        int,
    > {
        match self.hmtx {
            Some(hmtx) => Some(
                (match font_tables::metrics_side_bearing(hmtx.data@, hmtx.count as nat, glyph) {
                    Some(bearing) => bearing as int,
                    None => 0,
                }) + self.left_bearing_delta(glyph, coords).left_bearing(),
            ),
            None => match self.bounds(glyph, coords) {
                Some(bounds) => Some(bounds.x_min as int),
                None => None,
            },
        }
    }

    /// Returns the left side bearing of a glyph.
    pub fn _left_side_bearing(&self, gid: GlyphId, coords: &[NormalizedCoord]) -> (bearing: Option<
        i32,
    >)
        ensures
            match bearing {
                Some(bearing) => self.left_bearing(gid, coords@) == Some(bearing as int),
                None => self.left_bearing(gid, coords@) is None,
            },
    {
        let bearing: i32 = match &self.hmtx {
            Some(hmtx) => match hmtx_side_bearing(hmtx.data, hmtx.count, gid) {
                Some(bearing) => bearing as i32,
                None => 0,
            },
            None => {
                return match self.extents(gid, coords) {
                    Some(extents) => Some(extents.x_min),
                    None => None,
                };
            },
        };
        let delta = if coords.is_empty() {
            MetricDelta::Default
        } else if let Some(hvar) = self.hvar {
            MetricDelta::Table(hvar_lsb_delta(hvar, gid, coords))
        } else {
            MetricDelta::Phantom(self.phantom_deltas(gid, coords))
        };
        Some(bearing + delta.to_left_bearing())
    }

    /// Where the variation of a top side bearing is read: in the metrics variations, or else in the
    /// outline.
    pub open spec fn top_bearing_delta(
        self,
        glyph: GlyphId,
        coords: Seq<NormalizedCoord>,
    ) -> MetricDelta {
        if coords.len() == 0 {
            MetricDelta::Default
        } else if self.vvar is Some {
            MetricDelta::Table(font_tables::vvar_tsb(self.vvar->0@, glyph, coords))
        } else {
            MetricDelta::Phantom(self.phantom(glyph, coords))
        }
    }

    /// The top side bearing of a glyph, in a font with vertical metrics.
    pub open spec fn top_bearing(self, glyph: GlyphId, coords: Seq<NormalizedCoord>) -> Option<
        int,
    > {
        match self.vmtx {
            Some(vmtx) => Some(
                (match font_tables::metrics_side_bearing(vmtx.data@, vmtx.count as nat, glyph) {
                    Some(bearing) => bearing as int,
                    None => 0,
                }) + self.top_bearing_delta(glyph, coords).top_bearing(),
            ),
            None => None,
        }
    }

    /// Returns the top side bearing of a glyph.
    pub fn top_side_bearing(&self, gid: GlyphId, coords: &[NormalizedCoord]) -> (bearing: Option<
        i32,
    >)
        ensures
            match bearing {
                Some(bearing) => self.top_bearing(gid, coords@) == Some(bearing as int),
                None => self.top_bearing(gid, coords@) is None,
            },
            bearing is Some ==> -0x1_0000 <= bearing->0 <= 0xffff,
    {
        let bearing: i32 = match &self.vmtx {
            Some(vmtx) => match vmtx_side_bearing(vmtx.data, vmtx.count, gid) {
                Some(bearing) => bearing as i32,
                None => 0,
            },
            None => return None,
        };
        let delta = if coords.is_empty() {
            MetricDelta::Default
        } else if let Some(vvar) = self.vvar {
            MetricDelta::Table(vvar_tsb_delta(vvar, gid, coords))
        } else {
            MetricDelta::Phantom(self.phantom_deltas(gid, coords))
        };
        Some(bearing + delta.to_top_bearing())
    }
}

} // verus!
