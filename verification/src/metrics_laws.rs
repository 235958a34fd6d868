//! What glyph metrics are, in terms of the bytes of a font file.
//!
//! Every law here starts from a call of a public function, and says of its result what the file says.
use vstd::prelude::*;

use crate::engine::ShapingEngine;
use crate::font::{FontRef, TableRange, TableRanges};
use crate::font_funcs::{Face, FontFuncs};
use crate::font_tables;
use crate::glyph::{
    BoundingBox, GlyphExtents, GlyphId, GlyphInfo, GlyphPosition, NormalizedCoord, Point,
};
use crate::glyph_metrics::GlyphMetrics;
use crate::metric_delta;
use crate::metric_delta::{delta_to_i32, fixed_to_i32, MetricDelta};
use crate::ot_font_funcs::OtFontFuncs;
use crate::shaper_data::ShaperData;
use crate::vertical_origin::{
    to_bearing_origin_y, to_centered_origin_y, to_font_height, to_given_origin_y,
};

verus! {

/// Whether `units` is the whole number nearest to a 16.16 fixed point number, and the larger one of two;
/// no whole number is near enough to the last 32768 of them, for which it is the smallest one.
pub open spec fn nearest(units: int, bits: int) -> bool {
    if bits <= 0x7fff_7fff {
        -0x8000 <= bits - 0x1_0000 * units < 0x8000
    } else {
        units == -0x8000
    }
}

/// Whether `units` is how much a delta adds, which is nothing where there is none.
pub open spec fn adds(units: int, delta: Option<i32>) -> bool {
    match delta {
        Some(bits) => nearest(units, bits as int),
        None => units == 0,
    }
}

/// Whether `units` is the distance between two places, each to the nearest whole number.
pub open spec fn spans(units: int, from: i32, to: i32) -> bool {
    exists|a: int, b: int|
        #[trigger] nearest(a, from as int) && #[trigger] nearest(b, to as int) && units == b - a
}

/// Every fixed point number has one nearest whole number.
pub proof fn one_number_is_nearest(bits: i32)
    ensures
        exists|units: int| #[trigger] nearest(units, bits as int),
        forall|a: int, b: int| #[trigger]
            nearest(a, bits as int) && #[trigger] nearest(b, bits as int) ==> a == b,
{
    assert(nearest(metric_delta::rounded(bits as int), bits as int));
}

/// A fixed point number becomes the nearest whole number.
pub proof fn fixed_point_numbers_are_rounded(value: i32, integer: i32)
    requires
        call_ensures(fixed_to_i32, (value,), integer),
    ensures
        nearest(integer as int, value as int),
{
}

/// A delta becomes the nearest whole number, and a missing one nothing.
pub proof fn deltas_are_rounded(delta: Option<i32>, units: i32)
    requires
        call_ensures(delta_to_i32, (delta,), units),
    ensures
        adds(units as int, delta),
{
}

/// A variation widens and heightens a glyph and moves its bearings by the delta of the metrics variations,
/// or else as the phantom points move: its width by how far the right point moves from the left one, its
/// height by how far the bottom point moves from the top one, its left bearing with the left point and its
/// top bearing with the bottom point. At the default location nothing moves.
pub proof fn variations_change_metrics(
    delta: &MetricDelta,
    width: i32,
    height: i32,
    left: i32,
    top: i32,
)
    requires
        call_ensures(MetricDelta::to_width, (delta,), width),
        call_ensures(MetricDelta::to_height, (delta,), height),
        call_ensures(MetricDelta::to_left_bearing, (delta,), left),
        call_ensures(MetricDelta::to_top_bearing, (delta,), top),
    ensures
        match *delta {
            MetricDelta::Table(bits) => {
                &&& adds(width as int, bits)
                &&& adds(height as int, bits)
                &&& adds(left as int, bits)
                &&& adds(top as int, bits)
            },
            MetricDelta::Phantom(Some(points)) => {
                &&& spans(width as int, points@[0].x, points@[1].x)
                &&& spans(height as int, points@[2].y, points@[3].y)
                &&& nearest(left as int, points@[0].x as int)
                &&& nearest(top as int, points@[3].y as int)
            },
            _ => width == 0 && height == 0 && left == 0 && top == 0,
        },
{
    if let MetricDelta::Phantom(Some(points)) = delta {
        let left = metric_delta::rounded(points@[0].x as int);
        let right = metric_delta::rounded(points@[1].x as int);
        let top = metric_delta::rounded(points@[2].y as int);
        let bottom = metric_delta::rounded(points@[3].y as int);
        assert(nearest(left, points@[0].x as int) && nearest(right, points@[1].x as int));
        assert(nearest(top, points@[2].y as int) && nearest(bottom, points@[3].y as int));
    }
}

/// A font is as high as its ascent lies above its descent, each where it varies to.
pub proof fn font_height_reaches_from_descent_to_ascent(
    ascent: i16,
    descent: i16,
    ascent_delta: Option<i32>,
    descent_delta: Option<i32>,
    height: i32,
    up: int,
    down: int,
)
    requires
        call_ensures(to_font_height, (ascent, descent, ascent_delta, descent_delta), height),
        adds(up, ascent_delta),
        adds(down, descent_delta),
    ensures
        height == (ascent + up) - (descent + down),
{
}

/// An origin that the font gives moves by its delta.
pub proof fn given_origins_move_by_their_delta(
    y: i16,
    delta: Option<i32>,
    origin: i32,
    units: int,
)
    requires
        call_ensures(to_given_origin_y, (y, delta), origin),
        adds(units, delta),
    ensures
        origin - y == units,
{
}

/// An origin lies the top side bearing above the top of the box, and moves by its delta.
pub proof fn bearing_origins_lie_above_the_box(
    bounds: BoundingBox,
    bearing: i32,
    delta: Option<i32>,
    origin: i32,
    units: int,
)
    requires
        call_ensures(to_bearing_origin_y, (bounds, bearing, delta), origin),
        adds(units, delta),
    ensures
        origin - bounds.y_max == bearing + units,
{
}

/// Whether a box from `y_min` to `y_max` is in the middle of a height that reaches down from `origin`: as
/// much space is above the box as below it, but for one unit that may be left over below.
pub open spec fn is_centered(origin: int, height: int, y_min: int, y_max: int) -> bool {
    let above = origin - y_max;
    let below = y_min - (origin - height);
    0 <= below - above <= 1
}

/// A centered box is in the middle of the height of the font, wherever the box lies.
pub proof fn centered_boxes_are_in_the_middle(bounds: BoundingBox, height: i32, origin: i32)
    requires
        call_ensures(to_centered_origin_y, (bounds, height), origin),
    ensures
        is_centered(origin as int, height as int, bounds.y_min as int, bounds.y_max as int),
{
}

/// A box that is moved up or down takes its centered origin along.
pub proof fn centered_origins_move_with_the_box(
    bounds: BoundingBox,
    moved: BoundingBox,
    height: i32,
    origin: i32,
    moved_origin: i32,
)
    requires
        call_ensures(to_centered_origin_y, (bounds, height), origin),
        call_ensures(to_centered_origin_y, (moved, height), moved_origin),
        moved.y_max - moved.y_min == bounds.y_max - bounds.y_min,
    ensures
        moved_origin - origin == moved.y_max - bounds.y_max,
{
}

/// Whether a table is in a font file and has at least `min_len` bytes.
pub open spec fn lies_in(range: TableRange, font: FontRef, min_len: int) -> bool {
    range.start < range.end <= font.data@.len() && range.end - range.start >= min_len
}

/// The bytes of a table that is in a font file.
pub open spec fn part(range: TableRange, font: FontRef) -> Seq<u8> {
    font.data@.subrange(range.start as int, range.end as int)
}

/// Whether a font file has outlines, and an index to them that is a whole number of offsets.
pub open spec fn has_outlines(font: FontRef, ranges: TableRanges) -> bool {
    &&& lies_in(ranges.glyf, font, 1)
    &&& lies_in(ranges.loca, font, 1)
    &&& (ranges.loca.end - ranges.loca.start) % (if ranges.loca_long {
        4int
    } else {
        2int
    }) == 0
}

/// How the phantom points of a glyph move.
pub open spec fn phantom_points(
    font: FontRef,
    ranges: TableRanges,
    glyph: GlyphId,
    coords: Seq<NormalizedCoord>,
) -> Option<[Point; 4]> {
    if has_outlines(font, ranges) && lies_in(ranges.gvar, font, 20) {
        font_tables::gvar_phantom(
            part(ranges.gvar, font),
            part(ranges.glyf, font),
            part(ranges.loca, font),
            ranges.loca_long,
            coords,
            glyph,
        )
    } else {
        None
    }
}

/// Whether `units` is how far the width of a glyph varies.
pub open spec fn width_varies_by(
    font: FontRef,
    ranges: TableRanges,
    glyph: GlyphId,
    coords: Seq<NormalizedCoord>,
    units: int,
) -> bool {
    if coords.len() == 0 {
        units == 0
    } else if lies_in(ranges.hvar, font, 20) {
        adds(units, font_tables::hvar_width(part(ranges.hvar, font), glyph, coords))
    } else {
        match phantom_points(font, ranges, glyph, coords) {
            Some(points) => spans(units, points@[0].x, points@[1].x),
            None => units == 0,
        }
    }
}

/// Whether `units` is how far the height of a glyph varies.
pub open spec fn height_varies_by(
    font: FontRef,
    ranges: TableRanges,
    glyph: GlyphId,
    coords: Seq<NormalizedCoord>,
    units: int,
) -> bool {
    if coords.len() == 0 {
        units == 0
    } else if lies_in(ranges.vvar, font, 24) {
        adds(units, font_tables::vvar_height(part(ranges.vvar, font), glyph, coords))
    } else {
        match phantom_points(font, ranges, glyph, coords) {
            Some(points) => spans(units, points@[2].y, points@[3].y),
            None => units == 0,
        }
    }
}

/// Whether `units` is how far the left side bearing of a glyph varies.
pub open spec fn left_bearing_varies_by(
    font: FontRef,
    ranges: TableRanges,
    glyph: GlyphId,
    coords: Seq<NormalizedCoord>,
    units: int,
) -> bool {
    if coords.len() == 0 {
        units == 0
    } else if lies_in(ranges.hvar, font, 20) {
        adds(units, font_tables::hvar_lsb(part(ranges.hvar, font), glyph, coords))
    } else {
        match phantom_points(font, ranges, glyph, coords) {
            Some(points) => nearest(units, points@[0].x as int),
            None => units == 0,
        }
    }
}

/// Whether `units` is how far the top side bearing of a glyph varies.
pub open spec fn top_bearing_varies_by(
    font: FontRef,
    ranges: TableRanges,
    glyph: GlyphId,
    coords: Seq<NormalizedCoord>,
    units: int,
) -> bool {
    if coords.len() == 0 {
        units == 0
    } else if lies_in(ranges.vvar, font, 24) {
        adds(units, font_tables::vvar_tsb(part(ranges.vvar, font), glyph, coords))
    } else {
        match phantom_points(font, ranges, glyph, coords) {
            Some(points) => nearest(units, points@[3].y as int),
            None => units == 0,
        }
    }
}

/// Whether `units` is how far the vertical origin of a glyph varies.
pub open spec fn origin_varies_by(
    font: FontRef,
    ranges: TableRanges,
    glyph: GlyphId,
    coords: Seq<NormalizedCoord>,
    units: int,
) -> bool {
    if coords.len() > 0 && lies_in(ranges.vvar, font, 24) {
        adds(units, font_tables::vvar_v_org(part(ranges.vvar, font), glyph, coords))
    } else {
        units == 0
    }
}

/// Whether `units` is how far the metric with the given tag varies in the whole font.
pub open spec fn metric_varies_by(
    font: FontRef,
    ranges: TableRanges,
    tag: u32,
    coords: Seq<NormalizedCoord>,
    units: int,
) -> bool {
    if coords.len() > 0 && lies_in(ranges.mvar, font, 12) {
        adds(units, font_tables::mvar_metric(part(ranges.mvar, font), tag, coords))
    } else {
        units == 0
    }
}

/// The width of a glyph in a font file: the number at the start of its long metric, or of the last one for
/// a glyph past them; half an em for a glyph of a font without long metrics, and nothing for others.
pub open spec fn width_in_file(font: FontRef, ranges: TableRanges, glyph: GlyphId) -> int {
    let count = ranges.num_h_metrics as int;
    let last = if glyph < count {
        glyph as int
    } else {
        count - 1
    };
    if count > 0 && lies_in(ranges.hmtx, font, 4 * count) {
        font_tables::be_u16(font.data@, ranges.hmtx.start + 4 * last)
    } else if glyph < ranges.num_glyphs {
        ranges.units_per_em as int / 2
    } else {
        0
    }
}

/// The height of a glyph in a font file: the number at the start of its long metric, or of the last one
/// for a glyph past them; the height of the font where it has no vertical long metrics.
pub open spec fn height_in_file(font: FontRef, ranges: TableRanges, glyph: GlyphId) -> int {
    let count = ranges.num_v_metrics as int;
    let last = if glyph < count {
        glyph as int
    } else {
        count - 1
    };
    if count > 0 && lies_in(ranges.vmtx, font, 4 * count) {
        font_tables::be_u16(font.data@, ranges.vmtx.start + 4 * last)
    } else {
        ranges.ascent - ranges.descent
    }
}

/// The side bearing of a glyph in a table of metrics in a font file: the second number of its long metric,
/// or one of the numbers that follow the long metrics, as far as they reach.
pub open spec fn bearing_in_file(
    font: FontRef,
    range: TableRange,
    count: int,
    glyph: GlyphId,
) -> int {
    let after = range.start + 4 * count + 2 * (glyph - count);
    if !lies_in(range, font, 4 * count) {
        0
    } else if glyph < count {
        font_tables::be_i16(font.data@, range.start + 4 * glyph + 2)
    } else if after + 2 <= range.end {
        font_tables::be_i16(font.data@, after)
    } else {
        0
    }
}

/// The box of a glyph in a font file: `Some(None)` for a glyph that draws nothing.
pub open spec fn box_in_file(font: FontRef, ranges: TableRanges, glyph: GlyphId) -> Option<
    Option<BoundingBox>,
> {
    if has_outlines(font, ranges) {
        font_tables::glyph_bounds(
            part(ranges.loca, font),
            ranges.loca_long,
            part(ranges.glyf, font),
            glyph,
        )
    } else {
        None
    }
}

/// Whether a glyph has a box at a location: a glyph that draws nothing has one everywhere, and one with an
/// outline at the default location.
pub open spec fn has_box(
    font: FontRef,
    ranges: TableRanges,
    glyph: GlyphId,
    coords: Seq<NormalizedCoord>,
) -> bool {
    match box_in_file(font, ranges, glyph) {
        Some(None) => true,
        Some(Some(_)) => coords.len() == 0,
        None => false,
    }
}

/// The edges of the box of a glyph, left, bottom, right and top: all 0 for one that draws nothing.
pub open spec fn edges(font: FontRef, ranges: TableRanges, glyph: GlyphId) -> (int, int, int, int) {
    match box_in_file(font, ranges, glyph) {
        Some(Some(bounds)) => (
            bounds.x_min as int,
            bounds.y_min as int,
            bounds.x_max as int,
            bounds.y_max as int,
        ),
        _ => (0, 0, 0, 0),
    }
}

/// The tables of a font are those in the file.
proof fn lemma_tables(font: FontRef, ranges: TableRanges, metrics: &GlyphMetrics<'_>)
    requires
        metrics.is_of(font, ranges),
    ensures
        metrics.hvar is Some <==> lies_in(ranges.hvar, font, 20),
        metrics.hvar is Some ==> metrics.hvar->0@ == part(ranges.hvar, font),
        metrics.vvar is Some <==> lies_in(ranges.vvar, font, 24),
        metrics.vvar is Some ==> metrics.vvar->0@ == part(ranges.vvar, font),
        metrics.mvar is Some <==> lies_in(ranges.mvar, font, 12),
        metrics.mvar is Some ==> metrics.mvar->0@ == part(ranges.mvar, font),
        metrics.vorg is Some <==> lies_in(ranges.vorg, font, 8),
        metrics.vorg is Some ==> metrics.vorg->0@ == part(ranges.vorg, font),
        metrics.glyf is Some <==> has_outlines(font, ranges),
        forall|glyph: GlyphId, coords: Seq<NormalizedCoord>| #[trigger]
            metrics.phantom(glyph, coords) == phantom_points(font, ranges, glyph, coords),
{
}

/// The box of a glyph is the one in the file.
pub(crate) proof fn lemma_bounds(
    font: FontRef,
    ranges: TableRanges,
    metrics: &GlyphMetrics<'_>,
    glyph: GlyphId,
    coords: Seq<NormalizedCoord>,
)
    requires
        metrics.is_of(font, ranges),
    ensures
        metrics.bounds(glyph, coords) is Some <==> has_box(font, ranges, glyph, coords),
        metrics.bounds(glyph, coords) matches Some(bounds) ==> edges(font, ranges, glyph) == (
            bounds.x_min as int,
            bounds.y_min as int,
            bounds.x_max as int,
            bounds.y_max as int,
        ),
{
    lemma_tables(font, ranges, metrics);
}

/// The advance width of a glyph is that in the file, and varies as the file says.
pub(crate) proof fn lemma_width(
    font: FontRef,
    ranges: TableRanges,
    metrics: &GlyphMetrics<'_>,
    glyph: GlyphId,
    coords: Seq<NormalizedCoord>,
    units: int,
)
    requires
        metrics.is_of(font, ranges),
        width_varies_by(font, ranges, glyph, coords, units),
    ensures
        metrics.h_advance(glyph, coords) == width_in_file(font, ranges, glyph) + units,
{
    lemma_tables(font, ranges, metrics);
}

/// The advance height of a glyph is that in the file, and varies as the file says.
pub(crate) proof fn lemma_height(
    font: FontRef,
    ranges: TableRanges,
    metrics: &GlyphMetrics<'_>,
    glyph: GlyphId,
    coords: Seq<NormalizedCoord>,
    units: int,
)
    requires
        metrics.is_of(font, ranges),
        height_varies_by(font, ranges, glyph, coords, units),
    ensures
        metrics.v_advance(glyph, coords) == -(height_in_file(font, ranges, glyph) + units),
{
    lemma_tables(font, ranges, metrics);
}

/// The left side bearing of a glyph is that in the file and varies as the file says, in a font with
/// horizontal metrics; in others it is the left edge of the box, if there is one.
pub proof fn left_bearings_come_from_the_file(
    font: &FontRef<'_>,
    ranges: &TableRanges,
    metrics: &GlyphMetrics<'_>,
    glyph: GlyphId,
    coords: &[NormalizedCoord],
    bearing: Option<i32>,
    units: int,
)
    requires
        call_ensures(GlyphMetrics::new, (font, ranges), *metrics),
        call_ensures(GlyphMetrics::_left_side_bearing, (metrics, glyph, coords), bearing),
        left_bearing_varies_by(*font, *ranges, glyph, coords@, units),
    ensures
        if lies_in(ranges.hmtx, *font, 1) {
            bearing is Some && bearing->0 == bearing_in_file(
                *font,
                ranges.hmtx,
                ranges.num_h_metrics as int,
                glyph,
            ) + units
        } else if has_box(*font, *ranges, glyph, coords@) {
            bearing is Some && bearing->0 == edges(*font, *ranges, glyph).0
        } else {
            bearing is None
        },
{
    lemma_tables(*font, *ranges, metrics);
    lemma_bounds(*font, *ranges, metrics, glyph, coords@);
}

/// The top side bearing of a glyph is that in the file and varies as the file says, in a font with vertical
/// metrics; others have none.
pub proof fn top_bearings_come_from_the_file(
    font: &FontRef<'_>,
    ranges: &TableRanges,
    metrics: &GlyphMetrics<'_>,
    glyph: GlyphId,
    coords: &[NormalizedCoord],
    bearing: Option<i32>,
    units: int,
)
    requires
        call_ensures(GlyphMetrics::new, (font, ranges), *metrics),
        call_ensures(GlyphMetrics::top_side_bearing, (metrics, glyph, coords), bearing),
        top_bearing_varies_by(*font, *ranges, glyph, coords@, units),
    ensures
        if lies_in(ranges.vmtx, *font, 1) {
            bearing is Some && bearing->0 == bearing_in_file(
                *font,
                ranges.vmtx,
                ranges.num_v_metrics as int,
                glyph,
            ) + units
        } else {
            bearing is None
        },
{
    lemma_tables(*font, *ranges, metrics);
}

/// The phantom points of a glyph move as the file says.
pub proof fn phantom_points_come_from_the_file(
    font: &FontRef<'_>,
    ranges: &TableRanges,
    metrics: &GlyphMetrics<'_>,
    glyph: GlyphId,
    coords: &[NormalizedCoord],
    deltas: Option<[Point; 4]>,
)
    requires
        call_ensures(GlyphMetrics::new, (font, ranges), *metrics),
        call_ensures(GlyphMetrics::phantom_deltas, (metrics, glyph, coords), deltas),
    ensures
        deltas == phantom_points(*font, *ranges, glyph, coords@),
{
    lemma_tables(*font, *ranges, metrics);
}

/// The box of a glyph has the edges in the header of its outline. A glyph that draws nothing has a box
/// without extent, and an outline that varies, cannot be read or is not there has none.
pub proof fn boxes_come_from_the_file(
    font: &FontRef<'_>,
    ranges: &TableRanges,
    metrics: &GlyphMetrics<'_>,
    glyph: GlyphId,
    coords: &[NormalizedCoord],
    extents: Option<BoundingBox>,
)
    requires
        call_ensures(GlyphMetrics::new, (font, ranges), *metrics),
        call_ensures(GlyphMetrics::extents, (metrics, glyph, coords), extents),
    ensures
        extents is Some <==> has_box(*font, *ranges, glyph, coords@),
        extents matches Some(bounds) ==> {
            &&& bounds.x_min == edges(*font, *ranges, glyph).0
            &&& bounds.y_min == edges(*font, *ranges, glyph).1
            &&& bounds.x_max == edges(*font, *ranges, glyph).2
            &&& bounds.y_max == edges(*font, *ranges, glyph).3
        },
{
    lemma_bounds(*font, *ranges, metrics, glyph, coords@);
}

/// What is kept of a font: the bytes of its tables, and the numbers that are known of it.
pub proof fn metrics_hold_the_tables_of_the_file(
    font: &FontRef<'_>,
    ranges: &TableRanges,
    metrics: &GlyphMetrics<'_>,
)
    requires
        call_ensures(GlyphMetrics::new, (font, ranges), *metrics),
    ensures
        metrics.hmtx is Some <==> lies_in(ranges.hmtx, *font, 1),
        metrics.hmtx matches Some(hmtx) ==> hmtx.data@ == part(ranges.hmtx, *font) && hmtx.count
            == ranges.num_h_metrics,
        metrics.vmtx is Some <==> lies_in(ranges.vmtx, *font, 1),
        metrics.vmtx matches Some(vmtx) ==> vmtx.data@ == part(ranges.vmtx, *font) && vmtx.count
            == ranges.num_v_metrics,
        metrics.hvar is Some <==> lies_in(ranges.hvar, *font, 20),
        metrics.hvar matches Some(hvar) ==> hvar@ == part(ranges.hvar, *font),
        metrics.vvar is Some <==> lies_in(ranges.vvar, *font, 24),
        metrics.vvar matches Some(vvar) ==> vvar@ == part(ranges.vvar, *font),
        metrics.vorg is Some <==> lies_in(ranges.vorg, *font, 8),
        metrics.vorg matches Some(vorg) ==> vorg@ == part(ranges.vorg, *font),
        metrics.mvar is Some <==> lies_in(ranges.mvar, *font, 12),
        metrics.mvar matches Some(mvar) ==> mvar@ == part(ranges.mvar, *font),
        metrics.glyf is Some <==> has_outlines(*font, *ranges),
        metrics.glyf matches Some(tables) ==> {
            &&& tables.loca@ == part(ranges.loca, *font)
            &&& tables.loca_long == ranges.loca_long
            &&& tables.glyf@ == part(ranges.glyf, *font)
            &&& tables.gvar is Some <==> lies_in(ranges.gvar, *font, 20)
            &&& tables.gvar matches Some(gvar) ==> gvar@ == part(ranges.gvar, *font)
        },
        metrics.h_metrics@.len() == (if lies_in(
            ranges.hmtx,
            *font,
            4 * ranges.num_h_metrics as int,
        ) {
            ranges.num_h_metrics as int
        } else {
            0
        }),
        forall|i: int|
            0 <= i < metrics.h_metrics@.len() ==> {
                &&& (#[trigger] metrics.h_metrics@[i]).advance == font_tables::be_u16(
                    font.data@,
                    ranges.hmtx.start + 4 * i,
                )
                &&& metrics.h_metrics@[i].side_bearing == font_tables::be_i16(
                    font.data@,
                    ranges.hmtx.start + 4 * i + 2,
                )
            },
        metrics.num_glyphs == ranges.num_glyphs,
        metrics.upem == ranges.units_per_em,
        metrics.ascent == ranges.ascent,
        metrics.descent == ranges.descent,
{
    lemma_tables(*font, *ranges, metrics);
}

/// Whether a position is what it was, but for a horizontal advance that is the width of the glyph in the
/// file, as it varies.
pub open spec fn has_width_of(
    font: FontRef,
    ranges: TableRanges,
    glyph: GlyphId,
    coords: Seq<NormalizedCoord>,
    before: GlyphPosition,
    after: GlyphPosition,
) -> bool {
    &&& forall|units: int| #[trigger]
        width_varies_by(font, ranges, glyph, coords, units) ==> after.x_advance == width_in_file(
            font,
            ranges,
            glyph,
        ) + units
    &&& after.y_advance == before.y_advance
    &&& after.x_offset == before.x_offset
    &&& after.y_offset == before.y_offset
}

/// Whether a position is what it was, but for a vertical advance that is the height of the glyph in the
/// file, as it varies, downwards.
pub open spec fn has_height_of(
    font: FontRef,
    ranges: TableRanges,
    glyph: GlyphId,
    coords: Seq<NormalizedCoord>,
    before: GlyphPosition,
    after: GlyphPosition,
) -> bool {
    &&& after.x_advance == before.x_advance
    &&& forall|units: int| #[trigger]
        height_varies_by(font, ranges, glyph, coords, units) ==> after.y_advance + height_in_file(
            font,
            ranges,
            glyph,
        ) + units == 0
    &&& after.x_offset == before.x_offset
    &&& after.y_offset == before.y_offset
}

/// Each glyph of a run that has a position gets its width from the file as its horizontal advance.
pub proof fn h_advances_come_from_the_file<E: ShapingEngine>(
    font: &FontRef<'_>,
    data: &ShaperData<E>,
    funcs: &OtFontFuncs<'_>,
    face: &Face<'_>,
    glyph: &[GlyphInfo],
    advance: &mut [GlyphPosition],
    i: int,
)
    requires
        call_ensures(OtFontFuncs::new::<E>, (font, data), *funcs),
        call_ensures(
            <OtFontFuncs<'_> as FontFuncs>::glyph_h_advances,
            (funcs, face, glyph, advance),
            (),
        ),
        0 <= i < old(advance)@.len(),
    ensures
        final(advance)@.len() == old(advance)@.len(),
        i < glyph@.len() ==> has_width_of(
            *font,
            data.table_ranges,
            glyph@[i].glyph_id,
            face.coords@,
            old(advance)@[i],
            final(advance)@[i],
        ),
        i >= glyph@.len() ==> final(advance)@[i] == old(advance)@[i],
{
    if i < glyph@.len() {
        let id = glyph@[i].glyph_id;
        let after = final(advance)@[i];
        assert forall|units: int| #[trigger]
            width_varies_by(*font, data.table_ranges, id, face.coords@, units) implies after.x_advance
            == width_in_file(*font, data.table_ranges, id) + units by {
            lemma_width(*font, data.table_ranges, &funcs.0, id, face.coords@, units);
        }
    }
}

/// Each glyph of a run that has a position gets its height from the file as its vertical advance.
pub proof fn v_advances_come_from_the_file<E: ShapingEngine>(
    font: &FontRef<'_>,
    data: &ShaperData<E>,
    funcs: &OtFontFuncs<'_>,
    face: &Face<'_>,
    glyph: &[GlyphInfo],
    advance: &mut [GlyphPosition],
    i: int,
)
    requires
        call_ensures(OtFontFuncs::new::<E>, (font, data), *funcs),
        call_ensures(
            <OtFontFuncs<'_> as FontFuncs>::glyph_v_advances,
            (funcs, face, glyph, advance),
            (),
        ),
        0 <= i < old(advance)@.len(),
    ensures
        final(advance)@.len() == old(advance)@.len(),
        i < glyph@.len() ==> has_height_of(
            *font,
            data.table_ranges,
            glyph@[i].glyph_id,
            face.coords@,
            old(advance)@[i],
            final(advance)@[i],
        ),
        i >= glyph@.len() ==> final(advance)@[i] == old(advance)@[i],
{
    if i < glyph@.len() {
        let id = glyph@[i].glyph_id;
        let after = final(advance)@[i];
        assert forall|units: int| #[trigger]
            height_varies_by(*font, data.table_ranges, id, face.coords@, units) implies after.y_advance
            + height_in_file(*font, data.table_ranges, id) + units == 0 by {
            lemma_height(*font, data.table_ranges, &funcs.0, id, face.coords@, units);
        }
    }
}

/// The advances of a glyph alone are its width in the file, and its height downwards.
pub proof fn advances_alone_come_from_the_file<E: ShapingEngine>(
    font: &FontRef<'_>,
    data: &ShaperData<E>,
    funcs: &OtFontFuncs<'_>,
    face: &Face<'_>,
    glyph: GlyphId,
    h: i32,
    v: i32,
    single_h: i32,
    single_v: i32,
    wider: int,
    higher: int,
)
    requires
        call_ensures(OtFontFuncs::new::<E>, (font, data), *funcs),
        call_ensures(<OtFontFuncs<'_> as FontFuncs>::glyph_h_advance, (funcs, face, glyph), h),
        call_ensures(<OtFontFuncs<'_> as FontFuncs>::glyph_v_advance, (funcs, face, glyph), v),
        call_ensures(
            <OtFontFuncs<'_> as FontFuncs>::single_h_advance,
            (funcs, face, glyph),
            single_h,
        ),
        call_ensures(
            <OtFontFuncs<'_> as FontFuncs>::single_v_advance,
            (funcs, face, glyph),
            single_v,
        ),
        width_varies_by(*font, data.table_ranges, glyph, face.coords@, wider),
        height_varies_by(*font, data.table_ranges, glyph, face.coords@, higher),
    ensures
        h == width_in_file(*font, data.table_ranges, glyph) + wider,
        single_h == h,
        v == -(height_in_file(*font, data.table_ranges, glyph) + higher),
        single_v == v,
{
    lemma_width(*font, data.table_ranges, &funcs.0, glyph, face.coords@, wider);
    lemma_height(*font, data.table_ranges, &funcs.0, glyph, face.coords@, higher);
}

/// Whether extents are those of the box of a glyph in the file: they reach from its left edge to its right
/// one and from its top edge to its bottom one, and are there if it has a box.
pub open spec fn are_extents_of(
    font: FontRef,
    ranges: TableRanges,
    glyph: GlyphId,
    coords: Seq<NormalizedCoord>,
    extents: Option<GlyphExtents>,
) -> bool {
    let (left, bottom, right, top) = edges(font, ranges, glyph);
    &&& extents is Some <==> has_box(font, ranges, glyph, coords)
    &&& extents matches Some(extents) ==> {
        &&& extents.x_bearing == left
        &&& extents.x_bearing + extents.width == right
        &&& extents.y_bearing == top
        &&& extents.y_bearing + extents.height == bottom
    }
}

/// The extents of a glyph are those of its box in the file.
pub proof fn extents_come_from_the_file<E: ShapingEngine>(
    font: &FontRef<'_>,
    data: &ShaperData<E>,
    funcs: &OtFontFuncs<'_>,
    face: &Face<'_>,
    glyph: GlyphId,
    extents: Option<GlyphExtents>,
)
    requires
        call_ensures(OtFontFuncs::new::<E>, (font, data), *funcs),
        call_ensures(
            <OtFontFuncs<'_> as FontFuncs>::glyph_extents,
            (funcs, face, glyph),
            extents,
        ),
    ensures
        are_extents_of(*font, data.table_ranges, glyph, face.coords@, extents),
{
    lemma_bounds(*font, data.table_ranges, &funcs.0, glyph, face.coords@);
}

/// Whether `x` is the middle of a width, rounded towards the start.
pub open spec fn is_middle(x: int, width: int) -> bool {
    if width >= 0 {
        0 <= width - 2 * x <= 1
    } else {
        -1 <= width - 2 * x <= 0
    }
}

/// Whether `y` is where the vertical origin of a glyph lies:
/// - where the vertical origin table of the file says, moved as the origin varies;
/// - or else, with vertical metrics, the top side bearing above the box, moved as bearing and origin vary;
/// - or else where the box is in the middle of the height of the font, as its ascent and descent vary;
/// - or else, without a box, at the ascent of the font, as it varies.
pub open spec fn is_origin_y(
    font: FontRef,
    ranges: TableRanges,
    glyph: GlyphId,
    coords: Seq<NormalizedCoord>,
    y: int,
) -> bool {
    let (_, bottom, _, top) = edges(font, ranges, glyph);
    forall|moved: int, bearing: int, up: int, down: int|
        {
            &&& #[trigger] origin_varies_by(font, ranges, glyph, coords, moved)
            &&& #[trigger] top_bearing_varies_by(font, ranges, glyph, coords, bearing)
            &&& #[trigger] metric_varies_by(font, ranges, 0x6861_7363, coords, up)
            &&& #[trigger] metric_varies_by(font, ranges, 0x6864_7363, coords, down)
        } ==> if lies_in(ranges.vorg, font, 8) {
            y - moved == font_tables::vorg_origin_y(part(ranges.vorg, font), glyph)
        } else if !has_box(font, ranges, glyph, coords) {
            y - up == ranges.ascent
        } else if lies_in(ranges.vmtx, font, 1) {
            y - moved - bearing - top == bearing_in_file(
                font,
                ranges.vmtx,
                ranges.num_v_metrics as int,
                glyph,
            )
        } else {
            is_centered(y, (ranges.ascent + up) - (ranges.descent + down), bottom, top)
        }
}

/// The vertical origin of a glyph is where the file says.
pub(crate) proof fn lemma_origin(
    font: FontRef,
    ranges: TableRanges,
    metrics: &GlyphMetrics<'_>,
    glyph: GlyphId,
    coords: Seq<NormalizedCoord>,
    x: int,
    y: int,
)
    requires
        metrics.is_of(font, ranges),
        x == metrics.v_origin_x(glyph, coords),
        y == metrics.v_origin_y(glyph, coords),
    ensures
        forall|units: int| #[trigger]
            width_varies_by(font, ranges, glyph, coords, units) ==> is_middle(
                x,
                width_in_file(font, ranges, glyph) + units,
            ),
        is_origin_y(font, ranges, glyph, coords, y),
{
    lemma_tables(font, ranges, metrics);
    lemma_bounds(font, ranges, metrics, glyph, coords);
    assert forall|units: int| #[trigger]
        width_varies_by(font, ranges, glyph, coords, units) implies is_middle(
        x,
        width_in_file(font, ranges, glyph) + units,
    ) by {
        lemma_width(font, ranges, metrics, glyph, coords, units);
    }
}

/// Whether a position is what it was, but for offsets that are the vertical origin of the glyph in the
/// file: the middle of its width, and the height at which it lies.
pub open spec fn has_origin_of(
    font: FontRef,
    ranges: TableRanges,
    glyph: GlyphId,
    coords: Seq<NormalizedCoord>,
    before: GlyphPosition,
    after: GlyphPosition,
) -> bool {
    &&& after.x_advance == before.x_advance
    &&& after.y_advance == before.y_advance
    &&& forall|units: int| #[trigger]
        width_varies_by(font, ranges, glyph, coords, units) ==> is_middle(
            after.x_offset as int,
            width_in_file(font, ranges, glyph) + units,
        )
    &&& is_origin_y(font, ranges, glyph, coords, after.y_offset as int)
}

/// Each glyph of a run that has a position gets its vertical origin from the file.
pub proof fn v_origins_come_from_the_file<E: ShapingEngine>(
    font: &FontRef<'_>,
    data: &ShaperData<E>,
    funcs: &OtFontFuncs<'_>,
    face: &Face<'_>,
    glyph: &[GlyphInfo],
    origin: &mut [GlyphPosition],
    result: Result<(), ()>,
    i: int,
)
    requires
        call_ensures(OtFontFuncs::new::<E>, (font, data), *funcs),
        call_ensures(
            <OtFontFuncs<'_> as FontFuncs>::glyph_v_origins,
            (funcs, face, glyph, origin),
            result,
        ),
        0 <= i < old(origin)@.len(),
    ensures
        result is Ok,
        final(origin)@.len() == old(origin)@.len(),
        i < glyph@.len() ==> has_origin_of(
            *font,
            data.table_ranges,
            glyph@[i].glyph_id,
            face.coords@,
            old(origin)@[i],
            final(origin)@[i],
        ),
        i >= glyph@.len() ==> final(origin)@[i] == old(origin)@[i],
{
    if i < glyph@.len() {
        let after = final(origin)@[i];
        lemma_origin(
            *font,
            data.table_ranges,
            &funcs.0,
            glyph@[i].glyph_id,
            face.coords@,
            after.x_offset as int,
            after.y_offset as int,
        );
    }
}

/// Every position gets the horizontal origin (0, 0), and nothing else of it changes; the font functions
/// say so.
pub proof fn h_origins_are_zero(
    funcs: &OtFontFuncs<'_>,
    face: &Face<'_>,
    glyph: &[GlyphInfo],
    origin: &mut [GlyphPosition],
    result: Result<(), ()>,
    flag: bool,
    i: int,
)
    requires
        call_ensures(
            <OtFontFuncs<'_> as FontFuncs>::glyph_h_origins,
            (funcs, face, glyph, origin),
            result,
        ),
        call_ensures(<OtFontFuncs<'_> as FontFuncs>::non_default_h_origins, (funcs, face), flag),
        0 <= i < old(origin)@.len(),
    ensures
        result is Ok,
        !flag,
        final(origin)@.len() == old(origin)@.len(),
        final(origin)@[i].x_offset == 0,
        final(origin)@[i].y_offset == 0,
        final(origin)@[i].x_advance == old(origin)@[i].x_advance,
        final(origin)@[i].y_advance == old(origin)@[i].y_advance,
{
}

/// The origins of a glyph alone are (0, 0) in horizontal text and the one in the file in vertical text.
pub proof fn origins_alone_come_from_the_file<E: ShapingEngine>(
    font: &FontRef<'_>,
    data: &ShaperData<E>,
    funcs: &OtFontFuncs<'_>,
    face: &Face<'_>,
    glyph: GlyphId,
    h: Result<(i32, i32), ()>,
    v: Result<(i32, i32), ()>,
    single_h: Result<(i32, i32), ()>,
    single_v: Result<(i32, i32), ()>,
)
    requires
        call_ensures(OtFontFuncs::new::<E>, (font, data), *funcs),
        call_ensures(<OtFontFuncs<'_> as FontFuncs>::glyph_h_origin, (funcs, face, glyph), h),
        call_ensures(<OtFontFuncs<'_> as FontFuncs>::glyph_v_origin, (funcs, face, glyph), v),
        call_ensures(
            <OtFontFuncs<'_> as FontFuncs>::single_h_origin,
            (funcs, face, glyph),
            single_h,
        ),
        call_ensures(
            <OtFontFuncs<'_> as FontFuncs>::single_v_origin,
            (funcs, face, glyph),
            single_v,
        ),
    ensures
        h == Ok::<(i32, i32), ()>((0, 0)),
        single_h == h,
        v is Ok,
        forall|units: int| #[trigger]
            width_varies_by(*font, data.table_ranges, glyph, face.coords@, units) ==> is_middle(
                v->Ok_0.0 as int,
                width_in_file(*font, data.table_ranges, glyph) + units,
            ),
        is_origin_y(*font, data.table_ranges, glyph, face.coords@, v->Ok_0.1 as int),
        single_v == v,
{
    lemma_origin(
        *font,
        data.table_ranges,
        &funcs.0,
        glyph,
        face.coords@,
        v->Ok_0.0 as int,
        v->Ok_0.1 as int,
    );
}

} // verus!
