//! Reading of single font tables, through the `read_fonts` crate.
//!
//! A table is its bytes. Each function below hands bytes to one reader of `read_fonts` and hands
//! back plain values; none of them is proved. What a reader takes from a fixed place in a table is
//! stated over the bytes. What it computes from variation data is given a name.
use vstd::prelude::*;

use read_fonts::tables::avar::Avar;
use read_fonts::tables::fvar::Fvar;
use read_fonts::tables::glyf::Glyf;
use read_fonts::tables::gpos::Gpos;
use read_fonts::tables::gsub::Gsub;
use read_fonts::tables::gvar::Gvar;
use read_fonts::tables::hmtx::Hmtx;
use read_fonts::tables::hvar::Hvar;
use read_fonts::tables::loca::Loca;
use read_fonts::tables::mvar::Mvar;
use read_fonts::tables::vmtx::Vmtx;
use read_fonts::tables::vorg::Vorg;
use read_fonts::tables::vvar::Vvar;
use read_fonts::types::{F2Dot14, Fixed, Tag};
use read_fonts::{FontData, FontRead};

use crate::glyph::{BoundingBox, GlyphId, NormalizedCoord, Point};

verus! {

/// The big-endian unsigned 16 bit number at `at`.
pub open spec fn be_u16(data: Seq<u8>, at: int) -> int {
    data[at] * 0x100 + data[at + 1]
}

/// The big-endian signed 16 bit number at `at`.
pub open spec fn be_i16(data: Seq<u8>, at: int) -> int {
    if be_u16(data, at) < 0x8000 {
        be_u16(data, at)
    } else {
        be_u16(data, at) - 0x1_0000
    }
}

/// The big-endian unsigned 32 bit number at `at`.
pub open spec fn be_u32(data: Seq<u8>, at: int) -> int {
    be_u16(data, at) * 0x1_0000 + be_u16(data, at + 2)
}

/// The big-endian signed 32 bit number at `at`.
pub open spec fn be_i32(data: Seq<u8>, at: int) -> int {
    if be_u32(data, at) < 0x8000_0000 {
        be_u32(data, at)
    } else {
        be_u32(data, at) - 0x1_0000_0000
    }
}

/// The bytes of a table that may be absent.
pub open spec fn table_bytes(table: Option<&[u8]>) -> Option<Seq<u8>> {
    match table {
        Some(data) => Some(data@),
        None => None,
    }
}

/// An advance with the side bearing that belongs to it, in font units.
#[derive(Clone, Copy, Debug, PartialEq, Eq, Structural)]
pub struct LongMetric {
    /// How far the pen moves.
    pub advance: u16,
    /// The distance from the origin to the outline.
    pub side_bearing: i16,
}

/// The long metrics that an `hmtx` or `vmtx` table starts with: `count` of them, or none if the
/// table is too short for that many.
pub open spec fn long_metrics(table: Seq<u8>, count: nat) -> Seq<LongMetric> {
    if 4 * count <= table.len() {
        Seq::new(
            count,
            |i: int|
                LongMetric {
                    advance: be_u16(table, 4 * i) as u16,
                    side_bearing: be_i16(table, 4 * i + 2) as i16,
                },
        )
    } else {
        Seq::empty()
    }
}

/// The side bearings that follow `count` long metrics, up to the end of the table.
pub open spec fn short_side_bearings(table: Seq<u8>, count: nat) -> Seq<i16> {
    if 4 * count <= table.len() {
        Seq::new(
            ((table.len() - 4 * count) / 2) as nat,
            |i: int| be_i16(table, 4 * count + 2 * i) as i16,
        )
    } else {
        Seq::empty()
    }
}

/// The advance of a glyph in an `hmtx` or `vmtx` table: a glyph past the long metrics has the
/// advance of the last of them.
pub open spec fn metrics_advance(table: Seq<u8>, count: nat, glyph: GlyphId) -> Option<u16> {
    let metrics = long_metrics(table, count);
    if glyph < metrics.len() {
        Some(metrics[glyph as int].advance)
    } else if metrics.len() > 0 {
        Some(metrics.last().advance)
    } else {
        None
    }
}

/// The side bearing of a glyph in an `hmtx` or `vmtx` table.
pub open spec fn metrics_side_bearing(table: Seq<u8>, count: nat, glyph: GlyphId) -> Option<i16> {
    let metrics = long_metrics(table, count);
    let bearings = short_side_bearings(table, count);
    if glyph < metrics.len() {
        Some(metrics[glyph as int].side_bearing)
    } else if glyph - metrics.len() < bearings.len() {
        Some(bearings[glyph - metrics.len()])
    } else {
        None
    }
}

/// `Hmtx::read` and `Hmtx::h_metrics`: the long metrics of an `hmtx` table. `Hmtx::read` accepts
/// every table.
#[verifier::external_body]
pub(crate) fn hmtx_h_metrics(table: &[u8], count: u16) -> (metrics: Vec<LongMetric>)
    ensures
        metrics@ == long_metrics(table@, count as nat),
{
    let hmtx = Hmtx::read(FontData::new(table), count).unwrap();
    hmtx.h_metrics().iter()
        .map(|m| LongMetric { advance: m.advance(), side_bearing: m.side_bearing() })
        .collect()
}

/// `Hmtx::side_bearing`: the left side bearing of a glyph.
#[verifier::external_body]
pub(crate) fn hmtx_side_bearing(table: &[u8], count: u16, glyph: GlyphId) -> (bearing: Option<i16>)
    ensures
        bearing == metrics_side_bearing(table@, count as nat, glyph),
{
    Hmtx::read(FontData::new(table), count).ok()?.side_bearing(glyph.into())
}

/// `Vmtx::advance`: the advance height of a glyph.
#[verifier::external_body]
pub(crate) fn vmtx_advance(table: &[u8], count: u16, glyph: GlyphId) -> (advance: Option<u16>)
    ensures
        advance == metrics_advance(table@, count as nat, glyph),
{
    Vmtx::read(FontData::new(table), count).ok()?.advance(glyph.into())
}

/// `Vmtx::side_bearing`: the top side bearing of a glyph.
#[verifier::external_body]
pub(crate) fn vmtx_side_bearing(table: &[u8], count: u16, glyph: GlyphId) -> (bearing: Option<i16>)
    ensures
        bearing == metrics_side_bearing(table@, count as nat, glyph),
{
    Vmtx::read(FontData::new(table), count).ok()?.side_bearing(glyph.into())
}


/// `Hvar::read`: whether the table is long enough for its header.
#[verifier::external_body]
pub(crate) fn hvar_read(table: &[u8]) -> (readable: bool)
    ensures
        readable == (table@.len() >= 20),
{
    Hvar::read(FontData::new(table)).is_ok()
}

/// `Vvar::read`: whether the table is long enough for its header.
#[verifier::external_body]
pub(crate) fn vvar_read(table: &[u8]) -> (readable: bool)
    ensures
        readable == (table@.len() >= 24),
{
    Vvar::read(FontData::new(table)).is_ok()
}

/// `Mvar::read`: whether the table is long enough for its header.
#[verifier::external_body]
pub(crate) fn mvar_read(table: &[u8]) -> (readable: bool)
    ensures
        readable == (table@.len() >= 12),
{
    Mvar::read(FontData::new(table)).is_ok()
}

/// `Vorg::read`: whether the table is long enough for its header.
#[verifier::external_body]
pub(crate) fn vorg_read(table: &[u8]) -> (readable: bool)
    ensures
        readable == (table@.len() >= 8),
{
    Vorg::read(FontData::new(table)).is_ok()
}

/// `Gvar::read`: whether the table is long enough for its header.
#[verifier::external_body]
pub(crate) fn gvar_read(table: &[u8]) -> (readable: bool)
    ensures
        readable == (table@.len() >= 20),
{
    Gvar::read(FontData::new(table)).is_ok()
}

/// `Gsub::read`: whether the table is long enough for its header.
#[verifier::external_body]
pub(crate) fn gsub_read(table: &[u8]) -> (readable: bool)
    ensures
        readable == (table@.len() >= 10),
{
    Gsub::read(FontData::new(table)).is_ok()
}

/// `Gpos::read`: whether the table is long enough for its header.
#[verifier::external_body]
pub(crate) fn gpos_read(table: &[u8]) -> (readable: bool)
    ensures
        readable == (table@.len() >= 10),
{
    Gpos::read(FontData::new(table)).is_ok()
}

/// Whether a `loca` table is a whole number of offsets.
pub open spec fn loca_readable(table: Seq<u8>, is_long: bool) -> bool {
    table.len() % (if is_long { 4nat } else { 2nat }) == 0
}

/// `Loca::read`: whether the table is a whole number of offsets.
#[verifier::external_body]
pub(crate) fn loca_read(table: &[u8], is_long: bool) -> (readable: bool)
    ensures
        readable == loca_readable(table@, is_long),
{
    Loca::read(FontData::new(table), is_long).is_ok()
}

/// Where the outline of glyph `index` starts, and that of the glyph before it ends.
pub open spec fn loca_offset(table: Seq<u8>, is_long: bool, index: int) -> Option<int> {
    if is_long && 4 * index + 4 <= table.len() {
        Some(be_u32(table, 4 * index))
    } else if !is_long && 2 * index + 2 <= table.len() {
        Some(2 * be_u16(table, 2 * index))
    } else {
        None
    }
}

/// The box in the header of the outline that fills `start..end` of a `glyf` table, if that range
/// lies in the table and is long enough for the header.
pub open spec fn outline_bounds(glyf: Seq<u8>, start: int, end: int) -> Option<BoundingBox> {
    let header = if be_i16(glyf, start) >= 0 {
        12
    } else {
        10int
    };
    if end <= glyf.len() && start + 2 <= end && start + header <= end {
        Some(
            BoundingBox {
                x_min: be_i16(glyf, start + 2) as i32,
                y_min: be_i16(glyf, start + 4) as i32,
                x_max: be_i16(glyf, start + 6) as i32,
                y_max: be_i16(glyf, start + 8) as i32,
            },
        )
    } else {
        None
    }
}

/// What the `loca` and `glyf` tables hold for a glyph: nothing readable (`None`), a glyph that
/// draws nothing (`Some(None)`) or an outline with its box.
pub open spec fn glyph_bounds(
    loca: Seq<u8>,
    is_long: bool,
    glyf: Seq<u8>,
    glyph: GlyphId,
) -> Option<Option<BoundingBox>> {
    if !loca_readable(loca, is_long) {
        None
    } else {
        match (
            loca_offset(loca, is_long, glyph as int),
            loca_offset(loca, is_long, glyph + 1),
        ) {
            (Some(start), Some(end)) => if start == end {
                Some(None)
            } else {
                match outline_bounds(glyf, start, end) {
                    Some(bounds) => Some(Some(bounds)),
                    None => None,
                }
            },
            _ => None,
        }
    }
}

/// `Loca::get_glyf` with `Glyph::x_min`, `y_min`, `x_max` and `y_max`: the box of a glyph.
#[verifier::external_body]
pub(crate) fn loca_get_glyf(loca: &[u8], is_long: bool, glyf: &[u8], glyph: GlyphId) -> (bounds:
    Option<Option<BoundingBox>>)
    ensures
        bounds == glyph_bounds(loca@, is_long, glyf@, glyph),
{
    let loca = Loca::read(FontData::new(loca), is_long).ok()?;
    let glyf = Glyf::read(FontData::new(glyf)).ok()?;
    let outline = loca.get_glyf(glyph.into(), &glyf).ok()?;
    Some(outline.map(|g| BoundingBox {
        x_min: g.x_min().into(),
        y_min: g.y_min().into(),
        x_max: g.x_max().into(),
        y_max: g.y_max().into(),
    }))
}

/// The number of records in a `VORG` table; none count if the table is too short for all of them.
pub open spec fn vorg_count(table: Seq<u8>) -> int {
    if 8 + 4 * be_u16(table, 6) <= table.len() {
        be_u16(table, 6)
    } else {
        0
    }
}

/// The glyph of record `index` of a `VORG` table.
pub open spec fn vorg_glyph(table: Seq<u8>, index: int) -> int {
    be_u16(table, 8 + 4 * index)
}

/// Whether the records of a `VORG` table are in the order that the format asks for.
pub open spec fn vorg_sorted(table: Seq<u8>) -> bool {
    forall|i: int, j: int|
        0 <= i < j < vorg_count(table) ==> #[trigger] vorg_glyph(table, i) < #[trigger] vorg_glyph(
            table,
            j,
        )
}

/// What `Vorg::vertical_origin_y` returns for a table that `Vorg::read` accepts.
pub uninterp spec fn vorg_origin_y(table: Seq<u8>, glyph: GlyphId) -> i16;

/// `Vorg::vertical_origin_y`: the y coordinate of the vertical origin of a glyph. In a table whose
/// records are in order it is that of the record for the glyph, or else the default of the table.
/// Which record is found in a table whose records are not in order is left unsaid.
#[verifier::external_body]
pub(crate) fn vorg_vertical_origin_y(table: &[u8], glyph: GlyphId) -> (y: i16)
    requires
        table@.len() >= 8,
    ensures
        y == vorg_origin_y(table@, glyph),
        vorg_sorted(table@) ==> forall|i: int|
            0 <= i < vorg_count(table@) && #[trigger] vorg_glyph(table@, i) == glyph ==> y
                == be_i16(table@, 10 + 4 * i),
        vorg_sorted(table@) ==> (forall|i: int|
            0 <= i < vorg_count(table@) ==> #[trigger] vorg_glyph(table@, i) != glyph) ==> y
            == be_i16(table@, 4),
{
    Vorg::read(FontData::new(table)).unwrap().vertical_origin_y(glyph.into())
}

/// What `Hvar::advance_width_delta` returns, as the bits of a 16.16 fixed point number; `None` where
/// it fails.
pub uninterp spec fn hvar_width(
    table: Seq<u8>,
    glyph: GlyphId,
    coords: Seq<NormalizedCoord>,
) -> Option<i32>;

/// `Hvar::advance_width_delta`: how far the advance width of a glyph varies.
#[verifier::external_body]
pub(crate) fn hvar_advance_width_delta(table: &[u8], glyph: GlyphId, coords: &[NormalizedCoord]) -> (delta:
    Option<i32>)
    ensures
        delta == hvar_width(table@, glyph, coords@),
{
    let table = Hvar::read(FontData::new(table)).ok()?;
    let coords: &[F2Dot14] = bytemuck::cast_slice(coords);
    Some(table.advance_width_delta(glyph.into(), coords).ok()?.to_bits())
}

/// What `Hvar::lsb_delta` returns, as the bits of a 16.16 fixed point number; `None` where
/// it fails.
pub uninterp spec fn hvar_lsb(
    table: Seq<u8>,
    glyph: GlyphId,
    coords: Seq<NormalizedCoord>,
) -> Option<i32>;

/// `Hvar::lsb_delta`: how far the left side bearing of a glyph varies.
#[verifier::external_body]
pub(crate) fn hvar_lsb_delta(table: &[u8], glyph: GlyphId, coords: &[NormalizedCoord]) -> (delta:
    Option<i32>)
    ensures
        delta == hvar_lsb(table@, glyph, coords@),
{
    let table = Hvar::read(FontData::new(table)).ok()?;
    let coords: &[F2Dot14] = bytemuck::cast_slice(coords);
    Some(table.lsb_delta(glyph.into(), coords).ok()?.to_bits())
}

/// What `Vvar::advance_height_delta` returns, as the bits of a 16.16 fixed point number; `None` where
/// it fails.
pub uninterp spec fn vvar_height(
    table: Seq<u8>,
    glyph: GlyphId,
    coords: Seq<NormalizedCoord>,
) -> Option<i32>;

/// `Vvar::advance_height_delta`: how far the advance height of a glyph varies.
#[verifier::external_body]
pub(crate) fn vvar_advance_height_delta(table: &[u8], glyph: GlyphId, coords: &[NormalizedCoord]) -> (delta:
    Option<i32>)
    ensures
        delta == vvar_height(table@, glyph, coords@),
{
    let table = Vvar::read(FontData::new(table)).ok()?;
    let coords: &[F2Dot14] = bytemuck::cast_slice(coords);
    Some(table.advance_height_delta(glyph.into(), coords).ok()?.to_bits())
}

/// What `Vvar::tsb_delta` returns, as the bits of a 16.16 fixed point number; `None` where
/// it fails.
pub uninterp spec fn vvar_tsb(
    table: Seq<u8>,
    glyph: GlyphId,
    coords: Seq<NormalizedCoord>,
) -> Option<i32>;

/// `Vvar::tsb_delta`: how far the top side bearing of a glyph varies.
#[verifier::external_body]
pub(crate) fn vvar_tsb_delta(table: &[u8], glyph: GlyphId, coords: &[NormalizedCoord]) -> (delta:
    Option<i32>)
    ensures
        delta == vvar_tsb(table@, glyph, coords@),
{
    let table = Vvar::read(FontData::new(table)).ok()?;
    let coords: &[F2Dot14] = bytemuck::cast_slice(coords);
    Some(table.tsb_delta(glyph.into(), coords).ok()?.to_bits())
}

/// What `Vvar::v_org_delta` returns, as the bits of a 16.16 fixed point number; `None` where
/// it fails.
pub uninterp spec fn vvar_v_org(
    table: Seq<u8>,
    glyph: GlyphId,
    coords: Seq<NormalizedCoord>,
) -> Option<i32>;

/// `Vvar::v_org_delta`: how far the vertical origin of a glyph varies.
#[verifier::external_body]
pub(crate) fn vvar_v_org_delta(table: &[u8], glyph: GlyphId, coords: &[NormalizedCoord]) -> (delta:
    Option<i32>)
    ensures
        delta == vvar_v_org(table@, glyph, coords@),
{
    let table = Vvar::read(FontData::new(table)).ok()?;
    let coords: &[F2Dot14] = bytemuck::cast_slice(coords);
    Some(table.v_org_delta(glyph.into(), coords).ok()?.to_bits())
}

/// What `Mvar::metric_delta` returns, as the bits of a 16.16 fixed point number; `None` where
/// it fails.
pub uninterp spec fn mvar_metric(
    table: Seq<u8>,
    tag: u32,
    coords: Seq<NormalizedCoord>,
) -> Option<i32>;

/// `Mvar::metric_delta`: how far a metric of the whole font varies, which is not at all where there are
/// no coordinates.
#[verifier::external_body]
pub(crate) fn mvar_metric_delta(table: &[u8], tag: u32, coords: &[NormalizedCoord]) -> (delta:
    Option<i32>)
    ensures
        delta == mvar_metric(table@, tag, coords@),
        coords@.len() == 0 ==> delta is None || delta == Some(0i32),
{
    let table = Mvar::read(FontData::new(table)).ok()?;
    let coords: &[F2Dot14] = bytemuck::cast_slice(coords);
    Some(table.metric_delta(Tag::from_u32(tag), coords).ok()?.to_bits())
}

/// What `Gvar::phantom_point_deltas` returns: the deltas of the left, right, top and bottom phantom
/// points of a glyph; `None` where it fails or the glyph does not vary.
pub uninterp spec fn gvar_phantom(
    gvar: Seq<u8>,
    glyf: Seq<u8>,
    loca: Seq<u8>,
    is_long: bool,
    coords: Seq<NormalizedCoord>,
    glyph: GlyphId,
) -> Option<[Point; 4]>;

/// `Gvar::phantom_point_deltas`: how far the four phantom points of a glyph move.
#[verifier::external_body]
pub(crate) fn gvar_phantom_point_deltas(
    gvar: &[u8],
    glyf: &[u8],
    loca: &[u8],
    is_long: bool,
    coords: &[NormalizedCoord],
    glyph: GlyphId,
) -> (deltas: Option<[Point; 4]>)
    ensures
        deltas == gvar_phantom(gvar@, glyf@, loca@, is_long, coords@, glyph),
{
    let gvar = Gvar::read(FontData::new(gvar)).ok()?;
    let glyf = Glyf::read(FontData::new(glyf)).ok()?;
    let loca = Loca::read(FontData::new(loca), is_long).ok()?;
    let coords: &[F2Dot14] = bytemuck::cast_slice(coords);
    let deltas = gvar.phantom_point_deltas(&glyf, &loca, coords, glyph.into()).ok()??;
    Some(deltas.map(|p| Point { x: p.x.to_bits(), y: p.y.to_bits() }))
}


/// A variation setting: an axis and a user space value for it.
#[derive(Clone, Copy, Debug, PartialEq, Eq, Structural)]
pub struct Variation {
    /// The tag of the axis, as a big-endian number.
    pub tag: u32,
    /// The value, as the bits of a 16.16 fixed point number.
    pub value: i32,
}

/// What a list of variation settings says of each axis: the last value that it gives for it.
pub open spec fn settings(variations: Seq<Variation>) -> Map<u32, i32>
    decreases variations.len(),
{
    if variations.len() == 0 {
        Map::empty()
    } else {
        settings(variations.drop_last()).insert(variations.last().tag, variations.last().value)
    }
}

/// The number of axes of an `fvar` table; `None` if the table is too short for its header.
pub open spec fn axis_count(fvar: Seq<u8>) -> Option<u16> {
    if fvar.len() >= 16 {
        Some(be_u16(fvar, 8) as u16)
    } else {
        None
    }
}

/// `Fvar::read` and `Fvar::axis_count`: the number of axes.
#[verifier::external_body]
pub(crate) fn fvar_axis_count(fvar: &[u8]) -> (count: Option<u16>)
    ensures
        count == axis_count(fvar@),
{
    Some(Fvar::read(FontData::new(fvar)).ok()?.axis_count())
}

/// Whether a list of settings has one for axis `index` of an `fvar` table.
pub open spec fn is_set(fvar: Seq<u8>, settings: Map<u32, i32>, index: int) -> bool {
    &&& axis_tags(fvar) is Some
    &&& 0 <= index < axis_tags(fvar)->0.len()
    &&& settings.contains_key(axis_tags(fvar)->0[index])
}

/// Whether a list of settings leaves axis `index` of an `fvar` table at its default value: it has none
/// for the axis, or that value, where it lies in the range of the axis.
pub open spec fn axis_rests(fvar: Seq<u8>, settings: Map<u32, i32>, index: int) -> bool {
    let axis = be_u16(fvar, 4) + 20 * index;
    let default = be_i32(fvar, axis + 8);
    is_set(fvar, settings, index) ==> {
        &&& settings[axis_tags(fvar)->0[index]] == default
        &&& be_i32(fvar, axis + 4) <= default <= be_i32(fvar, axis + 12)
    }
}

/// Where the segment map of axis `index` starts in an `avar` table. The maps follow each other, each
/// with the number of its entries before them.
pub open spec fn segment_map(avar: Seq<u8>, index: int) -> int
    decreases index,
{
    if index <= 0 {
        8
    } else {
        let before = segment_map(avar, index - 1);
        before + 2 + 4 * be_u16(avar, before)
    }
}

/// Whether the segment map of axis `index` of an `avar` table maps 0 to 0: it has an entry from 0, and
/// every such entry leads to 0. A map without entries, or past the end of the table, changes nothing.
pub open spec fn segment_map_keeps_zero(avar: Seq<u8>, index: int) -> bool {
    let start = segment_map(avar, index);
    let count = be_u16(avar, start);
    ||| start + 2 > avar.len()
    ||| start + 2 + 4 * count > avar.len()
    ||| count == 0
    ||| {
        &&& exists|i: int| 0 <= i < count && #[trigger] be_i16(avar, start + 2 + 4 * i) == 0
        &&& forall|i: int|
            0 <= i < count && #[trigger] be_i16(avar, start + 2 + 4 * i) == 0 ==> be_i16(
                avar,
                start + 4 + 4 * i,
            ) == 0
    }
}

/// Whether an `avar` table, if there is one that `Avar::read` accepts, leaves axis `index` at 0 where it
/// is at 0. A table of major version 2 may move it by a variation of its own.
pub open spec fn avar_keeps_zero(avar: Option<Seq<u8>>, index: int) -> bool {
    avar is Some && avar->0.len() >= 8 ==> be_u16(avar->0, 0) != 2 && segment_map_keeps_zero(
        avar->0,
        index,
    )
}

/// What `Fvar::user_to_normalized` writes into a slice of `len` coordinates, given the settings of
/// a list of variations. An `avar` table that `Avar::read` refuses counts as absent.
pub uninterp spec fn normalized_location(
    fvar: Seq<u8>,
    avar: Option<Seq<u8>>,
    settings: Map<u32, i32>,
    len: nat,
) -> Seq<NormalizedCoord>;

/// `Fvar::user_to_normalized`: fills a slice with the normalized coordinates of a list of variation
/// settings, in axis order. Of two settings for one axis the last one counts, so the outcome depends
/// on the list only through `settings`. What the slice held before is overwritten. An axis that the
/// settings leave at its default value is at 0, unless the `avar` table moves it from there.
#[verifier::external_body]
pub(crate) fn fvar_user_to_normalized(
    fvar: &[u8],
    avar: Option<&[u8]>,
    variations: &[Variation],
    coords: &mut [NormalizedCoord],
)
    requires
        fvar@.len() >= 16,
    ensures
        final(coords)@.len() == old(coords)@.len(),
        final(coords)@ == normalized_location(
            fvar@,
            table_bytes(avar),
            settings(variations@),
            old(coords)@.len(),
        ),
        forall|i: int|
            0 <= i < final(coords)@.len() && axis_rests(fvar@, settings(variations@), i)
                && avar_keeps_zero(table_bytes(avar), i) ==> #[trigger] final(coords)@[i] == 0,
{
    let fvar = Fvar::read(FontData::new(fvar)).unwrap();
    let avar = avar.and_then(|avar| Avar::read(FontData::new(avar)).ok());
    let user = variations.iter().map(|v| (Tag::from_u32(v.tag), Fixed::from_bits(v.value)));
    fvar.user_to_normalized(avar.as_ref(), user, bytemuck::cast_slice_mut(coords));
}

/// The tags of the axes of an `fvar` table, in axis order; none if the table is too short for all of
/// them, `None` if it has no place for them.
pub open spec fn axis_tags(fvar: Seq<u8>) -> Option<Seq<u32>> {
    let start = be_u16(fvar, 4);
    let count = be_u16(fvar, 8);
    if fvar.len() < 16 || start == 0 || start > fvar.len() {
        None
    } else if start + 20 * count <= fvar.len() {
        Some(Seq::new(count as nat, |i: int| be_u32(fvar, start + 20 * i) as u32))
    } else {
        Some(Seq::empty())
    }
}

/// `Fvar::axis_instance_arrays`, `AxisInstanceArrays::axes` and `VariationAxisRecord::axis_tag`: the
/// tags of the axes.
#[verifier::external_body]
pub(crate) fn fvar_axis_tags(fvar: &[u8]) -> (tags: Option<Vec<u32>>)
    ensures
        match tags {
            Some(tags) => axis_tags(fvar@) == Some(tags@),
            None => axis_tags(fvar@) is None,
        },
{
    let arrays = Fvar::read(FontData::new(fvar)).ok()?.axis_instance_arrays().ok()?;
    Some(arrays.axes().iter().map(|a| u32::from_be_bytes(a.axis_tag().to_be_bytes())).collect())
}

/// The user space coordinates of the named instance `index` of an `fvar` table, as the bits of 16.16
/// fixed point numbers; `None` if the table is too short for all instances, or the instances for this
/// one. The instances follow the axes. Each has four bytes before its coordinates and, if there is
/// room, two bytes after them.
pub open spec fn instance_location(fvar: Seq<u8>, index: usize) -> Option<Seq<i32>> {
    let axes = be_u16(fvar, 8);
    let size = be_u16(fvar, 14);
    let start = be_u16(fvar, 4) + 20 * axes;
    let end = start + be_u16(fvar, 12) * size;
    let at = start + index * size;
    let len = if size >= 6 + 4 * axes {
        6 + 4 * axes
    } else {
        4 + 4 * axes
    };
    if axis_tags(fvar) is Some && end <= fvar.len() && at + len <= end {
        Some(Seq::new(axes as nat, |i: int| be_i32(fvar, at + 4 + 4 * i) as i32))
    } else {
        None
    }
}

/// `Fvar::axis_instance_arrays`, `AxisInstanceArrays::instances` and `ComputedArray::get`: the user
/// space coordinates of a named instance.
#[verifier::external_body]
pub(crate) fn fvar_instance_coordinates(fvar: &[u8], index: usize) -> (coordinates: Option<
    Vec<i32>,
>)
    ensures
        match coordinates {
            Some(coordinates) => instance_location(fvar@, index) == Some(coordinates@),
            None => instance_location(fvar@, index) is None,
        },
{
    let arrays = Fvar::read(FontData::new(fvar)).ok()?.axis_instance_arrays().ok()?;
    let instance = arrays.instances().get(index).ok()?;
    Some(instance.coordinates.iter().map(|c| c.get().to_bits()).collect())
}

/// The multiple of `step` that is nearest to `size`; of two such, the even one.
pub open spec fn nearest_multiple(size: int, step: int) -> int {
    let low = size / step;
    let rest = size % step;
    if 2 * rest < step || (2 * rest == step && low % 2 == 0) {
        low * step
    } else {
        (low + 1) * step
    }
}

/// A number without a sign, rounded to the nearest one that takes at most 24 bits before its trailing
/// zeros.
pub open spec fn nearest_with_24_bits(size: int) -> int {
    if size < 0x100_0000 {
        size
    } else if size < 0x200_0000 {
        nearest_multiple(size, 2)
    } else if size < 0x400_0000 {
        nearest_multiple(size, 4)
    } else if size < 0x800_0000 {
        nearest_multiple(size, 8)
    } else if size < 0x1000_0000 {
        nearest_multiple(size, 16)
    } else if size < 0x2000_0000 {
        nearest_multiple(size, 32)
    } else if size < 0x4000_0000 {
        nearest_multiple(size, 64)
    } else {
        nearest_multiple(size, 128)
    }
}

/// The bits of a 16.16 fixed point number after a trip through a single precision number, which has 24
/// bits for them.
pub open spec fn single_precision(value: i32) -> i32 {
    if value < 0 {
        -nearest_with_24_bits(-value) as i32
    } else if nearest_with_24_bits(value as int) <= i32::MAX {
        nearest_with_24_bits(value as int) as i32
    } else {
        i32::MAX
    }
}

/// `Fixed::to_f32` and `Fixed::from_f64`: rounds a 16.16 fixed point number to what a single
/// precision number can hold.
#[verifier::external_body]
pub(crate) fn fixed_single_precision(value: i32) -> (rounded: i32)
    ensures
        rounded == single_precision(value),
{
    Fixed::from_f64(Fixed::from_bits(value).to_f32() as _).to_bits()
}

/// The bytes of the table with the given tag in the font at `index` of a font file; `None` if the
/// file has no such font or the font no such table.
pub uninterp spec fn font_table(data: Seq<u8>, index: u32, tag: u32) -> Option<Seq<u8>>;

/// `FontRef::from_index` and `FontRef::table_data`: finds a table in a font file.
#[verifier::external_body]
pub(crate) fn font_table_data<'a>(data: &'a [u8], index: u32, tag: u32) -> (table: Option<&'a [u8]>)
    ensures
        table_bytes(table) == font_table(data@, index, tag),
{
    let font = read_fonts::FontRef::from_index(data, index).ok()?;
    Some(font.table_data(Tag::from_u32(tag))?.as_bytes())
}

} // verus!
