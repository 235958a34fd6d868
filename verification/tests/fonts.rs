use font_face::builder::ShaperBuilder;
use font_face::engine::{
    Buffer, Direction, Feature, GlyphBuffer, Language, OtTables, Script, ShapePlan, ShapingEngine,
    UnicodeBuffer, UNKNOWN,
};
use font_face::face::Shaper;
use font_face::font::{FontRef, LayoutTable, TableIndex, TableRange, TableRanges};
use font_face::font_funcs::{Face, FontFuncs, PointSize};
use font_face::font_tables::Variation;
use font_face::glyph::{
    hb_glyph_extents_t, BoundingBox, GlyphExtents, GlyphId, GlyphInfo, GlyphPosition,
    NormalizedCoord,
};
use font_face::glyph_metrics::GlyphMetrics;
use font_face::instance::ShaperInstance;
use font_face::ot_font_funcs::OtFontFuncs;
use font_face::shaper_data::ShaperData;
use font_face::synthetic::{SyntheticFontFuncs, Upright};
use std::sync::Arc;

// Bytes.

fn u16s(values: &[u16]) -> Vec<u8> {
    values.iter().flat_map(|v| v.to_be_bytes()).collect()
}

fn i16s(values: &[i16]) -> Vec<u8> {
    values.iter().flat_map(|v| v.to_be_bytes()).collect()
}

fn u32s(values: &[u32]) -> Vec<u8> {
    values.iter().flat_map(|v| v.to_be_bytes()).collect()
}

fn concat(parts: &[Vec<u8>]) -> Vec<u8> {
    parts.iter().flat_map(|part| part.iter().copied()).collect()
}

fn tag(name: &[u8; 4]) -> u32 {
    u32::from_be_bytes(*name)
}

/// A 16.16 number.
fn fixed(value: i32) -> i32 {
    value << 16
}

/// 1.0 as a 2.14 number.
const ONE: NormalizedCoord = 0x4000;

/// 0.5 as a 2.14 number.
const HALF: NormalizedCoord = 0x2000;

// A font file.

type Table = (&'static [u8; 4], Vec<u8>);

fn font_file(tables: &[Table]) -> Vec<u8> {
    let mut tables: Vec<Table> = tables.to_vec();
    tables.sort_by(|a, b| a.0.cmp(b.0));
    let mut file = concat(&[u32s(&[0x0001_0000]), u16s(&[tables.len() as u16, 0, 0, 0])]);
    let mut offset = 12 + 16 * tables.len();
    for (name, data) in &tables {
        file.extend(u32s(&[tag(name), 0, offset as u32, data.len() as u32]));
        offset += data.len();
    }
    for (_, data) in &tables {
        file.extend(data);
    }
    file
}

fn read_u16(data: &[u8], at: usize) -> u16 {
    u16::from_be_bytes([data[at], data[at + 1]])
}

fn read_u32(data: &[u8], at: usize) -> u32 {
    u32::from_be_bytes([data[at], data[at + 1], data[at + 2], data[at + 3]])
}

fn range(data: &[u8], name: &[u8; 4]) -> TableRange {
    for i in 0..read_u16(data, 4) as usize {
        let record = 12 + 16 * i;
        if read_u32(data, record) == tag(name) {
            let start = read_u32(data, record + 8);
            return TableRange { start, end: start + read_u32(data, record + 12) };
        }
    }
    TableRange { start: 0, end: 0 }
}

/// The numbers of the headers stand in a table of their own: units per em, number of glyphs, numbers of
/// long metrics, whether `loca` is long, ascent and descent.
fn header(upem: u16, glyphs: u16, h: u16, v: u16, long: u16, ascent: i16, descent: i16) -> Table {
    (b"head", concat(&[u16s(&[upem, glyphs, h, v, long]), i16s(&[ascent, descent])]))
}

// A layout engine that says what it was asked.

struct Engine;

struct Letters<'a> {
    font: FontRef<'a>,
}

#[derive(Clone)]
struct Layout {
    coords: Vec<NormalizedCoord>,
    feature_variations: [Option<u32>; 2],
}

impl ShapingEngine for Engine {
    type OtCache = usize;
    type AatCache = u32;
    type CmapCache = ();
    type Charmap<'a> = Letters<'a>;
    type OtLayout<'a> = Layout;
    type AatTables<'a> = u32;
    type GlyphNames<'a> = usize;
    type Plan = String;
    type Content = Vec<String>;

    fn ot_cache(font: &FontRef<'_>) -> usize {
        font.data.len()
    }

    fn aat_cache(font: &FontRef<'_>) -> u32 {
        font.index
    }

    fn table_ranges(font: &FontRef<'_>) -> TableRanges {
        let data = font.data;
        let head = range(data, b"head").start as usize;
        TableRanges {
            hmtx: range(data, b"hmtx"),
            hvar: range(data, b"HVAR"),
            vmtx: range(data, b"vmtx"),
            vvar: range(data, b"VVAR"),
            vorg: range(data, b"VORG"),
            loca: range(data, b"loca"),
            glyf: range(data, b"glyf"),
            gvar: range(data, b"gvar"),
            mvar: range(data, b"MVAR"),
            units_per_em: read_u16(data, head),
            num_glyphs: read_u16(data, head + 2) as u32,
            num_h_metrics: read_u16(data, head + 4),
            num_v_metrics: read_u16(data, head + 6),
            loca_long: read_u16(data, head + 8) != 0,
            ascent: read_u16(data, head + 10) as i16,
            descent: read_u16(data, head + 12) as i16,
        }
    }

    fn cmap_cache() {}

    fn charmap<'a>(font: &FontRef<'a>, _: &'a TableRanges, _: &'a ()) -> Letters<'a> {
        Letters { font: *font }
    }

    fn ot_tables<'a>(
        font: &FontRef<'a>,
        _: &'a usize,
        _: &'a TableRanges,
        coords: &'a [NormalizedCoord],
        feature_variations: [Option<u32>; 2],
    ) -> OtTables<'a, Self> {
        OtTables {
            gsub: font.table_data(tag(b"GSUB")),
            gpos: font.table_data(tag(b"GPOS")),
            layout: Layout { coords: coords.to_vec(), feature_variations },
        }
    }

    fn aat_tables<'a>(_: &FontRef<'a>, cache: &'a u32, _: &'a TableRanges) -> u32 {
        cache + 1
    }

    fn glyph_names<'a>(font: &FontRef<'a>) -> usize {
        font.data.len()
    }

    /// A letter has the glyph of its place in the alphabet.
    fn map(charmap: &Letters<'_>, c: u32) -> Option<GlyphId> {
        assert!(!charmap.font.data.is_empty());
        if (97..=122).contains(&c) {
            Some(c - 97)
        } else {
            None
        }
    }

    fn map_variant(charmap: &Letters<'_>, c: u32, vs: u32) -> Option<GlyphId> {
        Self::map(charmap, c).map(|glyph| glyph + vs)
    }

    /// The first byte of the table and the first coordinate.
    fn feature_variation_index(table: &LayoutTable<'_>, coords: &[NormalizedCoord]) -> Option<u32> {
        match table {
            LayoutTable::Gsub(data) => Some(1000 + data[0] as u32 + coords[0] as u32),
            LayoutTable::Gpos(data) => Some(2000 + data[0] as u32 + coords[0] as u32),
        }
    }

    fn plan<F: FontFuncs>(
        shaper: &Shaper<'_, Self, F>,
        direction: Direction,
        script: Option<Script>,
        language: Option<&Language>,
        features: &[Feature],
    ) -> String {
        format!(
            "{} {:?} {:?} {:?} {}",
            shaper.units_per_em(),
            direction,
            script,
            language.map(|language| &language.0),
            features.len()
        )
    }

    fn enter(mut content: Vec<String>) -> Vec<String> {
        if !content.is_empty() {
            content.push("enter".to_string());
        }
        content
    }

    fn len(content: &Vec<String>) -> usize {
        content.len()
    }

    fn shape_internal<F: FontFuncs>(
        shaper: &Shaper<'_, Self, F>,
        plan: &ShapePlan<Self>,
        mut buffer: Buffer<Self>,
        target_direction: Direction,
        features: &[Feature],
    ) -> Buffer<Self> {
        buffer.content.push(format!(
            "shape [{}] {:?} {} {}",
            plan.plan,
            target_direction,
            features.len(),
            shaper.coords().len()
        ));
        buffer
    }

    fn leave(mut content: Vec<String>) -> Vec<String> {
        content.push("leave".to_string());
        content
    }
}

fn data_of(file: &[u8]) -> ShaperData<Engine> {
    ShaperData::new(&FontRef { data: file, index: 0 })
}

fn infos(glyphs: &[u32]) -> Vec<GlyphInfo> {
    glyphs.iter().map(|glyph| GlyphInfo { glyph_id: *glyph }).collect()
}

fn position(x_advance: i32, y_advance: i32, x_offset: i32, y_offset: i32) -> GlyphPosition {
    GlyphPosition { x_advance, y_advance, x_offset, y_offset }
}

// Tables.

/// Two long metrics, (500, 10) and (600, -20), and a bearing of 30 for one more glyph.
fn metrics() -> Vec<u8> {
    concat(&[u16s(&[500]), i16s(&[10]), u16s(&[600]), i16s(&[-20]), i16s(&[30])])
}

/// An item variation store with one axis and one region that peaks at 1: each item has one delta.
fn variation_store(deltas: &[i16]) -> Vec<u8> {
    concat(&[
        u16s(&[1]),
        u32s(&[12]),
        u16s(&[1]),
        u32s(&[22]),
        // regions
        u16s(&[1, 1]),
        i16s(&[0, ONE, ONE]),
        // items
        u16s(&[deltas.len() as u16, 1, 1, 0]),
        i16s(deltas),
    ])
}

/// A map from glyphs to the items from `first` on.
fn delta_map(first: u8, count: u8) -> Vec<u8> {
    let mut map = vec![0, 0x07, 0, count];
    map.extend(first..first + count);
    map
}

/// Advances vary by the first deltas; bearings by `bearings`, where they are there.
fn hvar(advances: &[i16], bearings: &[i16]) -> Vec<u8> {
    let store = variation_store(&[advances, bearings].concat());
    let advance_map = delta_map(0, advances.len() as u8);
    let bearing_map = delta_map(advances.len() as u8, bearings.len() as u8);
    let advance_at = 20 + store.len() as u32;
    let bearing_at = if bearings.is_empty() { 0 } else { advance_at + advance_map.len() as u32 };
    concat(&[
        u16s(&[1, 0]),
        u32s(&[20, advance_at, bearing_at, 0]),
        store,
        advance_map,
        bearing_map,
    ])
}

/// Advances vary by the first deltas, then bearings, then origins.
fn vvar(advances: &[i16], bearings: &[i16], origins: &[i16]) -> Vec<u8> {
    let store = variation_store(&[advances, bearings, origins].concat());
    let count = [advances.len() as u8, bearings.len() as u8, origins.len() as u8];
    let maps = [
        delta_map(0, count[0]),
        delta_map(count[0], count[1]),
        delta_map(count[0] + count[1], count[2]),
    ];
    let at = 24 + store.len() as u32;
    let bearing_at = at + maps[0].len() as u32;
    let origin_at = bearing_at + maps[1].len() as u32;
    concat(&[
        u16s(&[1, 0]),
        u32s(&[24, at, bearing_at, 0, origin_at]),
        store,
        maps.concat(),
    ])
}

/// The ascender and the descender vary.
fn mvar(ascender: i16, descender: i16) -> Vec<u8> {
    concat(&[
        u16s(&[1, 0, 0, 8, 2, 28]),
        b"hasc".to_vec(),
        u16s(&[0, 0]),
        b"hdsc".to_vec(),
        u16s(&[0, 1]),
        variation_store(&[ascender, descender]),
    ])
}

fn vorg(default: i16, origins: &[(u16, i16)]) -> Vec<u8> {
    let mut table = concat(&[u16s(&[1, 0]), i16s(&[default]), u16s(&[origins.len() as u16])]);
    for (glyph, y) in origins {
        table.extend(concat(&[u16s(&[*glyph]), i16s(&[*y])]));
    }
    table
}

/// An outline of one point, with the given box.
fn outline(x_min: i16, y_min: i16, x_max: i16, y_max: i16) -> Vec<u8> {
    concat(&[
        i16s(&[1, x_min, y_min, x_max, y_max]),
        u16s(&[0, 0]),
        vec![0x31, 0],
    ])
}

/// Glyph 0 has an outline, glyph 1 draws nothing; glyph 2 has an outline that is cut off.
fn outlines() -> [Table; 2] {
    let glyf = concat(&[outline(-5, -200, 400, 700), i16s(&[1, 0])]);
    let loca = u16s(&[0, 8, 8, 10]);
    [(b"loca", loca), (b"glyf", glyf)]
}

/// The phantom points of glyph 0 move: the left one by 3, the right one by 40, the top one by 70 and the
/// bottom one by -6.
fn gvar() -> Vec<u8> {
    let deltas = concat(&[
        // all points
        vec![0],
        // x: the point of the outline, then left, right, top, bottom
        vec![4, 0, 3, 40, 0, 0],
        // y
        vec![4, 0, 0, 0, 70, (-6i8) as u8],
    ]);
    let variation = concat(&[
        u16s(&[1, 10]),
        u16s(&[deltas.len() as u16, 0xa000]),
        i16s(&[ONE]),
        deltas,
        vec![0],
    ]);
    let end = (variation.len() / 2) as u16;
    concat(&[
        u16s(&[1, 0, 1, 0]),
        u32s(&[28]),
        u16s(&[3, 0]),
        u32s(&[28]),
        u16s(&[0, end, end, end]),
        variation,
    ])
}

/// An axis from 100 over 400 to 900 and an axis from 0 over 0 to 200, with two named instances.
fn fvar() -> Vec<u8> {
    let axis = |name: &[u8; 4], min: i32, default: i32, max: i32| {
        concat(&[
            name.to_vec(),
            u32s(&[fixed(min) as u32, fixed(default) as u32, fixed(max) as u32]),
            u16s(&[0, 256]),
        ])
    };
    let instance = |weight: i32, width: i32| {
        concat(&[u16s(&[257, 0]), u32s(&[fixed(weight) as u32, fixed(width) as u32])])
    };
    concat(&[
        u16s(&[1, 0, 16, 2, 2, 20, 2, 12]),
        axis(b"wght", 100, 400, 900),
        axis(b"wdth", 0, 0, 200),
        instance(400, 0),
        instance(650, 100),
    ])
}

/// The first axis is bent: 0.5 becomes 0.25.
fn avar() -> Vec<u8> {
    let map = |half: i16| {
        concat(&[u16s(&[4]), i16s(&[-ONE, -ONE, 0, 0, HALF, half, ONE, ONE])])
    };
    concat(&[u16s(&[1, 0, 0, 2]), map(HALF / 2), map(HALF)])
}

fn layout_table(first: u8) -> Vec<u8> {
    vec![first, 0, 0, 0, 0, 0, 0, 0, 0, 0]
}

fn wght(value: i32) -> Variation {
    Variation { tag: tag(b"wght"), value: fixed(value) }
}

fn wdth(value: i32) -> Variation {
    Variation { tag: tag(b"wdth"), value: fixed(value) }
}

/// A font with two axes and both layout tables.
fn variable_file() -> Vec<u8> {
    font_file(&[
        header(1000, 3, 2, 0, 0, 800, -200),
        (b"hmtx", metrics()),
        (b"fvar", fvar()),
        (b"GSUB", layout_table(7)),
        (b"GPOS", layout_table(8)),
    ])
}

/// A font without axes.
fn static_file() -> Vec<u8> {
    font_file(&[header(1000, 3, 2, 0, 0, 800, -200), (b"hmtx", metrics())])
}

/// A one axis instance at full weight.
fn at_one() -> Vec<NormalizedCoord> {
    vec![ONE]
}

/// An instance whose coordinates are set without a font.
fn instance_at(coords: &[NormalizedCoord]) -> ShaperInstance {
    let file = variable_file();
    ShaperInstance::from_coords::<Engine>(&FontRef { data: &file, index: 0 }, coords)
}

// Instances.

#[test]
fn variations_are_normalized() {
    let file = variable_file();
    let font = FontRef { data: &file, index: 0 };
    let instance = ShaperInstance::from_variations::<Engine>(&font, &[wght(650), wdth(50)]);
    assert_eq!(instance.coords(), &[HALF, HALF / 2]);
    assert_eq!(
        instance.feature_variations,
        [Some(1007 + HALF as u32), Some(2008 + HALF as u32)]
    );
}

#[test]
fn variations_go_through_the_axis_map() {
    let file = font_file(&[(b"fvar", fvar()), (b"avar", avar())]);
    let font = FontRef { data: &file, index: 0 };
    let instance = ShaperInstance::from_variations::<Engine>(&font, &[wght(650), wdth(100)]);
    assert_eq!(instance.coords(), &[HALF / 2, HALF]);
    assert_eq!(instance.feature_variations, [None, None]);
}

#[test]
fn variation_order_does_not_matter() {
    let file = variable_file();
    let font = FontRef { data: &file, index: 0 };
    let forward = ShaperInstance::from_variations::<Engine>(&font, &[wght(650), wdth(50)]);
    let backward = ShaperInstance::from_variations::<Engine>(&font, &[wdth(50), wght(650)]);
    assert_eq!(forward.coords(), backward.coords());
    assert_eq!(forward.feature_variations, backward.feature_variations);
}

#[test]
fn last_of_two_settings_counts() {
    let file = variable_file();
    let font = FontRef { data: &file, index: 0 };
    let twice =
        ShaperInstance::from_variations::<Engine>(&font, &[wght(900), wdth(50), wght(650)]);
    let once = ShaperInstance::from_variations::<Engine>(&font, &[wdth(50), wght(650)]);
    assert_eq!(twice.coords(), once.coords());
    let swapped =
        ShaperInstance::from_variations::<Engine>(&font, &[wght(650), wdth(50), wght(900)]);
    assert_eq!(swapped.coords(), &[ONE, HALF / 2]);
}

#[test]
fn settings_for_other_axes_are_ignored() {
    let file = variable_file();
    let font = FontRef { data: &file, index: 0 };
    let other = Variation { tag: tag(b"opsz"), value: fixed(12) };
    let instance = ShaperInstance::from_variations::<Engine>(&font, &[other, wght(900)]);
    assert_eq!(instance.coords(), &[ONE, 0]);
}

#[test]
fn default_variations_have_no_coordinates() {
    let file = variable_file();
    let font = FontRef { data: &file, index: 0 };
    let instance = ShaperInstance::from_variations::<Engine>(&font, &[wght(400), wdth(0)]);
    assert!(instance.coords().is_empty());
    assert_eq!(instance.feature_variations, [None, None]);
    let none = ShaperInstance::from_variations::<Engine>(&font, &[]);
    assert!(none.coords().is_empty());
}

#[test]
fn coordinates_are_cut_to_the_axes() {
    let file = variable_file();
    let font = FontRef { data: &file, index: 0 };
    let many = ShaperInstance::from_coords::<Engine>(&font, &[HALF, ONE, -ONE]);
    assert_eq!(many.coords(), &[HALF, ONE]);
    let few = ShaperInstance::from_coords::<Engine>(&font, &[HALF]);
    assert_eq!(few.coords(), &[HALF]);
    let none = ShaperInstance::from_coords::<Engine>(&font, &[]);
    assert!(none.coords().is_empty());
}

#[test]
fn zero_coordinates_are_the_default_location() {
    let file = variable_file();
    let font = FontRef { data: &file, index: 0 };
    let zero = ShaperInstance::from_coords::<Engine>(&font, &[0, 0]);
    assert!(zero.coords().is_empty());
    assert_eq!(zero.feature_variations, [None, None]);
    // Only the third coordinate is not zero, and there is no third axis.
    let cut = ShaperInstance::from_coords::<Engine>(&font, &[0, 0, ONE]);
    assert!(cut.coords().is_empty());
    let last = ShaperInstance::from_coords::<Engine>(&font, &[0, -1]);
    assert_eq!(last.coords(), &[0, -1]);
}

#[test]
fn coordinates_lead_back_to_themselves() {
    let file = variable_file();
    let font = FontRef { data: &file, index: 0 };
    let instance = ShaperInstance::from_variations::<Engine>(&font, &[wght(650), wdth(50)]);
    let again = ShaperInstance::from_coords::<Engine>(&font, instance.coords());
    assert_eq!(again.coords(), instance.coords());
    assert_eq!(again.feature_variations, instance.feature_variations);
}

#[test]
fn named_instances_have_their_coordinates() {
    let file = variable_file();
    let font = FontRef { data: &file, index: 0 };
    let regular = ShaperInstance::from_named_instance::<Engine>(&font, 0);
    assert!(regular.coords().is_empty());
    let semibold = ShaperInstance::from_named_instance::<Engine>(&font, 1);
    assert_eq!(semibold.coords(), &[HALF, HALF]);
    let by_variations = ShaperInstance::from_variations::<Engine>(&font, &[wght(650), wdth(100)]);
    assert_eq!(semibold.coords(), by_variations.coords());
    assert_eq!(semibold.feature_variations, by_variations.feature_variations);
}

#[test]
fn named_instance_that_is_not_there_resets_the_instance() {
    let file = variable_file();
    let font = FontRef { data: &file, index: 0 };
    let mut instance = ShaperInstance::from_coords::<Engine>(&font, &[HALF, ONE]);
    assert!(instance.feature_variations[0].is_some());
    instance.set_named_instance::<Engine>(&font, 2);
    assert!(instance.coords().is_empty());
    assert_eq!(instance.feature_variations, [None, None]);
    let fresh = ShaperInstance::from_named_instance::<Engine>(&font, 2);
    assert!(fresh.coords().is_empty());
    assert_eq!(fresh.feature_variations, [None, None]);
}

#[test]
fn fonts_without_axes_have_no_coordinates() {
    let file = static_file();
    let font = FontRef { data: &file, index: 0 };
    assert!(ShaperInstance::from_coords::<Engine>(&font, &[ONE]).coords().is_empty());
    assert!(ShaperInstance::from_variations::<Engine>(&font, &[wght(900)]).coords().is_empty());
    assert!(ShaperInstance::from_named_instance::<Engine>(&font, 0).coords().is_empty());
}

#[test]
fn fonts_without_axes_reset_the_instance() {
    let file = static_file();
    let font = FontRef { data: &file, index: 0 };
    let used = instance_at(&[HALF, ONE]);
    assert!(used.feature_variations[0].is_some() && used.feature_variations[1].is_some());
    let mut by_coords = used.clone();
    by_coords.set_coords::<Engine>(&font, &[ONE]);
    let mut by_variations = used.clone();
    by_variations.set_variations::<Engine>(&font, &[wght(900)]);
    let mut by_name = used.clone();
    by_name.set_named_instance::<Engine>(&font, 0);
    for instance in [by_coords, by_variations, by_name] {
        assert!(instance.coords().is_empty());
        assert_eq!(instance.feature_variations, [None, None]);
    }
}

#[test]
fn axes_without_a_setting_rest() {
    let file = variable_file();
    let font = FontRef { data: &file, index: 0 };
    let instance = ShaperInstance::from_variations::<Engine>(&font, &[wdth(50)]);
    assert_eq!(instance.coords(), &[0, HALF / 2]);
    // An axis map may move them.
    let map = concat(&[u16s(&[1]), i16s(&[0, HALF])]);
    let moving = concat(&[u16s(&[1, 0, 0, 1]), map]);
    let file = font_file(&[(b"fvar", fvar()), (b"avar", moving)]);
    let font = FontRef { data: &file, index: 0 };
    let moved = ShaperInstance::from_variations::<Engine>(&font, &[]);
    assert_eq!(moved.coords(), &[HALF, 0]);
    // One that maps 0 to 0 does not, be it that the settings are none or the default values.
    let file = font_file(&[(b"fvar", fvar()), (b"avar", avar())]);
    let font = FontRef { data: &file, index: 0 };
    for settings in [vec![], vec![wght(400)], vec![wdth(0), wght(400)]] {
        let instance = ShaperInstance::from_variations::<Engine>(&font, &settings);
        assert!(instance.coords().is_empty());
    }
    assert!(ShaperInstance::from_named_instance::<Engine>(&font, 0).coords().is_empty());
    // Nor does one without entries for an axis, or one with several entries from 0 to 0.
    let none = u16s(&[0]);
    let twice = concat(&[u16s(&[4]), i16s(&[-ONE, -ONE, 0, 0, 0, 0, ONE, ONE])]);
    let keeping = concat(&[u16s(&[1, 0, 0, 2]), none, twice]);
    let file = font_file(&[(b"fvar", fvar()), (b"avar", keeping)]);
    let font = FontRef { data: &file, index: 0 };
    assert!(ShaperInstance::from_variations::<Engine>(&font, &[]).coords().is_empty());
    // The map of the second axis moves it, and not the first one.
    let kept = concat(&[u16s(&[3]), i16s(&[-ONE, -ONE, 0, 0, ONE, ONE])]);
    let moving = concat(&[u16s(&[1]), i16s(&[0, HALF])]);
    let mixed = concat(&[u16s(&[1, 0, 0, 2]), kept, moving]);
    let file = font_file(&[(b"fvar", fvar()), (b"avar", mixed)]);
    let font = FontRef { data: &file, index: 0 };
    let moved = ShaperInstance::from_variations::<Engine>(&font, &[]);
    assert_eq!(moved.coords(), &[0, HALF]);
    // One that is too short for its header does not either.
    let file = font_file(&[(b"fvar", fvar()), (b"avar", vec![0; 7])]);
    let font = FontRef { data: &file, index: 0 };
    assert!(ShaperInstance::from_variations::<Engine>(&font, &[]).coords().is_empty());
}

#[test]
fn axis_table_that_is_too_short_counts_as_none() {
    let file = font_file(&[(b"fvar", fvar()[..15].to_vec())]);
    let font = FontRef { data: &file, index: 0 };
    assert!(ShaperInstance::from_coords::<Engine>(&font, &[ONE]).coords().is_empty());
}

#[test]
fn reset_instances_are_like_new_ones() {
    let file = variable_file();
    let font = FontRef { data: &file, index: 0 };
    let mut instance = ShaperInstance::from_coords::<Engine>(&font, &[-ONE, ONE]);
    instance.set_variations::<Engine>(&font, &[wght(650)]);
    let fresh = ShaperInstance::from_variations::<Engine>(&font, &[wght(650)]);
    assert_eq!(instance.coords(), fresh.coords());
    assert_eq!(instance.feature_variations, fresh.feature_variations);
    instance.set_named_instance::<Engine>(&font, 0);
    assert!(instance.coords().is_empty());
    assert_eq!(instance.feature_variations, [None, None]);
}

#[test]
fn clones_and_defaults_of_instances() {
    let instance = instance_at(&[HALF, ONE]);
    let copy = instance.clone();
    assert_eq!(copy.coords(), &[HALF, ONE]);
    assert_eq!(copy.feature_variations, instance.feature_variations);
    let default = ShaperInstance::default();
    assert!(default.coords().is_empty());
    assert_eq!(default.feature_variations, [None, None]);
}

#[test]
fn more_axes_than_are_stored_inline() {
    let axes: Vec<u8> = (0..12u32)
        .flat_map(|i| {
            concat(&[
                u32s(&[tag(b"ax00") + i, 0, 0, fixed(100) as u32]),
                u16s(&[0, 256]),
            ])
        })
        .collect();
    let file = font_file(&[(b"fvar", concat(&[u16s(&[1, 0, 16, 2, 12, 20, 0, 52]), axes]))]);
    let font = FontRef { data: &file, index: 0 };
    let coords: Vec<NormalizedCoord> = (1..=12).collect();
    let instance = ShaperInstance::from_coords::<Engine>(&font, &coords);
    assert_eq!(instance.coords(), &coords[..]);
    let setting = Variation { tag: tag(b"ax00") + 11, value: fixed(50) };
    let varied = ShaperInstance::from_variations::<Engine>(&font, &[setting]);
    assert_eq!(varied.coords(), &[0, 0, 0, 0, 0, 0, 0, 0, 0, 0, 0, HALF]);
}

#[test]
fn named_values_pass_through_single_precision() {
    // From 2^24 on, single precision has only the even numbers.
    let base = 0x100_0000u32;
    let axis = concat(&[b"wght".to_vec(), u32s(&[base, base, base + 4]), u16s(&[0, 256])]);
    let instance = |value: u32| concat(&[u16s(&[257, 0]), u32s(&[value])]);
    let table = concat(&[
        u16s(&[1, 0, 16, 2, 1, 20, 3, 8]),
        axis,
        instance(base + 1),
        instance(base + 2),
        instance(base + 3),
    ]);
    let file = font_file(&[(b"fvar", table)]);
    let font = FontRef { data: &file, index: 0 };
    assert!(ShaperInstance::from_named_instance::<Engine>(&font, 0).coords().is_empty());
    assert_eq!(ShaperInstance::from_named_instance::<Engine>(&font, 1).coords(), &[HALF]);
    assert_eq!(ShaperInstance::from_named_instance::<Engine>(&font, 2).coords(), &[ONE]);
    // A setting does not pass through it here.
    let setting = Variation { tag: tag(b"wght"), value: base as i32 + 1 };
    let varied = ShaperInstance::from_variations::<Engine>(&font, &[setting]);
    assert_eq!(varied.coords(), &[HALF / 2]);
}

#[test]
fn named_instances_that_do_not_fit() {
    // The table ends before the last instance does.
    let whole = fvar();
    let file = font_file(&[(b"fvar", whole[..whole.len() - 1].to_vec())]);
    let font = FontRef { data: &file, index: 0 };
    assert!(ShaperInstance::from_named_instance::<Engine>(&font, 1).coords().is_empty());
    // Instances with a name of their own are two bytes longer.
    let mut named = whole.clone();
    named[15] = 14;
    named.extend([0, 0, 0, 0]);
    let file = font_file(&[(b"fvar", named)]);
    let font = FontRef { data: &file, index: 0 };
    let shifted = ShaperInstance::from_named_instance::<Engine>(&font, 1);
    // The second instance is read from two bytes later on: its weight is next to nothing.
    assert_eq!(shifted.coords(), &[-ONE, 0]);
}

#[test]
fn short_layout_tables_are_not_asked() {
    let file = font_file(&[(b"fvar", fvar()), (b"GSUB", vec![7; 9]), (b"GPOS", layout_table(8))]);
    let font = FontRef { data: &file, index: 0 };
    let instance = ShaperInstance::from_coords::<Engine>(&font, &[HALF]);
    assert_eq!(instance.feature_variations, [None, Some(2008 + HALF as u32)]);
    assert!(font.layout_table(TableIndex::GSUB).is_none());
    assert!(font.layout_table(TableIndex::GPOS).is_some());
}

// Building.

#[test]
fn builder_passes_its_configuration_on() {
    let file = variable_file();
    let font = FontRef { data: &file, index: 0 };
    let data = data_of(&file);
    let instance = ShaperInstance::from_coords::<Engine>(&font, &[HALF, ONE]);
    let size = PointSize(12.5f32.to_bits());
    let shaper = data.shaper(&font).instance(Some(&instance)).point_size(Some(size)).build();
    assert_eq!(shaper.units_per_em(), 1000);
    assert_eq!(shaper.coords(), &[HALF, ONE]);
    assert_eq!(shaper.face.points_per_em, Some(size));
    assert_eq!(shaper.ot_tables.layout.coords, vec![HALF, ONE]);
    assert_eq!(shaper.ot_tables.layout.feature_variations, instance.feature_variations);
    assert_eq!(shaper.aat_tables, 1);
    assert_eq!(shaper.glyph_names(), file.len());
    let copy = shaper.ot_tables.layout.clone();
    assert_eq!(copy.coords, vec![HALF, ONE]);
}

#[test]
fn builder_without_an_instance() {
    let file = variable_file();
    let font = FontRef { data: &file, index: 0 };
    let data = data_of(&file);
    let instance = ShaperInstance::from_coords::<Engine>(&font, &[HALF, ONE]);
    let shaper = data.shaper(&font).instance(Some(&instance)).instance(None).build();
    assert!(shaper.coords().is_empty());
    assert_eq!(shaper.face.points_per_em, None);
    assert_eq!(shaper.ot_tables.layout.feature_variations, [None, None]);
}

/// Font functions that give every glyph the same advance; they fail on glyph 9.
struct Monospace {
    advance: i32,
}

impl FontFuncs for Monospace {
    fn glyph_h_advance(&self, _: &Face<'_>, _: GlyphId) -> i32 {
        -self.advance
    }

    fn glyph_h_advances(&self, _: &Face<'_>, glyph: &[GlyphInfo], advance: &mut [GlyphPosition]) {
        for (_, position) in glyph.iter().zip(advance.iter_mut()) {
            position.x_advance = self.advance;
        }
    }

    fn glyph_v_advances(&self, _: &Face<'_>, glyph: &[GlyphInfo], advance: &mut [GlyphPosition]) {
        for (info, position) in glyph.iter().zip(advance.iter_mut()) {
            position.y_advance = if info.glyph_id == 0 { 0 } else { -self.advance };
        }
    }

    fn glyph_h_origins(
        &self,
        _: &Face<'_>,
        glyph: &[GlyphInfo],
        origin: &mut [GlyphPosition],
    ) -> Result<(), ()> {
        for (info, position) in glyph.iter().zip(origin.iter_mut()) {
            if info.glyph_id == 9 {
                return Err(());
            }
            position.x_offset = info.glyph_id as i32;
            position.y_offset = 10 * info.glyph_id as i32;
        }
        Ok(())
    }

    fn glyph_v_origins(
        &self,
        font: &Face<'_>,
        glyph: &[GlyphInfo],
        origin: &mut [GlyphPosition],
    ) -> Result<(), ()> {
        self.glyph_h_origins(font, glyph, origin)?;
        for position in origin.iter_mut() {
            position.y_offset += font.units_per_em();
        }
        Ok(())
    }

    fn non_default_h_origins(&self, _: &Face<'_>) -> bool {
        true
    }

    fn glyph_extents(&self, _: &Face<'_>, glyph: GlyphId) -> Option<GlyphExtents> {
        if glyph == 9 {
            None
        } else {
            Some(hb_glyph_extents_t { x_bearing: 1, y_bearing: 2, width: 3, height: -4 })
        }
    }
}

#[test]
fn custom_font_functions_are_called() {
    let file = static_file();
    let font = FontRef { data: &file, index: 0 };
    let data = data_of(&file);
    let shaper = data.shaper(&font).font_funcs(Monospace { advance: 77 }).build();
    let glyphs = infos(&[0, 3]);
    let mut positions = vec![position(1, 2, 3, 4); 2];
    shaper.glyph_h_advances(&glyphs, &mut positions);
    assert_eq!(positions, vec![position(77, 2, 3, 4); 2]);
    shaper.glyph_v_advances(&glyphs, &mut positions);
    assert_eq!(positions, vec![position(77, 0, 3, 4), position(77, -77, 3, 4)]);
    // This one is overridden, and that one is not.
    assert_eq!(shaper.glyph_h_advance(3), -77);
    assert_eq!(shaper.glyph_v_advance(3), -77);
    assert_eq!(shaper.glyph_v_advance(0), 0);
    assert_eq!(shaper.glyph_h_origins(&glyphs, &mut positions), Ok(()));
    assert_eq!(positions, vec![position(77, 0, 0, 0), position(77, -77, 3, 30)]);
    assert_eq!(shaper.glyph_v_origins(&glyphs, &mut positions), Ok(()));
    assert_eq!(positions, vec![position(77, 0, 0, 1000), position(77, -77, 3, 1030)]);
    assert_eq!(shaper.glyph_h_origins(&infos(&[9]), &mut positions), Err(()));
    assert!(shaper.non_default_h_origins());
    assert_eq!(shaper.glyph_extents(9), None);
    assert_eq!(shaper.glyph_extents(1).map(|extents| extents.width), Some(3));
}

#[test]
fn boxed_font_functions_are_called() {
    let file = static_file();
    let font = FontRef { data: &file, index: 0 };
    let data = data_of(&file);
    let funcs = Arc::new(Monospace { advance: 5 });
    let builder: ShaperBuilder<'_, Engine, Monospace> =
        data.shaper(&font).font_funcs_boxed(funcs.clone());
    let shaper = builder.build();
    assert_eq!(shaper.glyph_v_advance(1), -5);
    assert_eq!(funcs.advance, 5);
}

#[test]
fn single_glyphs_follow_the_run() {
    let file = static_file();
    let font = FontRef { data: &file, index: 0 };
    let data = data_of(&file);
    let shaper = data.shaper(&font).build();
    let funcs = Monospace { advance: 5 };
    // The advance is overridden, and that of a run is not.
    assert_eq!(funcs.glyph_h_advance(&shaper.face, 4), -5);
    let mut positions = vec![position(0, 0, 0, 0)];
    funcs.glyph_h_advances(&shaper.face, &infos(&[4]), &mut positions);
    assert_eq!(funcs.single_h_advance(&shaper.face, 4), positions[0].x_advance);
    assert_eq!(funcs.single_v_advance(&shaper.face, 4), funcs.glyph_v_advance(&shaper.face, 4));
    assert_eq!(funcs.single_h_origin(&shaper.face, 4), Ok((4, 40)));
    assert_eq!(funcs.single_v_origin(&shaper.face, 9), Err(()));
    assert_eq!(funcs.glyph_h_origin(&shaper.face, 4), Ok((4, 40)));
    assert_eq!(funcs.glyph_v_origin(&shaper.face, 4), Ok((4, 1040)));
    assert_eq!(funcs.glyph_h_origin(&shaper.face, 9), Err(()));
    assert_eq!(funcs.glyph_v_origin(&shaper.face, 9), Err(()));
}

// Characters, layout tables and shaping.

#[test]
fn characters_have_glyphs() {
    let file = static_file();
    let font = FontRef { data: &file, index: 0 };
    let data = data_of(&file);
    let shaper = data.shaper(&font).build();
    assert!(shaper.has_glyph('c' as u32));
    assert!(!shaper.has_glyph('C' as u32));
    assert_eq!(shaper.get_nominal_glyph('c' as u32), Some(2));
    assert_eq!(shaper.get_nominal_glyph('C' as u32), None);
    assert_eq!(shaper.get_nominal_variant_glyph('c' as u32, 10), Some(12));
    assert_eq!(shaper.get_nominal_variant_glyph('C' as u32, 10), None);
}

#[test]
fn layout_tables_come_in_order() {
    let file = variable_file();
    let font = FontRef { data: &file, index: 0 };
    let data = data_of(&file);
    let shaper = data.shaper(&font).build();
    let tables = shaper.layout_tables();
    assert_eq!(tables.len(), 2);
    assert!(matches!(tables[0], (TableIndex::GSUB, LayoutTable::Gsub(data)) if data[0] == 7));
    assert!(matches!(tables[1], (TableIndex::GPOS, LayoutTable::Gpos(data)) if data[0] == 8));

    let file = font_file(&[header(1000, 3, 2, 0, 0, 800, -200), (b"GPOS", layout_table(8))]);
    let font = FontRef { data: &file, index: 0 };
    let data = data_of(&file);
    let shaper = data.shaper(&font).build();
    assert!(shaper.layout_table(TableIndex::GSUB).is_none());
    assert!(matches!(shaper.layout_table(TableIndex::GPOS), Some(LayoutTable::Gpos(_))));
    let tables = shaper.layout_tables();
    assert_eq!(tables.len(), 1);
    assert_eq!(tables[0].0, TableIndex::GPOS);

    let file = static_file();
    let font = FontRef { data: &file, index: 0 };
    let data = data_of(&file);
    assert!(data.shaper(&font).build().layout_tables().is_empty());
}

fn text(direction: Direction, script: Option<Script>, content: &[&str]) -> UnicodeBuffer<Engine> {
    UnicodeBuffer(Buffer {
        direction,
        script,
        language: Some(Language("de".to_string())),
        content: content.iter().map(|part| part.to_string()).collect(),
    })
}

#[test]
fn shaping_plans_and_runs_the_engine() {
    let file = variable_file();
    let font = FontRef { data: &file, index: 0 };
    let data = data_of(&file);
    let instance = ShaperInstance::from_coords::<Engine>(&font, &[HALF, ONE]);
    let shaper = data.shaper(&font).instance(Some(&instance)).build();
    let feature = Feature { tag: tag(b"kern"), value: 0, start: 0, end: u32::MAX };
    let GlyphBuffer(shaped) =
        shaper.shape(text(Direction::RightToLeft, Some(5), &["abc"]), &[feature]);
    assert_eq!(
        shaped.content,
        vec![
            "abc",
            "enter",
            "shape [1000 RightToLeft Some(5) Some(\"de\") 1] RightToLeft 1 2",
            "leave"
        ]
    );
    assert_eq!(shaped.direction, Direction::RightToLeft);
    assert_eq!(shaped.script, Some(5));
    assert_eq!(shaped.language.unwrap().0, "de");
}

#[test]
fn shaping_with_a_plan_is_shaping() {
    let file = static_file();
    let font = FontRef { data: &file, index: 0 };
    let data = data_of(&file);
    let shaper = data.shaper(&font).build();
    let language = Language("de".to_string());
    let plan: ShapePlan<Engine> =
        ShapePlan::new(&shaper, Direction::LeftToRight, Some(5), Some(&language), &[]);
    assert_eq!(plan.direction, Direction::LeftToRight);
    assert_eq!(plan.script, Some(5));
    let by_plan = shaper.shape_with_plan(&plan, text(Direction::LeftToRight, Some(5), &["x"]), &[]);
    let direct = shaper.shape(text(Direction::LeftToRight, Some(5), &["x"]), &[]);
    assert_eq!(by_plan.0.content, direct.0.content);
}

#[test]
fn unset_script_matches_the_unknown_one() {
    let file = static_file();
    let font = FontRef { data: &file, index: 0 };
    let data = data_of(&file);
    let shaper = data.shaper(&font).build();
    let plan: ShapePlan<Engine> =
        ShapePlan::new(&shaper, Direction::LeftToRight, Some(UNKNOWN), None, &[]);
    let shaped = shaper.shape_with_plan(&plan, text(Direction::LeftToRight, None, &["x"]), &[]);
    assert_eq!(shaped.0.script, None);
    assert_eq!(shaped.0.content.len(), 4);
    assert_eq!(UNKNOWN.to_be_bytes(), *b"Zzzz");
}

#[test]
fn empty_text_is_not_shaped() {
    let file = static_file();
    let font = FontRef { data: &file, index: 0 };
    let data = data_of(&file);
    let shaper = data.shaper(&font).build();
    let shaped = shaper.shape(text(Direction::LeftToRight, None, &[]), &[]);
    assert_eq!(shaped.0.content, vec!["leave"]);
}

// Metrics.

#[test]
fn advances_come_from_the_metrics_table() {
    let file = static_file();
    let font = FontRef { data: &file, index: 0 };
    let data = data_of(&file);
    let shaper = data.shaper(&font).build();
    let mut positions = vec![position(1, 2, 3, 4); 4];
    shaper.glyph_h_advances(&infos(&[0, 1, 2, 70000]), &mut positions);
    let advances: Vec<i32> = positions.iter().map(|p| p.x_advance).collect();
    assert_eq!(advances, vec![500, 600, 600, 600]);
    assert!(positions.iter().all(|p| (p.y_advance, p.x_offset, p.y_offset) == (2, 3, 4)));
    for (glyph, advance) in [(0, 500), (1, 600), (2, 600)] {
        assert_eq!(shaper.glyph_h_advance(glyph), advance);
    }
}

#[test]
fn runs_and_positions_of_different_lengths() {
    let file = static_file();
    let font = FontRef { data: &file, index: 0 };
    let data = data_of(&file);
    let shaper = data.shaper(&font).build();
    let mut positions = vec![position(1, 2, 3, 4); 2];
    shaper.glyph_h_advances(&infos(&[0]), &mut positions);
    assert_eq!(positions, vec![position(500, 2, 3, 4), position(1, 2, 3, 4)]);
    shaper.glyph_v_advances(&infos(&[0, 0, 0]), &mut positions);
    assert_eq!(positions, vec![position(500, -1000, 3, 4), position(1, -1000, 3, 4)]);
    assert_eq!(shaper.glyph_v_origins(&infos(&[0]), &mut positions), Ok(()));
    assert_eq!(positions, vec![position(500, -1000, 250, 800), position(1, -1000, 3, 4)]);
    assert_eq!(shaper.glyph_h_origins(&[], &mut positions), Ok(()));
    assert_eq!(positions, vec![position(500, -1000, 0, 0), position(1, -1000, 0, 0)]);
}

#[test]
fn advances_without_a_metrics_table() {
    let file = font_file(&[header(1001, 3, 0, 0, 0, 800, -200)]);
    let font = FontRef { data: &file, index: 0 };
    let data = data_of(&file);
    let shaper = data.shaper(&font).build();
    assert_eq!(shaper.glyph_h_advance(2), 500);
    assert_eq!(shaper.glyph_h_advance(3), 0);
    assert_eq!(shaper.glyph_v_advance(3), -1000);
}

#[test]
fn metrics_table_that_is_too_short_has_no_metrics() {
    let file = font_file(&[header(1000, 3, 9, 9, 0, 800, -200), (b"hmtx", metrics())]);
    let font = FontRef { data: &file, index: 0 };
    let data = data_of(&file);
    let shaper = data.shaper(&font).build();
    assert_eq!(shaper.glyph_h_advance(0), 500);
    let metrics = GlyphMetrics::new(&font, &data.table_ranges);
    assert!(metrics.h_metrics.is_empty());
    assert_eq!(metrics._left_side_bearing(0, &[]), Some(0));
}

#[test]
fn vertical_advances_come_from_the_vertical_metrics() {
    let file = font_file(&[header(1000, 3, 2, 2, 0, 800, -200), (b"vmtx", metrics())]);
    let font = FontRef { data: &file, index: 0 };
    let data = data_of(&file);
    let shaper = data.shaper(&font).build();
    assert_eq!(shaper.glyph_v_advance(0), -500);
    assert_eq!(shaper.glyph_v_advance(2), -600);
}

#[test]
fn side_bearings_come_from_the_metrics_tables() {
    let file = font_file(&[
        header(1000, 3, 2, 2, 0, 800, -200),
        (b"hmtx", metrics()),
        (b"vmtx", metrics()),
    ]);
    let font = FontRef { data: &file, index: 0 };
    let metrics = GlyphMetrics::new(&font, &data_of(&file).table_ranges);
    for (glyph, bearing) in [(0, 10), (1, -20), (2, 30), (3, 0)] {
        assert_eq!(metrics._left_side_bearing(glyph, &[]), Some(bearing));
        assert_eq!(metrics.top_side_bearing(glyph, &[]), Some(bearing));
    }
}

#[test]
fn side_bearings_without_metrics_tables() {
    let file = font_file(
        &[vec![header(1000, 3, 0, 0, 0, 800, -200)], outlines().to_vec()].concat(),
    );
    let font = FontRef { data: &file, index: 0 };
    let metrics = GlyphMetrics::new(&font, &data_of(&file).table_ranges);
    assert_eq!(metrics._left_side_bearing(0, &[]), Some(-5));
    assert_eq!(metrics._left_side_bearing(1, &[]), Some(0));
    assert_eq!(metrics._left_side_bearing(2, &[]), None);
    assert_eq!(metrics.top_side_bearing(0, &[]), None);
}

#[test]
fn extents_come_from_the_outlines() {
    let file = font_file(
        &[vec![header(1000, 3, 0, 0, 0, 800, -200)], outlines().to_vec()].concat(),
    );
    let font = FontRef { data: &file, index: 0 };
    let data = data_of(&file);
    let shaper = data.shaper(&font).build();
    assert_eq!(
        shaper.glyph_extents(0),
        Some(hb_glyph_extents_t { x_bearing: -5, y_bearing: 700, width: 405, height: -900 })
    );
    // A glyph that draws nothing, an outline that is cut off, and a glyph that is not there.
    assert_eq!(shaper.glyph_extents(1), Some(hb_glyph_extents_t::default()));
    assert_eq!(shaper.glyph_extents(2), None);
    assert_eq!(shaper.glyph_extents(3), None);

    let metrics = GlyphMetrics::new(&font, &data.table_ranges);
    assert_eq!(
        metrics.extents(0, &[]),
        Some(BoundingBox { x_min: -5, y_min: -200, x_max: 400, y_max: 700 })
    );
    // An outline that varies has no extents; a glyph that draws nothing has.
    assert_eq!(metrics.extents(0, &at_one()), None);
    assert_eq!(metrics.extents(1, &at_one()), Some(BoundingBox::default()));
}

#[test]
fn long_outline_index() {
    let glyf = concat(&[outline(-5, -200, 400, 700), i16s(&[1, 0])]);
    let file = font_file(&[
        header(1000, 3, 0, 0, 1, 800, -200),
        (b"loca", u32s(&[0, 16, 16])),
        (b"glyf", glyf),
    ]);
    let font = FontRef { data: &file, index: 0 };
    let metrics = GlyphMetrics::new(&font, &data_of(&file).table_ranges);
    assert_eq!(metrics.extents(0, &[]).map(|bounds| bounds.x_max), Some(400));
    assert_eq!(metrics.extents(1, &[]), Some(BoundingBox::default()));
}

#[test]
fn outline_index_of_odd_length_counts_as_none() {
    let [(_, _), (_, glyf)] = outlines();
    let file = font_file(&[
        header(1000, 3, 0, 0, 0, 800, -200),
        (b"loca", vec![0, 0, 0, 8, 0]),
        (b"glyf", glyf),
    ]);
    let font = FontRef { data: &file, index: 0 };
    let metrics = GlyphMetrics::new(&font, &data_of(&file).table_ranges);
    assert!(metrics.glyf.is_none());
    assert_eq!(metrics.extents(0, &[]), None);
}

#[test]
fn variation_tables_that_are_too_short_count_as_none() {
    let file = font_file(&[
        header(1000, 3, 2, 2, 0, 800, -200),
        (b"HVAR", vec![0; 19]),
        (b"VVAR", vec![0; 23]),
        (b"VORG", vec![0; 7]),
        (b"MVAR", vec![0; 11]),
    ]);
    let font = FontRef { data: &file, index: 0 };
    let metrics = GlyphMetrics::new(&font, &data_of(&file).table_ranges);
    assert!(metrics.hvar.is_none());
    assert!(metrics.vvar.is_none());
    assert!(metrics.vorg.is_none());
    assert!(metrics.mvar.is_none());
}

/// A one axis font with the given tables, besides both metrics tables.
fn varying(tables: &[Table]) -> Vec<u8> {
    font_file(
        &[
            vec![
                header(1000, 3, 2, 2, 0, 800, -200),
                (b"hmtx", metrics()),
                (b"vmtx", metrics()),
            ],
            tables.to_vec(),
        ]
        .concat(),
    )
}

/// The font functions of a file, and its face at the given location.
fn functions<'a>(
    file: &'a [u8],
    coords: &'a [NormalizedCoord],
) -> (OtFontFuncs<'a>, Face<'a>) {
    let font = FontRef { data: file, index: 0 };
    let funcs = OtFontFuncs::new(&font, &data_of(file));
    (funcs, Face { font, units_per_em: 1000, points_per_em: None, coords })
}

#[test]
fn advance_widths_vary() {
    let file = varying(&[(b"HVAR", hvar(&[100, -31], &[]))]);
    let (funcs, face) = functions(&file, &[ONE]);
    assert_eq!(funcs.glyph_h_advance(&face, 0), 600);
    assert_eq!(funcs.glyph_h_advance(&face, 1), 569);
    let (funcs, face) = functions(&file, &[HALF]);
    assert_eq!(funcs.glyph_h_advance(&face, 0), 550);
    // -15.5 is rounded up.
    assert_eq!(funcs.glyph_h_advance(&face, 1), 585);
    let (funcs, face) = functions(&file, &[]);
    assert_eq!(funcs.glyph_h_advance(&face, 0), 500);
}

#[test]
fn left_bearings_vary() {
    let file = varying(&[(b"HVAR", hvar(&[100], &[8]))]);
    let font = FontRef { data: &file, index: 0 };
    let metrics = GlyphMetrics::new(&font, &data_of(&file).table_ranges);
    assert_eq!(metrics._left_side_bearing(0, &[ONE]), Some(18));
    assert_eq!(metrics._left_side_bearing(0, &[]), Some(10));
}

#[test]
fn vertical_metrics_vary() {
    let file = varying(&[(b"VVAR", vvar(&[90], &[12], &[5]))]);
    let (funcs, face) = functions(&file, &[ONE]);
    assert_eq!(funcs.glyph_v_advance(&face, 0), -590);
    assert_eq!(funcs.0.top_side_bearing(0, &[ONE]), Some(22));
    let (funcs, face) = functions(&file, &[]);
    assert_eq!(funcs.glyph_v_advance(&face, 0), -500);
    assert_eq!(funcs.0.top_side_bearing(0, &[]), Some(10));
}

#[test]
fn phantom_points_vary_metrics() {
    let file = varying(&[outlines().to_vec(), vec![(b"gvar", gvar())]].concat());
    let (funcs, face) = functions(&file, &[ONE]);
    // 500 + (40 - 3)
    assert_eq!(funcs.glyph_h_advance(&face, 0), 537);
    // -500 - (-6 - 70)
    assert_eq!(funcs.glyph_v_advance(&face, 0), -424);
    assert_eq!(funcs.0._left_side_bearing(0, &[ONE]), Some(13));
    assert_eq!(funcs.0.top_side_bearing(0, &[ONE]), Some(4));
    let deltas = funcs.0.phantom_deltas(0, &[ONE]).unwrap();
    assert_eq!((deltas[0].x, deltas[1].x), (fixed(3), fixed(40)));
    assert_eq!((deltas[2].y, deltas[3].y), (fixed(70), fixed(-6)));
    let (funcs, face) = functions(&file, &[]);
    assert_eq!(funcs.glyph_h_advance(&face, 0), 500);
}

#[test]
fn metrics_variations_are_preferred_to_phantom_points() {
    let file = varying(
        &[
            outlines().to_vec(),
            vec![(b"gvar", gvar()), (b"HVAR", hvar(&[100], &[])), (b"VVAR", vvar(&[9], &[1], &[1]))],
        ]
        .concat(),
    );
    let (funcs, face) = functions(&file, &[ONE]);
    assert_eq!(funcs.glyph_h_advance(&face, 0), 600);
    assert_eq!(funcs.glyph_v_advance(&face, 0), -509);
}

#[test]
fn vertical_origins_come_from_their_table() {
    let file = varying(&[(b"VORG", vorg(880, &[(0, 700), (2, -30)]))]);
    let (funcs, face) = functions(&file, &[]);
    assert_eq!(funcs.glyph_v_origin(&face, 0), Ok((250, 700)));
    assert_eq!(funcs.glyph_v_origin(&face, 1), Ok((300, 880)));
    assert_eq!(funcs.glyph_v_origin(&face, 2), Ok((300, -30)));
}

#[test]
fn vertical_origins_from_their_table_vary() {
    let file = varying(
        &[(b"VORG", vorg(880, &[(0, 700)])), (b"VVAR", vvar(&[90], &[12], &[5]))],
    );
    let (funcs, face) = functions(&file, &[ONE]);
    assert_eq!(funcs.glyph_v_origin(&face, 0), Ok((250, 705)));
    let (funcs, face) = functions(&file, &[]);
    assert_eq!(funcs.glyph_v_origin(&face, 0), Ok((250, 700)));
}

#[test]
fn vertical_origins_from_bearings() {
    let file = varying(&outlines());
    let (funcs, face) = functions(&file, &[]);
    // 700 + 10
    assert_eq!(funcs.glyph_v_origin(&face, 0), Ok((250, 710)));
    // A glyph that draws nothing: 0 - 20
    assert_eq!(funcs.glyph_v_origin(&face, 1), Ok((300, -20)));
    // No extents: the ascent.
    assert_eq!(funcs.glyph_v_origin(&face, 2), Ok((300, 800)));
}

#[test]
fn vertical_origins_from_bearings_vary() {
    let file = varying(
        &[outlines().to_vec(), vec![(b"VVAR", vvar(&[90, 0], &[12, 7], &[5, 3]))]].concat(),
    );
    let (funcs, face) = functions(&file, &[ONE]);
    // Glyph 1 draws nothing, so it has extents at every location: 0 + (-20 + 7) + 3
    assert_eq!(funcs.glyph_v_origin(&face, 1), Ok((300, -10)));
    // The outline of glyph 0 varies, so it has none: the ascent.
    assert_eq!(funcs.glyph_v_origin(&face, 0), Ok((250, 800)));
}

#[test]
fn vertical_origins_center_the_outline() {
    let tables = |descent: i16, more: &[Table]| {
        font_file(
            &[
                vec![header(1000, 3, 2, 0, 0, 800, descent), (b"hmtx", metrics())],
                outlines().to_vec(),
                more.to_vec(),
            ]
            .concat(),
        )
    };
    let file = tables(-200, &[]);
    let (funcs, face) = functions(&file, &[]);
    // 700 + (1000 - 900) / 2
    assert_eq!(funcs.glyph_v_origin(&face, 0), Ok((250, 750)));
    assert_eq!(funcs.glyph_v_origin(&face, 1), Ok((300, 500)));
    // The outline is higher than the font by 99: half of that is rounded away from zero.
    let file = tables(-1, &[]);
    let (funcs, face) = functions(&file, &[]);
    assert_eq!(funcs.glyph_v_origin(&face, 0), Ok((250, 650)));
    // The height of the font varies by 60 - (-20), but not at the default location.
    let file = tables(-200, &[(b"MVAR", mvar(60, -20))]);
    let (funcs, face) = functions(&file, &[]);
    assert_eq!(funcs.glyph_v_origin(&face, 0), Ok((250, 750)));
    assert_eq!(funcs.glyph_v_origin(&face, 2), Ok((300, 800)));
    let (funcs, face) = functions(&file, &[ONE]);
    assert_eq!(funcs.glyph_v_origin(&face, 1), Ok((300, 540)));
    // Without extents it is the ascent, which varies by 60.
    assert_eq!(funcs.glyph_v_origin(&face, 0), Ok((250, 860)));
}

#[test]
fn middle_of_an_advance_is_rounded_toward_zero() {
    let file = font_file(&[
        header(1000, 3, 2, 0, 0, 800, -200),
        (b"hmtx", concat(&[u16s(&[501]), i16s(&[0]), u16s(&[2]), i16s(&[0])])),
        (b"HVAR", hvar(&[0, -5], &[])),
    ]);
    let (funcs, face) = functions(&file, &[ONE]);
    assert_eq!(funcs.glyph_v_origin(&face, 0), Ok((250, 800)));
    // The advance is -3.
    assert_eq!(funcs.glyph_v_origin(&face, 1), Ok((-1, 800)));
}

#[test]
fn default_functions_have_default_horizontal_origins() {
    let file = static_file();
    let font = FontRef { data: &file, index: 0 };
    let data = data_of(&file);
    let shaper = data.shaper(&font).build();
    assert!(!shaper.non_default_h_origins());
    let mut positions = vec![position(1, 2, 3, 4); 2];
    assert_eq!(shaper.glyph_h_origins(&infos(&[0, 1]), &mut positions), Ok(()));
    assert_eq!(positions, vec![position(1, 2, 0, 0); 2]);
}

// Moving glyphs by their origins.

#[test]
fn horizontal_default_origins_move_nothing() {
    let file = static_file();
    let font = FontRef { data: &file, index: 0 };
    let data = data_of(&file);
    let shaper = data.shaper(&font).build();
    let glyphs = infos(&[0; 40]);
    let mut positions = vec![position(1, 2, 3, 4); 40];
    shaper.apply_glyph_origins_with_fallback::<false>(&glyphs, &mut positions, 1);
    assert_eq!(positions, vec![position(1, 2, 3, 4); 40]);
}

#[test]
fn vertical_origins_move_forth_and_back() {
    let file = static_file();
    let font = FontRef { data: &file, index: 0 };
    let data = data_of(&file);
    let shaper = data.shaper(&font).build();
    let glyphs: Vec<GlyphInfo> = infos(&(0..70).map(|i| i % 2).collect::<Vec<u32>>());
    let mut positions = vec![position(1, 2, 3, 4); 71];
    shaper.apply_glyph_origins_with_fallback::<true>(&glyphs, &mut positions, 1);
    assert_eq!(positions[0], position(1, 2, 253, 804));
    assert_eq!(positions[69], position(1, 2, 303, 804));
    assert_eq!(positions[70], position(1, 2, 3, 4));
    shaper.apply_glyph_origins_with_fallback::<true>(&glyphs, &mut positions, -1);
    assert_eq!(positions, vec![position(1, 2, 3, 4); 71]);
    shaper.apply_glyph_origins_with_fallback::<true>(&glyphs, &mut positions, -1);
    assert_eq!(positions[0], position(1, 2, -247, -796));
    shaper.apply_glyph_origins_with_fallback::<true>(&glyphs, &mut positions, 1);
    assert_eq!(positions, vec![position(1, 2, 3, 4); 71]);

    // The same holds of custom functions that give each glyph its own origin.
    let shaper = data.shaper(&font).font_funcs(Monospace { advance: 5 }).build();
    shaper.apply_glyph_origins_with_fallback::<false>(&glyphs, &mut positions, -1);
    assert_eq!(positions[69], position(1, 2, 2, -6));
    shaper.apply_glyph_origins_with_fallback::<false>(&glyphs, &mut positions, 1);
    assert_eq!(positions, vec![position(1, 2, 3, 4); 71]);
}

#[test]
fn glyphs_far_out_are_moved() {
    let file = static_file();
    let font = FontRef { data: &file, index: 0 };
    let data = data_of(&file);
    let shaper = data.shaper(&font).build();
    let mut positions = vec![position(0, 0, 0x7ff0_0000, -0x7ff0_0000)];
    shaper.apply_glyph_origins_with_fallback::<true>(&infos(&[0]), &mut positions, 1);
    assert_eq!(positions, vec![position(0, 0, 0x7ff0_0000 + 250, -0x7ff0_0000 + 800)]);
}

#[test]
fn failed_chunks_move_by_what_was_left() {
    let file = static_file();
    let font = FontRef { data: &file, index: 0 };
    let data = data_of(&file);
    let shaper = data.shaper(&font).font_funcs(Monospace { advance: 5 }).build();
    // The first chunk of 32 succeeds; in the second the third glyph fails.
    let mut ids = vec![1; 32];
    ids.extend([2, 3, 9, 4]);
    let mut positions = vec![position(0, 0, 100, 1000); 36];
    shaper.apply_glyph_origins_with_fallback::<false>(&infos(&ids), &mut positions, 1);
    assert_eq!(positions[31], position(0, 0, 101, 1010));
    assert_eq!(positions[32], position(0, 0, 102, 1020));
    assert_eq!(positions[33], position(0, 0, 103, 1030));
    // These were not retrieved: the scratch space still held the origins of the first chunk.
    assert_eq!(positions[34], position(0, 0, 101, 1010));
    assert_eq!(positions[35], position(0, 0, 101, 1010));
}

#[test]
fn no_glyphs_are_not_moved() {
    let file = static_file();
    let font = FontRef { data: &file, index: 0 };
    let data = data_of(&file);
    let shaper = data.shaper(&font).build();
    let mut positions = vec![position(1, 2, 3, 4)];
    shaper.apply_glyph_origins_with_fallback::<true>(&[], &mut positions, 7);
    assert_eq!(positions, vec![position(1, 2, 3, 4)]);
}

#[test]
fn origins_in_a_run_are_those_of_the_glyphs() {
    let file = varying(&outlines());
    let (funcs, face) = functions(&file, &[]);
    let mut positions = vec![position(1, 2, 3, 4); 3];
    assert_eq!(funcs.glyph_v_origins(&face, &infos(&[0, 1, 2]), &mut positions), Ok(()));
    for (glyph, position) in positions.iter().enumerate() {
        let alone = funcs.glyph_v_origin(&face, glyph as u32);
        assert_eq!(alone, Ok((position.x_offset, position.y_offset)));
        assert!(funcs.glyph_v_advance(&face, glyph as u32) <= 0);
    }
}

// Synthetic font functions over the metrics tables.

#[test]
fn slanted_origins_of_a_font_are_default_ones() {
    let file = varying(&outlines());
    let (funcs, face) = functions(&file, &[]);
    let slanted = SyntheticFontFuncs::new_slant(funcs, Some(Upright));
    assert_eq!(slanted.glyph_h_origin(&face, 0), Ok((0, 0)));
    assert!(!slanted.non_default_h_origins(&face));
}

#[test]
fn strong_emboldening_fits() {
    let file = varying(&outlines());
    let (funcs, face) = functions(&file, &[]);
    let strength = 0x4000_0000;
    let bold = SyntheticFontFuncs::new_bold(funcs, strength, -strength, false);
    assert_eq!(bold.glyph_h_advance(&face, 0), strength + 500);
    assert_eq!(bold.glyph_v_advance(&face, 0), -strength - 500);
    assert_eq!(bold.glyph_v_origin(&face, 0), Ok((strength + 250, -strength + 710)));
    let extents = bold.glyph_extents(&face, 0).unwrap();
    assert_eq!((extents.width, extents.height), (strength + 405, strength - 900));
}

#[test]
fn emboldened_metrics_of_a_font() {
    let file = varying(&outlines());
    let (funcs, face) = functions(&file, &[]);
    let bold = SyntheticFontFuncs::new_bold(funcs, 20, 31, false);
    assert_eq!(bold.glyph_h_advance(&face, 0), 520);
    assert_eq!(bold.glyph_v_advance(&face, 0), -469);
    assert_eq!(bold.glyph_h_origin(&face, 0), Ok((20, 31)));
    assert_eq!(bold.glyph_v_origin(&face, 0), Ok((270, 741)));
    assert!(bold.non_default_h_origins(&face));
    assert_eq!(
        bold.glyph_extents(&face, 0),
        Some(hb_glyph_extents_t { x_bearing: -15, y_bearing: 731, width: 425, height: -931 })
    );
    assert_eq!(bold.glyph_extents(&face, 2), None);
}
