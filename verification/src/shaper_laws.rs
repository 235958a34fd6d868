//! What a shaper does with its font, its font functions and the layout engine.
//!
//! Every law here starts from a call of a public function, and says which calls its result comes from, or
//! what the font file says of it.
use vstd::prelude::*;

use std::sync::Arc;

use crate::builder::ShaperBuilder;
use crate::engine::{
    Buffer, Direction, Feature, GlyphBuffer, Language, Script, ShapePlan, ShapingEngine,
    UnicodeBuffer,
};
use crate::face::{hb_font_t, Shaper};
use crate::font::{FontRef, LayoutTable, TableIndex};
use crate::font_class::FontClass;
use crate::font_funcs::{Face, FontFuncs, PointSize};
use crate::glyph::{
    hb_glyph_extents_t, BoundingBox, GlyphExtents, GlyphId, GlyphInfo, GlyphPosition,
    NormalizedCoord,
};
use crate::glyph_metrics::GlyphMetrics;
use crate::glyph_origins;
use crate::glyph_origins::move_chunk;
use crate::instance::ShaperInstance;
use crate::laws;
use crate::metrics_laws;
use crate::ot_font_funcs::OtFontFuncs;
use crate::shaper_data::ShaperData;
use crate::synthetic::{Slant, SyntheticFontFuncs};

verus! {

/// Whether a run of text comes out of the layout engine like this: it is entered; unless it is then of
/// length zero it is shaped by the plan, in its own direction; and it is left.
pub open spec fn goes_through_the_engine<E: ShapingEngine, F: FontFuncs>(
    shaper: &Shaper<'_, E, F>,
    plan: &ShapePlan<E>,
    text: Buffer<E>,
    features: &[Feature],
    glyphs: Buffer<E>,
) -> bool {
    exists|entered: E::Content, len: usize|
        {
            &&& #[trigger] call_ensures(E::enter, (text.content,), entered)
            &&& #[trigger] call_ensures(E::len, (&entered,), len)
            &&& len != 0 ==> exists|run: Buffer<E>|
                {
                    &&& #[trigger] call_ensures(
                        E::shape_internal::<F>,
                        (
                            shaper,
                            plan,
                            (Buffer {
                                direction: text.direction,
                                script: text.script,
                                language: text.language,
                                content: entered,
                            }),
                            text.direction,
                            features,
                        ),
                        run,
                    )
                    &&& glyphs.direction == run.direction
                    &&& glyphs.script == run.script
                    &&& glyphs.language == run.language
                    &&& call_ensures(E::leave, (run.content,), glyphs.content)
                }
            &&& len == 0 ==> {
                &&& glyphs.direction == text.direction
                &&& glyphs.script == text.script
                &&& glyphs.language == text.language
                &&& call_ensures(E::leave, (entered,), glyphs.content)
            }
        }
}

/// Text that is not empty is shaped by the layout engine, and all of it is entered and left.
pub proof fn text_is_shaped_with_a_plan<E: ShapingEngine, F: FontFuncs>(
    shaper: &Shaper<'_, E, F>,
    plan: &ShapePlan<E>,
    text: UnicodeBuffer<E>,
    features: &[Feature],
    glyphs: GlyphBuffer<E>,
)
    requires
        call_ensures(hb_font_t::<'_, E, F>::shape_with_plan, (shaper, plan, text, features), glyphs),
    ensures
        goes_through_the_engine(shaper, plan, text.0, features, glyphs.0),
{
    let (entered, len) = choose|entered: E::Content, len: usize|
        {
            &&& #[trigger] call_ensures(E::enter, (text.0.content,), entered)
            &&& #[trigger] call_ensures(E::len, (&entered,), len)
            &&& if len > 0 {
                exists|run: Buffer<E>|
                    {
                        &&& #[trigger] call_ensures(
                            E::shape_internal::<F>,
                            (
                                shaper,
                                plan,
                                Buffer { content: entered, ..text.0 },
                                text.0.direction,
                                features,
                            ),
                            run,
                        )
                        &&& call_ensures(E::leave, (run.content,), glyphs.0.content)
                        &&& glyphs.0 == (Buffer { content: glyphs.0.content, ..run })
                    }
            } else {
                &&& call_ensures(E::leave, (entered,), glyphs.0.content)
                &&& glyphs.0 == (Buffer { content: glyphs.0.content, ..text.0 })
            }
        };
    assert(call_ensures(E::len, (&entered,), len));
}

/// A plan that has the direction of a text and its script can be used for it; a script that is not set
/// counts as `Zzzz`.
pub proof fn matching_plans_can_be_used<E: ShapingEngine, F: FontFuncs>(
    shaper: &Shaper<'_, E, F>,
    plan: &ShapePlan<E>,
    text: UnicodeBuffer<E>,
    features: &[Feature],
)
    requires
        text.0.direction == plan.direction,
        (match text.0.script {
            Some(script) => script,
            None => 0x5a7a_7a7a,
        }) == (match plan.script {
            Some(script) => script,
            None => 0x5a7a_7a7a,
        }),
    ensures
        call_requires(hb_font_t::<'_, E, F>::shape_with_plan, (shaper, plan, text, features)),
{
}

/// A plan keeps the direction and script that it is for; the layout engine makes it.
pub proof fn plans_are_made_by_the_engine<E: ShapingEngine, F: FontFuncs>(
    shaper: &Shaper<'_, E, F>,
    direction: Direction,
    script: Option<Script>,
    language: Option<&Language>,
    features: &[Feature],
    plan: ShapePlan<E>,
)
    requires
        call_ensures(
            ShapePlan::<E>::new::<F>,
            (shaper, direction, script, language, features),
            plan,
        ),
    ensures
        plan.direction == direction,
        plan.script == script,
        call_ensures(E::plan::<F>, (shaper, direction, script, language, features), plan.plan),
{
}

/// Text that is not empty is shaped by a plan that the layout engine makes for its direction, script and
/// language and for the features, and all of it is entered and left.
pub proof fn text_is_shaped<E: ShapingEngine, F: FontFuncs>(
    shaper: &Shaper<'_, E, F>,
    text: UnicodeBuffer<E>,
    features: &[Feature],
    glyphs: GlyphBuffer<E>,
)
    requires
        call_ensures(hb_font_t::<'_, E, F>::shape, (shaper, text, features), glyphs),
    ensures
        exists|plan: ShapePlan<E>, language: Option<&Language>|
            {
                &&& plan.direction == text.0.direction
                &&& plan.script == text.0.script
                &&& language is Some <==> text.0.language is Some
                &&& language is Some ==> *language->0 == text.0.language->0
                &&& #[trigger] call_ensures(
                    E::plan::<F>,
                    (shaper, text.0.direction, text.0.script, language, features),
                    plan.plan,
                )
                &&& #[trigger] goes_through_the_engine(
                    shaper,
                    &plan,
                    text.0,
                    features,
                    glyphs.0,
                )
            },
{
    let plan = choose|plan: ShapePlan<E>|
        {
            &&& #[trigger] plan.is_for(
                shaper,
                text.0.direction,
                text.0.script,
                text.0.language,
                features,
            )
            &&& shaper.shapes(&plan, text.0, features, glyphs.0)
        };
    assert(goes_through_the_engine(shaper, &plan, text.0, features, glyphs.0)) by {
        let (entered, len) = choose|entered: E::Content, len: usize|
            {
                &&& #[trigger] call_ensures(E::enter, (text.0.content,), entered)
                &&& #[trigger] call_ensures(E::len, (&entered,), len)
                &&& if len > 0 {
                    exists|run: Buffer<E>|
                        {
                            &&& #[trigger] call_ensures(
                                E::shape_internal::<F>,
                                (
                                    shaper,
                                    &plan,
                                    Buffer { content: entered, ..text.0 },
                                    text.0.direction,
                                    features,
                                ),
                                run,
                            )
                            &&& call_ensures(E::leave, (run.content,), glyphs.0.content)
                            &&& glyphs.0 == (Buffer { content: glyphs.0.content, ..run })
                        }
                } else {
                    &&& call_ensures(E::leave, (entered,), glyphs.0.content)
                    &&& glyphs.0 == (Buffer { content: glyphs.0.content, ..text.0 })
                }
            };
        assert(call_ensures(E::len, (&entered,), len));
    }
}

/// A character has the glyph that the layout engine maps it to, and is in the font if there is one.
pub proof fn characters_are_mapped_by_the_engine<E: ShapingEngine, F: FontFuncs>(
    shaper: &Shaper<'_, E, F>,
    c: u32,
    vs: u32,
    has: bool,
    glyph: Option<GlyphId>,
    variant: Option<GlyphId>,
)
    requires
        call_ensures(hb_font_t::<'_, E, F>::has_glyph, (shaper, c), has),
        call_ensures(hb_font_t::<'_, E, F>::get_nominal_glyph, (shaper, c), glyph),
        call_ensures(
            hb_font_t::<'_, E, F>::get_nominal_variant_glyph,
            (shaper, c, vs),
            variant,
        ),
    ensures
        exists|mapped: Option<GlyphId>| #[trigger]
            call_ensures(E::map, (&shaper.charmap, c), mapped) && (has <==> mapped is Some),
        call_ensures(E::map, (&shaper.charmap, c), glyph),
        call_ensures(E::map_variant, (&shaper.charmap, c, vs), variant),
{
}

/// The names of glyphs are those that the layout engine reads from the font of the shaper.
pub proof fn glyph_names_are_read_by_the_engine<'a, E: ShapingEngine, F: FontFuncs>(
    shaper: &Shaper<'a, E, F>,
    names: E::GlyphNames<'a>,
)
    requires
        call_ensures(hb_font_t::<'a, E, F>::glyph_names, (shaper,), names),
    ensures
        call_ensures(E::glyph_names, (&shaper.face.font,), names),
{
}

/// The layout tables of a shaper are those that it has, substitution before positioning.
pub proof fn layout_tables_are_those_of_the_shaper<'a, E: ShapingEngine, F: FontFuncs>(
    shaper: &Shaper<'a, E, F>,
    gsub: Option<LayoutTable<'a>>,
    gpos: Option<LayoutTable<'a>>,
    tables: Vec<(TableIndex, LayoutTable<'a>)>,
)
    requires
        call_ensures(hb_font_t::<'a, E, F>::layout_table, (shaper, TableIndex::GSUB), gsub),
        call_ensures(hb_font_t::<'a, E, F>::layout_table, (shaper, TableIndex::GPOS), gpos),
        call_ensures(hb_font_t::<'a, E, F>::layout_tables, (shaper,), tables),
    ensures
        match (shaper.ot_tables.gsub, gsub) {
            (Some(data), Some(LayoutTable::Gsub(table))) => table@ == data@,
            (None, None) => true,
            _ => false,
        },
        match (shaper.ot_tables.gpos, gpos) {
            (Some(data), Some(LayoutTable::Gpos(table))) => table@ == data@,
            (None, None) => true,
            _ => false,
        },
        ({
            let first = shaper.ot_tables.gsub;
            let second = shaper.ot_tables.gpos;
            let at = if first is Some {
                1int
            } else {
                0
            };
            &&& tables@.len() == at + (if second is Some {
                1int
            } else {
                0
            })
            &&& first is Some ==> {
                &&& tables@[0].0 == TableIndex::GSUB
                &&& tables@[0].1 is Gsub
                &&& tables@[0].1->Gsub_0@ == first->0@
            }
            &&& second is Some ==> {
                &&& tables@[at].0 == TableIndex::GPOS
                &&& tables@[at].1 is Gpos
                &&& tables@[at].1->Gpos_0@ == second->0@
            }
        }),
{
    let indices = tables@.map_values(|entry: (TableIndex, LayoutTable<'a>)| entry.0);
    assert(indices.len() == tables@.len());
    assert(forall|i: int| 0 <= i < tables@.len() ==> tables@[i].0 == #[trigger] indices[i]);
    if shaper.ot_tables.gsub is Some {
        assert(indices[0] == TableIndex::GSUB);
        if shaper.ot_tables.gpos is Some {
            assert(indices[1] == TableIndex::GPOS);
        }
    } else if shaper.ot_tables.gpos is Some {
        assert(indices[0] == TableIndex::GPOS);
    }
}

/// The data for a font is what the layout engine prepares of it.
pub proof fn data_is_prepared_by_the_engine<E: ShapingEngine>(
    font: &FontRef<'_>,
    data: ShaperData<E>,
)
    requires
        call_ensures(ShaperData::<E>::new, (font,), data),
    ensures
        call_ensures(E::table_ranges, (font,), data.table_ranges),
        call_ensures(E::ot_cache, (font,), data.ot_cache),
        call_ensures(E::aat_cache, (font,), data.aat_cache),
        call_ensures(E::cmap_cache, (), data.cmap_cache),
{
}

/// A builder starts with the data and the font, and nothing else set; each setter sets one thing.
pub proof fn builders_hold_what_was_set<'a, E: ShapingEngine, F: FontFuncs, T: FontFuncs>(
    data: &'a ShaperData<E>,
    font: &FontRef<'a>,
    start: ShaperBuilder<'a, E, OtFontFuncs<'a>>,
    builder: ShaperBuilder<'a, E, F>,
    instance: Option<&'a ShaperInstance>,
    with_instance: ShaperBuilder<'a, E, F>,
    size: Option<PointSize>,
    with_size: ShaperBuilder<'a, E, F>,
    funcs: T,
    with_funcs: ShaperBuilder<'a, E, T>,
    class: Arc<T>,
    with_class: ShaperBuilder<'a, E, T>,
)
    requires
        call_ensures(ShaperData::<E>::shaper, (data, font), start),
        call_ensures(ShaperBuilder::<'a, E, F>::instance, (builder, instance), with_instance),
        call_ensures(ShaperBuilder::<'a, E, F>::point_size, (builder, size), with_size),
        call_ensures(ShaperBuilder::<'a, E, F>::font_funcs::<T>, (builder, funcs), with_funcs),
        call_ensures(ShaperBuilder::<'a, E, F>::font_funcs_boxed::<T>, (builder, class), with_class),
    ensures
        start.data == data,
        start.font == *font,
        start.instance is None,
        start.point_size is None,
        start.class is None,
        with_instance.data == builder.data,
        with_instance.font == builder.font,
        with_instance.instance == instance,
        with_instance.point_size == builder.point_size,
        with_instance.class == builder.class,
        with_size.data == builder.data,
        with_size.font == builder.font,
        with_size.instance == builder.instance,
        with_size.point_size == size,
        with_size.class == builder.class,
        with_funcs.data == builder.data,
        with_funcs.font == builder.font,
        with_funcs.instance == builder.instance,
        with_funcs.point_size == builder.point_size,
        with_funcs.class is Some,
        *with_funcs.class->0 == funcs,
        with_class.data == builder.data,
        with_class.font == builder.font,
        with_class.instance == builder.instance,
        with_class.point_size == builder.point_size,
        with_class.class == Some(class),
{
}

/// Whether these are the coordinates of an optional instance: none without one.
pub open spec fn coords_of(
    instance: Option<&ShaperInstance>,
    coords: Seq<NormalizedCoord>,
) -> bool {
    match instance {
        Some(instance) => coords == instance.coords@,
        None => coords.len() == 0,
    }
}

/// A shaper has the font, the point size, the coordinates and the font functions that its builder has, the
/// units per em of its data, and what the layout engine makes of them. Without an instance there are no
/// coordinates and no feature variations.
pub proof fn shapers_are_what_was_built<'a, E: ShapingEngine, F: FontFuncs>(
    builder: ShaperBuilder<'a, E, F>,
    shaper: &Shaper<'a, E, F>,
    units: i32,
    coords: &'a [NormalizedCoord],
)
    requires
        call_ensures(ShaperBuilder::<'a, E, F>::build, (builder,), *shaper),
        call_ensures(hb_font_t::<'a, E, F>::units_per_em, (shaper,), units),
        call_ensures(hb_font_t::<'a, E, F>::coords, (shaper,), coords),
    ensures
        units == builder.data.table_ranges.units_per_em,
        coords_of(builder.instance, coords@),
        shaper.face.font == builder.font,
        shaper.face.units_per_em == builder.data.table_ranges.units_per_em,
        shaper.face.points_per_em == builder.point_size,
        shaper.face.coords@ == coords@,
        builder.class matches Some(class) ==> shaper.class is Custom && shaper.class->Custom_0
            == class,
        builder.class is None ==> shaper.class is Default,
        call_ensures(
            E::charmap,
            (&builder.font, &builder.data.table_ranges, &builder.data.cmap_cache),
            shaper.charmap,
        ),
        exists|slice: &'a [NormalizedCoord], feature_variations: [Option<u32>; 2]|
            {
                &&& slice@ == coords@
                &&& builder.instance matches Some(instance) ==> feature_variations@
                    == instance.feature_variations@
                &&& builder.instance is None ==> feature_variations@[0] is None
                    && feature_variations@[1] is None
                &&& #[trigger] call_ensures(
                    E::ot_tables,
                    (
                        &builder.font,
                        &builder.data.ot_cache,
                        &builder.data.table_ranges,
                        slice,
                        feature_variations,
                    ),
                    shaper.ot_tables,
                )
            },
        call_ensures(
            E::aat_tables,
            (&builder.font, &builder.data.aat_cache, &builder.data.table_ranges),
            shaper.aat_tables,
        ),
{
}

/// A face has the units per em and the coordinates that it holds.
pub proof fn faces_hold_units_and_coords(face: &Face<'_>, units: i32, coords: &[NormalizedCoord])
    requires
        call_ensures(Face::units_per_em, (face,), units),
        call_ensures(Face::coords, (face,), coords),
    ensures
        units == face.units_per_em,
        coords@ == face.coords@,
{
}

/// A shaper without font functions of its own has those of the font file.
proof fn lemma_default_class<'a, E: ShapingEngine, F: FontFuncs>(
    builder: ShaperBuilder<'a, E, F>,
    shaper: &Shaper<'a, E, F>,
)
    requires
        call_ensures(ShaperBuilder::<'a, E, F>::build, (builder,), *shaper),
        builder.class is None,
    ensures
        shaper.class is Default,
        shaper.class->Default_0.0.is_of(builder.font, builder.data.table_ranges),
        shaper.class->Default_0.0.wf(),
{
}

/// A shaper without font functions of its own takes every run of glyphs.
pub proof fn default_shapers_take_every_run<'a, E: ShapingEngine, F: FontFuncs>(
    builder: ShaperBuilder<'a, E, F>,
    shaper: &Shaper<'a, E, F>,
    glyph: &[GlyphInfo],
    positions: &mut [GlyphPosition],
    id: GlyphId,
)
    requires
        call_ensures(ShaperBuilder::<'a, E, F>::build, (builder,), *shaper),
        builder.class is None,
    ensures
        call_requires(hb_font_t::<'a, E, F>::glyph_h_advances, (shaper, glyph, positions)),
        call_requires(hb_font_t::<'a, E, F>::glyph_v_advances, (shaper, glyph, positions)),
        call_requires(hb_font_t::<'a, E, F>::glyph_h_origins, (shaper, glyph, positions)),
        call_requires(hb_font_t::<'a, E, F>::glyph_v_origins, (shaper, glyph, positions)),
        call_requires(hb_font_t::<'a, E, F>::glyph_h_advance, (shaper, id)),
        call_requires(hb_font_t::<'a, E, F>::glyph_v_advance, (shaper, id)),
        call_requires(hb_font_t::<'a, E, F>::glyph_extents, (shaper, id)),
{
    lemma_default_class(builder, shaper);
}

/// A shaper without font functions of its own gives each glyph its width and height from the font file, at
/// the location of its instance.
pub proof fn default_advances_come_from_the_file<'a, E: ShapingEngine, F: FontFuncs>(
    builder: ShaperBuilder<'a, E, F>,
    shaper: &Shaper<'a, E, F>,
    glyph: &[GlyphInfo],
    across: &mut [GlyphPosition],
    down: &mut [GlyphPosition],
    coords: Seq<NormalizedCoord>,
    i: int,
)
    requires
        call_ensures(ShaperBuilder::<'a, E, F>::build, (builder,), *shaper),
        builder.class is None,
        coords_of(builder.instance, coords),
        call_ensures(hb_font_t::<'a, E, F>::glyph_h_advances, (shaper, glyph, across), ()),
        call_ensures(hb_font_t::<'a, E, F>::glyph_v_advances, (shaper, glyph, down), ()),
        0 <= i < glyph@.len(),
        i < old(across)@.len(),
        i < old(down)@.len(),
    ensures
        final(across)@.len() == old(across)@.len(),
        final(down)@.len() == old(down)@.len(),
        metrics_laws::has_width_of(
            builder.font,
            builder.data.table_ranges,
            glyph@[i].glyph_id,
            coords,
            old(across)@[i],
            final(across)@[i],
        ),
        metrics_laws::has_height_of(
            builder.font,
            builder.data.table_ranges,
            glyph@[i].glyph_id,
            coords,
            old(down)@[i],
            final(down)@[i],
        ),
{
    lemma_default_class(builder, shaper);
    assert(shaper.face.coords@ =~= coords);
    let font = builder.font;
    let ranges = builder.data.table_ranges;
    let id = glyph@[i].glyph_id;
    let wide = final(across)@[i];
    let high = final(down)@[i];
    assert forall|units: int| #[trigger]
        metrics_laws::width_varies_by(font, ranges, id, coords, units) implies wide.x_advance
        == metrics_laws::width_in_file(font, ranges, id) + units by {
        metrics_laws::lemma_width(font, ranges, &shaper.class->Default_0.0, id, coords, units);
    }
    assert forall|units: int| #[trigger]
        metrics_laws::height_varies_by(font, ranges, id, coords, units) implies high.y_advance
        + metrics_laws::height_in_file(font, ranges, id) + units == 0 by {
        metrics_laws::lemma_height(font, ranges, &shaper.class->Default_0.0, id, coords, units);
    }
}

/// A shaper without font functions of its own gives a glyph alone its width and height from the font file,
/// and its extents.
pub proof fn default_glyphs_come_from_the_file<'a, E: ShapingEngine, F: FontFuncs>(
    builder: ShaperBuilder<'a, E, F>,
    shaper: &Shaper<'a, E, F>,
    glyph: GlyphId,
    coords: Seq<NormalizedCoord>,
    h: i32,
    v: i32,
    extents: Option<GlyphExtents>,
    wider: int,
    higher: int,
)
    requires
        call_ensures(ShaperBuilder::<'a, E, F>::build, (builder,), *shaper),
        builder.class is None,
        coords_of(builder.instance, coords),
        call_ensures(hb_font_t::<'a, E, F>::glyph_h_advance, (shaper, glyph), h),
        call_ensures(hb_font_t::<'a, E, F>::glyph_v_advance, (shaper, glyph), v),
        call_ensures(hb_font_t::<'a, E, F>::glyph_extents, (shaper, glyph), extents),
        metrics_laws::width_varies_by(
            builder.font,
            builder.data.table_ranges,
            glyph,
            coords,
            wider,
        ),
        metrics_laws::height_varies_by(
            builder.font,
            builder.data.table_ranges,
            glyph,
            coords,
            higher,
        ),
    ensures
        h == metrics_laws::width_in_file(builder.font, builder.data.table_ranges, glyph) + wider,
        v + metrics_laws::height_in_file(builder.font, builder.data.table_ranges, glyph) + higher
            == 0,
        metrics_laws::are_extents_of(
            builder.font,
            builder.data.table_ranges,
            glyph,
            coords,
            extents,
        ),
{
    lemma_default_class(builder, shaper);
    assert(shaper.face.coords@ =~= coords);
    let font = builder.font;
    let ranges = builder.data.table_ranges;
    metrics_laws::lemma_width(font, ranges, &shaper.class->Default_0.0, glyph, coords, wider);
    metrics_laws::lemma_height(font, ranges, &shaper.class->Default_0.0, glyph, coords, higher);
    metrics_laws::lemma_bounds(font, ranges, &shaper.class->Default_0.0, glyph, coords);
}

/// A shaper without font functions of its own gives each glyph the horizontal origin (0, 0), and its
/// vertical origin from the font file.
pub proof fn default_origins_come_from_the_file<'a, E: ShapingEngine, F: FontFuncs>(
    builder: ShaperBuilder<'a, E, F>,
    shaper: &Shaper<'a, E, F>,
    glyph: &[GlyphInfo],
    across: &mut [GlyphPosition],
    down: &mut [GlyphPosition],
    coords: Seq<NormalizedCoord>,
    across_result: Result<(), ()>,
    down_result: Result<(), ()>,
    flag: bool,
    i: int,
)
    requires
        call_ensures(ShaperBuilder::<'a, E, F>::build, (builder,), *shaper),
        builder.class is None,
        coords_of(builder.instance, coords),
        call_ensures(hb_font_t::<'a, E, F>::glyph_h_origins, (shaper, glyph, across), across_result),
        call_ensures(hb_font_t::<'a, E, F>::glyph_v_origins, (shaper, glyph, down), down_result),
        call_ensures(hb_font_t::<'a, E, F>::non_default_h_origins, (shaper,), flag),
        0 <= i < glyph@.len(),
        i < old(across)@.len(),
        i < old(down)@.len(),
    ensures
        across_result is Ok,
        down_result is Ok,
        !flag,
        final(across)@.len() == old(across)@.len(),
        final(across)@[i].x_offset == 0,
        final(across)@[i].y_offset == 0,
        final(across)@[i].x_advance == old(across)@[i].x_advance,
        final(across)@[i].y_advance == old(across)@[i].y_advance,
        final(down)@.len() == old(down)@.len(),
        metrics_laws::has_origin_of(
            builder.font,
            builder.data.table_ranges,
            glyph@[i].glyph_id,
            coords,
            old(down)@[i],
            final(down)@[i],
        ),
{
    lemma_default_class(builder, shaper);
    assert(shaper.face.coords@ =~= coords);
    let after = final(down)@[i];
    metrics_laws::lemma_origin(
        builder.font,
        builder.data.table_ranges,
        &shaper.class->Default_0.0,
        glyph@[i].glyph_id,
        coords,
        after.x_offset as int,
        after.y_offset as int,
    );
}

/// A shaper with font functions of its own leaves every metric to them.
pub proof fn custom_functions_decide<'a, E: ShapingEngine, F: FontFuncs>(
    shaper: &Shaper<'a, E, F>,
    funcs: F,
    glyph: &[GlyphInfo],
    h_advances: &mut [GlyphPosition],
    v_advances: &mut [GlyphPosition],
    h_origins: &mut [GlyphPosition],
    v_origins: &mut [GlyphPosition],
    h_result: Result<(), ()>,
    v_result: Result<(), ()>,
    flag: bool,
    id: GlyphId,
    h: i32,
    v: i32,
    extents: Option<GlyphExtents>,
)
    requires
        shaper.class is Custom,
        *shaper.class->Custom_0 == funcs,
        call_ensures(hb_font_t::<'a, E, F>::glyph_h_advances, (shaper, glyph, h_advances), ()),
        call_ensures(hb_font_t::<'a, E, F>::glyph_v_advances, (shaper, glyph, v_advances), ()),
        call_ensures(hb_font_t::<'a, E, F>::glyph_h_origins, (shaper, glyph, h_origins), h_result),
        call_ensures(hb_font_t::<'a, E, F>::glyph_v_origins, (shaper, glyph, v_origins), v_result),
        call_ensures(hb_font_t::<'a, E, F>::non_default_h_origins, (shaper,), flag),
        call_ensures(hb_font_t::<'a, E, F>::glyph_h_advance, (shaper, id), h),
        call_ensures(hb_font_t::<'a, E, F>::glyph_v_advance, (shaper, id), v),
        call_ensures(hb_font_t::<'a, E, F>::glyph_extents, (shaper, id), extents),
    ensures
        funcs.h_advances_ensures(
            shaper.face,
            glyph@,
            old(h_advances)@,
            final(h_advances)@,
        ),
        funcs.v_advances_ensures(
            shaper.face,
            glyph@,
            old(v_advances)@,
            final(v_advances)@,
        ),
        funcs.h_origins_ensures(
            shaper.face,
            glyph@,
            old(h_origins)@,
            final(h_origins)@,
            h_result,
        ),
        funcs.v_origins_ensures(
            shaper.face,
            glyph@,
            old(v_origins)@,
            final(v_origins)@,
            v_result,
        ),
        funcs.non_default_h_origins_ensures(shaper.face, flag),
        call_ensures(F::glyph_h_advance, (&funcs, &shaper.face, id), h),
        call_ensures(F::glyph_v_advance, (&funcs, &shaper.face, id), v),
        funcs.extents_ensures(shaper.face, id, extents),
{
}

/// Whether each position that has an origin is moved by a multiple of it, and nothing else changes.
pub open spec fn moved_by(
    before: Seq<GlyphPosition>,
    after: Seq<GlyphPosition>,
    origins: Seq<GlyphPosition>,
    start: int,
    mult: int,
) -> bool {
    &&& after.len() == before.len()
    &&& forall|i: int|
        0 <= i < before.len() ==> {
            let has_origin = start <= i < start + origins.len();
            &&& (#[trigger] after[i]).x_advance == before[i].x_advance
            &&& after[i].y_advance == before[i].y_advance
            &&& after[i].x_offset - before[i].x_offset == (if has_origin {
                mult * origins[i - start].x_offset
            } else {
                0
            })
            &&& after[i].y_offset - before[i].y_offset == (if has_origin {
                mult * origins[i - start].y_offset
            } else {
                0
            })
        }
}

/// A chunk of positions is moved by its origins, and no other position is.
pub proof fn chunks_are_moved(
    positions: &mut [GlyphPosition],
    offset: usize,
    origins: &[GlyphPosition],
    mult: i32,
)
    requires
        call_ensures(move_chunk, (positions, offset, origins, mult), ()),
        offset + origins@.len() <= old(positions)@.len(),
    ensures
        moved_by(old(positions)@, final(positions)@, origins@, offset as int, mult as int),
{
    let end = offset + origins@.len();
    let before = old(positions)@;
    let after = final(positions)@;
    assert forall|i: int| 0 <= i < before.len() implies {
        let has_origin = offset <= i < offset + origins@.len();
        &&& (#[trigger] after[i]).x_advance == before[i].x_advance
        &&& after[i].y_advance == before[i].y_advance
        &&& after[i].x_offset - before[i].x_offset == (if has_origin {
            mult * origins@[i - offset].x_offset
        } else {
            0
        })
        &&& after[i].y_offset - before[i].y_offset == (if has_origin {
            mult * origins@[i - offset].y_offset
        } else {
            0
        })
    } by {
        if offset <= i < end {
            assert(after.subrange(offset as int, end)[i - offset] == after[i]);
            assert(before.subrange(offset as int, end)[i - offset] == before[i]);
        }
    }
}

/// Whether the font functions of a shaper retrieve origins like this.
pub open spec fn retrieves<F: FontFuncs>(
    class: FontClass<'_, F>,
    vertical: bool,
    face: Face,
    glyph: Seq<GlyphInfo>,
    before: Seq<GlyphPosition>,
    after: Seq<GlyphPosition>,
    result: Result<(), ()>,
) -> bool {
    match class {
        FontClass::Default(funcs) => if vertical {
            funcs.v_origins_ensures(face, glyph, before, after, result)
        } else {
            funcs.h_origins_ensures(face, glyph, before, after, result)
        },
        FontClass::Custom(funcs) => if vertical {
            funcs.v_origins_ensures(face, glyph, before, after, result)
        } else {
            funcs.h_origins_ensures(face, glyph, before, after, result)
        },
    }
}

/// Whether the origins from `start` to `end` of a run are what the font functions left there, given the
/// origins of the 32 glyphs before them, or zero at the start of the run.
pub open spec fn are_left_by<F: FontFuncs>(
    class: FontClass<'_, F>,
    vertical: bool,
    face: Face,
    glyph: Seq<GlyphInfo>,
    origins: Seq<GlyphPosition>,
    start: int,
    end: int,
) -> bool {
    exists|before: Seq<GlyphPosition>, result: Result<(), ()>|
        {
            &&& before.len() == end - start
            &&& forall|i: int|
                0 <= i < before.len() ==> #[trigger] before[i] == (if start == 0 {
                    GlyphPosition { x_advance: 0, y_advance: 0, x_offset: 0, y_offset: 0 }
                } else {
                    origins[start - 32 + i]
                })
            &&& #[trigger] retrieves(
                class,
                vertical,
                face,
                glyph.subrange(start, end),
                before,
                origins.subrange(start, end),
                result,
            )
        }
}

/// Every glyph of a run is moved by its origin times the factor, and no position past the run. The origins
/// are what the font functions left, whether they succeeded or not, when they were asked for those of 32
/// glyphs at a time, each time over the ones before.
pub proof fn runs_are_moved_by_their_origins<'a, E: ShapingEngine, F: FontFuncs, const VERTICAL: bool>(
    shaper: &Shaper<'a, E, F>,
    glyph: &[GlyphInfo],
    positions: &mut [GlyphPosition],
    mult: i32,
)
    requires
        call_ensures(
            hb_font_t::<'a, E, F>::apply_glyph_origins_with_fallback::<VERTICAL>,
            (shaper, glyph, positions, mult),
            (),
        ),
    ensures
        exists|origins: Seq<GlyphPosition>|
            {
                &&& origins.len() == glyph@.len()
                &&& #[trigger] moved_by(
                    old(positions)@,
                    final(positions)@,
                    origins,
                    0,
                    mult as int,
                )
                &&& forall|start: int, end: int|
                    {
                        &&& 0 <= start < glyph@.len()
                        &&& start % 32 == 0
                        &&& end == (if start + 32 <= glyph@.len() {
                            start + 32
                        } else {
                            glyph@.len() as int
                        })
                    } ==> #[trigger] are_left_by(
                        shaper.class,
                        VERTICAL,
                        shaper.face,
                        glyph@,
                        origins,
                        start,
                        end,
                    )
            },
{
    let origins = choose|origins: Seq<GlyphPosition>|
        {
            &&& origins.len() == glyph@.len()
            &&& #[trigger] glyph_origins::retrieved(
                shaper.class,
                VERTICAL,
                shaper.face,
                glyph@,
                origins,
            )
            &&& glyph_origins::moved_by_origins(
                old(positions)@,
                final(positions)@,
                origins,
                mult as int,
            )
        };
    assert(moved_by(old(positions)@, final(positions)@, origins, 0, mult as int));
    assert forall|start: int, end: int|
        {
            &&& 0 <= start < glyph@.len()
            &&& start % 32 == 0
            &&& end == (if start + 32 <= glyph@.len() {
                start + 32
            } else {
                glyph@.len() as int
            })
        } implies #[trigger] are_left_by(
        shaper.class,
        VERTICAL,
        shaper.face,
        glyph@,
        origins,
        start,
        end,
    ) by {
        let chunk = (start / 32) as nat;
        assert(chunk * 32 == start);
        assert(glyph_origins::chunk_end(glyph@.len(), chunk) == end);
        assert(glyph_origins::chunk_retrieved(
            shaper.class,
            VERTICAL,
            shaper.face,
            glyph@,
            origins,
            chunk,
        ));
        let before = glyph_origins::chunk_before(glyph@.len(), origins, chunk);
        let result = choose|result: Result<(), ()>| #[trigger]
            glyph_origins::origins_ensures(
                shaper.class,
                VERTICAL,
                shaper.face,
                glyph@.subrange(start, end),
                before,
                origins.subrange(start, end),
                result,
            );
        assert(retrieves(
            shaper.class,
            VERTICAL,
            shaper.face,
            glyph@.subrange(start, end),
            before,
            origins.subrange(start, end),
            result,
        ));
    }
}

/// A shaper without font functions of its own can move every run of glyphs that has positions, but for the
/// last million units before the limits of 32 bits.
pub proof fn default_runs_can_be_moved<'a, E: ShapingEngine, F: FontFuncs, const VERTICAL: bool>(
    builder: ShaperBuilder<'a, E, F>,
    shaper: &Shaper<'a, E, F>,
    glyph: &[GlyphInfo],
    positions: &mut [GlyphPosition],
    mult: i32,
)
    requires
        call_ensures(ShaperBuilder::<'a, E, F>::build, (builder,), *shaper),
        builder.class is None,
        mult == 1 || mult == -1,
        glyph@.len() <= old(positions)@.len(),
        forall|i: int|
            0 <= i < old(positions)@.len() ==> {
                &&& -0x7ff0_0000 <= (#[trigger] old(positions)@[i]).x_offset <= 0x7ff0_0000
                &&& -0x7ff0_0000 <= old(positions)@[i].y_offset <= 0x7ff0_0000
            },
    ensures
        call_requires(
            hb_font_t::<'a, E, F>::apply_glyph_origins_with_fallback::<VERTICAL>,
            (shaper, glyph, positions, mult),
        ),
{
    lemma_default_class(builder, shaper);
    assert forall|origins: Seq<GlyphPosition>| #[trigger]
        glyph_origins::retrieved(shaper.class, VERTICAL, shaper.face, glyph@, origins) implies {
        &&& glyph_origins::can_continue(
            shaper.class,
            VERTICAL,
            shaper.face,
            glyph@,
            origins,
        )
        &&& glyph_origins::moves_fit(old(positions)@, origins, mult as int)
    } by {
        laws::default_origins_can_be_applied(
            shaper.class,
            VERTICAL,
            shaper.face,
            glyph@,
            origins,
            old(positions)@,
            mult as int,
        );
    }
}

/// A shaper without font functions of its own moves each glyph of a run by its vertical origin in the font
/// file times the factor, and by nothing in horizontal text.
pub proof fn default_runs_are_moved_by_the_file<'a, E: ShapingEngine, F: FontFuncs>(
    builder: ShaperBuilder<'a, E, F>,
    shaper: &Shaper<'a, E, F>,
    glyph: &[GlyphInfo],
    across: &mut [GlyphPosition],
    down: &mut [GlyphPosition],
    mult: i32,
    coords: Seq<NormalizedCoord>,
    i: int,
)
    requires
        call_ensures(ShaperBuilder::<'a, E, F>::build, (builder,), *shaper),
        builder.class is None,
        coords_of(builder.instance, coords),
        call_ensures(
            hb_font_t::<'a, E, F>::apply_glyph_origins_with_fallback::<false>,
            (shaper, glyph, across, mult),
            (),
        ),
        call_ensures(
            hb_font_t::<'a, E, F>::apply_glyph_origins_with_fallback::<true>,
            (shaper, glyph, down, mult),
            (),
        ),
        0 <= i < glyph@.len(),
        i < old(across)@.len(),
        i < old(down)@.len(),
    ensures
        final(across)@ == old(across)@,
        exists|origin: GlyphPosition|
            {
                &&& #[trigger] metrics_laws::has_origin_of(
                    builder.font,
                    builder.data.table_ranges,
                    glyph@[i].glyph_id,
                    coords,
                    origin,
                    origin,
                )
                &&& final(down)@[i].x_offset == old(down)@[i].x_offset + mult * origin.x_offset
                &&& final(down)@[i].y_offset == old(down)@[i].y_offset + mult * origin.y_offset
                &&& final(down)@[i].x_advance == old(down)@[i].x_advance
                &&& final(down)@[i].y_advance == old(down)@[i].y_advance
            },
{
    lemma_default_class(builder, shaper);
    assert(shaper.face.coords@ =~= coords);
    let flat = choose|origins: Seq<GlyphPosition>|
        {
            &&& origins.len() == glyph@.len()
            &&& #[trigger] glyph_origins::retrieved(
                shaper.class,
                false,
                shaper.face,
                glyph@,
                origins,
            )
            &&& glyph_origins::moved_by_origins(
                old(across)@,
                final(across)@,
                origins,
                mult as int,
            )
        };
    laws::default_h_origins_move_nothing(
        shaper.class,
        shaper.face,
        glyph@,
        flat,
        old(across)@,
        final(across)@,
        mult as int,
    );
    let origins = choose|origins: Seq<GlyphPosition>|
        {
            &&& origins.len() == glyph@.len()
            &&& #[trigger] glyph_origins::retrieved(
                shaper.class,
                true,
                shaper.face,
                glyph@,
                origins,
            )
            &&& glyph_origins::moved_by_origins(old(down)@, final(down)@, origins, mult as int)
        };
    laws::default_origins_are_per_glyph(shaper.class, true, shaper.face);
    laws::lemma_retrieved_origin(
        shaper.class,
        true,
        shaper.face,
        glyph@,
        laws::default_origin(&shaper.class->Default_0.0, true, shaper.face.coords@),
        origins,
        i,
    );
    metrics_laws::lemma_origin(
        builder.font,
        builder.data.table_ranges,
        &shaper.class->Default_0.0,
        glyph@[i].glyph_id,
        coords,
        origins[i].x_offset as int,
        origins[i].y_offset as int,
    );
    assert(metrics_laws::has_origin_of(
        builder.font,
        builder.data.table_ranges,
        glyph@[i].glyph_id,
        coords,
        origins[i],
        origins[i],
    ));
}

/// A glyph alone has the advances and origins of a run of this one glyph, retrieved into a position that is
/// all zero; its origin is missing where that of the run is.
pub proof fn glyphs_alone_are_runs_of_one<F: FontFuncs>(
    funcs: &F,
    face: &Face<'_>,
    glyph: GlyphId,
    h: i32,
    v: i32,
    h_origin: Result<(i32, i32), ()>,
    v_origin: Result<(i32, i32), ()>,
)
    requires
        call_ensures(F::single_h_advance, (funcs, face, glyph), h),
        call_ensures(F::single_v_advance, (funcs, face, glyph), v),
        call_ensures(F::single_h_origin, (funcs, face, glyph), h_origin),
        call_ensures(F::single_v_origin, (funcs, face, glyph), v_origin),
    ensures
        exists|after: Seq<GlyphPosition>|
            {
                &&& after.len() == 1
                &&& h == after[0].x_advance
                &&& #[trigger] funcs.h_advances_ensures(
                    *face,
                    seq![GlyphInfo { glyph_id: glyph }],
                    seq![
                        GlyphPosition { x_advance: 0, y_advance: 0, x_offset: 0, y_offset: 0 },
                    ],
                    after,
                )
            },
        exists|after: Seq<GlyphPosition>|
            {
                &&& after.len() == 1
                &&& v == after[0].y_advance
                &&& #[trigger] funcs.v_advances_ensures(
                    *face,
                    seq![GlyphInfo { glyph_id: glyph }],
                    seq![
                        GlyphPosition { x_advance: 0, y_advance: 0, x_offset: 0, y_offset: 0 },
                    ],
                    after,
                )
            },
        exists|after: Seq<GlyphPosition>, result: Result<(), ()>|
            {
                &&& after.len() == 1
                &&& h_origin is Ok <==> result is Ok
                &&& h_origin matches Ok(place) ==> place.0 == after[0].x_offset && place.1
                    == after[0].y_offset
                &&& #[trigger] funcs.h_origins_ensures(
                    *face,
                    seq![GlyphInfo { glyph_id: glyph }],
                    seq![
                        GlyphPosition { x_advance: 0, y_advance: 0, x_offset: 0, y_offset: 0 },
                    ],
                    after,
                    result,
                )
            },
        exists|after: Seq<GlyphPosition>, result: Result<(), ()>|
            {
                &&& after.len() == 1
                &&& v_origin is Ok <==> result is Ok
                &&& v_origin matches Ok(place) ==> place.0 == after[0].x_offset && place.1
                    == after[0].y_offset
                &&& #[trigger] funcs.v_origins_ensures(
                    *face,
                    seq![GlyphInfo { glyph_id: glyph }],
                    seq![
                        GlyphPosition { x_advance: 0, y_advance: 0, x_offset: 0, y_offset: 0 },
                    ],
                    after,
                    result,
                )
            },
{
}

/// With synthetic font functions too, a glyph alone has the advances and origins of a run of this one glyph.
pub proof fn synthetic_glyphs_alone_are_runs_of_one<T: FontFuncs, S: Slant>(
    funcs: &SyntheticFontFuncs<T, S>,
    face: &Face<'_>,
    glyph: GlyphId,
    h: i32,
    v: i32,
    h_origin: Result<(i32, i32), ()>,
    v_origin: Result<(i32, i32), ()>,
)
    requires
        call_ensures(
            <SyntheticFontFuncs<T, S> as FontFuncs>::glyph_h_advance,
            (funcs, face, glyph),
            h,
        ),
        call_ensures(
            <SyntheticFontFuncs<T, S> as FontFuncs>::glyph_v_advance,
            (funcs, face, glyph),
            v,
        ),
        call_ensures(
            <SyntheticFontFuncs<T, S> as FontFuncs>::glyph_h_origin,
            (funcs, face, glyph),
            h_origin,
        ),
        call_ensures(
            <SyntheticFontFuncs<T, S> as FontFuncs>::glyph_v_origin,
            (funcs, face, glyph),
            v_origin,
        ),
    ensures
        exists|after: Seq<GlyphPosition>|
            {
                &&& after.len() == 1
                &&& h == after[0].x_advance
                &&& #[trigger] funcs.h_advances_ensures(
                    *face,
                    seq![GlyphInfo { glyph_id: glyph }],
                    seq![
                        GlyphPosition { x_advance: 0, y_advance: 0, x_offset: 0, y_offset: 0 },
                    ],
                    after,
                )
            },
        exists|after: Seq<GlyphPosition>|
            {
                &&& after.len() == 1
                &&& v == after[0].y_advance
                &&& #[trigger] funcs.v_advances_ensures(
                    *face,
                    seq![GlyphInfo { glyph_id: glyph }],
                    seq![
                        GlyphPosition { x_advance: 0, y_advance: 0, x_offset: 0, y_offset: 0 },
                    ],
                    after,
                )
            },
        exists|after: Seq<GlyphPosition>, result: Result<(), ()>|
            {
                &&& after.len() == 1
                &&& h_origin is Ok <==> result is Ok
                &&& h_origin matches Ok(place) ==> place.0 == after[0].x_offset && place.1
                    == after[0].y_offset
                &&& #[trigger] funcs.h_origins_ensures(
                    *face,
                    seq![GlyphInfo { glyph_id: glyph }],
                    seq![
                        GlyphPosition { x_advance: 0, y_advance: 0, x_offset: 0, y_offset: 0 },
                    ],
                    after,
                    result,
                )
            },
        exists|after: Seq<GlyphPosition>, result: Result<(), ()>|
            {
                &&& after.len() == 1
                &&& v_origin is Ok <==> result is Ok
                &&& v_origin matches Ok(place) ==> place.0 == after[0].x_offset && place.1
                    == after[0].y_offset
                &&& #[trigger] funcs.v_origins_ensures(
                    *face,
                    seq![GlyphInfo { glyph_id: glyph }],
                    seq![
                        GlyphPosition { x_advance: 0, y_advance: 0, x_offset: 0, y_offset: 0 },
                    ],
                    after,
                    result,
                )
            },
{
}

/// The font functions of a shaper, where they were set, give a glyph alone the origins that they were set to
/// give.
pub proof fn custom_origins_are_those_that_were_set<F: FontFuncs>(
    class: &FontClass<'_, F>,
    funcs: F,
    face: &Face<'_>,
    glyph: GlyphId,
    h_origin: Result<(i32, i32), ()>,
    v_origin: Result<(i32, i32), ()>,
)
    requires
        *class is Custom,
        *class->Custom_0 == funcs,
        call_ensures(
            <FontClass<'_, F> as FontFuncs>::glyph_h_origin,
            (class, face, glyph),
            h_origin,
        ),
        call_ensures(
            <FontClass<'_, F> as FontFuncs>::glyph_v_origin,
            (class, face, glyph),
            v_origin,
        ),
    ensures
        call_ensures(F::glyph_h_origin, (&funcs, face, glyph), h_origin),
        call_ensures(F::glyph_v_origin, (&funcs, face, glyph), v_origin),
{
}

/// A clone of a shaper has its font, location and font functions, its layout tables, and clones of the rest.
pub proof fn clones_are_alike<'a, E: ShapingEngine, F: FontFuncs>(
    shaper: &Shaper<'a, E, F>,
    other: Shaper<'a, E, F>,
    metrics: &GlyphMetrics<'_>,
    copy: GlyphMetrics<'_>,
) where E::Charmap<'a>: Clone, E::OtLayout<'a>: Clone, E::AatTables<'a>: Clone
    requires
        call_ensures(<hb_font_t<'a, E, F> as Clone>::clone, (shaper,), other),
        call_ensures(<GlyphMetrics<'_> as Clone>::clone, (metrics,), copy),
    ensures
        other.face == shaper.face,
        other.class == shaper.class,
        other.ot_tables.gsub == shaper.ot_tables.gsub,
        other.ot_tables.gpos == shaper.ot_tables.gpos,
        cloned(shaper.charmap, other.charmap),
        cloned(shaper.ot_tables.layout, other.ot_tables.layout),
        cloned(shaper.aat_tables, other.aat_tables),
        copy.hmtx == metrics.hmtx,
        copy.h_metrics@ == metrics.h_metrics@,
        copy.hvar == metrics.hvar,
        copy.vmtx == metrics.vmtx,
        copy.vvar == metrics.vvar,
        copy.vorg == metrics.vorg,
        copy.glyf == metrics.glyf,
        copy.mvar == metrics.mvar,
        copy.num_glyphs == metrics.num_glyphs,
        copy.upem == metrics.upem,
        copy.ascent == metrics.ascent,
        copy.descent == metrics.descent,
{
}

/// Records start with zero everywhere, and a glyph record gives its glyph.
pub proof fn records_start_at_zero(
    info: &GlyphInfo,
    glyph: GlyphId,
    new_info: GlyphInfo,
    new_position: GlyphPosition,
    new_bounds: BoundingBox,
    new_extents: GlyphExtents,
)
    requires
        call_ensures(GlyphInfo::as_glyph, (info,), glyph),
        call_ensures(<GlyphInfo as Default>::default, (), new_info),
        call_ensures(<GlyphPosition as Default>::default, (), new_position),
        call_ensures(<BoundingBox as Default>::default, (), new_bounds),
        call_ensures(<hb_glyph_extents_t as Default>::default, (), new_extents),
    ensures
        glyph == info.glyph_id,
        new_info.glyph_id == 0,
        new_position.x_advance == 0,
        new_position.y_advance == 0,
        new_position.x_offset == 0,
        new_position.y_offset == 0,
        new_bounds.x_min == 0,
        new_bounds.y_min == 0,
        new_bounds.x_max == 0,
        new_bounds.y_max == 0,
        new_extents.x_bearing == 0,
        new_extents.y_bearing == 0,
        new_extents.width == 0,
        new_extents.height == 0,
{
}

} // verus!
