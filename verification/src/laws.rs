//! What holds of the library as a whole.
use vstd::prelude::*;

use crate::engine::ShapingEngine;
use crate::font::FontRef;
use crate::font_class::FontClass;
use crate::font_funcs;
use crate::font_funcs::{Face, FontFuncs};
use crate::font_tables;
use crate::font_tables::Variation;
use crate::glyph::{GlyphExtents, GlyphId, GlyphInfo, GlyphPosition, NormalizedCoord};
use crate::glyph_metrics::GlyphMetrics;
use crate::glyph_origins;
use crate::instance;
use crate::instance::ShaperInstance;
use crate::ot_font_funcs::OtFontFuncs;
use crate::synthetic;
use crate::synthetic::{Slant, SyntheticFontFuncs};
use crate::vertical_origin;

verus! {

/// Whether no two settings are for one axis.
pub open spec fn distinct_tags(variations: Seq<Variation>) -> bool {
    forall|i: int, j: int|
        #![trigger variations[i], variations[j]]
        0 <= i < j < variations.len() ==> variations[i].tag != variations[j].tag
}

/// The settings are for the tags in the list, and hold the last value for each.
proof fn lemma_settings(variations: Seq<Variation>)
    ensures
        forall|i: int|
            0 <= i < variations.len() ==> font_tables::settings(variations).contains_key(
                (#[trigger] variations[i]).tag,
            ),
        forall|tag: u32| #[trigger]
            font_tables::settings(variations).contains_key(tag) ==> exists|i: int|
                {
                    &&& 0 <= i < variations.len()
                    &&& (#[trigger] variations[i]).tag == tag
                    &&& variations[i].value == font_tables::settings(variations)[tag]
                    &&& forall|j: int|
                        i < j < variations.len() ==> (#[trigger] variations[j]).tag != tag
                },
    decreases variations.len(),
{
    if variations.len() > 0 {
        let front = variations.drop_last();
        lemma_settings(front);
        assert forall|i: int| 0 <= i < variations.len() implies font_tables::settings(
            variations,
        ).contains_key((#[trigger] variations[i]).tag) by {
            if i < front.len() {
                assert(front[i] == variations[i]);
            }
        }
        assert forall|tag: u32| #[trigger]
            font_tables::settings(variations).contains_key(tag) implies exists|i: int|
            {
                &&& 0 <= i < variations.len()
                &&& (#[trigger] variations[i]).tag == tag
                &&& variations[i].value == font_tables::settings(variations)[tag]
                &&& forall|j: int| i < j < variations.len() ==> (#[trigger] variations[j]).tag != tag
            } by {
            if variations.last().tag == tag {
                assert(variations[variations.len() - 1].tag == tag);
            } else {
                assert(font_tables::settings(front).contains_key(tag));
                let i = choose|i: int|
                    {
                        &&& 0 <= i < front.len()
                        &&& (#[trigger] front[i]).tag == tag
                        &&& front[i].value == font_tables::settings(front)[tag]
                        &&& forall|j: int| i < j < front.len() ==> (#[trigger] front[j]).tag != tag
                    };
                assert(variations[i] == front[i]);
                assert forall|j: int| i < j < variations.len() implies (
                #[trigger] variations[j]).tag != tag by {
                    if j < front.len() {
                        assert(front[j] == variations[j]);
                    }
                }
            }
        }
    }
}

/// The order of variation settings is insignificant: two lists of the same settings, with one setting
/// for each axis, lead to the same location, and so to instances that agree.
pub proof fn variation_order_is_insignificant<E: ShapingEngine>(
    font: FontRef,
    variations: Seq<Variation>,
    reordered: Seq<Variation>,
    a: ShaperInstance,
    b: ShaperInstance,
)
    requires
        distinct_tags(variations),
        reordered.to_multiset() == variations.to_multiset(),
        a.is_at::<E>(font, instance::variations_location(font, variations)),
        b.is_at::<E>(font, instance::variations_location(font, reordered)),
    ensures
        instance::variations_location(font, reordered) == instance::variations_location(
            font,
            variations,
        ),
        agree::<E>(font, a, b),
{
    broadcast use vstd::seq_lib::group_to_multiset_ensures;

    let settings = font_tables::settings(variations);
    let other = font_tables::settings(reordered);
    lemma_settings(variations);
    lemma_settings(reordered);
    assert forall|tag: u32| settings.contains_key(tag) implies #[trigger] other.contains_key(tag) by {
        let i = choose|i: int|
            0 <= i < variations.len() && (#[trigger] variations[i]).tag == tag;
        assert(variations.contains(variations[i]));
        assert(reordered.to_multiset().count(variations[i]) > 0);
        assert(reordered.contains(variations[i]));
        let j = choose|j: int| 0 <= j < reordered.len() && reordered[j] == variations[i];
        assert(reordered[j].tag == tag);
    }
    assert forall|tag: u32| #[trigger] other.contains_key(tag) implies settings.contains_key(tag)
        && settings[tag] == other[tag] by {
        let j = choose|j: int|
            {
                &&& 0 <= j < reordered.len()
                &&& (#[trigger] reordered[j]).tag == tag
                &&& reordered[j].value == other[tag]
            };
        assert(reordered.contains(reordered[j]));
        assert(variations.to_multiset().count(reordered[j]) > 0);
        assert(variations.contains(reordered[j]));
        let i = choose|i: int| 0 <= i < variations.len() && variations[i] == reordered[j];
        assert(settings.contains_key(variations[i].tag));
        let k = choose|k: int|
            {
                &&& 0 <= k < variations.len()
                &&& (#[trigger] variations[k]).tag == tag
                &&& variations[k].value == settings[tag]
            };
        assert(i == k);
    }
    assert forall|tag: u32| settings.dom().contains(tag) == #[trigger] other.dom().contains(tag) by {
        assert(settings.contains_key(tag) == other.contains_key(tag));
    }
    assert(settings.dom() =~= other.dom());
    assert(settings =~= other);
    reset_instances_agree::<E>(font, instance::variations_location(font, variations), a, b);
}

/// Of several settings for one axis the last one counts: a setting replaces those for its axis that
/// stand before it.
pub proof fn last_setting_counts<E: ShapingEngine>(
    font: FontRef,
    variations: Seq<Variation>,
    replaced: int,
    last: Variation,
    a: ShaperInstance,
    b: ShaperInstance,
)
    requires
        0 <= replaced < variations.len(),
        variations[replaced].tag == last.tag,
        a.is_at::<E>(font, instance::variations_location(font, variations.push(last))),
        b.is_at::<E>(
            font,
            instance::variations_location(font, variations.remove(replaced).push(last)),
        ),
    ensures
        agree::<E>(font, a, b),
{
    lemma_setting_replaced(variations, replaced, last);
    let location = instance::variations_location(font, variations.push(last));
    reset_instances_agree::<E>(font, location, a, b);
}

proof fn lemma_setting_replaced(variations: Seq<Variation>, replaced: int, last: Variation)
    requires
        0 <= replaced < variations.len(),
        variations[replaced].tag == last.tag,
    ensures
        font_tables::settings(variations.push(last)) == font_tables::settings(
            variations.remove(replaced).push(last),
        ),
    decreases variations.len(),
{
    let rest = variations.remove(replaced);
    assert(variations.push(last).drop_last() =~= variations);
    assert(rest.push(last).drop_last() =~= rest);
    if replaced == variations.len() - 1 {
        assert(rest =~= variations.drop_last());
        assert(font_tables::settings(variations) == font_tables::settings(rest).insert(
            variations.last().tag,
            variations.last().value,
        ));
        assert(font_tables::settings(variations.push(last)) =~= font_tables::settings(
            rest.push(last),
        ));
    } else {
        let front = variations.drop_last();
        lemma_setting_replaced(front, replaced, last);
        assert(front.push(last).drop_last() =~= front);
        assert(front.remove(replaced).push(last).drop_last() =~= front.remove(replaced));
        assert(rest.drop_last() =~= front.remove(replaced));
        assert(rest.last() == variations.last());
        let next = variations.last();
        let before = font_tables::settings(front);
        let after = font_tables::settings(front.remove(replaced));
        assert(before.insert(last.tag, last.value) == after.insert(last.tag, last.value));
        assert(font_tables::settings(variations) == before.insert(next.tag, next.value));
        assert(font_tables::settings(rest) == after.insert(next.tag, next.value));
        lemma_insert_twice(before, after, next.tag, next.value, last.tag, last.value);
    }
}

/// Two maps that agree but for one key still do after another insertion.
proof fn lemma_insert_twice(
    before: Map<u32, i32>,
    after: Map<u32, i32>,
    tag: u32,
    value: i32,
    last: u32,
    last_value: i32,
)
    requires
        before.insert(last, last_value) == after.insert(last, last_value),
    ensures
        before.insert(tag, value).insert(last, last_value) == after.insert(tag, value).insert(
            last,
            last_value,
        ),
{
    let a = before.insert(last, last_value);
    let b = after.insert(last, last_value);
    let c = before.insert(tag, value).insert(last, last_value);
    let d = after.insert(tag, value).insert(last, last_value);
    if tag == last {
        assert(c =~= a);
        assert(d =~= b);
    } else {
        assert(c =~= a.insert(tag, value));
        assert(d =~= b.insert(tag, value));
    }
}

/// Whether the layout engine always picks the same feature variations for the same table and
/// location.
pub open spec fn picks_are_stable<E: ShapingEngine>(font: FontRef) -> bool {
    forall|
        index: crate::font::TableIndex,
        coords: Seq<NormalizedCoord>,
        a: Option<u32>,
        b: Option<u32>,
    |
        #[trigger] instance::picks::<E>(font, index, coords, a) && #[trigger] instance::picks::<E>(
            font,
            index,
            coords,
            b,
        ) ==> a == b
}

/// Whether two instances of a font have the same coordinates, and the same feature variations: always
/// at the default location, and elsewhere where the layout engine is consistent. Elsewhere each may have
/// the feature variations of the other in any case.
pub open spec fn agree<E: ShapingEngine>(
    font: FontRef,
    a: ShaperInstance,
    b: ShaperInstance,
) -> bool {
    &&& a.coords@ == b.coords@
    &&& a.coords@.len() == 0 || picks_are_stable::<E>(font) ==> a.feature_variations@
        == b.feature_variations@
    &&& instance::variations_apply::<E>(font, a.coords@, b.feature_variations)
    &&& instance::variations_apply::<E>(font, b.coords@, a.feature_variations)
}

/// Resetting an instance leaves nothing of what it was: whatever they were before, two instances that
/// are at one location of a font agree. An instance that is reset is at the same location as a new one,
/// which is the default one where a font is not variable or lacks the named instance.
pub proof fn reset_instances_agree<E: ShapingEngine>(
    font: FontRef,
    location: Seq<NormalizedCoord>,
    a: ShaperInstance,
    b: ShaperInstance,
)
    requires
        a.is_at::<E>(font, location),
        b.is_at::<E>(font, location),
    ensures
        agree::<E>(font, a, b),
{
    if a.coords@.len() > 0 && picks_are_stable::<E>(font) {
        assert(a.feature_variations@[0] == b.feature_variations@[0]);
        assert(a.feature_variations@[1] == b.feature_variations@[1]);
        assert(a.feature_variations@ =~= b.feature_variations@);
    }
}

/// The coordinates of an instance lead back to it: a new instance from them agrees with it.
pub proof fn coords_lead_back<E: ShapingEngine>(
    font: FontRef,
    location: Seq<NormalizedCoord>,
    instance: ShaperInstance,
    again: ShaperInstance,
)
    requires
        instance.is_at::<E>(font, location),
        instance.within_axes(font),
        again.is_at::<E>(font, instance::coords_location(font, instance.coords@)),
    ensures
        instance.is_at::<E>(font, instance::coords_location(font, instance.coords@)),
        agree::<E>(font, instance, again),
{
    let coords = instance.coords@;
    let back = instance::coords_location(font, coords);
    assert(back =~= coords);
    if coords.len() == 0 {
        assert(instance::reduced(coords) =~= coords);
    }
    reset_instances_agree::<E>(font, back, instance, again);
}

/// A named instance is the instance of its settings: those that give each axis the coordinate of the
/// instance for it, in single precision.
pub proof fn named_instance_is_its_settings<E: ShapingEngine>(
    font: FontRef,
    index: usize,
    named: ShaperInstance,
    set: ShaperInstance,
)
    requires
        instance::has_named_instance(font, index),
        named.is_at::<E>(font, instance::named_location(font, index)),
        set.is_at::<E>(
            font,
            instance::variations_location(font, instance::named_variations(font, index)->0),
        ),
    ensures
        agree::<E>(font, named, set),
{
    reset_instances_agree::<E>(font, instance::named_location(font, index), named, set);
}

/// Whether the bits of a 16.16 fixed point number fit into a single precision number: those of every
/// number of at most 256, and of every multiple of 1/512.
pub open spec fn is_single_precision(value: i32) -> bool {
    -0x100_0000 <= value <= 0x100_0000 || value % 0x80 == 0
}

/// A named instance has its coordinates as settings, as far as single precision holds them.
pub proof fn named_instance_has_its_coordinates(font: FontRef, index: usize)
    requires
        instance::has_named_instance(font, index),
        ({
            let values = font_tables::instance_location(font.table(crate::font::FVAR)->0, index)->0;
            forall|i: int| 0 <= i < values.len() ==> is_single_precision(#[trigger] values[i])
        }),
    ensures
        ({
            let fvar = font.table(crate::font::FVAR)->0;
            instance::named_variations(font, index)->0 == instance::paired(
                font_tables::axis_tags(fvar)->0,
                font_tables::instance_location(fvar, index)->0,
            )
        }),
{
    let values = font_tables::instance_location(font.table(crate::font::FVAR)->0, index)->0;
    assert forall|i: int| 0 <= i < values.len() implies font_tables::single_precision(
        #[trigger] values[i],
    ) == values[i] by {
        lemma_single_precision(values[i]);
    }
    assert(values.map_values(|value: i32| font_tables::single_precision(value)) =~= values);
}

/// A multiple is the nearest one to itself.
proof fn lemma_nearest_multiple(size: int, step: int)
    requires
        step > 0,
        size % step == 0,
    ensures
        font_tables::nearest_multiple(size, step) == size,
{
    vstd::arithmetic::div_mod::lemma_fundamental_div_mod(size, step);
    assert(step * (size / step) == (size / step) * step) by (nonlinear_arith);
}

/// A number that fits into a single precision number stays what it is.
proof fn lemma_single_precision(value: i32)
    requires
        is_single_precision(value),
    ensures
        font_tables::single_precision(value) == value,
{
    let size = if value < 0 {
        -value
    } else {
        value as int
    };
    if size < 0x100_0000 {
    } else if size == 0x100_0000 {
        lemma_nearest_multiple(size, 2);
    } else {
        let whole = size / 0x80;
        assert(size == 0x80 * whole);
        lemma_nearest_multiple(size, 2);
        lemma_nearest_multiple(size, 4);
        lemma_nearest_multiple(size, 8);
        lemma_nearest_multiple(size, 16);
        lemma_nearest_multiple(size, 32);
        lemma_nearest_multiple(size, 64);
        lemma_nearest_multiple(size, 128);
    }
    assert(font_tables::nearest_with_24_bits(size) == size);
}

/// No settings are default settings: they lead to the default location of every font whose axis
/// variations leave it there.
pub proof fn no_settings_are_default(font: FontRef)
    ensures
        instance::are_default(font, Seq::empty()),
{
}

/// Coordinates of zero on every axis are the default location, which has no coordinates and no feature
/// variations.
pub proof fn zero_coords_are_default<E: ShapingEngine>(
    font: FontRef,
    count: nat,
    instance: ShaperInstance,
)
    requires
        instance.is_at::<E>(font, Seq::new(count, |i: int| 0i16)),
    ensures
        instance.is_cleared(),
{
}

/// Whether the advance that font functions give a glyph in a run of horizontal text is the one that
/// they give the glyph alone.
pub open spec fn h_advance_is_per_glyph<F: FontFuncs>(
    funcs: F,
    font: Face,
    glyph: Seq<GlyphInfo>,
    before: Seq<GlyphPosition>,
    i: int,
) -> bool {
    forall|after: Seq<GlyphPosition>, alone: Seq<GlyphPosition>|
        #![trigger funcs.h_advances_ensures(font, glyph, before, after), alone.len()]
        {
            &&& funcs.h_advances_ensures(font, glyph, before, after)
            &&& after.len() == before.len()
            &&& funcs.h_advances_ensures(
                font,
                font_funcs::single_glyph(glyph[i].glyph_id),
                font_funcs::single_position(),
                alone,
            )
            &&& alone.len() == 1
        } ==> after[i].x_advance == alone[0].x_advance
}

/// Whether the advance that font functions give a glyph in a run of vertical text is the one that
/// they give the glyph alone.
pub open spec fn v_advance_is_per_glyph<F: FontFuncs>(
    funcs: F,
    font: Face,
    glyph: Seq<GlyphInfo>,
    before: Seq<GlyphPosition>,
    i: int,
) -> bool {
    forall|after: Seq<GlyphPosition>, alone: Seq<GlyphPosition>|
        #![trigger funcs.v_advances_ensures(font, glyph, before, after), alone.len()]
        {
            &&& funcs.v_advances_ensures(font, glyph, before, after)
            &&& after.len() == before.len()
            &&& funcs.v_advances_ensures(
                font,
                font_funcs::single_glyph(glyph[i].glyph_id),
                font_funcs::single_position(),
                alone,
            )
            &&& alone.len() == 1
        } ==> after[i].y_advance == alone[0].y_advance
}

/// By the metrics tables, a glyph has the same advances in a run as alone.
pub proof fn advances_are_per_glyph(
    funcs: OtFontFuncs,
    font: Face,
    glyph: Seq<GlyphInfo>,
    before: Seq<GlyphPosition>,
    i: int,
)
    requires
        0 <= i < glyph.len(),
        i < before.len(),
    ensures
        h_advance_is_per_glyph(funcs, font, glyph, before, i),
        v_advance_is_per_glyph(funcs, font, glyph, before, i),
{
    let single = font_funcs::single_glyph(glyph[i].glyph_id);
    assert(single[0].glyph_id == glyph[i].glyph_id);
    assert(font_funcs::single_position().len() == 1);
}

/// The advances that font functions give a glyph alone are those that they write for a run of this one
/// glyph, where these depend on nothing else.
pub proof fn advances_alone_are_those_of_a_run<F: FontFuncs>(
    funcs: F,
    font: Face,
    glyph: GlyphId,
    positions: Seq<GlyphPosition>,
    advance: i32,
)
    requires
        positions.len() == 1,
    ensures
        ({
            let run = font_funcs::single_glyph(glyph);
            let start = font_funcs::single_position();
            &&& h_advance_is_per_glyph(funcs, font, run, start, 0)
                && funcs.h_advances_ensures(font, run, start, positions) && (exists|
                after: Seq<GlyphPosition>,
            |
                after.len() == 1 && advance == after[0].x_advance
                    && #[trigger] funcs.h_advances_ensures(font, run, start, after))
                ==> advance == positions[0].x_advance
            &&& v_advance_is_per_glyph(funcs, font, run, start, 0)
                && funcs.v_advances_ensures(font, run, start, positions) && (exists|
                after: Seq<GlyphPosition>,
            |
                after.len() == 1 && advance == after[0].y_advance
                    && #[trigger] funcs.v_advances_ensures(font, run, start, after))
                ==> advance == positions[0].y_advance
        }),
{
    let run = font_funcs::single_glyph(glyph);
    assert(run[0].glyph_id == glyph);
    assert(font_funcs::single_position().len() == 1);
}

/// By the metrics tables, a glyph has the same origin in a run of vertical text as alone.
pub proof fn v_origins_are_per_glyph(
    funcs: OtFontFuncs,
    font: Face,
    glyph: Seq<GlyphInfo>,
    before: Seq<GlyphPosition>,
    after: Seq<GlyphPosition>,
    result: Result<(), ()>,
    alone: Seq<GlyphPosition>,
    alone_result: Result<(), ()>,
    i: int,
)
    requires
        0 <= i < glyph.len(),
        i < before.len(),
        funcs.v_origins_ensures(font, glyph, before, after, result),
        funcs.v_origins_ensures(
            font,
            font_funcs::single_glyph(glyph[i].glyph_id),
            font_funcs::single_position(),
            alone,
            alone_result,
        ),
    ensures
        font_funcs::origin_of(after[i], result) == font_funcs::origin_of(alone[0], alone_result),
{
    let single = font_funcs::single_glyph(glyph[i].glyph_id);
    assert(single[0].glyph_id == glyph[i].glyph_id);
    assert(font_funcs::single_position().len() == 1);
    assert(after[i].x_offset == alone[0].x_offset);
}

/// Emboldening does not make the advance of a glyph depend on the run that it is in.
pub proof fn synthetic_advances_are_per_glyph<T: FontFuncs, S: Slant>(
    funcs: SyntheticFontFuncs<T, S>,
    font: Face,
    glyph: Seq<GlyphInfo>,
    before: Seq<GlyphPosition>,
    i: int,
)
    requires
        0 <= i < glyph.len(),
        i < before.len(),
        h_advance_is_per_glyph(funcs.base, font, glyph, before, i),
        v_advance_is_per_glyph(funcs.base, font, glyph, before, i),
    ensures
        h_advance_is_per_glyph(funcs, font, glyph, before, i),
        v_advance_is_per_glyph(funcs, font, glyph, before, i),
{
}

/// Emboldening in place leaves the advances and origins as the base functions give them.
pub proof fn embolden_in_place_keeps_metrics<T: FontFuncs, S: Slant>(
    funcs: SyntheticFontFuncs<T, S>,
    font: Face,
    glyph: Seq<GlyphInfo>,
    before: Seq<GlyphPosition>,
    after: Seq<GlyphPosition>,
    result: Result<(), ()>,
)
    requires
        funcs.embolden_in_place,
    ensures
        funcs.h_advances_ensures(font, glyph, before, after) ==> funcs.base.h_advances_ensures(
            font,
            glyph,
            before,
            after,
        ),
        funcs.v_advances_ensures(font, glyph, before, after) ==> funcs.base.v_advances_ensures(
            font,
            glyph,
            before,
            after,
        ),
        funcs.h_origins_ensures(font, glyph, before, after, result)
            ==> funcs.base.h_origins_ensures(font, glyph, before, after, result),
        funcs.v_origins_ensures(font, glyph, before, after, result)
            ==> funcs.base.v_origins_ensures(font, glyph, before, after, result),
{
    lemma_no_growth(funcs, font, glyph, before, after, result);
}

/// Without growth in a direction, synthetic font functions give what the base functions give.
proof fn lemma_no_growth<T: FontFuncs, S: Slant>(
    funcs: SyntheticFontFuncs<T, S>,
    font: Face,
    glyph: Seq<GlyphInfo>,
    before: Seq<GlyphPosition>,
    after: Seq<GlyphPosition>,
    result: Result<(), ()>,
)
    ensures
        funcs.growth().0 == 0 && funcs.h_advances_ensures(font, glyph, before, after)
            ==> funcs.base.h_advances_ensures(font, glyph, before, after),
        funcs.growth().1 == 0 && funcs.v_advances_ensures(font, glyph, before, after)
            ==> funcs.base.v_advances_ensures(font, glyph, before, after),
        funcs.growth() == (0int, 0int) && funcs.h_origins_ensures(
            font,
            glyph,
            before,
            after,
            result,
        ) ==> funcs.base.h_origins_ensures(font, glyph, before, after, result),
        funcs.growth() == (0int, 0int) && funcs.v_origins_ensures(
            font,
            glyph,
            before,
            after,
            result,
        ) ==> funcs.base.v_origins_ensures(font, glyph, before, after, result),
{
    if funcs.growth().0 == 0 && funcs.h_advances_ensures(font, glyph, before, after) {
        let mid = choose|mid: Seq<GlyphPosition>|
            {
                &&& #[trigger] funcs.base.h_advances_ensures(font, glyph, before, mid)
                &&& mid.len() == before.len()
                &&& after.len() == mid.len()
                &&& forall|i: int|
                    0 <= i < mid.len() ==> (#[trigger] after[i]).has_x_advance(
                        mid[i],
                        synthetic::grown_advance(mid[i].x_advance as int, 0),
                    )
            };
        assert(after =~= mid);
    }
    if funcs.growth().1 == 0 && funcs.v_advances_ensures(font, glyph, before, after) {
        let mid = choose|mid: Seq<GlyphPosition>|
            {
                &&& #[trigger] funcs.base.v_advances_ensures(font, glyph, before, mid)
                &&& mid.len() == before.len()
                &&& after.len() == mid.len()
                &&& forall|i: int|
                    0 <= i < mid.len() ==> (#[trigger] after[i]).has_y_advance(
                        mid[i],
                        synthetic::grown_advance(mid[i].y_advance as int, 0),
                    )
            };
        assert(after =~= mid);
    }
    if funcs.growth() == (0int, 0int) && funcs.h_origins_ensures(
        font,
        glyph,
        before,
        after,
        result,
    ) && result is Ok {
        let mid = choose|mid: Seq<GlyphPosition>|
            {
                &&& #[trigger] funcs.base.h_origins_ensures(font, glyph, before, mid, result)
                &&& mid.len() == before.len()
                &&& synthetic::moved(mid, after, (0int, 0int))
            };
        assert(after =~= mid);
    }
    if funcs.growth() == (0int, 0int) && funcs.v_origins_ensures(
        font,
        glyph,
        before,
        after,
        result,
    ) && result is Ok {
        let mid = choose|mid: Seq<GlyphPosition>|
            {
                &&& #[trigger] funcs.base.v_origins_ensures(font, glyph, before, mid, result)
                &&& mid.len() == before.len()
                &&& synthetic::moved(mid, after, (0int, 0int))
            };
        assert(after =~= mid);
    }
}

/// Synthetic font functions without strength in a direction give the advances in it that the base
/// functions give; without strength in either, their origins, and without a slant their extents too.
pub proof fn no_strength_changes_nothing<T: FontFuncs, S: Slant>(
    funcs: SyntheticFontFuncs<T, S>,
    font: Face,
    glyph: Seq<GlyphInfo>,
    before: Seq<GlyphPosition>,
    after: Seq<GlyphPosition>,
    result: Result<(), ()>,
    id: GlyphId,
    extents: Option<GlyphExtents>,
)
    ensures
        funcs.x_strength == 0 && funcs.h_advances_ensures(font, glyph, before, after)
            ==> funcs.base.h_advances_ensures(font, glyph, before, after),
        funcs.y_strength == 0 && funcs.v_advances_ensures(font, glyph, before, after)
            ==> funcs.base.v_advances_ensures(font, glyph, before, after),
        funcs.x_strength == 0 && funcs.y_strength == 0 && funcs.h_origins_ensures(
            font,
            glyph,
            before,
            after,
            result,
        ) ==> funcs.base.h_origins_ensures(font, glyph, before, after, result),
        funcs.x_strength == 0 && funcs.y_strength == 0 && funcs.v_origins_ensures(
            font,
            glyph,
            before,
            after,
            result,
        ) ==> funcs.base.v_origins_ensures(font, glyph, before, after, result),
        funcs.x_strength == 0 && funcs.y_strength == 0 && funcs.slant is None
            && funcs.extents_ensures(font, id, extents) ==> funcs.base.extents_ensures(
            font,
            id,
            extents,
        ),
{
    lemma_no_growth(funcs, font, glyph, before, after, result);
    if funcs.x_strength == 0 && funcs.y_strength == 0 && funcs.slant is None
        && funcs.extents_ensures(font, id, extents) {
        let base = choose|base: Option<GlyphExtents>|
            {
                &&& #[trigger] funcs.base.extents_ensures(font, id, base)
                &&& match base {
                    Some(base) => extents is Some && funcs.extents_follow(base, extents->0),
                    None => extents is None,
                }
            };
        if base is Some {
            assert(synthetic::wide(base->0) == synthetic::wide(extents->0));
            assert(base->0 == extents->0);
        }
        assert(base == extents);
    }
}

/// Emboldening leaves a glyph without an advance without one.
pub proof fn no_advance_stays_none<T: FontFuncs, S: Slant>(
    funcs: SyntheticFontFuncs<T, S>,
    font: Face,
    glyph: Seq<GlyphInfo>,
    before: Seq<GlyphPosition>,
    after: Seq<GlyphPosition>,
    i: int,
)
    requires
        0 <= i < before.len(),
    ensures
        funcs.h_advances_ensures(font, glyph, before, after) && (forall|mid: Seq<GlyphPosition>|
            #[trigger] funcs.base.h_advances_ensures(font, glyph, before, mid) && mid.len()
                == before.len() ==> mid[i].x_advance == 0) ==> after[i].x_advance == 0,
        funcs.v_advances_ensures(font, glyph, before, after) && (forall|mid: Seq<GlyphPosition>|
            #[trigger] funcs.base.v_advances_ensures(font, glyph, before, mid) && mid.len()
                == before.len() ==> mid[i].y_advance == 0) ==> after[i].y_advance == 0,
{
}

/// Whether font functions that say that every horizontal origin is (0, 0) keep their word.
pub open spec fn origin_flag_is_right<F: FontFuncs>(
    funcs: F,
    font: Face,
    glyph: Seq<GlyphInfo>,
    before: Seq<GlyphPosition>,
) -> bool {
    funcs.non_default_h_origins_ensures(font, false) ==> forall|
        after: Seq<GlyphPosition>,
        result: Result<(), ()>,
        i: int,
    |
        #![trigger funcs.h_origins_ensures(font, glyph, before, after, result), after[i]]
        {
            &&& funcs.h_origins_ensures(font, glyph, before, after, result)
            &&& result is Ok
            &&& after.len() == before.len()
            &&& 0 <= i < glyph.len()
            &&& i < before.len()
        } ==> after[i].x_offset == 0 && after[i].y_offset == 0
}

/// By the metrics tables, every horizontal origin is (0, 0), and the font functions say so.
pub proof fn default_origin_flag_is_right(
    funcs: OtFontFuncs,
    font: Face,
    glyph: Seq<GlyphInfo>,
    before: Seq<GlyphPosition>,
)
    ensures
        funcs.non_default_h_origins_ensures(font, false),
        origin_flag_is_right(funcs, font, glyph, before),
{
}

/// Where the base functions are right about horizontal origins, so are synthetic ones.
pub proof fn synthetic_origin_flag_is_right<T: FontFuncs, S: Slant>(
    funcs: SyntheticFontFuncs<T, S>,
    font: Face,
    glyph: Seq<GlyphInfo>,
    before: Seq<GlyphPosition>,
)
    requires
        origin_flag_is_right(funcs.base, font, glyph, before),
    ensures
        origin_flag_is_right(funcs, font, glyph, before),
{
    if funcs.non_default_h_origins_ensures(font, false) {
        assert forall|after: Seq<GlyphPosition>, result: Result<(), ()>, i: int|
            #![trigger funcs.h_origins_ensures(font, glyph, before, after, result), after[i]]
            {
                &&& funcs.h_origins_ensures(font, glyph, before, after, result)
                &&& result is Ok
                &&& after.len() == before.len()
                &&& 0 <= i < glyph.len()
                &&& i < before.len()
            } implies after[i].x_offset == 0 && after[i].y_offset == 0 by {
            lemma_no_growth(funcs, font, glyph, before, after, result);
        }
    }
}

/// At the default location, the variations of a font change neither its advances nor its vertical
/// origins.
pub proof fn default_location_has_default_metrics(metrics: GlyphMetrics, glyph: GlyphId)
    ensures
        metrics.h_advance(glyph, Seq::empty()) == metrics.default_h_advance(glyph),
        metrics.v_advance(glyph, Seq::empty()) == -metrics.default_height(glyph),
        metrics.v_origin_x(glyph, Seq::empty()) == vertical_origin::half(
            metrics.default_h_advance(glyph),
        ),
        metrics.v_origin_y(glyph, Seq::empty()) == metrics.default_v_origin_y(glyph),
{
}

/// Vertical text runs down: at the default location of a font whose ascent is not below its descent, no
/// glyph moves the pen up.
pub proof fn vertical_text_runs_down(metrics: GlyphMetrics, glyph: GlyphId)
    requires
        metrics.ascent >= metrics.descent,
    ensures
        metrics.v_advance(glyph, Seq::empty()) <= 0,
{
}

/// The extents of a box span the box, and their height is negative where the box has one.
pub proof fn extents_span_the_box(
    funcs: OtFontFuncs,
    font: Face,
    glyph: GlyphId,
    extents: GlyphExtents,
)
    requires
        funcs.extents_ensures(font, glyph, Some(extents)),
    ensures
        ({
            let bounds = funcs.0.bounds(glyph, font.coords@)->0;
            &&& extents.x_bearing == bounds.x_min
            &&& extents.x_bearing + extents.width == bounds.x_max
            &&& extents.y_bearing == bounds.y_max
            &&& extents.y_bearing + extents.height == bounds.y_min
            &&& extents.height < 0 <==> bounds.y_min < bounds.y_max
        }),
{
}

/// Emboldening with strengths that are not negative makes the box of a glyph reach at least as far on
/// each side, wider and higher by the strengths.
pub proof fn emboldened_box_contains_the_box(
    extents: GlyphExtents,
    x_strength: i32,
    y_strength: i32,
)
    requires
        x_strength >= 0,
        y_strength >= 0,
    ensures
        ({
            let old_box = synthetic::wide(extents);
            let new_box = old_box.emboldened(x_strength, y_strength);
            &&& new_box.x_bearing <= old_box.x_bearing
            &&& new_box.x_bearing + new_box.width >= old_box.x_bearing + old_box.width
            &&& new_box.y_bearing >= old_box.y_bearing
            &&& new_box.y_bearing + new_box.height == old_box.y_bearing + old_box.height
            &&& new_box.width == old_box.width + x_strength
            &&& new_box.y_bearing == old_box.y_bearing + y_strength
            &&& new_box.height == old_box.height - y_strength
        }),
{
}

/// Moving glyphs forth and then back by the same origins leaves them where they were.
pub proof fn moving_back_undoes_moving(
    before: Seq<GlyphPosition>,
    moved: Seq<GlyphPosition>,
    after: Seq<GlyphPosition>,
    origins: Seq<GlyphPosition>,
    mult: int,
    back: int,
)
    requires
        mult == 1 || mult == -1,
        back == -mult,
        glyph_origins::moved_by_origins(before, moved, origins, mult),
        glyph_origins::moved_by_origins(moved, after, origins, back),
    ensures
        after == before,
{
    assert forall|i: int| 0 <= i < before.len() implies after[i] == before[i] by {
        if i < origins.len() {
            let x = origins[i].x_offset as int;
            let y = origins[i].y_offset as int;
            assert(mult * x + back * x == 0 && mult * y + back * y == 0) by (nonlinear_arith)
                requires
                    back == -mult,
            ;
        }
    }
    assert(after =~= before);
}

/// Whether font functions give a glyph the given origin wherever it is.
pub open spec fn origins_are<F: FontFuncs>(
    funcs: F,
    vertical: bool,
    font: Face,
    origin: spec_fn(GlyphId) -> (int, int),
) -> bool {
    forall|
        glyph: Seq<GlyphInfo>,
        before: Seq<GlyphPosition>,
        after: Seq<GlyphPosition>,
        result: Result<(), ()>,
        i: int,
    |
        #![trigger
            glyph_origins::origins_ensures(funcs, vertical, font, glyph, before, after, result),
            after[i]
        ]
        {
            &&& glyph_origins::origins_ensures(funcs, vertical, font, glyph, before, after, result)
            &&& before.len() == glyph.len()
            &&& after.len() == glyph.len()
            &&& 0 <= i < glyph.len()
        } ==> {
            &&& after[i].x_offset == origin(glyph[i].glyph_id).0
            &&& after[i].y_offset == origin(glyph[i].glyph_id).1
        }
}

/// The origin of a glyph by the metrics tables: (0, 0) in horizontal text.
pub open spec fn default_origin(
    metrics: &GlyphMetrics,
    vertical: bool,
    coords: Seq<NormalizedCoord>,
) -> spec_fn(GlyphId) -> (int, int) {
    |glyph: GlyphId|
        if vertical {
            (metrics.v_origin_x(glyph, coords), metrics.v_origin_y(glyph, coords))
        } else {
            (0, 0)
        }
}

/// By the metrics tables, a glyph has the same origin wherever it is.
pub proof fn default_origins_are_per_glyph<F: FontFuncs>(
    class: FontClass<'_, F>,
    vertical: bool,
    font: Face,
)
    requires
        class is Default,
    ensures
        origins_are(
            class,
            vertical,
            font,
            default_origin(&class->Default_0.0, vertical, font.coords@),
        ),
{
}

/// The origins that are retrieved in chunks are those of each glyph.
pub(crate) proof fn lemma_retrieved_origin<F: FontFuncs>(
    funcs: F,
    vertical: bool,
    font: Face,
    glyph: Seq<GlyphInfo>,
    origin: spec_fn(GlyphId) -> (int, int),
    origins: Seq<GlyphPosition>,
    i: int,
)
    requires
        origins_are(funcs, vertical, font, origin),
        0 <= i < origins.len(),
        glyph_origins::retrieved(funcs, vertical, font, glyph, origins),
    ensures
        origins[i].x_offset == origin(glyph[i].glyph_id).0,
        origins[i].y_offset == origin(glyph[i].glyph_id).1,
{
    let chunk: nat = (i / glyph_origins::CHUNK as int) as nat;
    let start = chunk * glyph_origins::CHUNK;
    let end = glyph_origins::chunk_end(glyph.len(), chunk);
    assert(start <= i < end);
    assert(glyph_origins::chunk_retrieved(funcs, vertical, font, glyph, origins, chunk));
    let before = glyph_origins::chunk_before(glyph.len(), origins, chunk);
    let part = origins.subrange(start, end);
    assert(part[i - start] == origins[i]);
    assert(glyph.subrange(start, end)[i - start] == glyph[i]);
    assert(before.len() == end - start);
}

/// Moving glyphs by their origins and back, in either order, leaves them where they were, for all font
/// functions that give a glyph the same origin wherever it is.
pub proof fn origins_move_forth_and_back<F: FontFuncs>(
    funcs: F,
    vertical: bool,
    font: Face,
    glyph: Seq<GlyphInfo>,
    origin: spec_fn(GlyphId) -> (int, int),
    forth: Seq<GlyphPosition>,
    back: Seq<GlyphPosition>,
    before: Seq<GlyphPosition>,
    moved: Seq<GlyphPosition>,
    after: Seq<GlyphPosition>,
    mult: int,
)
    requires
        mult == 1 || mult == -1,
        origins_are(funcs, vertical, font, origin),
        forth.len() == glyph.len(),
        back.len() == glyph.len(),
        glyph_origins::retrieved(funcs, vertical, font, glyph, forth),
        glyph_origins::retrieved(funcs, vertical, font, glyph, back),
        glyph_origins::moved_by_origins(before, moved, forth, mult),
        glyph_origins::moved_by_origins(moved, after, back, -mult),
    ensures
        after == before,
{
    assert forall|i: int| 0 <= i < before.len() implies after[i] == before[i] by {
        if i < glyph.len() {
            lemma_retrieved_origin(funcs, vertical, font, glyph, origin, forth, i);
            lemma_retrieved_origin(funcs, vertical, font, glyph, origin, back, i);
        }
    }
    assert(after =~= before);
}

/// By the metrics tables, moving glyphs by their origins and back, in either order, leaves them where
/// they were.
pub proof fn default_origins_move_forth_and_back<F: FontFuncs>(
    class: FontClass<'_, F>,
    vertical: bool,
    font: Face,
    glyph: Seq<GlyphInfo>,
    forth: Seq<GlyphPosition>,
    back: Seq<GlyphPosition>,
    before: Seq<GlyphPosition>,
    moved: Seq<GlyphPosition>,
    after: Seq<GlyphPosition>,
    mult: int,
)
    requires
        class is Default,
        mult == 1 || mult == -1,
        forth.len() == glyph.len(),
        back.len() == glyph.len(),
        glyph_origins::retrieved(class, vertical, font, glyph, forth),
        glyph_origins::retrieved(class, vertical, font, glyph, back),
        glyph_origins::moved_by_origins(before, moved, forth, mult),
        glyph_origins::moved_by_origins(moved, after, back, -mult),
    ensures
        after == before,
{
    let origin = default_origin(&class->Default_0.0, vertical, font.coords@);
    default_origins_are_per_glyph(class, vertical, font);
    origins_move_forth_and_back(
        class,
        vertical,
        font,
        glyph,
        origin,
        forth,
        back,
        before,
        moved,
        after,
        mult,
    );
}

/// By the metrics tables, moving glyphs by their horizontal origins leaves them where they are.
pub proof fn default_h_origins_move_nothing<F: FontFuncs>(
    class: FontClass<'_, F>,
    font: Face,
    glyph: Seq<GlyphInfo>,
    origins: Seq<GlyphPosition>,
    before: Seq<GlyphPosition>,
    after: Seq<GlyphPosition>,
    mult: int,
)
    requires
        class is Default,
        origins.len() == glyph.len(),
        glyph_origins::retrieved(class, false, font, glyph, origins),
        glyph_origins::moved_by_origins(before, after, origins, mult),
    ensures
        after == before,
{
    let origin = default_origin(&class->Default_0.0, false, font.coords@);
    default_origins_are_per_glyph(class, false, font);
    assert forall|i: int| 0 <= i < before.len() implies after[i] == before[i] by {
        if i < origins.len() {
            lemma_retrieved_origin(class, false, font, glyph, origin, origins, i);
            assert(mult * 0 == 0) by (nonlinear_arith);
        }
    }
    assert(after =~= before);
}

/// The origin of a glyph by the metrics tables is far from the limits of 32 bits.
proof fn lemma_origin_is_small(
    metrics: GlyphMetrics,
    glyph: GlyphId,
    coords: Seq<NormalizedCoord>,
)
    ensures
        -0x8_0000 <= metrics.v_origin_x(glyph, coords) <= 0x8_0000,
        -0x8_0000 <= metrics.v_origin_y(glyph, coords) <= 0x8_0000,
{
    let advance = metrics.h_advance_delta(glyph, coords);
    assert(-0x1_0000 <= advance.width() <= 0x1_0000);
    assert(-0x2_0000 <= metrics.h_advance(glyph, coords) <= 0x2_0000);
    let bearing = metrics.top_bearing_delta(glyph, coords);
    assert(-0x8000 <= bearing.top_bearing() <= 0x8000);
    if let Some(bounds) = metrics.bounds(glyph, coords) {
        assert(-0x8000 <= bounds.y_max <= 0x8000);
        assert(-0x8000 <= bounds.y_min <= 0x8000);
    }
}

/// By the metrics tables, a shaper can move glyphs by their origins, wherever they are but for the last
/// million units before the limits of 32 bits.
pub proof fn default_origins_can_be_applied<F: FontFuncs>(
    class: FontClass<'_, F>,
    vertical: bool,
    font: Face,
    glyph: Seq<GlyphInfo>,
    origins: Seq<GlyphPosition>,
    positions: Seq<GlyphPosition>,
    mult: int,
)
    requires
        class is Default,
        class.wf(),
        mult == 1 || mult == -1,
        glyph_origins::retrieved(class, vertical, font, glyph, origins),
        forall|i: int|
            0 <= i < positions.len() ==> {
                &&& -0x7ff0_0000 <= (#[trigger] positions[i]).x_offset <= 0x7ff0_0000
                &&& -0x7ff0_0000 <= positions[i].y_offset <= 0x7ff0_0000
            },
    ensures
        glyph_origins::can_continue(class, vertical, font, glyph, origins),
        glyph_origins::moves_fit(positions, origins, mult),
{
    assert forall|i: int| 0 <= i < origins.len() && i < positions.len() implies {
        &&& i32::MIN <= #[trigger] positions[i].x_offset + mult * origins[i].x_offset <= i32::MAX
        &&& i32::MIN <= positions[i].y_offset + mult * origins[i].y_offset <= i32::MAX
    } by {
        default_origins_are_per_glyph(class, vertical, font);
        let origin = default_origin(&class->Default_0.0, vertical, font.coords@);
        lemma_retrieved_origin(class, vertical, font, glyph, origin, origins, i);
        lemma_origin_is_small(class->Default_0.0, glyph[i].glyph_id, font.coords@);
    }
}

/// The advances of a glyph by the metrics tables are far from the limits of 32 bits.
proof fn lemma_advance_is_small(
    metrics: GlyphMetrics,
    glyph: GlyphId,
    coords: Seq<NormalizedCoord>,
)
    ensures
        -0x2_0000 <= metrics.h_advance(glyph, coords) <= 0x2_0000,
        -0x2_0000 <= metrics.v_advance(glyph, coords) <= 0x2_0000,
{
    let width = metrics.h_advance_delta(glyph, coords);
    assert(-0x1_0000 <= width.width() <= 0x1_0000);
    let height = metrics.v_advance_delta(glyph, coords);
    assert(-0x1_0000 <= height.height() <= 0x1_0000);
}

/// By the metrics tables, every glyph can be emboldened by strengths that are not beyond half of what
/// 32 bits hold.
pub proof fn emboldening_fits<S: Slant>(
    funcs: SyntheticFontFuncs<OtFontFuncs<'_>, S>,
    font: Face,
    glyph: Seq<GlyphInfo>,
    before: Seq<GlyphPosition>,
    id: GlyphId,
)
    requires
        funcs.base.0.wf(),
        -0x4000_0000 <= funcs.x_strength <= 0x4000_0000,
        -0x4000_0000 <= funcs.y_strength <= 0x4000_0000,
        before.len() <= glyph.len(),
    ensures
        funcs.h_advances_requires(font, glyph, before),
        funcs.v_advances_requires(font, glyph, before),
        funcs.h_origins_requires(font, glyph, before),
        funcs.v_origins_requires(font, glyph, before),
        funcs.slant is None ==> funcs.extents_requires(font, id),
{
    assert forall|i: int| 0 <= i < before.len() implies {
        let metrics = funcs.base.0;
        let id = (#[trigger] glyph[i]).glyph_id;
        &&& -0x2_0000 <= metrics.h_advance(id, font.coords@) <= 0x2_0000
        &&& -0x2_0000 <= metrics.v_advance(id, font.coords@) <= 0x2_0000
        &&& -0x8_0000 <= metrics.v_origin_x(id, font.coords@) <= 0x8_0000
        &&& -0x8_0000 <= metrics.v_origin_y(id, font.coords@) <= 0x8_0000
    } by {
        lemma_advance_is_small(funcs.base.0, glyph[i].glyph_id, font.coords@);
        lemma_origin_is_small(funcs.base.0, glyph[i].glyph_id, font.coords@);
    }
    if let Some(bounds) = funcs.base.0.bounds(id, font.coords@) {
        assert(bounds.in_font_range());
    }
}

} // verus!
