//! What instances of variable fonts are, in terms of the bytes of a font file.
//!
//! Every law here starts from a call of a public function, and says of its result what the file says.
use vstd::prelude::*;

use crate::engine::ShapingEngine;
use crate::font::{FontRef, LayoutTable, TableIndex, TableRange};
use crate::font_tables;
use crate::font_tables::Variation;
use crate::glyph::NormalizedCoord;
use crate::instance::{is_default_location, pair_variations, ShaperInstance};

verus! {

/// The bytes of the table with the given name in a font file.
pub open spec fn named_table(font: FontRef, tag: u32) -> Option<Seq<u8>> {
    font_tables::font_table(font.data@, font.index, tag)
}

/// A table is looked up by its name.
pub proof fn tables_are_found_by_name(font: &FontRef<'_>, tag: u32, table: Option<&[u8]>)
    requires
        call_ensures(FontRef::table_data, (font, tag), table),
    ensures
        table is Some <==> named_table(*font, tag) is Some,
        table matches Some(data) ==> named_table(*font, tag) == Some(data@),
{
}

/// A layout table is the one with its name, `GSUB` or `GPOS`, if that has ten bytes for its header.
pub proof fn layout_tables_are_found_by_name(
    font: &FontRef<'_>,
    gsub: Option<LayoutTable<'_>>,
    gpos: Option<LayoutTable<'_>>,
)
    requires
        call_ensures(FontRef::layout_table, (font, TableIndex::GSUB), gsub),
        call_ensures(FontRef::layout_table, (font, TableIndex::GPOS), gpos),
    ensures
        match gsub {
            Some(LayoutTable::Gsub(data)) => data@.len() >= 10 && named_table(*font, 0x4753_5542)
                == Some(data@),
            Some(LayoutTable::Gpos(_)) => false,
            None => named_table(*font, 0x4753_5542) is None || named_table(
                *font,
                0x4753_5542,
            )->0.len() < 10,
        },
        match gpos {
            Some(LayoutTable::Gpos(data)) => data@.len() >= 10 && named_table(*font, 0x4750_4f53)
                == Some(data@),
            Some(LayoutTable::Gsub(_)) => false,
            None => named_table(*font, 0x4750_4f53) is None || named_table(
                *font,
                0x4750_4f53,
            )->0.len() < 10,
        },
{
}

/// A table is the part of the file that its range gives, if that is not empty and lies in the file.
pub proof fn ranges_are_parts_of_the_file(
    range: &TableRange,
    font: &FontRef<'_>,
    data: Option<&[u8]>,
)
    requires
        call_ensures(TableRange::resolve_data, (range, font), data),
    ensures
        data is Some <==> range.start < range.end && range.end <= font.data@.len(),
        data matches Some(data) ==> {
            &&& data@.len() == range.end - range.start
            &&& forall|i: int|
                0 <= i < data@.len() ==> #[trigger] data@[i] == font.data@[range.start + i]
        },
{
}

/// A location is the default one if every coordinate is zero.
pub proof fn default_locations_are_zero(coords: &[NormalizedCoord], default: bool)
    requires
        call_ensures(is_default_location, (coords,), default),
    ensures
        default <==> forall|i: int| 0 <= i < coords@.len() ==> #[trigger] coords@[i] == 0,
{
}

/// Each tag gets the value at its place, as far as there are both.
pub proof fn tags_and_values_are_paired(tags: &[u32], values: &[i32], variations: Vec<Variation>)
    requires
        call_ensures(pair_variations, (tags, values), variations),
    ensures
        variations@.len() == tags@.len() || variations@.len() == values@.len(),
        variations@.len() <= tags@.len(),
        variations@.len() <= values@.len(),
        forall|i: int|
            0 <= i < variations@.len() ==> (#[trigger] variations@[i]).tag == tags@[i]
                && variations@[i].value == values@[i],
{
}

/// The number of axes of a font: the number in the header of its `fvar` table, or none if it has no such
/// table or one that is too short for its header.
pub open spec fn axes(font: FontRef) -> Option<int> {
    match named_table(font, 0x6676_6172) {
        Some(fvar) if fvar.len() >= 16 => Some(font_tables::be_u16(fvar, 8)),
        _ => None,
    }
}

/// Whether an instance has the given coordinates, but none where all of them are zero.
pub open spec fn has_coords(instance: ShaperInstance, coords: Seq<NormalizedCoord>) -> bool {
    if exists|i: int| 0 <= i < coords.len() && #[trigger] coords[i] != 0 {
        &&& instance.coords@.len() == coords.len()
        &&& forall|i: int| 0 <= i < coords.len() ==> #[trigger] instance.coords@[i] == coords[i]
    } else {
        instance.coords@.len() == 0
    }
}

/// Whether the layout engine gave the feature variations of an instance: none at the default location, and
/// elsewhere what it picks for each layout table that the font has, for the coordinates of the instance.
pub open spec fn has_picks<E: ShapingEngine>(font: FontRef, instance: ShaperInstance) -> bool {
    let gsub = named_table(font, 0x4753_5542);
    let gpos = named_table(font, 0x4750_4f53);
    let coords = instance.coords@;
    let picks = instance.feature_variations@;
    &&& coords.len() == 0 || gsub is None || gsub->0.len() < 10 ==> picks[0] is None
    &&& coords.len() > 0 && gsub is Some && gsub->0.len() >= 10 ==> exists|
        data: &[u8],
        slice: &[NormalizedCoord],
    |
        data@ == gsub->0 && slice@ == coords && #[trigger] call_ensures(
            E::feature_variation_index,
            (&LayoutTable::Gsub(data), slice),
            picks[0],
        )
    &&& coords.len() == 0 || gpos is None || gpos->0.len() < 10 ==> picks[1] is None
    &&& coords.len() > 0 && gpos is Some && gpos->0.len() >= 10 ==> exists|
        data: &[u8],
        slice: &[NormalizedCoord],
    |
        data@ == gpos->0 && slice@ == coords && #[trigger] call_ensures(
            E::feature_variation_index,
            (&LayoutTable::Gpos(data), slice),
            picks[1],
        )
}

/// The layout engine gave the feature variations of an instance at any location.
proof fn lemma_picks<E: ShapingEngine>(
    font: FontRef,
    location: Seq<NormalizedCoord>,
    instance: ShaperInstance,
)
    requires
        instance.is_at::<E>(font, location),
    ensures
        has_picks::<E>(font, instance),
{
    let gsub = named_table(font, 0x4753_5542);
    let gpos = named_table(font, 0x4750_4f53);
    let coords = instance.coords@;
    if coords.len() > 0 && gsub is Some && gsub->0.len() >= 10 {
        let (table, slice) = choose|table: LayoutTable, slice: &[NormalizedCoord]|
            {
                &&& table.table_index() == TableIndex::GSUB
                &&& table.bytes() == gsub->0
                &&& slice@ == coords
                &&& #[trigger] call_ensures(
                    E::feature_variation_index,
                    (&table, slice),
                    instance.feature_variations@[0],
                )
            };
        assert(table == LayoutTable::Gsub(table->Gsub_0));
    }
    if coords.len() > 0 && gpos is Some && gpos->0.len() >= 10 {
        let (table, slice) = choose|table: LayoutTable, slice: &[NormalizedCoord]|
            {
                &&& table.table_index() == TableIndex::GPOS
                &&& table.bytes() == gpos->0
                &&& slice@ == coords
                &&& #[trigger] call_ensures(
                    E::feature_variation_index,
                    (&table, slice),
                    instance.feature_variations@[1],
                )
            };
        assert(table == LayoutTable::Gpos(table->Gpos_0));
    }
}

/// Whether a list of coordinates is made of the first ones of another list, as many as a font has axes.
pub open spec fn are_first_of(
    first: Seq<NormalizedCoord>,
    coords: Seq<NormalizedCoord>,
    font: FontRef,
) -> bool {
    let count = match axes(font) {
        Some(count) => count,
        None => 0,
    };
    &&& first.len() == (if coords.len() <= count {
        coords.len() as int
    } else {
        count
    })
    &&& forall|i: int| 0 <= i < first.len() ==> #[trigger] first[i] == coords[i]
}

/// An instance from coordinates has the first of them, as many as the font has axes, and none where these
/// are all zero; the layout engine gives its feature variations. It does not matter what it was before.
pub proof fn coords_make_an_instance<E: ShapingEngine>(
    font: &FontRef<'_>,
    coords: &[NormalizedCoord],
    first: Seq<NormalizedCoord>,
    made: ShaperInstance,
    set: &mut ShaperInstance,
)
    requires
        call_ensures(ShaperInstance::from_coords::<E>, (font, coords), made),
        call_ensures(ShaperInstance::set_coords::<E>, (set, font, coords), ()),
        are_first_of(first, coords@, *font),
    ensures
        has_coords(made, first),
        has_picks::<E>(*font, made),
        has_coords(*final(set), first),
        has_picks::<E>(*font, *final(set)),
{
    let location = crate::instance::coords_location(*font, coords@);
    assert(first =~= location);
    lemma_picks::<E>(*font, location, made);
    lemma_picks::<E>(*font, location, *final(set));
}

/// The coordinates of a list of variation settings, as the `fvar` and `avar` tables of a font give them:
/// one for each axis, of a font that has axes.
pub open spec fn settings_coords(font: FontRef, variations: Seq<Variation>) -> Seq<NormalizedCoord> {
    match axes(font) {
        Some(count) => font_tables::normalized_location(
            named_table(font, 0x6676_6172)->0,
            named_table(font, 0x6176_6172),
            font_tables::settings(variations),
            count as nat,
        ),
        None => Seq::empty(),
    }
}

/// An instance from variation settings has the coordinates that the tables of the font give for them, and
/// none where these are all zero; the layout engine gives its feature variations. It does not matter what
/// it was before.
pub proof fn settings_make_an_instance<E: ShapingEngine>(
    font: &FontRef<'_>,
    variations: &[Variation],
    made: ShaperInstance,
    set: &mut ShaperInstance,
)
    requires
        call_ensures(ShaperInstance::from_variations::<E>, (font, variations), made),
        call_ensures(ShaperInstance::set_variations::<E>, (set, font, variations), ()),
    ensures
        has_coords(made, settings_coords(*font, variations@)),
        has_picks::<E>(*font, made),
        has_coords(*final(set), settings_coords(*font, variations@)),
        has_picks::<E>(*font, *final(set)),
{
    let location = crate::instance::variations_location(*font, variations@);
    assert(settings_coords(*font, variations@) =~= location);
    lemma_picks::<E>(*font, location, made);
    lemma_picks::<E>(*font, location, *final(set));
}

/// Whether a font has a named instance: its axes have a place, and there is a record for the instance.
pub open spec fn is_named(font: FontRef, index: usize) -> bool {
    &&& axes(font) is Some
    &&& font_tables::axis_tags(named_table(font, 0x6676_6172)->0) is Some
    &&& font_tables::instance_location(named_table(font, 0x6676_6172)->0, index) is Some
}

/// Whether settings give each axis of a font, in order, the coordinate of a named instance for it, to the
/// precision of a single precision number.
pub open spec fn are_settings_of(
    variations: Seq<Variation>,
    font: FontRef,
    index: usize,
) -> bool {
    let tags = font_tables::axis_tags(named_table(font, 0x6676_6172)->0)->0;
    let values = font_tables::instance_location(named_table(font, 0x6676_6172)->0, index)->0;
    &&& variations.len() == (if tags.len() <= values.len() {
        tags.len()
    } else {
        values.len()
    })
    &&& forall|i: int|
        0 <= i < variations.len() ==> {
            &&& (#[trigger] variations[i]).tag == tags[i]
            &&& variations[i].value == font_tables::single_precision(values[i])
        }
}

/// A named instance of a font has the coordinates of the settings that give each axis its coordinate in the
/// record of the instance, whatever its sign. Where there is no such instance, no coordinates and no
/// feature variations are left.
pub proof fn names_make_an_instance<E: ShapingEngine>(
    font: &FontRef<'_>,
    index: usize,
    variations: Seq<Variation>,
    made: ShaperInstance,
    set: &mut ShaperInstance,
)
    requires
        call_ensures(ShaperInstance::from_named_instance::<E>, (font, index), made),
        call_ensures(ShaperInstance::set_named_instance::<E>, (set, font, index), ()),
        is_named(*font, index) ==> are_settings_of(variations, *font, index),
    ensures
        is_named(*font, index) ==> has_coords(made, settings_coords(*font, variations)),
        !is_named(*font, index) ==> made.coords@.len() == 0,
        has_picks::<E>(*font, made),
        is_named(*font, index) ==> has_coords(*final(set), settings_coords(*font, variations)),
        !is_named(*font, index) ==> final(set).coords@.len() == 0,
        has_picks::<E>(*font, *final(set)),
{
    let location = crate::instance::named_location(*font, index);
    if is_named(*font, index) {
        assert(variations =~= crate::instance::named_variations(*font, index)->0);
        assert(settings_coords(*font, variations) =~= location);
    }
    lemma_picks::<E>(*font, location, made);
    lemma_picks::<E>(*font, location, *final(set));
}

/// Setting `i` of a named instance has the tag of axis `i`, and the coordinate `i` of the instance to the
/// precision of a single precision number.
pub proof fn named_settings_are_in_axis_order(font: FontRef, index: usize)
    requires
        is_named(font, index),
    ensures
        crate::instance::named_variations(font, index) is Some,
        are_settings_of(crate::instance::named_variations(font, index)->0, font, index),
{
}

/// A new instance is at the default location, a clone is like the instance, and the coordinates of an
/// instance are those that it holds.
pub proof fn instances_are_kept(
    new: ShaperInstance,
    instance: &ShaperInstance,
    cloned: ShaperInstance,
    coords: &[NormalizedCoord],
)
    requires
        call_ensures(<ShaperInstance as Default>::default, (), new),
        call_ensures(<ShaperInstance as Clone>::clone, (instance,), cloned),
        call_ensures(ShaperInstance::coords, (instance,), coords),
    ensures
        new.coords@.len() == 0,
        new.feature_variations@[0] is None,
        new.feature_variations@[1] is None,
        cloned.coords@ == instance.coords@,
        cloned.feature_variations@ == instance.feature_variations@,
        coords@ == instance.coords@,
{
}

} // verus!
