//! Instances of variable fonts.
use vstd::prelude::*;

use vstd::slice::slice_subrange;

use crate::coords::Coords;
use crate::engine::ShapingEngine;
use crate::font::{FontRef, LayoutTable, TableIndex, AVAR, FVAR};
use crate::font_tables;
use crate::font_tables::{
    fixed_single_precision, fvar_axis_count, fvar_axis_tags, fvar_instance_coordinates,
    fvar_user_to_normalized, Variation,
};
use crate::glyph::NormalizedCoord;

verus! {

/// Whether a location is the default location of a font.
pub open spec fn is_default(coords: Seq<NormalizedCoord>) -> bool {
    forall|i: int| 0 <= i < coords.len() ==> #[trigger] coords[i] == 0
}

/// A location, where the default one is written without coordinates.
pub open spec fn reduced(coords: Seq<NormalizedCoord>) -> Seq<NormalizedCoord> {
    if is_default(coords) {
        Seq::empty()
    } else {
        coords
    }
}

/// Returns whether a location is the default location of a font.
pub fn is_default_location(coords: &[NormalizedCoord]) -> (default: bool)
    ensures
        default == is_default(coords@),
{
    let mut i: usize = 0;
    while i < coords.len()
        invariant
            i <= coords@.len(),
            forall|j: int| 0 <= j < i ==> coords@[j] == 0,
        decreases coords.len() - i,
    {
        if coords[i] != 0 {
            return false;
        }
        i += 1;
    }
    true
}

/// Variation settings that give each axis its value, as far as there are both.
pub open spec fn paired(tags: Seq<u32>, values: Seq<i32>) -> Seq<Variation> {
    Seq::new(
        if tags.len() < values.len() {
            tags.len()
        } else {
            values.len()
        },
        |i: int| Variation { tag: tags[i], value: values[i] },
    )
}

/// Returns the variation settings that give each axis its value, as far as there are both.
pub fn pair_variations(tags: &[u32], values: &[i32]) -> (variations: Vec<Variation>)
    ensures
        variations@ == paired(tags@, values@),
{
    let mut variations: Vec<Variation> = Vec::new();
    let mut i: usize = 0;
    while i < tags.len() && i < values.len()
        invariant
            i <= tags@.len(),
            i <= values@.len(),
            variations@.len() == i,
            forall|j: int|
                0 <= j < i ==> #[trigger] variations@[j] == (Variation {
                    tag: tags@[j],
                    value: values@[j],
                }),
        decreases tags.len() - i,
    {
        variations.push(Variation { tag: tags[i], value: values[i] });
        i += 1;
    }
    assert(variations@ =~= paired(tags@, values@));
    variations
}

/// Rounds each value to what a single precision number can hold.
fn single_precision_values(values: &[i32]) -> (rounded: Vec<i32>)
    ensures
        rounded@ == values@.map_values(|value: i32| font_tables::single_precision(value)),
{
    let mut rounded: Vec<i32> = Vec::new();
    let mut i: usize = 0;
    while i < values.len()
        invariant
            i <= values@.len(),
            rounded@.len() == i,
            forall|j: int|
                0 <= j < i ==> #[trigger] rounded@[j] == font_tables::single_precision(values@[j]),
        decreases values.len() - i,
    {
        rounded.push(fixed_single_precision(values[i]));
        i += 1;
    }
    assert(rounded@ =~= values@.map_values(|value: i32| font_tables::single_precision(value)));
    rounded
}

/// The number of axes of a font; `None` if it is not variable.
pub open spec fn font_axes(font: FontRef) -> Option<u16> {
    match font.table(FVAR) {
        Some(fvar) => font_tables::axis_count(fvar),
        None => None,
    }
}

/// Whether the axis variations of a font, if it has them, leave every axis at 0 where it is at 0.
pub open spec fn keeps_default(font: FontRef) -> bool {
    forall|i: int|
        0 <= i < font_axes(font)->0 ==> #[trigger] font_tables::avar_keeps_zero(font.table(AVAR), i)
}

/// Whether a list of variation settings leaves every axis of a font at its default value.
pub open spec fn are_default(font: FontRef, variations: Seq<Variation>) -> bool {
    forall|i: int|
        0 <= i < font_axes(font)->0 ==> #[trigger] font_tables::axis_rests(
            font.table(FVAR)->0,
            font_tables::settings(variations),
            i,
        )
}

/// The normalized coordinates of a list of variation settings, one for each axis of a variable font.
pub open spec fn user_location(font: FontRef, variations: Seq<Variation>) -> Seq<NormalizedCoord> {
    font_tables::normalized_location(
        font.table(FVAR)->0,
        font.table(AVAR),
        font_tables::settings(variations),
        font_axes(font)->0 as nat,
    )
}

/// The variation settings of a named instance of a variable font; `None` if there is no such
/// instance.
pub open spec fn named_variations(font: FontRef, index: usize) -> Option<Seq<Variation>> {
    let tags = font_tables::axis_tags(font.table(FVAR)->0);
    let values = font_tables::instance_location(font.table(FVAR)->0, index);
    if tags is Some && values is Some {
        Some(
            paired(
                tags->0,
                values->0.map_values(|value: i32| font_tables::single_precision(value)),
            ),
        )
    } else {
        None
    }
}

/// Where a list of variation settings leads: nowhere but to the default location if the font is not
/// variable.
pub open spec fn variations_location(font: FontRef, variations: Seq<Variation>) -> Seq<
    NormalizedCoord,
> {
    if font_axes(font) is Some {
        user_location(font, variations)
    } else {
        Seq::empty()
    }
}

/// Where normalized coordinates lead: nowhere but to the default location if the font is not variable.
pub open spec fn coords_location(font: FontRef, coords: Seq<NormalizedCoord>) -> Seq<
    NormalizedCoord,
> {
    match font_axes(font) {
        Some(count) => clipped(coords, count as nat),
        None => Seq::empty(),
    }
}

/// Whether a font has a named instance.
pub open spec fn has_named_instance(font: FontRef, index: usize) -> bool {
    font_axes(font) is Some && named_variations(font, index) is Some
}

/// Where a named instance lies: at the default location if the font has no such instance.
pub open spec fn named_location(font: FontRef, index: usize) -> Seq<NormalizedCoord> {
    if has_named_instance(font, index) {
        user_location(font, named_variations(font, index)->0)
    } else {
        Seq::empty()
    }
}

/// Whether the layout engine picks the given feature variations of a layout table at a location; it
/// is not asked where the font has no such table.
pub open spec fn picks<E: ShapingEngine>(
    font: FontRef,
    index: TableIndex,
    coords: Seq<NormalizedCoord>,
    pick: Option<u32>,
) -> bool {
    match font.layout_bytes(index) {
        Some(bytes) => exists|table: LayoutTable, slice: &[NormalizedCoord]|
            {
                &&& table.table_index() == index
                &&& table.bytes() == bytes
                &&& slice@ == coords
                &&& #[trigger] call_ensures(E::feature_variation_index, (&table, slice), pick)
            },
        None => pick is None,
    }
}

/// Whether these are the feature variations that apply at a location: none at the default location.
pub open spec fn variations_apply<E: ShapingEngine>(
    font: FontRef,
    coords: Seq<NormalizedCoord>,
    feature_variations: [Option<u32>; 2],
) -> bool {
    if coords.len() == 0 {
        feature_variations@ == seq![None::<u32>, None::<u32>]
    } else {
        &&& picks::<E>(font, TableIndex::GSUB, coords, feature_variations@[0])
        &&& picks::<E>(font, TableIndex::GPOS, coords, feature_variations@[1])
    }
}

/// An instance of a variable font.
#[derive(Debug)]
pub struct ShaperInstance {
    /// The normalized coordinates; none at the default location.
    pub coords: Coords,
    /// The feature variations that apply, of the substitution and of the positioning table.
    pub feature_variations: [Option<u32>; 2],
}

impl Default for ShaperInstance {
    fn default() -> (instance: Self)
        ensures
            instance.coords@.len() == 0,
            instance.feature_variations@ == seq![None::<u32>, None::<u32>],
    {
        let instance = ShaperInstance { coords: Coords::new(), feature_variations: [None, None] };
        assert(instance.feature_variations@ =~= seq![None::<u32>, None::<u32>]);
        instance
    }
}

impl Clone for ShaperInstance {
    fn clone(&self) -> (instance: Self)
        ensures
            instance.coords@ == self.coords@,
            instance.feature_variations == self.feature_variations,
    {
        ShaperInstance {
            coords: self.coords.clone(),
            feature_variations: self.feature_variations,
        }
    }
}

impl ShaperInstance {
    /// Whether the default location is written without coordinates.
    pub open spec fn wf(self) -> bool {
        self.coords@.len() > 0 ==> !is_default(self.coords@)
    }

    /// Whether there is at most one coordinate for each axis of the font.
    pub open spec fn within_axes(self, font: FontRef) -> bool {
        self.coords@.len() <= match font_axes(font) {
            Some(count) => count as nat,
            None => 0,
        }
    }

    /// Whether this is the instance of a font at a location.
    pub open spec fn is_at<E: ShapingEngine>(
        self,
        font: FontRef,
        location: Seq<NormalizedCoord>,
    ) -> bool {
        &&& self.coords@ == reduced(location)
        &&& variations_apply::<E>(font, self.coords@, self.feature_variations)
    }

    /// Whether there are no coordinates, or one for each axis of the font.
    pub open spec fn has_all_axes(self, font: FontRef) -> bool {
        self.coords@.len() == 0 || (font_axes(font) is Some && self.coords@.len() == font_axes(
            font,
        )->0)
    }

    /// Whether this is the default location, where no feature variations apply.
    pub open spec fn is_cleared(self) -> bool {
        &&& self.coords@.len() == 0
        &&& self.feature_variations@ == seq![None::<u32>, None::<u32>]
    }

    /// Whether each axis that the settings leave at its default value is at 0, unless the axis
    /// variations of the font move it from there.
    pub open spec fn rests_at_defaults(self, font: FontRef, variations: Seq<Variation>) -> bool {
        forall|i: int|
            0 <= i < self.coords@.len() && font_tables::axis_rests(
                font.table(FVAR)->0,
                font_tables::settings(variations),
                i,
            ) && font_tables::avar_keeps_zero(font.table(AVAR), i) ==> #[trigger] self.coords@[i]
                == 0
    }

    /// Creates a new shaper instance for the given font from the specified
    /// list of variation settings.
    ///
    /// The setting values are in user space and the order is insignificant.
    pub fn from_variations<E: ShapingEngine>(font: &FontRef<'_>, variations: &[Variation]) -> (instance:
        Self)
        ensures
            instance.wf(),
            instance.has_all_axes(*font),
            instance.is_at::<E>(*font, variations_location(*font, variations@)),
            font_axes(*font) is None ==> instance.is_cleared(),
            instance.rests_at_defaults(*font, variations@),
            keeps_default(*font) && are_default(*font, variations@) ==> instance.is_cleared(),
            keeps_default(*font) && variations@.len() == 0 ==> instance.is_cleared(),
    {
        let mut instance = ShaperInstance::default();
        instance.set_variations::<E>(font, variations);
        instance
    }

    /// Creates a new shaper instance for the given font from the specified
    /// set of normalized coordinates.
    ///
    /// The sequence of coordinates is expected to be in axis order.
    pub fn from_coords<E: ShapingEngine>(font: &FontRef<'_>, coords: &[NormalizedCoord]) -> (instance:
        Self)
        ensures
            instance.wf(),
            instance.within_axes(*font),
            instance.is_at::<E>(*font, coords_location(*font, coords@)),
            font_axes(*font) is None ==> instance.is_cleared(),
    {
        let mut instance = ShaperInstance::default();
        instance.set_coords::<E>(font, coords);
        instance
    }

    /// Creates a new shaper instance for the given font using the variation
    /// position from the named instance at the specified index.
    pub fn from_named_instance<E: ShapingEngine>(font: &FontRef<'_>, index: usize) -> (instance: Self)
        ensures
            instance.wf(),
            instance.has_all_axes(*font),
            instance.is_at::<E>(*font, named_location(*font, index)),
            !has_named_instance(*font, index) ==> instance.is_cleared(),
            has_named_instance(*font, index) && keeps_default(*font) && are_default(
                *font,
                named_variations(*font, index)->0,
            ) ==> instance.is_cleared(),
    {
        let mut instance = ShaperInstance::default();
        instance.set_named_instance::<E>(font, index);
        instance
    }

    /// Returns the underlying set of normalized coordinates.
    pub fn coords(&self) -> (coords: &[NormalizedCoord])
        ensures
            coords@ == self.coords@,
    {
        self.coords.as_slice()
    }

    /// Resets the instance for the given font and variation settings.
    pub fn set_variations<E: ShapingEngine>(&mut self, font: &FontRef<'_>, variations: &[Variation])
        ensures
            final(self).wf(),
            final(self).has_all_axes(*font),
            final(self).is_at::<E>(*font, variations_location(*font, variations@)),
            font_axes(*font) is None ==> final(self).is_cleared(),
            final(self).rests_at_defaults(*font, variations@),
            keeps_default(*font) && are_default(*font, variations@) ==> final(self).is_cleared(),
            keeps_default(*font) && variations@.len() == 0 ==> final(self).is_cleared(),
    {
        self.clear();
        if let Some(fvar) = font.table_data(FVAR) {
            if let Some(count) = fvar_axis_count(fvar) {
                self.coords.resize(count as usize, 0);
                fvar_user_to_normalized(
                    fvar,
                    font.table_data(AVAR),
                    variations,
                    self.coords.as_mut_slice(),
                );
                self.check_default();
                self.set_feature_variations::<E>(font);
            }
        }
    }

    /// Resets the instance for the given font and normalized coordinates.
    pub fn set_coords<E: ShapingEngine>(&mut self, font: &FontRef<'_>, coords: &[NormalizedCoord])
        ensures
            final(self).wf(),
            final(self).within_axes(*font),
            final(self).is_at::<E>(*font, coords_location(*font, coords@)),
            font_axes(*font) is None ==> final(self).is_cleared(),
    {
        self.clear();
        if let Some(fvar) = font.table_data(FVAR) {
            if let Some(count) = fvar_axis_count(fvar) {
                let count: usize = count as usize;
                let len: usize = if coords.len() < count {
                    coords.len()
                } else {
                    count
                };
                self.coords.extend(slice_subrange(coords, 0, len));
                assert(self.coords@ =~= clipped(coords@, count as nat));
                self.check_default();
                self.set_feature_variations::<E>(font);
            }
        }
    }

    /// Resets the instance for the given font using the variation
    /// position from the named instance at the specified index.
    pub fn set_named_instance<E: ShapingEngine>(&mut self, font: &FontRef<'_>, index: usize)
        ensures
            final(self).wf(),
            final(self).has_all_axes(*font),
            final(self).is_at::<E>(*font, named_location(*font, index)),
            !has_named_instance(*font, index) ==> final(self).is_cleared(),
            has_named_instance(*font, index) && keeps_default(*font) && are_default(
                *font,
                named_variations(*font, index)->0,
            ) ==> final(self).is_cleared(),
    {
        self.clear();
        if let Some(fvar) = font.table_data(FVAR) {
            if let Some(_count) = fvar_axis_count(fvar) {
                if let Some(tags) = fvar_axis_tags(fvar) {
                    if let Some(coordinates) = fvar_instance_coordinates(fvar, index) {
                        let values = single_precision_values(coordinates.as_slice());
                        let variations = pair_variations(tags.as_slice(), values.as_slice());
                        self.set_variations::<E>(font, variations.as_slice());
                    }
                }
            }
        }
    }

    /// Goes back to the default location.
    fn clear(&mut self)
        ensures
            final(self).is_cleared(),
            final(self).coords@ == Seq::<NormalizedCoord>::empty(),
    {
        self.coords.clear();
        self.feature_variations = [None, None];
        assert(self.feature_variations@ =~= seq![None::<u32>, None::<u32>]);
    }

    /// Asks the layout engine for the feature variations that apply.
    fn set_feature_variations<E: ShapingEngine>(&mut self, font: &FontRef<'_>)
        ensures
            final(self).coords@ == old(self).coords@,
            variations_apply::<E>(*font, final(self).coords@, final(self).feature_variations),
    {
        self.feature_variations = [None, None];
        assert(self.feature_variations@ =~= seq![None::<u32>, None::<u32>]);
        let coords = self.coords.as_slice();
        if coords.is_empty() {
            return;
        }
        let gsub = match font.layout_table(TableIndex::GSUB) {
            Some(table) => E::feature_variation_index(&table, coords),
            None => None,
        };
        let gpos = match font.layout_table(TableIndex::GPOS) {
            Some(table) => E::feature_variation_index(&table, coords),
            None => None,
        };
        self.feature_variations = [gsub, gpos];
    }

    /// Drops the coordinates of the default location.
    fn check_default(&mut self)
        ensures
            final(self).coords@ == reduced(old(self).coords@),
            final(self).feature_variations == old(self).feature_variations,
    {
        if is_default_location(self.coords.as_slice()) {
            self.coords.clear();
        }
    }
}

/// As many of the coordinates as there are axes.
pub open spec fn clipped(coords: Seq<NormalizedCoord>, count: nat) -> Seq<NormalizedCoord> {
    if coords.len() < count {
        coords
    } else {
        coords.take(count as int)
    }
}

} // verus!
