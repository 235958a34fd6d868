//! How a shaper is configured.
use vstd::prelude::*;

use std::sync::Arc;

use crate::engine::ShapingEngine;
use crate::face::{hb_font_t, Shaper};
use crate::font::FontRef;
use crate::font_class::FontClass;
use crate::font_funcs::{Face, FontFuncs, PointSize};
use crate::glyph::NormalizedCoord;
use crate::instance::ShaperInstance;
use crate::ot_font_funcs::OtFontFuncs;
use crate::shaper_data::ShaperData;

verus! {

/// Builder type for constructing a [`Shaper`].
pub struct ShaperBuilder<'a, E: ShapingEngine, F> {
    /// What is prepared for the font.
    pub data: &'a ShaperData<E>,
    /// The font.
    pub font: FontRef<'a>,
    /// The variable font configuration.
    pub instance: Option<&'a ShaperInstance>,
    /// The point size.
    pub point_size: Option<PointSize>,
    /// Custom font functions.
    pub class: Option<Arc<F>>,
}

impl<'a, E: ShapingEngine, F: FontFuncs> ShaperBuilder<'a, E, F> {
    /// The coordinates of the instance; none without one.
    pub open spec fn coords(self) -> Seq<NormalizedCoord> {
        match self.instance {
            Some(instance) => instance.coords@,
            None => Seq::empty(),
        }
    }

    /// The feature variations of the instance; none without one.
    pub open spec fn feature_variations(self) -> Seq<Option<u32>> {
        match self.instance {
            Some(instance) => instance.feature_variations@,
            None => seq![None, None],
        }
    }

    /// Whether a shaper has this configuration.
    pub open spec fn is_built(self, shaper: Shaper<'a, E, F>) -> bool {
        &&& shaper.face.font == self.font
        &&& shaper.face.units_per_em == self.data.table_ranges.units_per_em
        &&& shaper.face.points_per_em == self.point_size
        &&& shaper.face.coords@ == self.coords()
        &&& call_ensures(
            E::charmap,
            (&self.font, &self.data.table_ranges, &self.data.cmap_cache),
            shaper.charmap,
        )
        &&& exists|feature_variations: [Option<u32>; 2]|
            feature_variations@ == self.feature_variations() && #[trigger] call_ensures(
                E::ot_tables,
                (
                    &self.font,
                    &self.data.ot_cache,
                    &self.data.table_ranges,
                    shaper.face.coords,
                    feature_variations,
                ),
                shaper.ot_tables,
            )
        &&& call_ensures(
            E::aat_tables,
            (&self.font, &self.data.aat_cache, &self.data.table_ranges),
            shaper.aat_tables,
        )
        &&& match self.class {
            Some(class) => shaper.class == FontClass::<F>::Custom(class),
            None => {
                &&& shaper.class is Default
                &&& shaper.class->Default_0.0.is_of(self.font, self.data.table_ranges)
            },
        }
    }

    /// Sets an optional instance for the shaper.
    ///
    /// This defines the variable font configuration.
    pub fn instance(self, instance: Option<&'a ShaperInstance>) -> (builder: Self)
        ensures
            builder == (ShaperBuilder { instance, ..self }),
    {
        ShaperBuilder { instance, ..self }
    }

    /// Sets the point size for the shaper.
    ///
    /// This controls adjustments provided by the tracking table.
    pub fn point_size(self, size: Option<PointSize>) -> (builder: Self)
        ensures
            builder == (ShaperBuilder { point_size: size, ..self }),
    {
        ShaperBuilder { point_size: size, ..self }
    }

    /// Sets custom font functions for the shaper.
    ///
    /// This allows processes like glyph hinting that effect glyph metrics to be recognised by the
    /// shaper.
    pub fn font_funcs<T: FontFuncs>(self, funcs: T) -> (builder: ShaperBuilder<'a, E, T>)
        ensures
            builder.data == self.data,
            builder.font == self.font,
            builder.instance == self.instance,
            builder.point_size == self.point_size,
            builder.class is Some,
            *builder.class->0 == funcs,
    {
        self.font_funcs_boxed(Arc::new(funcs))
    }

    /// Sets custom font functions for the shaper.
    ///
    /// This allows processes like glyph hinting that effect glyph metrics to be recognised by the
    /// shaper.
    pub fn font_funcs_boxed<T: FontFuncs>(self, class: Arc<T>) -> (builder: ShaperBuilder<'a, E, T>)
        ensures
            builder.data == self.data,
            builder.font == self.font,
            builder.instance == self.instance,
            builder.point_size == self.point_size,
            builder.class == Some(class),
    {
        ShaperBuilder {
            data: self.data,
            font: self.font,
            instance: self.instance,
            point_size: self.point_size,
            class: Some(class),
        }
    }

    /// Builds the shaper with the current configuration.
    pub fn build(self) -> (shaper: Shaper<'a, E, F>)
        ensures
            self.is_built(shaper),
            shaper.class.wf(),
    {
        let font = self.font;
        let data: &'a ShaperData<E> = self.data;
        let units_per_em: u16 = data.table_ranges.units_per_em;
        let charmap = E::charmap(&font, &data.table_ranges, &data.cmap_cache);
        let no_coords: &'a [NormalizedCoord] = &[];
        let (coords, feature_variations): (&'a [NormalizedCoord], [Option<u32>; 2]) =
            match self.instance {
            Some(instance) => (instance.coords(), instance.feature_variations),
            None => (no_coords, [None, None]),
        };
        assert(coords@ =~= self.coords());
        assert(feature_variations@ =~= self.feature_variations());
        let ot_tables = E::ot_tables(
            &font,
            &data.ot_cache,
            &data.table_ranges,
            coords,
            feature_variations,
        );
        let aat_tables = E::aat_tables(&font, &data.aat_cache, &data.table_ranges);
        let class = match self.class {
            Some(class) => FontClass::Custom(class),
            None => FontClass::Default(Arc::new(OtFontFuncs::new(&font, data))),
        };
        hb_font_t {
            face: Face { font, units_per_em, points_per_em: self.point_size, coords },
            charmap,
            ot_tables,
            aat_tables,
            class,
        }
    }
}

} // verus!
