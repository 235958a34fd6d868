//! What is prepared once for a font.
use vstd::prelude::*;

use crate::builder::ShaperBuilder;
use crate::engine::ShapingEngine;
use crate::font::{FontRef, TableRanges};
use crate::ot_font_funcs::OtFontFuncs;

verus! {

/// Data required for shaping with a single font.
pub struct ShaperData<E: ShapingEngine> {
    /// Where the tables of the font lie.
    pub table_ranges: TableRanges,
    /// What is kept of its OpenType layout tables.
    pub ot_cache: E::OtCache,
    /// What is kept of its AAT tables.
    pub aat_cache: E::AatCache,
    /// What is kept of its character map.
    pub cmap_cache: E::CmapCache,
}

impl<E: ShapingEngine> ShaperData<E> {
    /// Creates new cached shaper data for the given font.
    pub fn new(font: &FontRef<'_>) -> (data: Self)
        ensures
            call_ensures(E::table_ranges, (font,), data.table_ranges),
            call_ensures(E::ot_cache, (font,), data.ot_cache),
            call_ensures(E::aat_cache, (font,), data.aat_cache),
            call_ensures(E::cmap_cache, (), data.cmap_cache),
    {
        let ot_cache = E::ot_cache(font);
        let aat_cache = E::aat_cache(font);
        let table_ranges = E::table_ranges(font);
        let cmap_cache = E::cmap_cache();
        ShaperData { table_ranges, ot_cache, aat_cache, cmap_cache }
    }

    /// Returns a builder for constructing a new shaper with the given
    /// font.
    pub fn shaper<'a>(&'a self, font: &FontRef<'a>) -> (builder: ShaperBuilder<
        'a,
        E,
        OtFontFuncs<'a>,
    >)
        ensures
            builder.data == self,
            builder.font == *font,
            builder.instance is None,
            builder.point_size is None,
            builder.class is None,
    {
        ShaperBuilder { data: self, font: *font, instance: None, point_size: None, class: None }
    }
}

} // verus!
