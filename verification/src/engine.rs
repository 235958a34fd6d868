//! The layout engine that a shaper drives, and what the two exchange.
use vstd::prelude::*;

use crate::face::Shaper;
use crate::font::{FontRef, LayoutTable, TableRanges};
use crate::font_funcs::FontFuncs;
use crate::glyph::{GlyphId, NormalizedCoord};

verus! {

/// The direction of a run of text.
#[derive(Clone, Copy, Debug, PartialEq, Eq, Structural)]
pub enum Direction {
    /// No direction is set.
    Invalid,
    /// From left to right.
    LeftToRight,
    /// From right to left.
    RightToLeft,
    /// From top to bottom.
    TopToBottom,
    /// From bottom to top.
    BottomToTop,
}

/// A script, by its tag as a big-endian number.
pub type Script = u32;

/// The script of text whose script is not known, `Zzzz`.
pub const UNKNOWN: Script = 0x5a7a_7a7a;

/// A language, by its tag.
#[derive(Debug)]
pub struct Language(pub String);

/// A font feature and the part of the text that it is set for.
#[derive(Clone, Copy, Debug, PartialEq, Eq, Structural)]
pub struct Feature {
    /// The tag of the feature, as a big-endian number.
    pub tag: u32,
    /// The value of the feature; 0 turns it off.
    pub value: u32,
    /// The first cluster that it is set for.
    pub start: u32,
    /// The first cluster after those that it is set for.
    pub end: u32,
}

/// A run of text with its properties.
pub struct Buffer<E: ShapingEngine> {
    /// The direction of the text.
    pub direction: Direction,
    /// The script of the text.
    pub script: Option<Script>,
    /// The language of the text.
    pub language: Option<Language>,
    /// The text, or its glyphs.
    pub content: E::Content,
}

/// A run of text that is not shaped yet.
pub struct UnicodeBuffer<E: ShapingEngine>(pub Buffer<E>);

/// A run of text that is shaped.
pub struct GlyphBuffer<E: ShapingEngine>(pub Buffer<E>);

/// How text with given properties is to be shaped.
pub struct ShapePlan<E: ShapingEngine> {
    /// The direction that the plan is for.
    pub direction: Direction,
    /// The script that the plan is for.
    pub script: Option<Script>,
    /// The plan of the layout engine.
    pub plan: E::Plan,
}

/// The script of a run of text, where one that is not set is unknown.
pub open spec fn script_or_unknown(script: Option<Script>) -> Script {
    match script {
        Some(script) => script,
        None => UNKNOWN,
    }
}

impl<E: ShapingEngine> ShapePlan<E> {
    /// Whether this is a plan for text with the given properties.
    pub open spec fn is_for<F: FontFuncs>(
        self,
        shaper: &Shaper<'_, E, F>,
        direction: Direction,
        script: Option<Script>,
        language: Option<Language>,
        features: &[Feature],
    ) -> bool {
        &&& self.direction == direction
        &&& self.script == script
        &&& exists|tag: Option<&Language>|
            {
                &&& (tag is Some) == (language is Some)
                &&& language is Some ==> *tag->0 == language->0
                &&& #[trigger] call_ensures(
                    E::plan::<F>,
                    (shaper, direction, script, tag, features),
                    self.plan,
                )
            }
    }

    /// Plans how text with the given properties is to be shaped.
    pub fn new<F: FontFuncs>(
        shaper: &Shaper<'_, E, F>,
        direction: Direction,
        script: Option<Script>,
        language: Option<&Language>,
        features: &[Feature],
    ) -> (plan: Self)
        ensures
            plan.direction == direction,
            plan.script == script,
            call_ensures(E::plan::<F>, (shaper, direction, script, language, features), plan.plan),
    {
        ShapePlan {
            direction,
            script,
            plan: E::plan(shaper, direction, script, language, features),
        }
    }
}

/// The layout tables of a font.
pub struct OtTables<'a, E: ShapingEngine> {
    /// Glyph substitution.
    pub gsub: Option<&'a [u8]>,
    /// Glyph positioning.
    pub gpos: Option<&'a [u8]>,
    /// What the layout engine keeps of the tables.
    pub layout: E::OtLayout<'a>,
}

/// A layout engine: it maps characters to glyphs, and shapes runs of glyphs by the layout tables of a
/// font.
pub trait ShapingEngine: Sized {
    /// What is kept of the OpenType layout tables of a font.
    type OtCache;

    /// What is kept of the AAT tables of a font.
    type AatCache;

    /// What is kept of the character map of a font.
    type CmapCache;

    /// The character map of a font.
    type Charmap<'a>;

    /// The OpenType layout tables of a font at one place in its variation space.
    type OtLayout<'a>;

    /// The AAT tables of a font.
    type AatTables<'a>;

    /// The names of the glyphs of a font.
    type GlyphNames<'a>;

    /// How text is to be shaped.
    type Plan;

    /// A run of characters or glyphs.
    type Content;

    /// Prepares the OpenType layout tables of a font.
    fn ot_cache(font: &FontRef<'_>) -> Self::OtCache;

    /// Prepares the AAT tables of a font.
    fn aat_cache(font: &FontRef<'_>) -> Self::AatCache;

    /// Finds the tables of a font.
    fn table_ranges(font: &FontRef<'_>) -> TableRanges;

    /// Makes an empty store for looked up characters.
    fn cmap_cache() -> Self::CmapCache;

    /// Reads the character map of a font.
    fn charmap<'a>(
        font: &FontRef<'a>,
        table_ranges: &'a TableRanges,
        cache: &'a Self::CmapCache,
    ) -> Self::Charmap<'a>;

    /// Reads the OpenType layout tables of a font.
    fn ot_tables<'a>(
        font: &FontRef<'a>,
        cache: &'a Self::OtCache,
        table_ranges: &'a TableRanges,
        coords: &'a [NormalizedCoord],
        feature_variations: [Option<u32>; 2],
    ) -> OtTables<'a, Self>;

    /// Reads the AAT tables of a font.
    fn aat_tables<'a>(
        font: &FontRef<'a>,
        cache: &'a Self::AatCache,
        table_ranges: &'a TableRanges,
    ) -> Self::AatTables<'a>;

    /// Reads the names of the glyphs of a font.
    fn glyph_names<'a>(font: &FontRef<'a>) -> Self::GlyphNames<'a>;

    /// Returns the glyph of a character.
    fn map(charmap: &Self::Charmap<'_>, c: u32) -> Option<GlyphId>;

    /// Returns the glyph of a character with a variation selector.
    fn map_variant(charmap: &Self::Charmap<'_>, c: u32, vs: u32) -> Option<GlyphId>;

    /// Returns which feature variations of a layout table apply at a location in variation space.
    fn feature_variation_index(table: &LayoutTable<'_>, coords: &[NormalizedCoord]) -> Option<u32>;

    /// Plans how text with the given properties is to be shaped.
    fn plan<F: FontFuncs>(
        shaper: &Shaper<'_, Self, F>,
        direction: Direction,
        script: Option<Script>,
        language: Option<&Language>,
        features: &[Feature],
    ) -> Self::Plan;

    /// Makes a run of text ready to be shaped.
    fn enter(content: Self::Content) -> Self::Content;

    /// Returns the length of a run of text.
    fn len(content: &Self::Content) -> usize;

    /// Shapes a run of text that is not empty.
    fn shape_internal<F: FontFuncs>(
        shaper: &Shaper<'_, Self, F>,
        plan: &ShapePlan<Self>,
        buffer: Buffer<Self>,
        target_direction: Direction,
        features: &[Feature],
    ) -> Buffer<Self>;

    /// Ends the shaping of a run of text.
    fn leave(content: Self::Content) -> Self::Content;
}

} // verus!
