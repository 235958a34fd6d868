//! The shaper.
use vstd::prelude::*;

use vstd::slice::slice_subrange;

use crate::engine;
use crate::engine::{
    Buffer, Feature, GlyphBuffer, OtTables, ShapePlan, ShapingEngine, UnicodeBuffer,
};
use crate::font::{LayoutTable, TableIndex};
use crate::font_class::FontClass;
use crate::font_funcs;
use crate::font_funcs::{Face, FontFuncs};
use crate::font_tables;
use crate::glyph::{GlyphExtents, GlyphId, GlyphInfo, GlyphPosition, NormalizedCoord};
use crate::glyph_origins;
use crate::glyph_origins::{move_chunk, CHUNK};

verus! {

/// A configured shaper.
#[allow(non_camel_case_types)]
pub struct hb_font_t<'a, E: ShapingEngine, F> {
    /// The font and its location in variation space.
    pub face: Face<'a>,
    /// The character map of the font.
    pub charmap: E::Charmap<'a>,
    /// The OpenType layout tables of the font.
    pub ot_tables: OtTables<'a, E>,
    /// The AAT tables of the font.
    pub aat_tables: E::AatTables<'a>,
    /// The font functions.
    pub class: FontClass<'a, F>,
}

/// A configured shaper.
pub type Shaper<'a, E, F> = hb_font_t<'a, E, F>;

impl<'a, E: ShapingEngine, F> Clone for hb_font_t<'a, E, F> where
    E::Charmap<'a>: Clone,
    E::OtLayout<'a>: Clone,
    E::AatTables<'a>: Clone,
 {
    fn clone(&self) -> (shaper: Self)
        ensures
            shaper.face == self.face,
            cloned(self.charmap, shaper.charmap),
            shaper.ot_tables.gsub == self.ot_tables.gsub,
            shaper.ot_tables.gpos == self.ot_tables.gpos,
            cloned(self.ot_tables.layout, shaper.ot_tables.layout),
            cloned(self.aat_tables, shaper.aat_tables),
            shaper.class == self.class,
    {
        hb_font_t {
            face: self.face,
            charmap: self.charmap.clone(),
            ot_tables: OtTables {
                gsub: self.ot_tables.gsub,
                gpos: self.ot_tables.gpos,
                layout: self.ot_tables.layout.clone(),
            },
            aat_tables: self.aat_tables.clone(),
            class: self.class.clone(),
        }
    }
}

impl<'a, E: ShapingEngine, F: FontFuncs> Shaper<'a, E, F> {
    /// Whether the layout engine may have shaped a run of text in this way: it enters the run, shapes
    /// it if it is not empty, in the direction of the text, and leaves it.
    pub open spec fn shapes(
        &self,
        plan: &ShapePlan<E>,
        buffer: Buffer<E>,
        features: &[Feature],
        shaped: Buffer<E>,
    ) -> bool {
        exists|entered: E::Content, len: usize|
            {
                &&& #[trigger] call_ensures(E::enter, (buffer.content,), entered)
                &&& #[trigger] call_ensures(E::len, (&entered,), len)
                &&& if len > 0 {
                    exists|run: Buffer<E>|
                        {
                            &&& #[trigger] call_ensures(
                                E::shape_internal::<F>,
                                (
                                    self,
                                    plan,
                                    Buffer { content: entered, ..buffer },
                                    buffer.direction,
                                    features,
                                ),
                                run,
                            )
                            &&& call_ensures(E::leave, (run.content,), shaped.content)
                            &&& shaped == (Buffer { content: shaped.content, ..run })
                        }
                } else {
                    &&& call_ensures(E::leave, (entered,), shaped.content)
                    &&& shaped == (Buffer { content: shaped.content, ..buffer })
                }
            }
    }

    /// Returns font's units per EM.
    pub fn units_per_em(&self) -> (units: i32)
        ensures
            units == self.face.units_per_em,
    {
        self.face.units_per_em()
    }

    /// Returns the currently active normalized coordinates.
    pub fn coords(&self) -> (coords: &'a [NormalizedCoord])
        ensures
            coords@ == self.face.coords@,
    {
        self.face.coords()
    }

    /// Shapes the buffer content using provided font and features.
    ///
    /// If you plan to shape multiple strings, prefer [`shape_with_plan`](Self::shape_with_plan).
    /// This is because [`ShapePlan`] initialization is pretty slow and should preferably
    /// be called once for each shaping configuration.
    pub fn shape(&self, buffer: UnicodeBuffer<E>, features: &[Feature]) -> (glyphs: GlyphBuffer<E>)
        ensures
            exists|plan: ShapePlan<E>|
                {
                    &&& #[trigger] plan.is_for(
                        self,
                        buffer.0.direction,
                        buffer.0.script,
                        buffer.0.language,
                        features,
                    )
                    &&& self.shapes(&plan, buffer.0, features, glyphs.0)
                },
    {
        let plan = ShapePlan::new(
            self,
            buffer.0.direction,
            buffer.0.script,
            buffer.0.language.as_ref(),
            features,
        );
        assert(plan.is_for(
            self,
            buffer.0.direction,
            buffer.0.script,
            buffer.0.language,
            features,
        ));
        self.shape_with_plan(&plan, buffer, features)
    }

    /// Shapes the buffer content using the provided font and plan.
    ///
    /// It is up to the caller to ensure that the shape plan matches the properties of the provided
    /// buffer: its direction, and its script, where a script that is not set is an unknown one.
    pub fn shape_with_plan(
        &self,
        plan: &ShapePlan<E>,
        buffer: UnicodeBuffer<E>,
        features: &[Feature],
    ) -> (glyphs: GlyphBuffer<E>)
        requires
            buffer.0.direction == plan.direction,
            engine::script_or_unknown(buffer.0.script) == engine::script_or_unknown(plan.script),
        ensures
            self.shapes(plan, buffer.0, features, glyphs.0),
    {
        let mut buffer = buffer.0;
        buffer.content = E::enter(buffer.content);
        if E::len(&buffer.content) > 0 {
            let target_direction = buffer.direction;
            buffer = E::shape_internal(self, plan, buffer, target_direction, features);
        }
        buffer.content = E::leave(buffer.content);
        GlyphBuffer(buffer)
    }

    /// Returns whether the font has a glyph for a character.
    pub fn has_glyph(&self, c: u32) -> (has: bool)
        ensures
            exists|glyph: Option<GlyphId>|
                has == (glyph is Some) && #[trigger] call_ensures(
                    E::map,
                    (&self.charmap, c),
                    glyph,
                ),
    {
        self.get_nominal_glyph(c).is_some()
    }

    /// Returns the glyph of a character.
    pub fn get_nominal_glyph(&self, c: u32) -> (glyph: Option<GlyphId>)
        ensures
            call_ensures(E::map, (&self.charmap, c), glyph),
    {
        E::map(&self.charmap, c)
    }

    /// Returns the glyph of a character with a variation selector.
    pub fn get_nominal_variant_glyph(&self, c: u32, vs: u32) -> (glyph: Option<GlyphId>)
        ensures
            call_ensures(E::map_variant, (&self.charmap, c, vs), glyph),
    {
        E::map_variant(&self.charmap, c, vs)
    }

    /// Returns the advance of a glyph in horizontal text.
    pub fn glyph_h_advance(&self, glyph: GlyphId) -> (advance: i32)
        requires
            self.class.h_advances_requires(
                self.face,
                font_funcs::single_glyph(glyph),
                font_funcs::single_position(),
            ),
        ensures
            match self.class {
                FontClass::Default(funcs) => advance == funcs.0.h_advance(glyph, self.face.coords@),
                FontClass::Custom(funcs) => call_ensures(
                    F::glyph_h_advance,
                    (&*funcs, &self.face, glyph),
                    advance,
                ),
            },
    {
        self.class.glyph_h_advance(&self.face, glyph)
    }

    /// Returns the advance of a glyph in vertical text.
    pub fn glyph_v_advance(&self, glyph: GlyphId) -> (advance: i32)
        requires
            self.class.v_advances_requires(
                self.face,
                font_funcs::single_glyph(glyph),
                font_funcs::single_position(),
            ),
        ensures
            match self.class {
                FontClass::Default(funcs) => advance == funcs.0.v_advance(glyph, self.face.coords@),
                FontClass::Custom(funcs) => call_ensures(
                    F::glyph_v_advance,
                    (&*funcs, &self.face, glyph),
                    advance,
                ),
            },
    {
        self.class.glyph_v_advance(&self.face, glyph)
    }

    /// Retrieves the advances of a run of glyphs in horizontal text.
    pub fn glyph_h_advances(&self, glyph: &[GlyphInfo], advance: &mut [GlyphPosition])
        requires
            self.class.h_advances_requires(self.face, glyph@, old(advance)@),
        ensures
            final(advance)@.len() == old(advance)@.len(),
            self.class.h_advances_ensures(self.face, glyph@, old(advance)@, final(advance)@),
    {
        self.class.glyph_h_advances(&self.face, glyph, advance)
    }

    /// Retrieves the advances of a run of glyphs in vertical text.
    pub fn glyph_v_advances(&self, glyph: &[GlyphInfo], advance: &mut [GlyphPosition])
        requires
            self.class.v_advances_requires(self.face, glyph@, old(advance)@),
        ensures
            final(advance)@.len() == old(advance)@.len(),
            self.class.v_advances_ensures(self.face, glyph@, old(advance)@, final(advance)@),
    {
        self.class.glyph_v_advances(&self.face, glyph, advance)
    }

    /// Returns whether some horizontal origin may not be (0, 0).
    pub fn non_default_h_origins(&self) -> (flag: bool)
        ensures
            self.class.non_default_h_origins_ensures(self.face, flag),
    {
        self.class.non_default_h_origins(&self.face)
    }

    /// Retrieves the origins of a run of glyphs in horizontal text.
    pub fn glyph_h_origins(&self, glyph: &[GlyphInfo], origin: &mut [GlyphPosition]) -> (result:
        Result<(), ()>)
        requires
            self.class.h_origins_requires(self.face, glyph@, old(origin)@),
        ensures
            final(origin)@.len() == old(origin)@.len(),
            self.class.h_origins_ensures(self.face, glyph@, old(origin)@, final(origin)@, result),
    {
        self.class.glyph_h_origins(&self.face, glyph, origin)
    }

    /// Retrieves the origins of a run of glyphs in vertical text.
    pub fn glyph_v_origins(&self, glyph: &[GlyphInfo], origin: &mut [GlyphPosition]) -> (result:
        Result<(), ()>)
        requires
            self.class.v_origins_requires(self.face, glyph@, old(origin)@),
        ensures
            final(origin)@.len() == old(origin)@.len(),
            self.class.v_origins_ensures(self.face, glyph@, old(origin)@, final(origin)@, result),
    {
        self.class.glyph_v_origins(&self.face, glyph, origin)
    }

    /// Returns the extents of a glyph.
    pub fn glyph_extents(&self, glyph: GlyphId) -> (extents: Option<GlyphExtents>)
        requires
            self.class.extents_requires(self.face, glyph),
        ensures
            self.class.extents_ensures(self.face, glyph, extents),
    {
        self.class.glyph_extents(&self.face, glyph)
    }

    /// Moves the glyphs of a run by their horizontal or vertical origins, forth with the factor 1 and
    /// back with the factor -1.
    ///
    /// The origins are retrieved in chunks. Where the font functions fail on a chunk, its glyphs are
    /// moved by what the font functions left in place of the origins.
    pub fn apply_glyph_origins_with_fallback<const VERTICAL: bool>(
        &self,
        glyph: &[GlyphInfo],
        origin: &mut [GlyphPosition],
        mult: i32,
    )
        requires
            glyph@.len() > 0 ==> mult == 1 || mult == -1,
            glyph@.len() <= old(origin)@.len(),
            forall|origins: Seq<GlyphPosition>| #[trigger]
                glyph_origins::retrieved(self.class, VERTICAL, self.face, glyph@, origins) ==> {
                    &&& glyph_origins::can_continue(
                        self.class,
                        VERTICAL,
                        self.face,
                        glyph@,
                        origins,
                    )
                    &&& glyph_origins::moves_fit(old(origin)@, origins, mult as int)
                },
        ensures
            exists|origins: Seq<GlyphPosition>|
                {
                    &&& origins.len() == glyph@.len()
                    &&& #[trigger] glyph_origins::retrieved(
                        self.class,
                        VERTICAL,
                        self.face,
                        glyph@,
                        origins,
                    )
                    &&& glyph_origins::moved_by_origins(
                        old(origin)@,
                        final(origin)@,
                        origins,
                        mult as int,
                    )
                },
    {
        let ghost before = origin@;
        let ghost mut origins: Seq<GlyphPosition> = Seq::empty();
        let mut scratch: [GlyphPosition; CHUNK] = [GlyphPosition::default(); CHUNK];
        let mut offset: usize = 0;
        let count: usize = glyph.len();
        while offset < count
            invariant
                count == glyph@.len(),
                count > 0 ==> mult == 1 || mult == -1,
                count <= before.len(),
                origins.len() == offset,
                glyph_origins::retrieved(self.class, VERTICAL, self.face, glyph@, origins),
                glyph_origins::moved_by_origins(before, origin@, origins, mult as int),
                forall|origins: Seq<GlyphPosition>| #[trigger]
                    glyph_origins::retrieved(self.class, VERTICAL, self.face, glyph@, origins) ==> {
                        &&& glyph_origins::can_continue(
                            self.class,
                            VERTICAL,
                            self.face,
                            glyph@,
                            origins,
                        )
                        &&& glyph_origins::moves_fit(before, origins, mult as int)
                    },
                offset == 0 ==> scratch@ == Seq::new(CHUNK as nat, |i: int| GlyphPosition::zero()),
                0 < offset < count ==> offset >= CHUNK && scratch@ == origins.subrange(
                    offset - CHUNK,
                    offset as int,
                ),
            decreases count - offset,
        {
            let len: usize = if count - offset < CHUNK {
                count - offset
            } else {
                CHUNK
            };
            let ghost chunk = origins.len() / CHUNK as nat;
            let part = slice_subrange(glyph, offset, offset + len);
            proof {
                glyph_origins::lemma_next_chunk(glyph@.len(), origins);
                assert(scratch@.subrange(0, len as int) =~= glyph_origins::chunk_before(
                    glyph@.len(),
                    origins,
                    chunk,
                ));
            }
            let (head, _rest) = scratch.split_at_mut(len);
            let result = if VERTICAL {
                self.glyph_v_origins(part, head)
            } else {
                self.glyph_h_origins(part, head)
            };
            let ghost added = head@;
            let retrieved = slice_subrange(&scratch, 0, len);
            assert(retrieved@ =~= added);
            let ghost partly_moved = origin@;
            proof {
                glyph_origins::lemma_chunk_added(
                    self.class,
                    VERTICAL,
                    self.face,
                    glyph@,
                    origins,
                    retrieved@,
                    result,
                );
                glyph_origins::lemma_chunk_fits(before, partly_moved, origins, added, mult as int);
            }
            move_chunk(origin, offset, retrieved, mult);
            proof {
                glyph_origins::lemma_chunk_moved(
                    before,
                    partly_moved,
                    origin@,
                    origins,
                    added,
                    mult as int,
                );
                origins = origins + added;
            }
            offset += len;
        }
    }

    /// Returns the names of the glyphs of the font.
    pub fn glyph_names(&self) -> (names: E::GlyphNames<'a>)
        ensures
            call_ensures(E::glyph_names, (&self.face.font,), names),
    {
        E::glyph_names(&self.face.font)
    }

    /// The bytes of a layout table of the font.
    pub open spec fn layout_bytes(&self, table_index: TableIndex) -> Option<Seq<u8>> {
        font_tables::table_bytes(
            match table_index {
                TableIndex::GSUB => self.ot_tables.gsub,
                TableIndex::GPOS => self.ot_tables.gpos,
            },
        )
    }

    /// Returns a layout table of the font, if it has one.
    pub fn layout_table(&self, table_index: TableIndex) -> (table: Option<LayoutTable<'a>>)
        ensures
            match table {
                Some(table) => {
                    &&& table.table_index() == table_index
                    &&& self.layout_bytes(table_index) == Some(table.bytes())
                },
                None => self.layout_bytes(table_index) is None,
            },
    {
        match table_index {
            TableIndex::GSUB => match self.ot_tables.gsub {
                Some(table) => Some(LayoutTable::Gsub(table)),
                None => None,
            },
            TableIndex::GPOS => match self.ot_tables.gpos {
                Some(table) => Some(LayoutTable::Gpos(table)),
                None => None,
            },
        }
    }

    /// Which layout tables the font has: substitution before positioning.
    pub open spec fn layout_indices(&self) -> Seq<TableIndex> {
        let gsub = if self.layout_bytes(TableIndex::GSUB) is Some {
            seq![TableIndex::GSUB]
        } else {
            seq![]
        };
        if self.layout_bytes(TableIndex::GPOS) is Some {
            gsub.push(TableIndex::GPOS)
        } else {
            gsub
        }
    }

    /// Returns the layout tables of the font, substitution before positioning.
    pub fn layout_tables(&self) -> (tables: Vec<(TableIndex, LayoutTable<'a>)>)
        ensures
            tables@.map_values(|entry: (TableIndex, LayoutTable<'a>)| entry.0)
                == self.layout_indices(),
            forall|i: int|
                0 <= i < tables@.len() ==> {
                    &&& (#[trigger] tables@[i]).1.table_index() == tables@[i].0
                    &&& self.layout_bytes(tables@[i].0) == Some(tables@[i].1.bytes())
                },
    {
        let mut tables: Vec<(TableIndex, LayoutTable<'a>)> = Vec::new();
        if let Some(table) = self.layout_table(TableIndex::GSUB) {
            tables.push((TableIndex::GSUB, table));
        }
        if let Some(table) = self.layout_table(TableIndex::GPOS) {
            tables.push((TableIndex::GPOS, table));
        }
        tables
    }
}

} // verus!
