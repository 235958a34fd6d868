//! A font file, and where its tables are.
use vstd::prelude::*;

use vstd::slice::slice_subrange;

use crate::font_tables::{font_table_data, gpos_read, gsub_read};

verus! {

/// The tag of the font variations table, `fvar`.
pub const FVAR: u32 = 0x6676_6172;

/// The tag of the axis variations table, `avar`.
pub const AVAR: u32 = 0x6176_6172;

/// The tag of the glyph substitution table, `GSUB`.
pub const GSUB: u32 = 0x4753_5542;

/// The tag of the glyph positioning table, `GPOS`.
pub const GPOS: u32 = 0x4750_4f53;

/// A font in a font file.
#[derive(Clone, Copy)]
pub struct FontRef<'a> {
    /// The bytes of the file.
    pub data: &'a [u8],
    /// Which font of a collection it is; 0 in a file with one font.
    pub index: u32,
}

impl<'a> FontRef<'a> {
    /// The bytes of the table with the given tag.
    pub open spec fn table(self, tag: u32) -> Option<Seq<u8>> {
        crate::font_tables::font_table(self.data@, self.index, tag)
    }

    /// Returns the table with the given tag, if the font has it.
    pub fn table_data(&self, tag: u32) -> (table: Option<&'a [u8]>)
        ensures
            crate::font_tables::table_bytes(table) == self.table(tag),
    {
        font_table_data(self.data, self.index, tag)
    }
}

/// A layout table, by what it is for.
#[derive(Clone, Copy, Debug, PartialEq, Eq, Structural)]
pub enum TableIndex {
    /// Glyph substitution.
    GSUB,
    /// Glyph positioning.
    GPOS,
}

/// A layout table.
#[derive(Clone, Copy)]
pub enum LayoutTable<'a> {
    /// A glyph substitution table.
    Gsub(&'a [u8]),
    /// A glyph positioning table.
    Gpos(&'a [u8]),
}

impl<'a> LayoutTable<'a> {
    /// Which table it is.
    pub open spec fn table_index(self) -> TableIndex {
        match self {
            LayoutTable::Gsub(_) => TableIndex::GSUB,
            LayoutTable::Gpos(_) => TableIndex::GPOS,
        }
    }

    /// The bytes of the table.
    pub open spec fn bytes(self) -> Seq<u8> {
        match self {
            LayoutTable::Gsub(data) => data@,
            LayoutTable::Gpos(data) => data@,
        }
    }
}

impl<'a> FontRef<'a> {
    /// The bytes of a layout table, if the font has it and it is long enough for its header.
    pub open spec fn layout_bytes(self, index: TableIndex) -> Option<Seq<u8>> {
        let table = self.table(
            match index {
                TableIndex::GSUB => GSUB,
                TableIndex::GPOS => GPOS,
            },
        );
        if table is Some && table->0.len() >= 10 {
            table
        } else {
            None
        }
    }

    /// Returns a layout table, if the font has one that can be read.
    pub fn layout_table(&self, index: TableIndex) -> (table: Option<LayoutTable<'a>>)
        ensures
            match table {
                Some(table) => table.table_index() == index && self.layout_bytes(index) == Some(
                    table.bytes(),
                ),
                None => self.layout_bytes(index) is None,
            },
    {
        match index {
            TableIndex::GSUB => match self.table_data(GSUB) {
                Some(data) if gsub_read(data) => Some(LayoutTable::Gsub(data)),
                _ => None,
            },
            TableIndex::GPOS => match self.table_data(GPOS) {
                Some(data) if gpos_read(data) => Some(LayoutTable::Gpos(data)),
                _ => None,
            },
        }
    }
}

/// Where a table lies in a font file; an empty range stands for a table that the font lacks.
#[derive(Clone, Copy, Debug, PartialEq, Eq, Structural)]
pub struct TableRange {
    /// The first byte of the table.
    pub start: u32,
    /// The first byte after the table.
    pub end: u32,
}

impl TableRange {
    /// The bytes of the table, if the range is not empty and lies in the file.
    pub open spec fn bytes(self, font: FontRef) -> Option<Seq<u8>> {
        if self.start < self.end <= font.data@.len() {
            Some(font.data@.subrange(self.start as int, self.end as int))
        } else {
            None
        }
    }

    /// Returns the bytes of the table, if the font has it.
    pub fn resolve_data<'a>(&self, font: &FontRef<'a>) -> (data: Option<&'a [u8]>)
        ensures
            crate::font_tables::table_bytes(data) == self.bytes(*font),
    {
        let start: usize = self.start as usize;
        let end: usize = self.end as usize;
        if start < end && end <= font.data.len() {
            Some(slice_subrange(font.data, start, end))
        } else {
            None
        }
    }
}

/// Where the tables of a font lie, and the numbers in its headers that the metrics need.
#[derive(Clone, Copy, Debug)]
pub struct TableRanges {
    /// Horizontal metrics.
    pub hmtx: TableRange,
    /// Horizontal metrics variations.
    pub hvar: TableRange,
    /// Vertical metrics.
    pub vmtx: TableRange,
    /// Vertical metrics variations.
    pub vvar: TableRange,
    /// Vertical origins.
    pub vorg: TableRange,
    /// The index to the glyph outlines.
    pub loca: TableRange,
    /// The glyph outlines.
    pub glyf: TableRange,
    /// Glyph variations.
    pub gvar: TableRange,
    /// Metrics variations.
    pub mvar: TableRange,
    /// The number of glyphs.
    pub num_glyphs: u32,
    /// The number of font units per em.
    pub units_per_em: u16,
    /// The number of long metrics in `hmtx`.
    pub num_h_metrics: u16,
    /// The number of long metrics in `vmtx`.
    pub num_v_metrics: u16,
    /// Whether the offsets in `loca` take 32 bits.
    pub loca_long: bool,
    /// The ascent of the font.
    pub ascent: i16,
    /// The descent of the font, negative below the baseline.
    pub descent: i16,
}

} // verus!
