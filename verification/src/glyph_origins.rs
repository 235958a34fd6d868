//! Moving the glyphs of a run by their origins.
use vstd::prelude::*;

use crate::font_funcs::{Face, FontFuncs};
use crate::glyph::{GlyphInfo, GlyphPosition};

verus! {

/// The most origins that are retrieved in one call of the font functions.
pub const CHUNK: usize = 32;

/// What the font functions need to retrieve horizontal or vertical origins.
pub open spec fn origins_requires<F: FontFuncs>(
    funcs: F,
    vertical: bool,
    font: Face,
    glyph: Seq<GlyphInfo>,
    before: Seq<GlyphPosition>,
) -> bool {
    if vertical {
        funcs.v_origins_requires(font, glyph, before)
    } else {
        funcs.h_origins_requires(font, glyph, before)
    }
}

/// What the font functions do when they retrieve horizontal or vertical origins.
pub open spec fn origins_ensures<F: FontFuncs>(
    funcs: F,
    vertical: bool,
    font: Face,
    glyph: Seq<GlyphInfo>,
    before: Seq<GlyphPosition>,
    after: Seq<GlyphPosition>,
    result: Result<(), ()>,
) -> bool {
    if vertical {
        funcs.v_origins_ensures(font, glyph, before, after, result)
    } else {
        funcs.h_origins_ensures(font, glyph, before, after, result)
    }
}

/// Where a chunk of a run ends.
pub open spec fn chunk_end(count: nat, chunk: nat) -> int {
    if count < (chunk + 1) * CHUNK {
        count as int
    } else {
        (chunk + 1) * CHUNK
    }
}

/// The positions that the font functions get for a chunk: those of the chunk before it, as the font
/// functions left them.
pub open spec fn chunk_before(count: nat, origins: Seq<GlyphPosition>, chunk: nat) -> Seq<
    GlyphPosition,
> {
    let len = chunk_end(count, chunk) - chunk * CHUNK;
    if chunk == 0 {
        Seq::new(len as nat, |i: int| GlyphPosition::zero())
    } else {
        origins.subrange((chunk - 1) * CHUNK, (chunk - 1) * CHUNK + len)
    }
}

/// Whether the font functions may have left the given origins for a chunk of a run, be it that they
/// succeeded or failed.
pub open spec fn chunk_retrieved<F: FontFuncs>(
    funcs: F,
    vertical: bool,
    font: Face,
    glyph: Seq<GlyphInfo>,
    origins: Seq<GlyphPosition>,
    chunk: nat,
) -> bool {
    exists|result: Result<(), ()>| #[trigger]
        origins_ensures(
            funcs,
            vertical,
            font,
            glyph.subrange(chunk * CHUNK, chunk_end(glyph.len(), chunk)),
            chunk_before(glyph.len(), origins, chunk),
            origins.subrange(chunk * CHUNK, chunk_end(glyph.len(), chunk)),
            result,
        )
}

/// Whether the font functions may have left the given origins for the first chunks of a run.
pub open spec fn retrieved<F: FontFuncs>(
    funcs: F,
    vertical: bool,
    font: Face,
    glyph: Seq<GlyphInfo>,
    origins: Seq<GlyphPosition>,
) -> bool {
    &&& origins.len() <= glyph.len()
    &&& origins.len() == glyph.len() || origins.len() % CHUNK as nat == 0
    &&& forall|chunk: nat|
        chunk * CHUNK < origins.len() ==> #[trigger] chunk_retrieved(
            funcs,
            vertical,
            font,
            glyph,
            origins,
            chunk,
        )
}

/// Whether the font functions can be asked for the origins after those that they left.
pub open spec fn can_continue<F: FontFuncs>(
    funcs: F,
    vertical: bool,
    font: Face,
    glyph: Seq<GlyphInfo>,
    origins: Seq<GlyphPosition>,
) -> bool {
    let chunk = origins.len() / CHUNK as nat;
    origins.len() < glyph.len() ==> origins_requires(
        funcs,
        vertical,
        font,
        glyph.subrange(origins.len() as int, chunk_end(glyph.len(), chunk)),
        chunk_before(glyph.len(), origins, chunk),
    )
}

/// Whether each position can be moved by `mult` times its origin.
pub open spec fn moves_fit(
    before: Seq<GlyphPosition>,
    origins: Seq<GlyphPosition>,
    mult: int,
) -> bool {
    forall|i: int|
        0 <= i < origins.len() && i < before.len() ==> {
            &&& i32::MIN <= #[trigger] before[i].x_offset + mult * origins[i].x_offset <= i32::MAX
            &&& i32::MIN <= before[i].y_offset + mult * origins[i].y_offset <= i32::MAX
        }
}

/// Whether each position that has an origin is moved by `mult` times the origin, and no other.
pub open spec fn moved_by_origins(
    before: Seq<GlyphPosition>,
    after: Seq<GlyphPosition>,
    origins: Seq<GlyphPosition>,
    mult: int,
) -> bool {
    &&& after.len() == before.len()
    &&& forall|i: int|
        0 <= i < before.len() ==> if i < origins.len() {
            (#[trigger] after[i]).has_offset(
                before[i],
                before[i].x_offset + mult * origins[i].x_offset,
                before[i].y_offset + mult * origins[i].y_offset,
            )
        } else {
            after[i] == before[i]
        }
}

/// The next chunk of a run starts after the origins that are already there.
pub(crate) proof fn lemma_next_chunk(count: nat, origins: Seq<GlyphPosition>)
    requires
        origins.len() < count,
        origins.len() % CHUNK as nat == 0,
    ensures
        ({
            let chunk = origins.len() / CHUNK as nat;
            &&& chunk * CHUNK == origins.len()
            &&& origins.len() < chunk_end(count, chunk) <= origins.len() + CHUNK
            &&& chunk > 0 ==> (chunk - 1) * CHUNK == origins.len() - CHUNK
            &&& chunk == 0 <==> origins.len() == 0
        }),
{
}

/// What is known after the font functions have retrieved one more chunk.
pub(crate) proof fn lemma_chunk_added<F: FontFuncs>(
    funcs: F,
    vertical: bool,
    font: Face,
    glyph: Seq<GlyphInfo>,
    origins: Seq<GlyphPosition>,
    added: Seq<GlyphPosition>,
    result: Result<(), ()>,
)
    requires
        retrieved(funcs, vertical, font, glyph, origins),
        origins.len() < glyph.len(),
        ({
            let chunk = origins.len() / CHUNK as nat;
            let end = chunk_end(glyph.len(), chunk);
            &&& added.len() == end - origins.len()
            &&& origins_ensures(
                funcs,
                vertical,
                font,
                glyph.subrange(origins.len() as int, end),
                chunk_before(glyph.len(), origins, chunk),
                added,
                result,
            )
        }),
    ensures
        retrieved(funcs, vertical, font, glyph, origins + added),
{
    let last = origins.len() / CHUNK as nat;
    let all = origins + added;
    lemma_next_chunk(glyph.len(), origins);
    assert forall|chunk: nat| chunk * CHUNK < all.len() implies #[trigger] chunk_retrieved(
        funcs,
        vertical,
        font,
        glyph,
        all,
        chunk,
    ) by {
        let start = chunk * CHUNK;
        let end = chunk_end(glyph.len(), chunk);
        assert(chunk_before(glyph.len(), all, chunk) =~= chunk_before(
            glyph.len(),
            origins,
            chunk,
        ));
        if chunk < last {
            assert(chunk_retrieved(funcs, vertical, font, glyph, origins, chunk));
            assert(all.subrange(start, end) =~= origins.subrange(start, end));
        } else {
            assert(chunk == last);
            assert(all.subrange(start, end) =~= added);
        }
    }
}

/// Where the positions of the first chunks are moved and those of the next one can be, they can be moved
/// from where they are.
pub(crate) proof fn lemma_chunk_fits(
    before: Seq<GlyphPosition>,
    partly: Seq<GlyphPosition>,
    origins: Seq<GlyphPosition>,
    added: Seq<GlyphPosition>,
    mult: int,
)
    requires
        origins.len() + added.len() <= before.len(),
        moved_by_origins(before, partly, origins, mult),
        moves_fit(before, origins + added, mult),
    ensures
        moves_fit(
            partly.subrange(origins.len() as int, (origins.len() + added.len()) as int),
            added,
            mult,
        ),
{
    let start = origins.len() as int;
    let part = partly.subrange(start, start + added.len());
    assert forall|i: int| 0 <= i < added.len() && i < part.len() implies {
        &&& i32::MIN <= #[trigger] part[i].x_offset + mult * added[i].x_offset <= i32::MAX
        &&& i32::MIN <= part[i].y_offset + mult * added[i].y_offset <= i32::MAX
    } by {
        let all = origins + added;
        assert(all[start + i] == added[i]);
        assert(partly[start + i] == before[start + i]);
        assert(part[i] == before[start + i]);
        assert(i32::MIN <= before[start + i].x_offset + mult * all[start + i].x_offset
            <= i32::MAX);
    }
}

/// Where the positions of the first chunks and then those of the next one are moved, those of all these
/// chunks are.
pub(crate) proof fn lemma_chunk_moved(
    before: Seq<GlyphPosition>,
    partly: Seq<GlyphPosition>,
    after: Seq<GlyphPosition>,
    origins: Seq<GlyphPosition>,
    added: Seq<GlyphPosition>,
    mult: int,
)
    requires
        origins.len() + added.len() <= before.len(),
        moved_by_origins(before, partly, origins, mult),
        after.len() == partly.len(),
        forall|i: int|
            0 <= i < partly.len() && !(origins.len() <= i < origins.len() + added.len())
                ==> #[trigger] after[i] == partly[i],
        moved_by_origins(
            partly.subrange(origins.len() as int, (origins.len() + added.len()) as int),
            after.subrange(origins.len() as int, (origins.len() + added.len()) as int),
            added,
            mult,
        ),
    ensures
        moved_by_origins(before, after, origins + added, mult),
{
    let start = origins.len() as int;
    let end = start + added.len();
    let all = origins + added;
    assert forall|i: int| 0 <= i < before.len() implies if i < all.len() {
        (#[trigger] after[i]).has_offset(
            before[i],
            before[i].x_offset + mult * all[i].x_offset,
            before[i].y_offset + mult * all[i].y_offset,
        )
    } else {
        after[i] == before[i]
    } by {
        if start <= i < end {
            assert(after.subrange(start, end)[i - start] == after[i]);
            assert(partly.subrange(start, end)[i - start] == partly[i]);
            assert(partly[i] == before[i]);
            assert(all[i] == added[i - start]);
        } else {
            assert(after[i] == partly[i]);
        }
    }
}

/// Moves the positions from `offset` on by `mult` times the given origins.
pub fn move_chunk(
    positions: &mut [GlyphPosition],
    offset: usize,
    origins: &[GlyphPosition],
    mult: i32,
)
    requires
        mult == 1 || mult == -1,
        offset + origins@.len() <= old(positions)@.len(),
        moves_fit(
            old(positions)@.subrange(offset as int, offset + origins@.len()),
            origins@,
            mult as int,
        ),
    ensures
        final(positions)@.len() == old(positions)@.len(),
        forall|i: int|
            0 <= i < old(positions)@.len() && !(offset <= i < offset + origins@.len())
                ==> #[trigger] final(positions)@[i] == old(positions)@[i],
        moved_by_origins(
            old(positions)@.subrange(offset as int, offset + origins@.len()),
            final(positions)@.subrange(offset as int, offset + origins@.len()),
            origins@,
            mult as int,
        ),
{
    let ghost before = positions@;
    assert(before.len() == positions.len());
    let mut i: usize = 0;
    while i < origins.len()
        invariant
            mult == 1 || mult == -1,
            i <= origins@.len(),
            offset + origins@.len() <= before.len() <= usize::MAX,
            positions@.len() == before.len(),
            moves_fit(before.subrange(offset as int, offset + origins@.len()), origins@, mult as int),
            forall|j: int|
                0 <= j < before.len() ==> if offset <= j < offset + i {
                    (#[trigger] positions@[j]).has_offset(
                        before[j],
                        before[j].x_offset + mult * origins@[j - offset].x_offset,
                        before[j].y_offset + mult * origins@[j - offset].y_offset,
                    )
                } else {
                    positions@[j] == before[j]
                },
        decreases origins.len() - i,
    {
        let ghost part = before.subrange(offset as int, offset + origins@.len());
        assert(part[i as int] == before[offset + i]);
        assert(positions@[offset + i] == before[offset + i]);
        let at: usize = offset + i;
        if mult == 1 {
            positions[at].x_offset = positions[at].x_offset + origins[i].x_offset;
            positions[at].y_offset = positions[at].y_offset + origins[i].y_offset;
        } else {
            positions[at].x_offset = positions[at].x_offset - origins[i].x_offset;
            positions[at].y_offset = positions[at].y_offset - origins[i].y_offset;
        }
        i += 1;
    }
}

} // verus!
