//! What synthetic font functions change of what the base functions give.
//!
//! Every law here starts from a call of a public function, and says how its result follows from that of the
//! base functions.
use vstd::prelude::*;

use crate::font_funcs::{Face, FontFuncs};
use crate::glyph::{GlyphExtents, GlyphId, GlyphInfo, GlyphPosition};
use crate::synthetic::{embolden_extents, slant_extents, Slant, SyntheticFontFuncs, Upright};

verus! {

/// Emboldening and slanting are what they were asked to be.
pub proof fn synthetic_functions_hold_what_was_asked<T, S>(
    base: T,
    x_strength: i32,
    y_strength: i32,
    embolden_in_place: bool,
    slant: Option<S>,
    bold: SyntheticFontFuncs<T, Upright>,
    slanted: SyntheticFontFuncs<T, S>,
)
    requires
        call_ensures(
            SyntheticFontFuncs::<T, Upright>::new_bold,
            (base, x_strength, y_strength, embolden_in_place),
            bold,
        ),
        call_ensures(SyntheticFontFuncs::<T, S>::new_slant, (base, slant), slanted),
    ensures
        bold.base == base,
        bold.x_strength == x_strength,
        bold.y_strength == y_strength,
        bold.embolden_in_place == embolden_in_place,
        bold.slant is None,
        slanted.base == base,
        slanted.x_strength == 0,
        slanted.y_strength == 0,
        !slanted.embolden_in_place,
        slanted.slant == slant,
{
}

/// An upright font is not sheared.
pub proof fn upright_fonts_are_not_sheared(upright: &Upright, y1: i32, y2: i32, shear: (i32, i32))
    requires
        call_ensures(<Upright as Slant>::shear, (upright, y1, y2), shear),
    ensures
        shear.0 == 0,
        shear.1 == 0,
{
}

/// Each horizontal advance of the base functions that is not zero grows by the horizontal strength, unless
/// emboldening is in place. Nothing else of a position changes.
pub proof fn h_advances_grow<T: FontFuncs, S: Slant>(
    funcs: &SyntheticFontFuncs<T, S>,
    face: &Face<'_>,
    glyph: &[GlyphInfo],
    advance: &mut [GlyphPosition],
)
    requires
        call_ensures(
            <SyntheticFontFuncs<T, S> as FontFuncs>::glyph_h_advances,
            (funcs, face, glyph, advance),
            (),
        ),
    ensures
        final(advance)@.len() == old(advance)@.len(),
        exists|base: Seq<GlyphPosition>|
            {
                &&& #[trigger] funcs.base.h_advances_ensures(*face, glyph@, old(advance)@, base)
                &&& base.len() == old(advance)@.len()
                &&& forall|i: int|
                    0 <= i < base.len() ==> {
                        let after = #[trigger] final(advance)@[i];
                        &&& after.x_advance == (if base[i].x_advance == 0
                            || funcs.embolden_in_place {
                            base[i].x_advance as int
                        } else {
                            base[i].x_advance + funcs.x_strength
                        })
                        &&& after.y_advance == base[i].y_advance
                        &&& after.x_offset == base[i].x_offset
                        &&& after.y_offset == base[i].y_offset
                    }
            },
{
}

/// Each vertical advance of the base functions that is not zero grows by the vertical strength, unless
/// emboldening is in place. Nothing else of a position changes.
pub proof fn v_advances_grow<T: FontFuncs, S: Slant>(
    funcs: &SyntheticFontFuncs<T, S>,
    face: &Face<'_>,
    glyph: &[GlyphInfo],
    advance: &mut [GlyphPosition],
)
    requires
        call_ensures(
            <SyntheticFontFuncs<T, S> as FontFuncs>::glyph_v_advances,
            (funcs, face, glyph, advance),
            (),
        ),
    ensures
        final(advance)@.len() == old(advance)@.len(),
        exists|base: Seq<GlyphPosition>|
            {
                &&& #[trigger] funcs.base.v_advances_ensures(*face, glyph@, old(advance)@, base)
                &&& base.len() == old(advance)@.len()
                &&& forall|i: int|
                    0 <= i < base.len() ==> {
                        let after = #[trigger] final(advance)@[i];
                        &&& after.x_advance == base[i].x_advance
                        &&& after.y_advance == (if base[i].y_advance == 0
                            || funcs.embolden_in_place {
                            base[i].y_advance as int
                        } else {
                            base[i].y_advance + funcs.y_strength
                        })
                        &&& after.x_offset == base[i].x_offset
                        &&& after.y_offset == base[i].y_offset
                    }
            },
{
}

/// Whether each position is that of the base functions, with its offsets moved by the strengths unless
/// emboldening is in place.
pub open spec fn moved_by_strengths<T, S>(
    funcs: SyntheticFontFuncs<T, S>,
    base: Seq<GlyphPosition>,
    after: Seq<GlyphPosition>,
) -> bool {
    &&& after.len() == base.len()
    &&& forall|i: int|
        0 <= i < base.len() ==> {
            &&& (#[trigger] after[i]).x_advance == base[i].x_advance
            &&& after[i].y_advance == base[i].y_advance
            &&& after[i].x_offset - base[i].x_offset == (if funcs.embolden_in_place {
                0
            } else {
                funcs.x_strength as int
            })
            &&& after[i].y_offset - base[i].y_offset == (if funcs.embolden_in_place {
                0
            } else {
                funcs.y_strength as int
            })
        }
}

/// Horizontal origins of the base functions move by the strengths, unless emboldening is in place. Where
/// the base functions fail, what they left stays.
pub proof fn h_origins_move<T: FontFuncs, S: Slant>(
    funcs: &SyntheticFontFuncs<T, S>,
    face: &Face<'_>,
    glyph: &[GlyphInfo],
    origin: &mut [GlyphPosition],
    result: Result<(), ()>,
)
    requires
        call_ensures(
            <SyntheticFontFuncs<T, S> as FontFuncs>::glyph_h_origins,
            (funcs, face, glyph, origin),
            result,
        ),
    ensures
        final(origin)@.len() == old(origin)@.len(),
        exists|base: Seq<GlyphPosition>|
            {
                &&& #[trigger] funcs.base.h_origins_ensures(
                    *face,
                    glyph@,
                    old(origin)@,
                    base,
                    result,
                )
                &&& base.len() == old(origin)@.len()
                &&& result is Ok ==> moved_by_strengths(*funcs, base, final(origin)@)
                &&& result is Err ==> final(origin)@ == base
            },
{
}

/// Vertical origins of the base functions move by the strengths, unless emboldening is in place. Where the
/// base functions fail, what they left stays.
pub proof fn v_origins_move<T: FontFuncs, S: Slant>(
    funcs: &SyntheticFontFuncs<T, S>,
    face: &Face<'_>,
    glyph: &[GlyphInfo],
    origin: &mut [GlyphPosition],
    result: Result<(), ()>,
)
    requires
        call_ensures(
            <SyntheticFontFuncs<T, S> as FontFuncs>::glyph_v_origins,
            (funcs, face, glyph, origin),
            result,
        ),
    ensures
        final(origin)@.len() == old(origin)@.len(),
        exists|base: Seq<GlyphPosition>|
            {
                &&& #[trigger] funcs.base.v_origins_ensures(
                    *face,
                    glyph@,
                    old(origin)@,
                    base,
                    result,
                )
                &&& base.len() == old(origin)@.len()
                &&& result is Ok ==> moved_by_strengths(*funcs, base, final(origin)@)
                &&& result is Err ==> final(origin)@ == base
            },
{
}

/// The horizontal origins are not always (0, 0) if those of the base functions are not, or if a strength
/// moves them.
pub proof fn origin_flag_follows_base_and_strengths<T: FontFuncs, S: Slant>(
    funcs: &SyntheticFontFuncs<T, S>,
    face: &Face<'_>,
    flag: bool,
)
    requires
        call_ensures(
            <SyntheticFontFuncs<T, S> as FontFuncs>::non_default_h_origins,
            (funcs, face),
            flag,
        ),
    ensures
        exists|base: bool|
            {
                &&& #[trigger] funcs.base.non_default_h_origins_ensures(*face, base)
                &&& base ==> flag
                &&& !funcs.embolden_in_place && funcs.x_strength != 0 ==> flag
                &&& !funcs.embolden_in_place && funcs.y_strength != 0 ==> flag
                &&& !base && funcs.embolden_in_place ==> !flag
                &&& !base && funcs.x_strength == 0 && funcs.y_strength == 0 ==> !flag
            },
{
}

/// The edges of extents: left, bottom, right and top.
pub open spec fn extents_edges(extents: GlyphExtents) -> (int, int, int, int) {
    (
        extents.x_bearing as int,
        extents.y_bearing + extents.height,
        extents.x_bearing + extents.width,
        extents.y_bearing as int,
    )
}

/// Whether the edges of extents are those of others, with the left and right ones moved.
pub open spec fn are_sheared(
    after: GlyphExtents,
    before: GlyphExtents,
    shear: (i32, i32),
) -> bool {
    let (left, bottom, right, top) = extents_edges(before);
    extents_edges(after) == (left + shear.0, bottom, right + shear.1, top)
}

/// Whether `half` is half of a number, rounded towards zero.
pub open spec fn is_half(half: int, value: int) -> bool {
    if value >= 0 {
        0 <= value - 2 * half <= 1
    } else {
        -1 <= value - 2 * half <= 0
    }
}

/// Whether the edges of extents are those of others, grown by strengths: the top edge up by all of the
/// vertical one, the left edge out by half of the horizontal one and the right edge by the rest; the bottom
/// edge stays.
pub open spec fn are_grown(
    after: GlyphExtents,
    before: GlyphExtents,
    x_strength: i32,
    y_strength: i32,
) -> bool {
    let (left, bottom, right, top) = extents_edges(before);
    let (new_left, new_bottom, new_right, new_top) = extents_edges(after);
    &&& new_top - top == y_strength
    &&& new_bottom == bottom
    &&& is_half(left - new_left, x_strength as int)
    &&& (new_right - right) + (left - new_left) == x_strength
}

/// Slanting moves the left and right edges of extents by the shear.
pub proof fn slanting_shears(extents: GlyphExtents, shear: (i32, i32), slanted: GlyphExtents)
    requires
        call_ensures(slant_extents, (extents, shear), slanted),
    ensures
        are_sheared(slanted, extents, shear),
{
}

/// Emboldening grows extents by the strengths.
pub proof fn emboldening_grows(
    extents: GlyphExtents,
    x_strength: i32,
    y_strength: i32,
    emboldened: GlyphExtents,
)
    requires
        call_ensures(embolden_extents, (extents, x_strength, y_strength), emboldened),
    ensures
        are_grown(emboldened, extents, x_strength, y_strength),
{
}

/// Extents are those of the base functions: with a slant, sheared as the slant says for their top and
/// bottom edges; then grown by the strengths, also where emboldening is in place. A glyph without extents
/// stays without.
pub proof fn extents_are_sheared_and_grown<T: FontFuncs, S: Slant>(
    funcs: &SyntheticFontFuncs<T, S>,
    face: &Face<'_>,
    glyph: GlyphId,
    extents: Option<GlyphExtents>,
)
    requires
        call_ensures(
            <SyntheticFontFuncs<T, S> as FontFuncs>::glyph_extents,
            (funcs, face, glyph),
            extents,
        ),
        funcs.extents_requires(*face, glyph),
    ensures
        exists|base: Option<GlyphExtents>|
            {
                &&& #[trigger] funcs.base.extents_ensures(*face, glyph, base)
                &&& extents is Some <==> base is Some
                &&& base is Some && funcs.slant is None ==> are_grown(
                    extents->0,
                    base->0,
                    funcs.x_strength,
                    funcs.y_strength,
                )
                &&& base is Some && funcs.slant is Some ==> exists|
                    bottom: i32,
                    shear: (i32, i32),
                    slanted: (int, int, int, int),
                |
                    {
                        let (left, low, right, top) = extents_edges(base->0);
                        let (new_left, new_low, new_right, new_top) = extents_edges(extents->0);
                        &&& bottom == low
                        &&& #[trigger] call_ensures(
                            S::shear,
                            (&funcs.slant->0, base->0.y_bearing, bottom),
                            shear,
                        )
                        &&& slanted == (left + shear.0, low, right + shear.1, top)
                        &&& new_top - #[trigger] slanted.3 == funcs.y_strength
                        &&& new_low == slanted.1
                        &&& is_half(slanted.0 - new_left, funcs.x_strength as int)
                        &&& (new_right - slanted.2) + (slanted.0 - new_left) == funcs.x_strength
                    }
            },
{
    let base = choose|base: Option<GlyphExtents>|
        {
            &&& #[trigger] funcs.base.extents_ensures(*face, glyph, base)
            &&& match base {
                Some(base) => extents is Some && funcs.extents_follow(base, extents->0),
                None => extents is None,
            }
        };
    if base is Some {
        let (left, low, right, top) = extents_edges(base->0);
        let after = crate::synthetic::wide(extents->0);
        assert(after.x_bearing == extents->0.x_bearing);
        if funcs.slant is Some {
            let shear = choose|shear: (i32, i32)| #[trigger]
                funcs.shears(base->0, shear) && crate::synthetic::wide(extents->0)
                    == crate::synthetic::wide(base->0).slanted(shear).emboldened(
                    funcs.x_strength,
                    funcs.y_strength,
                );
            let bottom = (base->0.y_bearing + base->0.height) as i32;
            let slanted = (left + shear.0, low, right + shear.1, top);
            assert(funcs.extents_fit(base->0));
            assert(call_ensures(S::shear, (&funcs.slant->0, base->0.y_bearing, bottom), shear));
            assert(slanted.3 == top);
        }
    }
}

} // verus!
