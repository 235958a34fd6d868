//! Font functions for synthetic slant and emboldening.
use vstd::prelude::*;

use crate::font_funcs::{Face, FontFuncs};
use crate::glyph::{GlyphExtents, GlyphId, GlyphInfo, GlyphPosition};
use crate::vertical_origin;

verus! {

/// A slant ratio other than zero.
pub trait Slant {
    /// Returns how far the edges of a box move that reaches from `y1` to `y2`: the left edge by the
    /// smaller of the two products of the ratio with `y1` and `y2`, rounded down, and the right edge
    /// by the larger one, rounded up.
    fn shear(&self, y1: i32, y2: i32) -> (i32, i32);
}

/// The slant of a font that is not slanted.
#[derive(Clone, Copy, Debug)]
pub struct Upright;

impl Slant for Upright {
    fn shear(&self, y1: i32, y2: i32) -> (shear: (i32, i32))
        ensures
            shear == (0i32, 0i32),
    {
        (0, 0)
    }
}

/// Whether a number fits into 32 bits.
pub open spec fn fits(value: int) -> bool {
    i32::MIN <= value <= i32::MAX
}

/// Glyph extents without a limit on their size.
pub struct WideExtents {
    /// Distance from the x-origin to the left extremum of the glyph.
    pub x_bearing: int,
    /// Distance from the top extremum of the glyph to the y-origin.
    pub y_bearing: int,
    /// Distance from the left extremum of the glyph to the right extremum.
    pub width: int,
    /// Distance from the top extremum of the glyph to the bottom extremum.
    pub height: int,
}

/// The given extents as numbers of any size.
pub open spec fn wide(extents: GlyphExtents) -> WideExtents {
    WideExtents {
        x_bearing: extents.x_bearing as int,
        y_bearing: extents.y_bearing as int,
        width: extents.width as int,
        height: extents.height as int,
    }
}

impl WideExtents {
    /// Whether each of the four numbers fits into 32 bits.
    pub open spec fn fits(self) -> bool {
        fits(self.x_bearing) && fits(self.y_bearing) && fits(self.width) && fits(self.height)
    }

    /// The extents after the left and right edges have moved.
    pub open spec fn slanted(self, shear: (i32, i32)) -> WideExtents {
        WideExtents {
            x_bearing: self.x_bearing + shear.0,
            width: self.width + shear.1 - shear.0,
            ..self
        }
    }

    /// Whether the edges of the extents fit into 32 bits.
    pub open spec fn edges_fit(self) -> bool {
        fits(self.x_bearing + self.width) && fits(self.y_bearing + self.height)
    }

    /// The extents of a glyph whose outline grows by the given strengths: half of the horizontal one
    /// goes to the left, and all of the vertical one up.
    pub open spec fn emboldened(self, x_strength: i32, y_strength: i32) -> WideExtents {
        WideExtents {
            x_bearing: self.x_bearing - vertical_origin::half(x_strength as int),
            y_bearing: self.y_bearing + y_strength,
            width: self.width + x_strength,
            height: self.height - y_strength,
        }
    }
}

/// Moves the left and right edges of extents.
pub fn slant_extents(extents: GlyphExtents, shear: (i32, i32)) -> (slanted: GlyphExtents)
    requires
        wide(extents).edges_fit(),
        wide(extents).slanted(shear).fits(),
        wide(extents).slanted(shear).edges_fit(),
    ensures
        wide(slanted) == wide(extents).slanted(shear),
{
    let x1: i32 = extents.x_bearing + shear.0;
    let x2: i32 = extents.x_bearing + extents.width + shear.1;
    GlyphExtents { x_bearing: x1, width: x2 - x1, ..extents }
}

/// Grows extents by the given strengths.
pub fn embolden_extents(extents: GlyphExtents, x_strength: i32, y_strength: i32) -> (emboldened:
    GlyphExtents)
    requires
        wide(extents).emboldened(x_strength, y_strength).fits(),
    ensures
        wide(emboldened) == wide(extents).emboldened(x_strength, y_strength),
{
    if x_strength != 0 || y_strength != 0 {
        GlyphExtents {
            x_bearing: extents.x_bearing - x_strength / 2,
            y_bearing: extents.y_bearing + y_strength,
            width: extents.width + x_strength,
            height: extents.height - y_strength,
        }
    } else {
        extents
    }
}

/// Adjusts font metrics for synthetic slant/emboldening, wrapping another [`FontFuncs`]
/// implementation.
pub struct SyntheticFontFuncs<T, S> {
    /// The wrapped font function implementation.
    pub base: T,
    /// The horizontal emboldening strength.
    pub x_strength: i32,
    /// The vertical emboldening strength.
    pub y_strength: i32,
    /// If true, the emboldening is applied in-place, without changing the glyph advances.
    pub embolden_in_place: bool,
    /// The slant ratio, if it is not zero.
    pub slant: Option<S>,
}

impl<T> SyntheticFontFuncs<T, Upright> {
    /// Creates new synthetic font functions wrapping the given base implementation, accounting for
    /// emboldening.
    ///
    /// - `embolden_in_place`: If true, the emboldening is applied in-place, without changing the
    ///   glyph advances.
    pub fn new_bold(base: T, x_strength: i32, y_strength: i32, embolden_in_place: bool) -> (funcs:
        Self)
        ensures
            funcs == (SyntheticFontFuncs {
                base,
                x_strength,
                y_strength,
                embolden_in_place,
                slant: None::<Upright>,
            }),
    {
        SyntheticFontFuncs { base, x_strength, y_strength, embolden_in_place, slant: None }
    }
}

impl<T, S> SyntheticFontFuncs<T, S> {
    /// Creates new synthetic font functions wrapping the given base implementation, accounting for
    /// slanting.
    ///
    /// - `slant`: The slant ratio, where a 0.2 slant would result in a point 1 unit up being shifted
    ///   horizontally by 0.2 units; `None` for a ratio of zero.
    pub fn new_slant(base: T, slant: Option<S>) -> (funcs: Self)
        ensures
            funcs == (SyntheticFontFuncs {
                base,
                x_strength: 0,
                y_strength: 0,
                embolden_in_place: false,
                slant,
            }),
    {
        SyntheticFontFuncs { base, x_strength: 0, y_strength: 0, embolden_in_place: false, slant }
    }

    /// How far advances and origins grow in each direction.
    pub open spec fn growth(self) -> (int, int) {
        if self.embolden_in_place {
            (0, 0)
        } else {
            (self.x_strength as int, self.y_strength as int)
        }
    }
}

/// An advance after emboldening: an advance of zero stays zero.
pub open spec fn grown_advance(advance: int, growth: int) -> int {
    if advance == 0 {
        0
    } else {
        advance + growth
    }
}


/// Whether `after` is `before` with every offset moved.
pub open spec fn moved(
    before: Seq<GlyphPosition>,
    after: Seq<GlyphPosition>,
    growth: (int, int),
) -> bool {
    &&& after.len() == before.len()
    &&& forall|i: int|
        0 <= i < before.len() ==> (#[trigger] after[i]).has_offset(
            before[i],
            before[i].x_offset + growth.0,
            before[i].y_offset + growth.1,
        )
}

impl<T, S> SyntheticFontFuncs<T, S> {
    /// Moves every origin by the emboldening strengths, unless emboldening is in place.
    fn move_origins(&self, origin: &mut [GlyphPosition])
        requires
            forall|i: int|
                0 <= i < old(origin)@.len() ==> fits(
                    (#[trigger] old(origin)@[i]).x_offset + self.growth().0,
                ) && fits(old(origin)@[i].y_offset + self.growth().1),
        ensures
            moved(old(origin)@, final(origin)@, self.growth()),
    {
        let ghost before = origin@;
        let mut i: usize = 0;
        while i < origin.len()
            invariant
                i <= origin@.len(),
                origin@.len() == before.len(),
                forall|j: int|
                    0 <= j < before.len() ==> fits((#[trigger] before[j]).x_offset + self.growth().0)
                        && fits(before[j].y_offset + self.growth().1),
                forall|j: int|
                    0 <= j < before.len() ==> if j < i {
                        (#[trigger] origin@[j]).has_offset(
                            before[j],
                            before[j].x_offset + self.growth().0,
                            before[j].y_offset + self.growth().1,
                        )
                    } else {
                        origin@[j] == before[j]
                    },
            decreases origin.len() - i,
        {
            if !self.embolden_in_place {
                assert(origin@[i as int] == before[i as int]);
                origin[i].x_offset = origin[i].x_offset + self.x_strength;
                origin[i].y_offset = origin[i].y_offset + self.y_strength;
            }
            i += 1;
        }
    }
}

impl<T: FontFuncs, S: Slant> FontFuncs for SyntheticFontFuncs<T, S> {
    /// The base functions can be called, and no advance that they can give grows out of 32 bits.
    open spec fn h_advances_requires(
        &self,
        font: Face,
        glyph: Seq<GlyphInfo>,
        before: Seq<GlyphPosition>,
    ) -> bool {
        &&& self.base.h_advances_requires(font, glyph, before)
        &&& forall|mid: Seq<GlyphPosition>, i: int|
            #![trigger self.base.h_advances_ensures(font, glyph, before, mid), mid[i]]
            self.base.h_advances_ensures(font, glyph, before, mid) && mid.len() == before.len()
                && 0 <= i < mid.len() ==> fits(
                grown_advance(mid[i].x_advance as int, self.growth().0),
            )
    }

    /// The advances of the base functions, grown by the horizontal strength unless emboldening is in
    /// place.
    open spec fn h_advances_ensures(
        &self,
        font: Face,
        glyph: Seq<GlyphInfo>,
        before: Seq<GlyphPosition>,
        after: Seq<GlyphPosition>,
    ) -> bool {
        exists|mid: Seq<GlyphPosition>|
            {
                &&& #[trigger] self.base.h_advances_ensures(font, glyph, before, mid)
                &&& mid.len() == before.len()
                &&& after.len() == mid.len()
                &&& forall|i: int|
                    0 <= i < mid.len() ==> (#[trigger] after[i]).has_x_advance(
                        mid[i],
                        grown_advance(mid[i].x_advance as int, self.growth().0),
                    )
            }
    }

    fn glyph_h_advances(
        &self,
        font: &Face<'_>,
        glyph: &[GlyphInfo],
        advance: &mut [GlyphPosition],
    ) {
        let ghost before = advance@;
        self.base.glyph_h_advances(font, glyph, advance);
        let ghost mid = advance@;
        if self.x_strength != 0 && !self.embolden_in_place {
            let mut i: usize = 0;
            while i < advance.len()
                invariant
                    i <= advance@.len(),
                    advance@.len() == mid.len(),
                    mid.len() == before.len(),
                    !self.embolden_in_place,
                    self.h_advances_requires(*font, glyph@, before),
                    self.base.h_advances_ensures(*font, glyph@, before, mid),
                    forall|j: int|
                        0 <= j < mid.len() ==> if j < i {
                            (#[trigger] advance@[j]).has_x_advance(
                                mid[j],
                                grown_advance(mid[j].x_advance as int, self.growth().0),
                            )
                        } else {
                            advance@[j] == mid[j]
                        },
                decreases advance.len() - i,
            {
                if advance[i].x_advance != 0 {
                    assert(advance@[i as int] == mid[i as int]);
                    advance[i].x_advance = advance[i].x_advance + self.x_strength;
                }
                i += 1;
            }
        }
    }

    /// The base functions can be called, and no advance that they can give grows out of 32 bits.
    open spec fn v_advances_requires(
        &self,
        font: Face,
        glyph: Seq<GlyphInfo>,
        before: Seq<GlyphPosition>,
    ) -> bool {
        &&& self.base.v_advances_requires(font, glyph, before)
        &&& forall|mid: Seq<GlyphPosition>, i: int|
            #![trigger self.base.v_advances_ensures(font, glyph, before, mid), mid[i]]
            self.base.v_advances_ensures(font, glyph, before, mid) && mid.len() == before.len()
                && 0 <= i < mid.len() ==> fits(
                grown_advance(mid[i].y_advance as int, self.growth().1),
            )
    }

    /// The advances of the base functions, grown by the vertical strength unless emboldening is in
    /// place.
    open spec fn v_advances_ensures(
        &self,
        font: Face,
        glyph: Seq<GlyphInfo>,
        before: Seq<GlyphPosition>,
        after: Seq<GlyphPosition>,
    ) -> bool {
        exists|mid: Seq<GlyphPosition>|
            {
                &&& #[trigger] self.base.v_advances_ensures(font, glyph, before, mid)
                &&& mid.len() == before.len()
                &&& after.len() == mid.len()
                &&& forall|i: int|
                    0 <= i < mid.len() ==> (#[trigger] after[i]).has_y_advance(
                        mid[i],
                        grown_advance(mid[i].y_advance as int, self.growth().1),
                    )
            }
    }

    fn glyph_v_advances(
        &self,
        font: &Face<'_>,
        glyph: &[GlyphInfo],
        advance: &mut [GlyphPosition],
    ) {
        let ghost before = advance@;
        self.base.glyph_v_advances(font, glyph, advance);
        let ghost mid = advance@;
        if self.y_strength != 0 && !self.embolden_in_place {
            let mut i: usize = 0;
            while i < advance.len()
                invariant
                    i <= advance@.len(),
                    advance@.len() == mid.len(),
                    mid.len() == before.len(),
                    !self.embolden_in_place,
                    self.v_advances_requires(*font, glyph@, before),
                    self.base.v_advances_ensures(*font, glyph@, before, mid),
                    forall|j: int|
                        0 <= j < mid.len() ==> if j < i {
                            (#[trigger] advance@[j]).has_y_advance(
                                mid[j],
                                grown_advance(mid[j].y_advance as int, self.growth().1),
                            )
                        } else {
                            advance@[j] == mid[j]
                        },
                decreases advance.len() - i,
            {
                if advance[i].y_advance != 0 {
                    assert(advance@[i as int] == mid[i as int]);
                    advance[i].y_advance = advance[i].y_advance + self.y_strength;
                }
                i += 1;
            }
        }
    }

    /// The base functions can be called, and no origin that they can give grows out of 32 bits.
    open spec fn h_origins_requires(
        &self,
        font: Face,
        glyph: Seq<GlyphInfo>,
        before: Seq<GlyphPosition>,
    ) -> bool {
        &&& self.base.h_origins_requires(font, glyph, before)
        &&& forall|mid: Seq<GlyphPosition>, result: Result<(), ()>, i: int|
            #![trigger self.base.h_origins_ensures(font, glyph, before, mid, result), mid[i]]
            self.base.h_origins_ensures(font, glyph, before, mid, result) && result is Ok
                && mid.len() == before.len() && 0 <= i < mid.len() ==> fits(
                mid[i].x_offset + self.growth().0,
            ) && fits(mid[i].y_offset + self.growth().1)
    }

    /// What the base functions do; where they succeed, every position is then moved by the strengths
    /// unless emboldening is in place.
    open spec fn h_origins_ensures(
        &self,
        font: Face,
        glyph: Seq<GlyphInfo>,
        before: Seq<GlyphPosition>,
        after: Seq<GlyphPosition>,
        result: Result<(), ()>,
    ) -> bool {
        exists|mid: Seq<GlyphPosition>|
            {
                &&& #[trigger] self.base.h_origins_ensures(font, glyph, before, mid, result)
                &&& mid.len() == before.len()
                &&& if result is Ok {
                    moved(mid, after, self.growth())
                } else {
                    after == mid
                }
            }
    }

    fn glyph_h_origins(
        &self,
        font: &Face<'_>,
        glyph: &[GlyphInfo],
        origin: &mut [GlyphPosition],
    ) -> (result: Result<(), ()>) {
        let result = self.base.glyph_h_origins(font, glyph, origin);
        if result.is_ok() {
            self.move_origins(origin);
        }
        result
    }

    /// The base functions can be called, and no origin that they can give grows out of 32 bits.
    open spec fn v_origins_requires(
        &self,
        font: Face,
        glyph: Seq<GlyphInfo>,
        before: Seq<GlyphPosition>,
    ) -> bool {
        &&& self.base.v_origins_requires(font, glyph, before)
        &&& forall|mid: Seq<GlyphPosition>, result: Result<(), ()>, i: int|
            #![trigger self.base.v_origins_ensures(font, glyph, before, mid, result), mid[i]]
            self.base.v_origins_ensures(font, glyph, before, mid, result) && result is Ok
                && mid.len() == before.len() && 0 <= i < mid.len() ==> fits(
                mid[i].x_offset + self.growth().0,
            ) && fits(mid[i].y_offset + self.growth().1)
    }

    /// What the base functions do; where they succeed, every position is then moved by the strengths
    /// unless emboldening is in place.
    open spec fn v_origins_ensures(
        &self,
        font: Face,
        glyph: Seq<GlyphInfo>,
        before: Seq<GlyphPosition>,
        after: Seq<GlyphPosition>,
        result: Result<(), ()>,
    ) -> bool {
        exists|mid: Seq<GlyphPosition>|
            {
                &&& #[trigger] self.base.v_origins_ensures(font, glyph, before, mid, result)
                &&& mid.len() == before.len()
                &&& if result is Ok {
                    moved(mid, after, self.growth())
                } else {
                    after == mid
                }
            }
    }

    fn glyph_v_origins(
        &self,
        font: &Face<'_>,
        glyph: &[GlyphInfo],
        origin: &mut [GlyphPosition],
    ) -> (result: Result<(), ()>) {
        let result = self.base.glyph_v_origins(font, glyph, origin);
        if result.is_ok() {
            self.move_origins(origin);
        }
        result
    }

    /// Whether the base functions may give other origins, or emboldening moves them.
    open spec fn non_default_h_origins_ensures(&self, font: Face, flag: bool) -> bool {
        exists|base: bool|
            #[trigger] self.base.non_default_h_origins_ensures(font, base) && flag == (base
                || self.growth() != (0int, 0int))
    }

    fn non_default_h_origins(&self, font: &Face<'_>) -> (flag: bool) {
        let base = self.base.non_default_h_origins(font);
        base || (!self.embolden_in_place && (self.x_strength != 0 || self.y_strength != 0))
    }

    /// The base functions can be called, and no extents that they can give are changed into ones that
    /// do not fit into 32 bits.
    open spec fn extents_requires(&self, font: Face, glyph: GlyphId) -> bool {
        &&& self.base.extents_requires(font, glyph)
        &&& forall|extents: GlyphExtents| #[trigger]
            self.base.extents_ensures(font, glyph, Some(extents)) ==> self.extents_fit(extents)
    }

    /// The extents of the base functions, slanted and then emboldened.
    open spec fn extents_ensures(
        &self,
        font: Face,
        glyph: GlyphId,
        extents: Option<GlyphExtents>,
    ) -> bool {
        exists|base: Option<GlyphExtents>|
            {
                &&& #[trigger] self.base.extents_ensures(font, glyph, base)
                &&& match base {
                    Some(base) => extents is Some && self.extents_follow(base, extents->0),
                    None => extents is None,
                }
            }
    }

    fn glyph_extents(&self, font: &Face<'_>, glyph: GlyphId) -> (extents: Option<GlyphExtents>) {
        // Glyph outlines are not drawn here, so the synthesised extents are not perfectly accurate.
        let base = match self.base.glyph_extents(font, glyph) {
            Some(base) => base,
            None => return None,
        };
        let slanted = match &self.slant {
            Some(slant) => {
                let shear = slant.shear(base.y_bearing, base.y_bearing + base.height);
                assert(self.shears(base, shear));
                slant_extents(base, shear)
            },
            None => base,
        };
        Some(embolden_extents(slanted, self.x_strength, self.y_strength))
    }
}

impl<T, S: Slant> SyntheticFontFuncs<T, S> {
    /// Whether the slant moves the edges of the given extents like this.
    pub open spec fn shears(self, extents: GlyphExtents, shear: (i32, i32)) -> bool {
        self.slant is Some && call_ensures(
            S::shear,
            (&self.slant->0, extents.y_bearing, (extents.y_bearing + extents.height) as i32),
            shear,
        )
    }

    /// Whether the given extents can be slanted and emboldened.
    pub open spec fn extents_fit(self, extents: GlyphExtents) -> bool {
        if self.slant is Some {
            &&& wide(extents).edges_fit()
            &&& forall|shear: (i32, i32)| #[trigger]
                self.shears(extents, shear) ==> {
                    let slanted = wide(extents).slanted(shear);
                    &&& slanted.fits()
                    &&& slanted.edges_fit()
                    &&& slanted.emboldened(self.x_strength, self.y_strength).fits()
                }
        } else {
            wide(extents).emboldened(self.x_strength, self.y_strength).fits()
        }
    }

    /// Whether `after` are the given extents, slanted and then emboldened.
    pub open spec fn extents_follow(self, extents: GlyphExtents, after: GlyphExtents) -> bool {
        if self.slant is Some {
            exists|shear: (i32, i32)| #[trigger]
                self.shears(extents, shear) && wide(after) == wide(extents).slanted(
                    shear,
                ).emboldened(self.x_strength, self.y_strength)
        } else {
            wide(after) == wide(extents).emboldened(self.x_strength, self.y_strength)
        }
    }
}

} // verus!
