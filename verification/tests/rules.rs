use font_face::engine::UNKNOWN;
use font_face::font::FontRef;
use font_face::font_funcs::{Face, FontFuncs, PointSize};
use font_face::glyph::{
    hb_glyph_extents_t, BoundingBox, GlyphExtents, GlyphId, GlyphInfo, GlyphPosition, Point,
};
use font_face::glyph_origins::{move_chunk, CHUNK};
use font_face::instance::{is_default_location, pair_variations};
use font_face::metric_delta::MetricDelta;
use font_face::synthetic::{
    embolden_extents, slant_extents, Slant, SyntheticFontFuncs, Upright,
};
use font_face::vertical_origin::{
    to_bearing_origin_y, to_centered_origin_y, to_font_height, to_given_origin_y,
};

/// A 16.16 number, from its whole part and its 65536ths.
fn fixed(whole: i32, part: i32) -> i32 {
    (whole << 16) + part
}

fn face() -> Face<'static> {
    Face {
        font: FontRef { data: &[], index: 0 },
        units_per_em: 2048,
        points_per_em: Some(PointSize(12f32.to_bits())),
        coords: &[],
    }
}

fn infos(count: u32) -> Vec<GlyphInfo> {
    (0..count).map(|glyph_id| GlyphInfo { glyph_id }).collect()
}

fn position(x_advance: i32, y_advance: i32, x_offset: i32, y_offset: i32) -> GlyphPosition {
    GlyphPosition { x_advance, y_advance, x_offset, y_offset }
}

/// Font functions where glyph `n` is `100 n` wide and `50 n` high; glyph 7 has no origin, and glyph 8 no
/// extents.
struct Steps {
    default_origins: bool,
}

impl FontFuncs for Steps {
    fn glyph_h_advances(&self, _: &Face<'_>, glyph: &[GlyphInfo], advance: &mut [GlyphPosition]) {
        for (info, position) in glyph.iter().zip(advance.iter_mut()) {
            position.x_advance = 100 * info.glyph_id as i32;
        }
    }

    fn glyph_v_advances(&self, _: &Face<'_>, glyph: &[GlyphInfo], advance: &mut [GlyphPosition]) {
        for (info, position) in glyph.iter().zip(advance.iter_mut()) {
            position.y_advance = -50 * info.glyph_id as i32;
        }
    }

    fn glyph_h_origins(
        &self,
        _: &Face<'_>,
        glyph: &[GlyphInfo],
        origin: &mut [GlyphPosition],
    ) -> Result<(), ()> {
        for (info, position) in glyph.iter().zip(origin.iter_mut()) {
            if info.glyph_id == 7 {
                return Err(());
            }
            let y = if self.default_origins { 0 } else { info.glyph_id as i32 };
            position.x_offset = 0;
            position.y_offset = y;
        }
        Ok(())
    }

    fn glyph_v_origins(
        &self,
        font: &Face<'_>,
        glyph: &[GlyphInfo],
        origin: &mut [GlyphPosition],
    ) -> Result<(), ()> {
        self.glyph_h_origins(font, glyph, origin)?;
        for position in origin.iter_mut() {
            position.x_offset += 1000;
        }
        Ok(())
    }

    fn non_default_h_origins(&self, _: &Face<'_>) -> bool {
        !self.default_origins
    }

    fn glyph_extents(&self, _: &Face<'_>, glyph: GlyphId) -> Option<GlyphExtents> {
        if glyph == 8 {
            None
        } else {
            Some(extents(10, 50, 100, -60))
        }
    }
}

fn steps() -> Steps {
    Steps { default_origins: true }
}

fn extents(x_bearing: i32, y_bearing: i32, width: i32, height: i32) -> GlyphExtents {
    hb_glyph_extents_t { x_bearing, y_bearing, width, height }
}

/// A slant by a ratio.
struct Ratio(f32);

impl Slant for Ratio {
    fn shear(&self, y1: i32, y2: i32) -> (i32, i32) {
        let (a, b) = (y1 as f32 * self.0, y2 as f32 * self.0);
        (a.min(b).floor() as i32, a.max(b).ceil() as i32)
    }
}

#[test]
fn deltas_are_rounded() {
    assert_eq!(MetricDelta::Default.to_width(), 0);
    assert_eq!(MetricDelta::Table(None).to_width(), 0);
    assert_eq!(MetricDelta::Table(Some(fixed(3, 0x7fff))).to_width(), 3);
    assert_eq!(MetricDelta::Table(Some(fixed(3, 0x8000))).to_width(), 4);
    assert_eq!(MetricDelta::Table(Some(fixed(-3, 0x8000))).to_height(), -2);
    assert_eq!(MetricDelta::Table(Some(fixed(-3, 0x7fff))).to_left_bearing(), -3);
    assert_eq!(MetricDelta::Table(Some(fixed(9, 0))).to_top_bearing(), 9);
    // Rounding up the largest numbers wraps around.
    assert_eq!(MetricDelta::Table(Some(i32::MAX)).to_width(), -32768);
}

#[test]
fn phantom_points_give_deltas() {
    let point = |x, y| Point { x: fixed(x, 0), y: fixed(y, 0) };
    let moved = MetricDelta::Phantom(Some([point(3, 1), point(40, 2), point(5, 70), point(6, -8)]));
    assert_eq!(moved.to_width(), 37);
    assert_eq!(moved.to_height(), -78);
    assert_eq!(moved.to_left_bearing(), 3);
    assert_eq!(moved.to_top_bearing(), -8);
    assert_eq!(MetricDelta::Phantom(None).to_width(), 0);
}

#[test]
fn heights_and_origins() {
    assert_eq!(to_font_height(800, -200, None, None), 1000);
    assert_eq!(to_font_height(800, -200, Some(fixed(60, 0)), Some(fixed(-20, 0))), 1080);
    assert_eq!(to_given_origin_y(880, None), 880);
    assert_eq!(to_given_origin_y(880, Some(fixed(-5, 0x4000))), 875);
    let bounds = BoundingBox { x_min: 0, y_min: -200, x_max: 400, y_max: 700 };
    assert_eq!(to_bearing_origin_y(bounds, 10, None), 710);
    assert_eq!(to_bearing_origin_y(bounds, 10, Some(fixed(5, 0))), 715);
    assert_eq!(to_centered_origin_y(bounds, 1000), 750);
    assert_eq!(to_centered_origin_y(bounds, 1001), 750);
    assert_eq!(to_centered_origin_y(bounds, 899), 699);
}

#[test]
fn emboldened_extents() {
    assert_eq!(embolden_extents(extents(10, 50, 100, -60), 5, 7), extents(8, 57, 105, -67));
    assert_eq!(embolden_extents(extents(10, 50, 100, -60), -5, 0), extents(12, 50, 95, -60));
    assert_eq!(embolden_extents(extents(10, 50, 100, -60), 0, 0), extents(10, 50, 100, -60));
}

#[test]
fn slanted_extents() {
    assert_eq!(slant_extents(extents(10, 50, 100, -60), (-2, 11)), extents(8, 50, 113, -60));
    assert_eq!(Upright.shear(50, -10), (0, 0));
}

#[test]
fn emboldening_widens_advances() {
    let bold = SyntheticFontFuncs::new_bold(steps(), 12, -3, false);
    let mut positions = vec![position(1, 2, 3, 4); 3];
    bold.glyph_h_advances(&face(), &infos(3), &mut positions);
    // A glyph without an advance stays without one.
    assert_eq!(
        positions,
        vec![position(0, 2, 3, 4), position(112, 2, 3, 4), position(212, 2, 3, 4)]
    );
    bold.glyph_v_advances(&face(), &infos(3), &mut positions);
    assert_eq!(
        positions,
        vec![position(0, 0, 3, 4), position(112, -53, 3, 4), position(212, -103, 3, 4)]
    );
    // A glyph has the same advance alone.
    assert_eq!(bold.glyph_h_advance(&face(), 2), 212);
    assert_eq!(bold.glyph_v_advance(&face(), 2), -103);
    assert_eq!(bold.glyph_h_advance(&face(), 0), 0);
}

#[test]
fn positions_past_the_run_grow_too() {
    let bold = SyntheticFontFuncs::new_bold(steps(), 12, 0, false);
    let mut positions = vec![position(1, 2, 3, 4); 2];
    bold.glyph_h_advances(&face(), &infos(1), &mut positions);
    assert_eq!(positions, vec![position(0, 2, 3, 4), position(13, 2, 3, 4)]);
}

#[test]
fn emboldening_in_place_keeps_advances_and_origins() {
    let bold = SyntheticFontFuncs::new_bold(steps(), 12, 5, true);
    assert_eq!(bold.glyph_h_advance(&face(), 2), 200);
    assert_eq!(bold.glyph_v_advance(&face(), 2), -100);
    assert_eq!(bold.glyph_h_origin(&face(), 2), Ok((0, 0)));
    assert_eq!(bold.glyph_v_origin(&face(), 2), Ok((1000, 0)));
    assert!(!bold.non_default_h_origins(&face()));
    // The extents grow all the same.
    assert_eq!(bold.glyph_extents(&face(), 2), Some(extents(4, 55, 112, -65)));
}

#[test]
fn emboldening_moves_origins() {
    let bold = SyntheticFontFuncs::new_bold(steps(), 12, 5, false);
    assert_eq!(bold.glyph_h_origin(&face(), 2), Ok((12, 5)));
    assert_eq!(bold.glyph_v_origin(&face(), 2), Ok((1012, 5)));
    assert!(bold.non_default_h_origins(&face()));
}

#[test]
fn origins_that_the_base_lacks() {
    let bold = SyntheticFontFuncs::new_bold(steps(), 12, 5, false);
    assert_eq!(bold.glyph_h_origin(&face(), 7), Err(()));
    assert_eq!(bold.glyph_v_origin(&face(), 7), Err(()));
    // What the base left is not moved.
    let mut positions = vec![position(1, 2, 3, 4); 8];
    assert_eq!(bold.glyph_h_origins(&face(), &infos(8), &mut positions), Err(()));
    assert_eq!(positions[6], position(1, 2, 0, 0));
    assert_eq!(positions[7], position(1, 2, 3, 4));
}

#[test]
fn origins_that_the_base_moves() {
    let base = Steps { default_origins: false };
    let bold = SyntheticFontFuncs::new_bold(base, 12, 5, true);
    assert!(bold.non_default_h_origins(&face()));
    assert_eq!(bold.glyph_h_origin(&face(), 2), Ok((0, 2)));
}

#[test]
fn slanting_widens_extents() {
    let slanted = SyntheticFontFuncs::new_slant(steps(), Some(Ratio(0.2)));
    // From 50 * 0.2 = 10 on the right to -10 * 0.2 = -2 on the left.
    assert_eq!(slanted.glyph_extents(&face(), 1), Some(extents(8, 50, 112, -60)));
    assert_eq!(slanted.glyph_extents(&face(), 8), None);
    assert_eq!(slanted.glyph_h_advance(&face(), 2), 200);
    let left = SyntheticFontFuncs::new_slant(steps(), Some(Ratio(-0.25)));
    // From 50 * -0.25 = -12.5 on the left to -10 * -0.25 = 2.5 on the right.
    assert_eq!(left.glyph_extents(&face(), 1), Some(extents(-3, 50, 116, -60)));
}

#[test]
fn slanting_and_emboldening() {
    let mut both = SyntheticFontFuncs::new_slant(steps(), Some(Ratio(0.2)));
    both.x_strength = 5;
    both.y_strength = 7;
    assert_eq!(both.glyph_extents(&face(), 1), Some(extents(6, 57, 117, -67)));
}

#[test]
fn no_strength_and_no_slant_change_nothing() {
    let plain: SyntheticFontFuncs<Steps, Ratio> = SyntheticFontFuncs::new_slant(steps(), None);
    assert_eq!(plain.glyph_h_advance(&face(), 2), 200);
    assert_eq!(plain.glyph_v_advance(&face(), 2), -100);
    assert_eq!(plain.glyph_h_origin(&face(), 2), Ok((0, 0)));
    assert_eq!(plain.glyph_v_origin(&face(), 2), Ok((1000, 0)));
    assert_eq!(plain.glyph_extents(&face(), 2), Some(extents(10, 50, 100, -60)));
    assert!(!plain.embolden_in_place);
    assert!(!plain.non_default_h_origins(&face()));
}

#[test]
fn strength_in_one_direction_keeps_the_other() {
    let wide = SyntheticFontFuncs::new_bold(steps(), 12, 0, false);
    assert_eq!(wide.glyph_h_advance(&face(), 2), 212);
    assert_eq!(wide.glyph_v_advance(&face(), 2), -100);
    let high = SyntheticFontFuncs::new_bold(steps(), 0, 12, false);
    assert_eq!(high.glyph_h_advance(&face(), 2), 200);
    assert_eq!(high.glyph_v_advance(&face(), 2), -88);
}

#[test]
fn origin_flag_follows_the_strengths() {
    let flag = |x_strength, y_strength, in_place| {
        SyntheticFontFuncs::new_bold(steps(), x_strength, y_strength, in_place)
            .non_default_h_origins(&face())
    };
    assert!(!flag(0, 0, false));
    assert!(flag(1, 0, false));
    assert!(flag(0, -1, false));
    assert!(!flag(1, 1, true));
    let slanted = SyntheticFontFuncs::new_slant(steps(), Some(Ratio(0.25)));
    assert!(!slanted.non_default_h_origins(&face()));
    assert_eq!(slanted.glyph_h_origin(&face(), 2), Ok((0, 0)));
    assert_eq!(slanted.glyph_v_origin(&face(), 2), Ok((1000, 0)));
    let moved = Steps { default_origins: false };
    assert!(SyntheticFontFuncs::new_slant(moved, Some(Ratio(0.25))).non_default_h_origins(&face()));
}

#[test]
fn emboldened_box_reaches_further() {
    let old = extents(10, 50, 100, -60);
    let new = embolden_extents(old, 5, 7);
    assert!(new.x_bearing <= old.x_bearing);
    assert!(new.x_bearing + new.width >= old.x_bearing + old.width);
    assert!(new.y_bearing >= old.y_bearing);
    assert_eq!(new.y_bearing + new.height, old.y_bearing + old.height);
    assert_eq!((new.y_bearing, new.height), (old.y_bearing + 7, old.height - 7));
}

#[test]
fn default_locations() {
    assert!(is_default_location(&[]));
    assert!(is_default_location(&[0, 0]));
    assert!(!is_default_location(&[0, -1]));
}

#[test]
fn axes_and_values_are_paired() {
    let pairs = pair_variations(&[1, 2, 3], &[10, 20]);
    let pairs: Vec<(u32, i32)> = pairs.iter().map(|v| (v.tag, v.value)).collect();
    assert_eq!(pairs, vec![(1, 10), (2, 20)]);
    assert_eq!(pair_variations(&[1], &[10, 20]).len(), 1);
    assert!(pair_variations(&[], &[10]).is_empty());
}

#[test]
fn chunks_of_positions_are_moved() {
    let origins = [position(9, 9, 1, 2), position(9, 9, 3, 4)];
    let mut positions = vec![position(5, 6, 10, 20); 4];
    move_chunk(&mut positions, 1, &origins, 1);
    assert_eq!(
        positions,
        vec![
            position(5, 6, 10, 20),
            position(5, 6, 11, 22),
            position(5, 6, 13, 24),
            position(5, 6, 10, 20)
        ]
    );
    move_chunk(&mut positions, 1, &origins, -1);
    assert_eq!(positions, vec![position(5, 6, 10, 20); 4]);
    assert_eq!(CHUNK, 32);
}

#[test]
fn faces_and_defaults() {
    assert_eq!(face().units_per_em(), 2048);
    assert!(face().coords().is_empty());
    assert_eq!(GlyphInfo::default().as_glyph(), 0);
    assert_eq!(GlyphPosition::default(), position(0, 0, 0, 0));
    assert_eq!(hb_glyph_extents_t::default(), extents(0, 0, 0, 0));
    assert_eq!(UNKNOWN, 0x5a7a7a7a);
}
