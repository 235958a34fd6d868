//! The font side of a text shaper: the metrics of glyphs, instances of variable fonts, and shapers that
//! put both at the service of a layout engine.

pub mod builder;
pub mod coords;
pub mod engine;
pub mod face;
pub mod font;
pub mod font_class;
pub mod font_funcs;
pub mod font_tables;
pub mod glyph;
pub mod glyph_metrics;
pub mod glyph_origins;
pub mod instance;
pub mod instance_laws;
pub mod laws;
pub mod metric_delta;
pub mod metrics_laws;
pub mod ot_font_funcs;
pub mod shaper_data;
pub mod shaper_laws;
pub mod synthetic;
pub mod synthetic_laws;
pub mod vertical_origin;
