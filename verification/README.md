# font_face

The font side of a text shaper, written and proved in Verus.

- `src/font.rs`, `src/font_tables.rs`: font files and their tables. Tables are read through the
  `read-fonts` crate; what its readers return is stated over the bytes of the table, or named.
- `src/glyph_metrics.rs`, `src/metric_delta.rs`, `src/vertical_origin.rs`: the metrics of a glyph.
- `src/font_funcs.rs`: the trait through which a shaper learns metrics; `src/ot_font_funcs.rs` has them
  from the tables of the font, and `src/synthetic.rs` changes them for synthetic slant and emboldening.
- `src/instance.rs`, `src/coords.rs`: instances of variable fonts.
- `src/engine.rs`: the trait of the layout engine that a shaper drives.
- `src/shaper_data.rs`, `src/builder.rs`, `src/face.rs`, `src/font_class.rs`, `src/glyph_origins.rs`: the
  shaper.
- `src/laws.rs`: what holds of the library as a whole.
- `app/`: conversions that need floating point numbers, `read-fonts` types or byte views.
