//! Material Design theming helpers: colour formatting, the Roboto font set
//! and a shared theme slot seeded from a brand colour.

mod color;
mod fonts;
mod theme;

pub use color::{decimal, digit_char, rgba_text, ArgbExt};
pub use fonts::{
    face, lemma_roboto_registrations, roboto_faces, roboto_family, roboto_registrations,
    FontRegistration, FontWeight, LaunchConfigExt, LaunchFonts, RobotoFace, ROBOTO_FAMILY,
};
pub use theme::{
    argb_of, dark_scheme_of, default_scheme, default_scheme_spec, lemma_fresh_read_is_default,
    lemma_read_idempotent, lemma_set_then_read, set_material_theme, use_material_theme,
    ThemeContext, DEFAULT_SEED,
};
