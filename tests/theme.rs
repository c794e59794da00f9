use freya_material::{
    default_scheme, set_material_theme, use_material_theme, ThemeContext, DEFAULT_SEED,
};
use material_colors::color::Argb;
use material_colors::scheme::Scheme;
use material_colors::theme::ThemeBuilder;

fn dark_of(seed: u32) -> Scheme {
    ThemeBuilder::with_source(Argb::from_u32(seed)).build().schemes.dark
}

fn light_of(seed: u32) -> Scheme {
    ThemeBuilder::with_source(Argb::from_u32(seed)).build().schemes.light
}

#[test]
fn default_seed_is_brand_colour() {
    assert_eq!(DEFAULT_SEED, 0xFFBC0D);
}

#[test]
fn default_scheme_is_dark_scheme_of_seed() {
    assert_eq!(default_scheme(), dark_of(0xFFBC0D));
    assert_ne!(default_scheme(), light_of(0xFFBC0D));
}

#[test]
fn fresh_context_reads_default_scheme() {
    let mut ctx = ThemeContext::new();
    let read = use_material_theme(&mut ctx);
    assert_eq!(*read, dark_of(0xFFBC0D));
}

#[test]
fn reading_twice_returns_same_scheme() {
    let mut ctx = ThemeContext::new();
    assert_eq!(*use_material_theme(&mut ctx), dark_of(0xFFBC0D));
    assert_eq!(*use_material_theme(&mut ctx), dark_of(0xFFBC0D));
}

#[test]
fn set_then_read_returns_set_scheme() {
    let mut ctx = ThemeContext::new();
    set_material_theme(&mut ctx, light_of(0x4285F4));
    assert_eq!(*use_material_theme(&mut ctx), light_of(0x4285F4));
}

#[test]
fn set_after_read_replaces_default() {
    let mut ctx = ThemeContext::new();
    assert_eq!(*use_material_theme(&mut ctx), dark_of(0xFFBC0D));
    set_material_theme(&mut ctx, dark_of(0x00FF00));
    assert_eq!(*use_material_theme(&mut ctx), dark_of(0x00FF00));
    assert_eq!(*use_material_theme(&mut ctx), dark_of(0x00FF00));
}

#[test]
fn later_set_wins() {
    let mut ctx = ThemeContext::new();
    set_material_theme(&mut ctx, light_of(0x123456));
    set_material_theme(&mut ctx, dark_of(0x123456));
    assert_eq!(*use_material_theme(&mut ctx), dark_of(0x123456));
}
