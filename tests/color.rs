use freya_material::ArgbExt;
use material_colors::color::Argb;

fn argb(alpha: u8, red: u8, green: u8, blue: u8) -> Argb {
    Argb { alpha, red, green, blue }
}

#[test]
fn as_rgba_formats_two_digit_channels() {
    assert_eq!(argb(255, 10, 20, 30).as_rgba(), "rgb(10, 20, 30, 255)");
}

#[test]
fn as_rgba_formats_zero_channels() {
    assert_eq!(argb(0, 0, 0, 0).as_rgba(), "rgb(0, 0, 0, 0)");
}

#[test]
fn as_rgba_formats_full_channels() {
    assert_eq!(argb(255, 255, 255, 255).as_rgba(), "rgb(255, 255, 255, 255)");
}

#[test]
fn as_rgba_puts_alpha_last() {
    assert_eq!(argb(7, 1, 100, 9).as_rgba(), "rgb(1, 100, 9, 7)");
}

#[test]
fn as_rgba_formats_each_width() {
    assert_eq!(argb(128, 5, 42, 199).as_rgba(), "rgb(5, 42, 199, 128)");
}

#[test]
fn with_alpha_replaces_only_alpha() {
    let c = argb(255, 10, 20, 30).with_alpha(127);
    assert_eq!(c, argb(127, 10, 20, 30));
}

#[test]
fn with_alpha_to_zero_and_full() {
    assert_eq!(argb(200, 1, 2, 3).with_alpha(0).alpha, 0);
    assert_eq!(argb(0, 1, 2, 3).with_alpha(255).alpha, 255);
}
