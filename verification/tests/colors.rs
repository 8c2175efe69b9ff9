use aish::colors::{
    bold_promote, color_hex, palette_for, NamedColor, Rgb, TermColor, ThemeKind,
    DEFAULT_BACKGROUND_DARK, DEFAULT_BACKGROUND_LIGHT, DEFAULT_FOREGROUND_DARK,
    DEFAULT_FOREGROUND_LIGHT,
};

const DARK: ThemeKind = ThemeKind::Dark;
const LIGHT: ThemeKind = ThemeKind::Light;

#[test]
fn named_red_maps_to_palette_dark() {
    let hex = color_hex(TermColor::Named(NamedColor::Red), true, DARK);
    assert_eq!(hex, palette_for(DARK)[1]);
}

#[test]
fn named_red_maps_to_palette_light() {
    let hex = color_hex(TermColor::Named(NamedColor::Red), true, LIGHT);
    assert_eq!(hex, palette_for(LIGHT)[1]);
}

#[test]
fn named_foreground_returns_default_fg_dark() {
    let hex = color_hex(TermColor::Named(NamedColor::Foreground), true, DARK);
    assert_eq!(hex, DEFAULT_FOREGROUND_DARK);
}

#[test]
fn named_foreground_returns_default_fg_light() {
    let hex = color_hex(TermColor::Named(NamedColor::Foreground), true, LIGHT);
    assert_eq!(hex, DEFAULT_FOREGROUND_LIGHT);
}

#[test]
fn named_background_returns_default_bg_dark() {
    let hex = color_hex(TermColor::Named(NamedColor::Background), false, DARK);
    assert_eq!(hex, DEFAULT_BACKGROUND_DARK);
}

#[test]
fn named_background_returns_default_bg_light() {
    let hex = color_hex(TermColor::Named(NamedColor::Background), false, LIGHT);
    assert_eq!(hex, DEFAULT_BACKGROUND_LIGHT);
}

#[test]
fn spec_rgb_preserves_components() {
    let hex = color_hex(TermColor::Spec(Rgb { r: 0x12, g: 0x34, b: 0x56 }), true, DARK);
    assert_eq!(hex, 0x123456);
}

#[test]
fn indexed_15_maps_to_bright_white_dark() {
    let hex = color_hex(TermColor::Indexed(15), true, DARK);
    assert_eq!(hex, palette_for(DARK)[15]);
}

#[test]
fn indexed_0_to_15_use_named_palette_dark() {
    for i in 0u8..16 {
        let hex = color_hex(TermColor::Indexed(i), true, DARK);
        assert_eq!(hex, palette_for(DARK)[i as usize]);
    }
}

#[test]
fn indexed_232_to_255_grayscale() {
    let dark_hex = color_hex(TermColor::Indexed(232), true, DARK);
    let bright_hex = color_hex(TermColor::Indexed(255), true, DARK);
    let dark_r = (dark_hex >> 16) & 0xff;
    let bright_r = (bright_hex >> 16) & 0xff;
    assert!(dark_r < 20, "dark grayscale should be near black, got {:x}", dark_hex);
    assert!(bright_r > 220, "bright grayscale should be near white, got {:x}", bright_hex);
}

#[test]
fn indexed_cube_16_is_pure_black() {
    let hex = color_hex(TermColor::Indexed(16), true, DARK);
    assert_eq!(hex, 0x000000);
}

#[test]
fn indexed_cube_and_gray_exact_values() {
    // 6x6x6 cube: 231 is the brightest corner; 196 is pure red (5,0,0).
    assert_eq!(color_hex(TermColor::Indexed(231), true, DARK), 0xffffff);
    assert_eq!(color_hex(TermColor::Indexed(196), true, DARK), 0xff0000);
    // gray ramp: 232 is 8, each step adds 10.
    assert_eq!(color_hex(TermColor::Indexed(232), true, DARK), 0x080808);
    assert_eq!(color_hex(TermColor::Indexed(255), true, DARK), 0xeeeeee);
}

#[test]
fn bold_promotes_low_named_colors_only() {
    assert_eq!(bold_promote(TermColor::Named(NamedColor::Red)), TermColor::Named(NamedColor::BrightRed));
    assert_eq!(bold_promote(TermColor::Named(NamedColor::BrightRed)), TermColor::Named(NamedColor::BrightRed));
    assert_eq!(bold_promote(TermColor::Indexed(3)), TermColor::Indexed(11));
    assert_eq!(bold_promote(TermColor::Indexed(9)), TermColor::Indexed(9));
}
