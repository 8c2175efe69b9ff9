use aish::avatar::{avatar_initial, os_logo_for};
use aish::cursor::{CursorState, BLINK_PERIOD_MS};
use aish::theme::{avatar_color_for, BG_BASE, BG_ELEVATED, BG_HOVER, BG_SELECTED};

#[test]
fn os_logo_for_ubuntu_returns_ubuntu_glyph() {
    let (glyph, _bg) = os_logo_for("ubuntu").unwrap();
    assert_eq!(glyph, "\u{f31b}");
}

#[test]
fn os_logo_for_case_insensitive() {
    assert!(os_logo_for("UBUNTU").is_some());
    assert!(os_logo_for(" Debian ").is_some());
}

#[test]
fn os_logo_for_unknown_id_falls_back_to_tux() {
    let (glyph, _) = os_logo_for("some-future-distro").unwrap();
    assert_eq!(glyph, "\u{f17c}");
}

#[test]
fn os_logo_for_aliases_match() {
    assert_eq!(os_logo_for("redhat"), os_logo_for("rhel"));
    assert_eq!(os_logo_for("mint"), os_logo_for("linuxmint"));
    assert_eq!(os_logo_for("opensuse"), os_logo_for("suse"));
}

#[test]
fn blink_visible_first_300ms() {
    let state = CursorState::new(true);
    assert!(state.is_visible_now());
}

#[test]
fn blink_period_constant() {
    assert_eq!(BLINK_PERIOD_MS, 600);
}

#[test]
fn bg_layers_are_distinct() {
    let layers = [BG_BASE, BG_ELEVATED, BG_HOVER, BG_SELECTED];
    for i in 0..layers.len() {
        for j in (i + 1)..layers.len() {
            assert_ne!(layers[i], layers[j], "bg layer {} == {}", i, j);
        }
    }
}

#[test]
fn avatar_color_is_stable_for_a_label() {
    assert_eq!(avatar_color_for("prod-db"), avatar_color_for("prod-db"));
}

#[test]
fn avatar_color_sums_bytes_into_the_palette() {
    // "a" is byte 97, 97 % 8 == 1: violet; the empty label sums to 0: indigo.
    assert_eq!(avatar_color_for("a"), 0x8b5cf6);
    assert_eq!(avatar_color_for(""), 0x6366f1);
    // "ab" is 97 + 98 == 195, 195 % 8 == 3: red.
    assert_eq!(avatar_color_for("ab"), 0xef4444);
}

#[test]
fn avatar_initial_is_uppercase_first_letter() {
    assert_eq!(avatar_initial("web"), "W");
    assert_eq!(avatar_initial("Prod"), "P");
    assert_eq!(avatar_initial(""), "?");
    assert_eq!(avatar_initial("ßeta"), "SS");
}

#[test]
fn os_logo_ignores_case_and_padding() {
    assert_eq!(os_logo_for("  UBUNTU "), os_logo_for("ubuntu"));
    assert_eq!(os_logo_for("\tArch\n"), os_logo_for("arch"));
    assert_eq!(os_logo_for(" OpenSUSE"), os_logo_for("suse"));
}

#[test]
fn avatar_color_ignores_byte_order() {
    assert_eq!(avatar_color_for("ab"), avatar_color_for("ba"));
    assert_eq!(avatar_color_for("prod-1"), avatar_color_for("1-dorp"));
}
