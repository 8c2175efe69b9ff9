//! Visual constants: background layers, borders, text and accent colors.
use vstd::prelude::*;

verus! {

/// Root background.
pub const BG_BASE: u32 = 0x000000;
/// Cards and chips, one step lighter than the base.
pub const BG_ELEVATED: u32 = 0x1c1d22;
/// Hover highlight.
pub const BG_HOVER: u32 = 0x26282f;
/// Selected or pressed.
pub const BG_SELECTED: u32 = 0x2f3138;
/// Default card border.
pub const BORDER_SUBTLE: u32 = 0x1f2128;
/// Hover / focus border.
pub const BORDER_STRONG: u32 = 0x2f323a;
pub const TEXT_PRIMARY: u32 = 0xeaeaee;
pub const TEXT_SECONDARY: u32 = 0x888a93;
pub const TEXT_MUTED: u32 = 0x5b5d66;
pub const ACCENT_BLUE: u32 = 0x4a9eff;
/// Background of a blue button under the pointer.
pub const ACCENT_BLUE_HOVER: u32 = 0x66b3ff;
pub const ACCENT_GREEN: u32 = 0x4ec9b0;
pub const ACCENT_RED: u32 = 0xff6b6b;
pub const ACCENT_YELLOW: u32 = 0xf5c242;
pub const CHIP_BLUE_BG: u32 = 0x1f3a5c;
pub const CHIP_GREEN_BG: u32 = 0x16382f;

/// The avatar color of a host label (the same choice as
/// `avatar::avatar_color_for`).
pub fn avatar_color_for(label: &str) -> (c: u32)
    ensures
        c == crate::avatar::avatar_color_spec(label@),
{
    crate::avatar::avatar_color_for(label)
}

/// The four background layers differ from each other.
pub proof fn law_background_layers_distinct()
    ensures
        BG_BASE != BG_ELEVATED,
        BG_BASE != BG_HOVER,
        BG_BASE != BG_SELECTED,
        BG_ELEVATED != BG_HOVER,
        BG_ELEVATED != BG_SELECTED,
        BG_HOVER != BG_SELECTED,
{
}

} // verus!
