//! Terminal colors: the 16-color palettes of the dark and light themes, the
//! bold-to-bright promotion, and the RGB value of every terminal color.
use vstd::prelude::*;

verus! {

/// Dark or light theme.
#[derive(Debug, Clone, Copy, PartialEq, Eq, Structural)]
pub enum ThemeKind {
    Dark,
    Light,
}

/// The named terminal colors.
#[derive(Debug, Clone, Copy, PartialEq, Eq, Structural)]
pub enum NamedColor {
    Black,
    Red,
    Green,
    Yellow,
    Blue,
    Magenta,
    Cyan,
    White,
    BrightBlack,
    BrightRed,
    BrightGreen,
    BrightYellow,
    BrightBlue,
    BrightMagenta,
    BrightCyan,
    BrightWhite,
    Foreground,
    Background,
    Cursor,
    DimBlack,
    DimRed,
    DimGreen,
    DimYellow,
    DimBlue,
    DimMagenta,
    DimCyan,
    DimWhite,
    BrightForeground,
    DimForeground,
}

/// An explicit RGB color.
#[derive(Debug, Clone, Copy, PartialEq, Eq, Structural)]
pub struct Rgb {
    pub r: u8,
    pub g: u8,
    pub b: u8,
}

/// A terminal cell color: named, explicit RGB, or an index into the 256-color
/// palette.
#[derive(Debug, Clone, Copy, PartialEq, Eq, Structural)]
pub enum TermColor {
    Named(NamedColor),
    Spec(Rgb),
    Indexed(u8),
}

pub const DEFAULT_FOREGROUND_DARK: u32 = 0xcccccc;
pub const DEFAULT_BACKGROUND_DARK: u32 = 0x000000;
pub const DEFAULT_FOREGROUND_LIGHT: u32 = 0x333333;
pub const DEFAULT_BACKGROUND_LIGHT: u32 = 0xffffff;

/// The 16-color palette of a theme (VS Code Dark+ / Light+).
pub open spec fn palette_spec(kind: ThemeKind) -> Seq<u32> {
    match kind {
        ThemeKind::Dark => seq![
            0x000000u32, 0xcd3131, 0x0dbc79, 0xe5e510, 0x2472c8, 0xbc3fbc, 0x11a8cd, 0xe5e5e5,
            0x666666, 0xf14c4c, 0x23d18b, 0xf5f543, 0x3b8eea, 0xd670d6, 0x29b8db, 0xffffff,
        ],
        ThemeKind::Light => seq![
            0x000000u32, 0xcd3131, 0x00bc00, 0x949800, 0x0451a5, 0xbc05bc, 0x0598bc, 0x555555,
            0x666666, 0xcd3131, 0x14ce14, 0xb5ba00, 0x0451a5, 0xbc05bc, 0x0598bc, 0xa5a5a5,
        ],
    }
}

/// The 16-color palette of `kind`.
pub fn palette_for(kind: ThemeKind) -> (p: [u32; 16])
    ensures
        p@ == palette_spec(kind),
{
    let p: [u32; 16] = match kind {
        ThemeKind::Dark => [
            0x000000, 0xcd3131, 0x0dbc79, 0xe5e510, 0x2472c8, 0xbc3fbc, 0x11a8cd, 0xe5e5e5,
            0x666666, 0xf14c4c, 0x23d18b, 0xf5f543, 0x3b8eea, 0xd670d6, 0x29b8db, 0xffffff,
        ],
        ThemeKind::Light => [
            0x000000, 0xcd3131, 0x00bc00, 0x949800, 0x0451a5, 0xbc05bc, 0x0598bc, 0x555555,
            0x666666, 0xcd3131, 0x14ce14, 0xb5ba00, 0x0451a5, 0xbc05bc, 0x0598bc, 0xa5a5a5,
        ],
    };
    assert(p@ =~= palette_spec(kind));
    p
}

/// Default foreground of a theme.
pub open spec fn default_fg_spec(kind: ThemeKind) -> u32 {
    match kind {
        ThemeKind::Dark => DEFAULT_FOREGROUND_DARK,
        ThemeKind::Light => DEFAULT_FOREGROUND_LIGHT,
    }
}

/// Default background of a theme.
pub open spec fn default_bg_spec(kind: ThemeKind) -> u32 {
    match kind {
        ThemeKind::Dark => DEFAULT_BACKGROUND_DARK,
        ThemeKind::Light => DEFAULT_BACKGROUND_LIGHT,
    }
}

/// Default foreground of `kind`.
pub fn default_foreground_for(kind: ThemeKind) -> (c: u32)
    ensures
        c == default_fg_spec(kind),
{
    match kind {
        ThemeKind::Dark => DEFAULT_FOREGROUND_DARK,
        ThemeKind::Light => DEFAULT_FOREGROUND_LIGHT,
    }
}

/// Default background of `kind`.
pub fn default_background_for(kind: ThemeKind) -> (c: u32)
    ensures
        c == default_bg_spec(kind),
{
    match kind {
        ThemeKind::Dark => DEFAULT_BACKGROUND_DARK,
        ThemeKind::Light => DEFAULT_BACKGROUND_LIGHT,
    }
}

/// Bold text is drawn in the bright variant: the eight normal named colors
/// and palette indices below 8 move to their bright counterpart; every other
/// color stays.
pub open spec fn bold_promote_spec(c: TermColor) -> TermColor {
    match c {
        TermColor::Named(NamedColor::Black) => TermColor::Named(NamedColor::BrightBlack),
        TermColor::Named(NamedColor::Red) => TermColor::Named(NamedColor::BrightRed),
        TermColor::Named(NamedColor::Green) => TermColor::Named(NamedColor::BrightGreen),
        TermColor::Named(NamedColor::Yellow) => TermColor::Named(NamedColor::BrightYellow),
        TermColor::Named(NamedColor::Blue) => TermColor::Named(NamedColor::BrightBlue),
        TermColor::Named(NamedColor::Magenta) => TermColor::Named(NamedColor::BrightMagenta),
        TermColor::Named(NamedColor::Cyan) => TermColor::Named(NamedColor::BrightCyan),
        TermColor::Named(NamedColor::White) => TermColor::Named(NamedColor::BrightWhite),
        TermColor::Indexed(i) => if i < 8 {
            TermColor::Indexed((i + 8) as u8)
        } else {
            c
        },
        _ => c,
    }
}

/// The color that bold text in `color` is drawn with.
pub fn bold_promote(color: TermColor) -> (r: TermColor)
    ensures
        r == bold_promote_spec(color),
{
    match color {
        TermColor::Named(NamedColor::Black) => TermColor::Named(NamedColor::BrightBlack),
        TermColor::Named(NamedColor::Red) => TermColor::Named(NamedColor::BrightRed),
        TermColor::Named(NamedColor::Green) => TermColor::Named(NamedColor::BrightGreen),
        TermColor::Named(NamedColor::Yellow) => TermColor::Named(NamedColor::BrightYellow),
        TermColor::Named(NamedColor::Blue) => TermColor::Named(NamedColor::BrightBlue),
        TermColor::Named(NamedColor::Magenta) => TermColor::Named(NamedColor::BrightMagenta),
        TermColor::Named(NamedColor::Cyan) => TermColor::Named(NamedColor::BrightCyan),
        TermColor::Named(NamedColor::White) => TermColor::Named(NamedColor::BrightWhite),
        TermColor::Indexed(i) if i < 8 => TermColor::Indexed(i + 8),
        other => other,
    }
}

/// Promoting twice promotes no further than promoting once.
pub proof fn law_bold_promote_idempotent(c: TermColor)
    ensures
        bold_promote_spec(bold_promote_spec(c)) == bold_promote_spec(c),
{
}

/// Palette slot of the sixteen ANSI named colors.
pub open spec fn named_slot(n: NamedColor) -> Option<int> {
    match n {
        NamedColor::Black => Some(0),
        NamedColor::Red => Some(1),
        NamedColor::Green => Some(2),
        NamedColor::Yellow => Some(3),
        NamedColor::Blue => Some(4),
        NamedColor::Magenta => Some(5),
        NamedColor::Cyan => Some(6),
        NamedColor::White => Some(7),
        NamedColor::BrightBlack => Some(8),
        NamedColor::BrightRed => Some(9),
        NamedColor::BrightGreen => Some(10),
        NamedColor::BrightYellow => Some(11),
        NamedColor::BrightBlue => Some(12),
        NamedColor::BrightMagenta => Some(13),
        NamedColor::BrightCyan => Some(14),
        NamedColor::BrightWhite => Some(15),
        _ => None,
    }
}

/// RGB value (0xRRGGBB) of a named color: its palette slot, or for the rest
/// the default foreground / background as `is_fg` says (the background name
/// always the background, the cursor always the foreground).
pub open spec fn named_hex_spec(n: NamedColor, is_fg: bool, kind: ThemeKind) -> u32 {
    match named_slot(n) {
        Some(i) => palette_spec(kind)[i],
        None => match n {
            NamedColor::Background => default_bg_spec(kind),
            NamedColor::Cursor => default_fg_spec(kind),
            _ => if is_fg {
                default_fg_spec(kind)
            } else {
                default_bg_spec(kind)
            },
        },
    }
}

/// RGB value of a named color.
pub fn named_hex(named: NamedColor, is_fg: bool, kind: ThemeKind) -> (c: u32)
    ensures
        c == named_hex_spec(named, is_fg, kind),
{
    let palette = palette_for(kind);
    let default_fg = default_foreground_for(kind);
    let default_bg = default_background_for(kind);
    match named {
        NamedColor::Black => palette[0],
        NamedColor::Red => palette[1],
        NamedColor::Green => palette[2],
        NamedColor::Yellow => palette[3],
        NamedColor::Blue => palette[4],
        NamedColor::Magenta => palette[5],
        NamedColor::Cyan => palette[6],
        NamedColor::White => palette[7],
        NamedColor::BrightBlack => palette[8],
        NamedColor::BrightRed => palette[9],
        NamedColor::BrightGreen => palette[10],
        NamedColor::BrightYellow => palette[11],
        NamedColor::BrightBlue => palette[12],
        NamedColor::BrightMagenta => palette[13],
        NamedColor::BrightCyan => palette[14],
        NamedColor::BrightWhite => palette[15],
        NamedColor::Foreground => if is_fg {
            default_fg
        } else {
            default_bg
        },
        NamedColor::Background => default_bg,
        NamedColor::Cursor => default_fg,
        _ => if is_fg {
            default_fg
        } else {
            default_bg
        },
    }
}

/// 0xRRGGBB from three components.
pub open spec fn rgb_value(r: nat, g: nat, b: nat) -> nat {
    r * 65536 + g * 256 + b
}

/// RGB value of an explicit color.
pub fn rgb_hex(c: Rgb) -> (v: u32)
    ensures
        v as nat == rgb_value(c.r as nat, c.g as nat, c.b as nat),
{
    let r = c.r as u32;
    let g = c.g as u32;
    let b = c.b as u32;
    let v = (r << 16) | (g << 8) | b;
    assert(v == r * 65536 + g * 256 + b) by (bit_vector)
        requires
            r < 256,
            g < 256,
            b < 256,
            v == (r << 16) | (g << 8) | b,
    ;
    v
}

/// The named color at each of the first 16 palette indices.
pub open spec fn named_by_index(i: int) -> NamedColor {
    if i == 0 {
        NamedColor::Black
    } else if i == 1 {
        NamedColor::Red
    } else if i == 2 {
        NamedColor::Green
    } else if i == 3 {
        NamedColor::Yellow
    } else if i == 4 {
        NamedColor::Blue
    } else if i == 5 {
        NamedColor::Magenta
    } else if i == 6 {
        NamedColor::Cyan
    } else if i == 7 {
        NamedColor::White
    } else if i == 8 {
        NamedColor::BrightBlack
    } else if i == 9 {
        NamedColor::BrightRed
    } else if i == 10 {
        NamedColor::BrightGreen
    } else if i == 11 {
        NamedColor::BrightYellow
    } else if i == 12 {
        NamedColor::BrightBlue
    } else if i == 13 {
        NamedColor::BrightMagenta
    } else if i == 14 {
        NamedColor::BrightCyan
    } else {
        NamedColor::BrightWhite
    }
}

fn named_by_index_exec(i: u8) -> (n: NamedColor)
    requires
        i < 16,
    ensures
        n == named_by_index(i as int),
{
    match i {
        0 => NamedColor::Black,
        1 => NamedColor::Red,
        2 => NamedColor::Green,
        3 => NamedColor::Yellow,
        4 => NamedColor::Blue,
        5 => NamedColor::Magenta,
        6 => NamedColor::Cyan,
        7 => NamedColor::White,
        8 => NamedColor::BrightBlack,
        9 => NamedColor::BrightRed,
        10 => NamedColor::BrightGreen,
        11 => NamedColor::BrightYellow,
        12 => NamedColor::BrightBlue,
        13 => NamedColor::BrightMagenta,
        14 => NamedColor::BrightCyan,
        _ => NamedColor::BrightWhite,
    }
}

/// Intensity of one step (0..5) of the 6x6x6 color cube.
pub open spec fn cube_level(c: nat) -> nat {
    if c == 0 {
        0
    } else {
        40 * c + 55
    }
}

/// RGB value of a 256-palette index: 0-15 the named colors, 16-231 the
/// 6x6x6 cube, 232-255 a gray ramp.
pub open spec fn indexed_hex_spec(idx: u8, is_fg: bool, kind: ThemeKind) -> u32 {
    if idx < 16 {
        named_hex_spec(named_by_index(idx as int), is_fg, kind)
    } else if idx < 232 {
        let i = (idx - 16) as nat;
        rgb_value(cube_level((i / 36) % 6), cube_level((i / 6) % 6), cube_level(i % 6)) as u32
    } else {
        let v = (8 + 10 * (idx - 232)) as nat;
        rgb_value(v, v, v) as u32
    }
}

fn cube_level_exec(c: u8) -> (v: u8)
    requires
        c < 6,
    ensures
        v as nat == cube_level(c as nat),
{
    if c == 0 {
        0
    } else {
        40 * c + 55
    }
}

/// RGB value of a 256-palette index.
pub fn indexed_hex(idx: u8, is_fg: bool, kind: ThemeKind) -> (v: u32)
    ensures
        v == indexed_hex_spec(idx, is_fg, kind),
{
    if idx < 16 {
        named_hex(named_by_index_exec(idx), is_fg, kind)
    } else if idx < 232 {
        let i = idx - 16;
        let r = cube_level_exec((i / 36) % 6);
        let g = cube_level_exec((i / 6) % 6);
        let b = cube_level_exec(i % 6);
        rgb_hex(Rgb { r, g, b })
    } else {
        let w: u32 = 8 + 10 * (idx as u32 - 232);
        let v = w & 0xff;
        assert(v == w) by (bit_vector)
            requires
                w <= 238,
                v == w & 0xff,
        ;
        let g = v as u8;
        rgb_hex(Rgb { r: g, g, b: g })
    }
}

/// RGB value (0xRRGGBB) of a terminal color; `is_fg` picks the default for
/// names that have none of their own.
pub open spec fn color_hex_spec(color: TermColor, is_fg: bool, kind: ThemeKind) -> u32 {
    match color {
        TermColor::Named(n) => named_hex_spec(n, is_fg, kind),
        TermColor::Spec(c) => rgb_value(c.r as nat, c.g as nat, c.b as nat) as u32,
        TermColor::Indexed(i) => indexed_hex_spec(i, is_fg, kind),
    }
}

/// RGB value of a terminal color under theme `kind`.
pub fn color_hex(color: TermColor, is_fg: bool, kind: ThemeKind) -> (v: u32)
    ensures
        v == color_hex_spec(color, is_fg, kind),
{
    match color {
        TermColor::Named(n) => named_hex(n, is_fg, kind),
        TermColor::Spec(c) => rgb_hex(c),
        TermColor::Indexed(i) => indexed_hex(i, is_fg, kind),
    }
}

/// The first 16 palette indices give the same RGB as the named colors they
/// stand for.
pub proof fn law_low_indices_match_names(i: u8, is_fg: bool, kind: ThemeKind)
    requires
        i < 16,
    ensures
        color_hex_spec(TermColor::Indexed(i), is_fg, kind) == color_hex_spec(
            TermColor::Named(named_by_index(i as int)),
            is_fg,
            kind,
        ),
{
}

/// The intensity of each step of the 6-level xterm color cube.
pub open spec fn xterm_cube_step(c: nat) -> nat {
    seq![0nat, 95, 135, 175, 215, 255][c as int]
}

/// The colors 16 to 231 form the xterm 6x6x6 cube: index `16 + 36r + 6g + b`
/// has red at level `r`, green at level `g` and blue at level `b`, with the
/// levels 0, 95, 135, 175, 215, 255 (so `16 + b` is a pure blue), in any
/// theme and for foreground or background alike.
pub proof fn law_cube_colors(r: nat, g: nat, b: nat, is_fg: bool, kind: ThemeKind)
    requires
        r < 6,
        g < 6,
        b < 6,
    ensures
        ({
            let v = color_hex_spec(TermColor::Indexed((16 + 36 * r + 6 * g + b) as u8), is_fg, kind) as nat;
            &&& v / 65536 == xterm_cube_step(r)
            &&& (v / 256) % 256 == xterm_cube_step(g)
            &&& v % 256 == xterm_cube_step(b)
        }),
{
    let i: nat = 36 * r + 6 * g + b;
    assert(i / 36 == r && (i / 6) % 6 == g && i % 6 == b) by (nonlinear_arith)
        requires
            i == 36 * r + 6 * g + b,
            r < 6,
            g < 6,
            b < 6,
    ;
    let (cr, cg, cb) = (cube_level(r), cube_level(g), cube_level(b));
    assert(cr == xterm_cube_step(r) && cg == xterm_cube_step(g) && cb == xterm_cube_step(b));
    let v = rgb_value(cr, cg, cb);
    assert(v / 65536 == cr && (v / 256) % 256 == cg && v % 256 == cb) by (nonlinear_arith)
        requires
            v == cr * 65536 + cg * 256 + cb,
            cr < 256,
            cg < 256,
            cb < 256,
    ;
    assert(v < 0x1_0000_0000);
}

} // verus!
