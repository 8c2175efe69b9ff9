//! Host avatars: a palette color chosen from the label, and the OS logo glyph
//! chosen from the `/etc/os-release` id.
use vstd::prelude::*;
use crate::text::{self, chars_eq, chars_of, lower_chars, slice_chars, trim_bounds};

verus! {

/// The avatar palette (indigo, violet, pink, red, amber, emerald, cyan, blue).
pub open spec fn palette_color(i: int) -> u32 {
    if i == 0 {
        0x6366f1
    } else if i == 1 {
        0x8b5cf6
    } else if i == 2 {
        0xec4899
    } else if i == 3 {
        0xef4444
    } else if i == 4 {
        0xf59e0b
    } else if i == 5 {
        0x10b981
    } else if i == 6 {
        0x06b6d4
    } else {
        0x3b82f6
    }
}

/// Number of colors in the avatar palette.
pub const PALETTE_LEN: usize = 8;

/// The `i`-th color of the avatar palette.
pub fn palette_color_exec(i: usize) -> (c: u32)
    requires
        i < PALETTE_LEN,
    ensures
        c == palette_color(i as int),
{
    match i {
        0 => 0x6366f1,
        1 => 0x8b5cf6,
        2 => 0xec4899,
        3 => 0xef4444,
        4 => 0xf59e0b,
        5 => 0x10b981,
        6 => 0x06b6d4,
        _ => 0x3b82f6,
    }
}

/// The sum of the bytes of `b`.
pub open spec fn byte_sum(b: Seq<u8>) -> nat
    decreases b.len(),
{
    if b.len() == 0 {
        0
    } else {
        byte_sum(b.drop_last()) + b.last() as nat
    }
}

/// The letter on the avatar of a host without an OS logo: the uppercase of
/// the first character of its label, or of '?' when the label is empty.
pub open spec fn avatar_initial_spec(label: Seq<char>) -> Seq<char> {
    text::spec_char_uppercase(
        if label.len() == 0 {
            '?'
        } else {
            label[0]
        },
    )
}

/// The letter on the avatar of a host without an OS logo.
pub fn avatar_initial(label: &str) -> (r: String)
    ensures
        r@ == avatar_initial_spec(label@),
{
    let v = chars_of(label);
    let c = if v.len() == 0 {
        '?'
    } else {
        v[0]
    };
    text::char_uppercase(c)
}

/// The avatar color of a label: the sum of its UTF-8 bytes, wrapped to 32
/// bits, picks the palette entry.
pub open spec fn avatar_color_spec(label: Seq<char>) -> u32 {
    palette_color(((byte_sum(vstd::utf8::encode_utf8(label)) % 0x1_0000_0000) % (PALETTE_LEN as nat)) as int)
}

/// The avatar color of `label`; the same label always gives the same color.
pub fn avatar_color_for(label: &str) -> (c: u32)
    ensures
        c == avatar_color_spec(label@),
{
    let bytes = label.as_bytes();
    let mut sum: u32 = 0;
    let mut i: usize = 0;
    while i < bytes.len()
        invariant
            i <= bytes.len(),
            bytes@ == vstd::utf8::encode_utf8(label@),
            sum as nat == byte_sum(bytes@.subrange(0, i as int)) % 0x1_0000_0000,
        decreases bytes.len() - i,
    {
        let b = bytes[i];
        assert(bytes@.subrange(0, i + 1).drop_last() == bytes@.subrange(0, i as int));
        proof {
            let s = byte_sum(bytes@.subrange(0, i as int));
            assert((s + b as nat) % 0x1_0000_0000 == (s % 0x1_0000_0000 + b as nat)
                % 0x1_0000_0000) by (nonlinear_arith);
        }
        sum = ((sum as u64 + b as u64) % 0x1_0000_0000) as u32;
        i += 1;
    }
    assert(bytes@.subrange(0, bytes@.len() as int) == bytes@);
    palette_color_exec((sum as usize) % PALETTE_LEN)
}

/// Logo glyph (Nerd Font codepoint) and brand color of an OS id, already
/// trimmed and lowercased; unknown ids get the generic Linux penguin.
pub open spec fn os_logo_spec(k: Seq<char>) -> (Seq<char>, u32) {
    if k == "ubuntu"@ {
        ("\u{f31b}"@, 0xe95420)
    } else if k == "debian"@ {
        ("\u{f306}"@, 0xa81d33)
    } else if k == "arch"@ {
        ("\u{f303}"@, 0x1793d1)
    } else if k == "alpine"@ {
        ("\u{f300}"@, 0x0d597f)
    } else if k == "centos"@ {
        ("\u{f304}"@, 0x932279)
    } else if k == "fedora"@ {
        ("\u{f30a}"@, 0x294172)
    } else if k == "rhel"@ || k == "redhat"@ {
        ("\u{f316}"@, 0xee0000)
    } else if k == "rocky"@ {
        ("\u{f32b}"@, 0x10b981)
    } else if k == "linuxmint"@ || k == "mint"@ {
        ("\u{f30e}"@, 0x86be3c)
    } else if k == "manjaro"@ {
        ("\u{f312}"@, 0x35bf5c)
    } else if k == "nixos"@ {
        ("\u{f313}"@, 0x5277c3)
    } else if k == "gentoo"@ {
        ("\u{f30d}"@, 0x54487a)
    } else if k == "opensuse"@ || k == "opensuse-leap"@ || k == "opensuse-tumbleweed"@ || k
        == "suse"@ || k == "sles"@ {
        ("\u{f314}"@, 0x73ba25)
    } else if k == "raspbian"@ {
        ("\u{f315}"@, 0xa22846)
    } else if k == "elementary"@ {
        ("\u{f309}"@, 0x64baff)
    } else {
        ("\u{f17c}"@, 0x6b7280)
    }
}

/// Logo glyph and background color for an `/etc/os-release` id. The id is
/// trimmed and lowercased first; every id gets a logo (unknown ones the
/// generic penguin), so the result is never `None`.
pub fn os_logo_for(os_kind: &str) -> (r: Option<(&'static str, u32)>)
    ensures
        r matches Some(p) && (p.0@, p.1) == os_logo_spec(text::lower_seq(text::trim_seq(os_kind@))),
{
    let v = chars_of(os_kind);
    let (lo, hi) = trim_bounds(&v);
    let t = slice_chars(&v, lo, hi);
    let k = lower_chars(&t);
    let r: (&'static str, u32) = if chars_eq(&k, "ubuntu") {
        ("\u{f31b}", 0xe95420)
    } else if chars_eq(&k, "debian") {
        ("\u{f306}", 0xa81d33)
    } else if chars_eq(&k, "arch") {
        ("\u{f303}", 0x1793d1)
    } else if chars_eq(&k, "alpine") {
        ("\u{f300}", 0x0d597f)
    } else if chars_eq(&k, "centos") {
        ("\u{f304}", 0x932279)
    } else if chars_eq(&k, "fedora") {
        ("\u{f30a}", 0x294172)
    } else if chars_eq(&k, "rhel") || chars_eq(&k, "redhat") {
        ("\u{f316}", 0xee0000)
    } else if chars_eq(&k, "rocky") {
        ("\u{f32b}", 0x10b981)
    } else if chars_eq(&k, "linuxmint") || chars_eq(&k, "mint") {
        ("\u{f30e}", 0x86be3c)
    } else if chars_eq(&k, "manjaro") {
        ("\u{f312}", 0x35bf5c)
    } else if chars_eq(&k, "nixos") {
        ("\u{f313}", 0x5277c3)
    } else if chars_eq(&k, "gentoo") {
        ("\u{f30d}", 0x54487a)
    } else if chars_eq(&k, "opensuse") || chars_eq(&k, "opensuse-leap") || chars_eq(
        &k,
        "opensuse-tumbleweed",
    ) || chars_eq(&k, "suse") || chars_eq(&k, "sles") {
        ("\u{f314}", 0x73ba25)
    } else if chars_eq(&k, "raspbian") {
        ("\u{f315}", 0xa22846)
    } else if chars_eq(&k, "elementary") {
        ("\u{f309}", 0x64baff)
    } else {
        ("\u{f17c}", 0x6b7280)
    };
    Some(r)
}

/// Ids that differ only in case and in white space at either end get the
/// same logo: the logo of an id equals the logo of its trimmed, lowercased
/// form.
pub proof fn law_os_logo_ignores_case_and_padding(s: Seq<char>)
    ensures
        os_logo_spec(text::lower_seq(text::trim_seq(text::lower_seq(text::trim_seq(s)))))
            == os_logo_spec(text::lower_seq(text::trim_seq(s))),
{
    text::lemma_lower_trim_idempotent(s);
}

/// Removing the byte at `i` takes it off the sum.
proof fn lemma_byte_sum_remove(b: Seq<u8>, i: int)
    requires
        0 <= i < b.len(),
    ensures
        byte_sum(b) == byte_sum(b.remove(i)) + b[i] as nat,
    decreases b.len(),
{
    if i < b.len() - 1 {
        let d = b.drop_last();
        lemma_byte_sum_remove(d, i);
        assert(b.remove(i).drop_last() =~= d.remove(i));
        assert(b.remove(i).last() == b.last());
    } else {
        assert(b.remove(i) =~= b.drop_last());
    }
}

/// Byte strings with the same bytes, in any order, have the same sum.
proof fn lemma_byte_sum_multiset(a: Seq<u8>, b: Seq<u8>)
    requires
        a.to_multiset() == b.to_multiset(),
    ensures
        byte_sum(a) == byte_sum(b),
    decreases a.len(),
{
    a.to_multiset_ensures();
    b.to_multiset_ensures();
    if a.len() > 0 {
        let x = a.last();
        let d = a.drop_last();
        d.to_multiset_ensures();
        assert(a =~= d.push(x));
        assert(a.to_multiset().count(x) > 0);
        assert(b.contains(x));
        let j = choose|j: int| 0 <= j < b.len() && b[j] == x;
        let br = b.remove(j);
        br.to_multiset_ensures();
        assert(d.to_multiset() =~= a.to_multiset().remove(x));
        assert(br.to_multiset() =~= b.to_multiset().remove(x));
        lemma_byte_sum_multiset(d, br);
        lemma_byte_sum_remove(b, j);
    } else {
        assert(b.len() == 0);
    }
}

/// The avatar color of a label depends only on which bytes its UTF-8 form
/// holds, not on their order: labels whose bytes are the same multiset get
/// the same color (so "ab" and "ba" do).
pub proof fn law_avatar_color_ignores_byte_order(a: Seq<char>, b: Seq<char>)
    requires
        vstd::utf8::encode_utf8(a).to_multiset() == vstd::utf8::encode_utf8(b).to_multiset(),
    ensures
        avatar_color_spec(a) == avatar_color_spec(b),
{
    lemma_byte_sum_multiset(vstd::utf8::encode_utf8(a), vstd::utf8::encode_utf8(b));
}

} // verus!
