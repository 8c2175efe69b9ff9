//! Input helpers of the terminal and the input bar: which dropped files are
//! images, and the SGR mouse reports sent to a remote program that asked
//! for mouse events.
use vstd::prelude::*;
use crate::actor::{self, encode_key};
use crate::text::{
    self, chars_eq, chars_of, dec_string_u128, lower_char_exec, lower_chars, push_char,
    string_into_bytes,
};

verus! {

/// What `std::path::Path::extension` gives for the path `p` (the part of
/// the file name after its last dot, if any), as text.
pub uninterp spec fn spec_path_extension(p: Seq<char>) -> Option<Seq<char>>;

/// The extension of the path `p` (`Path::extension`, taken as UTF-8).
#[verifier::external_body]
fn path_extension(p: &str) -> (r: Option<String>)
    ensures
        r matches Some(e) ==> spec_path_extension(p@) == Some(e@),
        r is None ==> spec_path_extension(p@) is None,
{
    match std::path::Path::new(p).extension() {
        Some(e) => match e.to_str() {
            Some(s) => Some(s.to_owned()),
            None => None,
        },
        None => None,
    }
}

/// The extensions, in lower case, of the files taken as images.
pub open spec fn image_extension(e: Seq<char>) -> bool {
    e == "png"@ || e == "jpg"@ || e == "jpeg"@ || e == "gif"@ || e == "webp"@ || e == "bmp"@
        || e == "tiff"@ || e == "tif"@ || e == "ico"@ || e == "svg"@
}

/// Whether the file `p` is an image by its extension, in any case: png,
/// jpg, jpeg, gif, webp, bmp, tiff, tif, ico or svg.
pub fn is_image_path(p: &str) -> (b: bool)
    ensures
        b == (spec_path_extension(p@) matches Some(e) && image_extension(text::lower_seq(e))),
{
    match path_extension(p) {
        Some(e) => {
            let l = lower_chars(&chars_of(e.as_str()));
            chars_eq(&l, "png") || chars_eq(&l, "jpg") || chars_eq(&l, "jpeg") || chars_eq(
                &l,
                "gif",
            ) || chars_eq(&l, "webp") || chars_eq(&l, "bmp") || chars_eq(&l, "tiff") || chars_eq(
                &l,
                "tif",
            ) || chars_eq(&l, "ico") || chars_eq(&l, "svg")
        },
        None => false,
    }
}

/// A mouse button of the pointer.
#[derive(Debug, Clone, Copy, PartialEq, Eq, Structural)]
pub enum MouseButton {
    Left,
    Middle,
    Right,
    /// Back and forward buttons.
    Navigate,
}

/// The SGR code of a mouse button; back and forward have none.
pub fn sgr_mouse_button(b: MouseButton) -> (r: Option<u8>)
    ensures
        r == match b {
            MouseButton::Left => Some(0u8),
            MouseButton::Middle => Some(1u8),
            MouseButton::Right => Some(2u8),
            MouseButton::Navigate => None::<u8>,
        },
{
    match b {
        MouseButton::Left => Some(0),
        MouseButton::Middle => Some(1),
        MouseButton::Right => Some(2),
        MouseButton::Navigate => None,
    }
}

/// The modifier bits of an SGR report: Shift 4, Alt 8, Ctrl 16.
pub open spec fn sgr_mods(shift: bool, alt: bool, ctrl: bool) -> nat {
    (if shift { 4nat } else { 0 }) + (if alt { 8nat } else { 0 }) + (if ctrl { 16nat } else { 0 })
}

/// The SGR report `ESC [ < code ; col ; row M` (press or motion) or `m`
/// (release), with 1-based grid coordinates.
pub open spec fn sgr_report(code: nat, col: nat, row: nat, pressed: bool) -> Seq<char> {
    "\x1b[<"@ + text::dec_seq(code) + ";"@ + text::dec_seq(col) + ";"@ + text::dec_seq(row) + if pressed {
        "M"@
    } else {
        "m"@
    }
}

/// The bytes reporting `button` (with the modifiers) at the 1-based cell
/// (`col`, `row`), pressed or released.
pub fn sgr_mouse_bytes(button: u8, shift: bool, alt: bool, ctrl: bool, col: u32, row: u32, pressed: bool) -> (r:
    Vec<u8>)
    requires
        button + sgr_mods(shift, alt, ctrl) <= 255,
    ensures
        r@ == vstd::utf8::encode_utf8(
            sgr_report((button + sgr_mods(shift, alt, ctrl)) as nat, col as nat, row as nat, pressed),
        ),
{
    let mut mods: u8 = 0;
    if shift {
        mods += 4;
    }
    if alt {
        mods += 8;
    }
    if ctrl {
        mods += 16;
    }
    let mut s = "\x1b[<".to_owned();
    let code = dec_string_u128((button + mods) as u128);
    s.append(code.as_str());
    s.append(";");
    let c = dec_string_u128(col as u128);
    s.append(c.as_str());
    s.append(";");
    let rw = dec_string_u128(row as u128);
    s.append(rw.as_str());
    if pressed {
        s.append("M");
    } else {
        s.append("m");
    }
    string_into_bytes(s)
}

/// `s` repeated `n` times.
pub open spec fn repeat_bytes(s: Seq<u8>, n: nat) -> Seq<u8>
    decreases n,
{
    if n == 0 {
        Seq::empty()
    } else {
        repeat_bytes(s, (n - 1) as nat) + s
    }
}

/// The SGR reports for a wheel turn of `amount` lines at the cell (`col`,
/// `row`): one press of button 64 (up, `amount` > 0) or 65 (down) per line.
/// `None` when the remote program did not ask for SGR reports.
pub fn sgr_wheel_bytes(sgr_mode: bool, amount: i32, shift: bool, alt: bool, ctrl: bool, col: u32, row: u32) -> (r:
    Option<Vec<u8>>)
    ensures
        !sgr_mode ==> r is None,
        sgr_mode ==> (r matches Some(v) && v@ == repeat_bytes(
            vstd::utf8::encode_utf8(
                sgr_report(
                    ((if amount > 0 { 64nat } else { 65nat }) + sgr_mods(shift, alt, ctrl)) as nat,
                    col as nat,
                    row as nat,
                    true,
                ),
            ),
            if amount >= 0 { amount as nat } else { (-amount) as nat },
        )),
{
    if !sgr_mode {
        return None;
    }
    let button: u8 = if amount > 0 { 64 } else { 65 };
    let single = sgr_mouse_bytes(button, shift, alt, ctrl, col, row, true);
    let n: u32 = if amount >= 0 { amount as u32 } else { (0i64 - amount as i64) as u32 };
    let mut out: Vec<u8> = Vec::new();
    let mut k: u32 = 0;
    while k < n
        invariant
            k <= n,
            out@ == repeat_bytes(single@, k as nat),
        decreases n - k,
    {
        let mut j: usize = 0;
        let ghost before = out@;
        while j < single.len()
            invariant
                j <= single.len(),
                out@ == before + single@.subrange(0, j as int),
            decreases single.len() - j,
        {
            out.push(single[j]);
            assert(single@.subrange(0, j + 1) == single@.subrange(0, j as int).push(single@[j as int]));
            j += 1;
        }
        assert(single@.subrange(0, single@.len() as int) == single@);
        k += 1;
    }
    Some(out)
}


/// What a key press in the terminal does.
#[derive(Debug, PartialEq, Eq)]
pub enum KeyAction {
    /// Ctrl+Shift+C: copy the selection.
    CopySelection,
    /// Ctrl+Shift+V: paste the clipboard.
    Paste,
    /// Ctrl+Shift+PageUp/PageDown: move the selected tab left (-1) or right.
    MoveTab(i32),
    /// Ctrl+W: close the selected tab.
    CloseTab,
    /// Ctrl+T: open a host-picker tab on the home page.
    NewTab,
    /// Ctrl+Tab / Ctrl+Shift+Tab: select the next (1) or previous tab.
    CycleTab(i32),
    /// Nothing here: the text input delivers the character, or the key has
    /// no encoding.
    Ignore,
    /// Send these bytes to the shell.
    Send(Vec<u8>),
}

/// Whether `k` is the letter `lower` in either case.
pub open spec fn is_letter_key(k: Seq<char>, lower: char) -> bool {
    k.len() == 1 && text::lower_char(k[0]) == lower
}

/// What a key press does, given the key name, the modifiers, whether it
/// produces a character and whether the keyboard prefers character input
/// (AltGr layouts).
pub open spec fn key_action_spec(
    key: Seq<char>,
    ctrl: bool,
    shift: bool,
    alt: bool,
    has_key_char: bool,
    prefer_character_input: bool,
    a: KeyAction,
) -> bool {
    if ctrl && shift && is_letter_key(key, 'c') {
        a == KeyAction::CopySelection
    } else if ctrl && shift && is_letter_key(key, 'v') {
        a == KeyAction::Paste
    } else if ctrl && shift && (key == "pageup"@ || key == "pagedown"@) {
        a == KeyAction::MoveTab(if key == "pageup"@ { -1i32 } else { 1i32 })
    } else if ctrl && !shift && !alt && is_letter_key(key, 'w') {
        a == KeyAction::CloseTab
    } else if ctrl && !shift && !alt && is_letter_key(key, 't') {
        a == KeyAction::NewTab
    } else if ctrl && !alt && key == "tab"@ {
        a == KeyAction::CycleTab(if shift { -1i32 } else { 1i32 })
    } else if has_key_char && (!ctrl && !alt || prefer_character_input) {
        a == KeyAction::Ignore
    } else if actor::encode_key_spec(key, ctrl, alt).len() == 0 {
        a == KeyAction::Ignore
    } else {
        a matches KeyAction::Send(b) && b@ == actor::encode_key_spec(key, ctrl, alt)
    }
}

/// Whether `k` is the letter `lower` in either case.
fn letter_key(k: &Vec<char>, lower: char) -> (b: bool)
    ensures
        b == is_letter_key(k@, lower),
{
    k.len() == 1 && lower_char_exec(k[0]) == lower
}

/// What a key press in the terminal does.
pub fn terminal_key_action(
    key: &str,
    ctrl: bool,
    shift: bool,
    alt: bool,
    has_key_char: bool,
    prefer_character_input: bool,
) -> (a: KeyAction)
    ensures
        key_action_spec(key@, ctrl, shift, alt, has_key_char, prefer_character_input, a),
{
    let k = chars_of(key);
    if ctrl && shift && letter_key(&k, 'c') {
        KeyAction::CopySelection
    } else if ctrl && shift && letter_key(&k, 'v') {
        KeyAction::Paste
    } else if ctrl && shift && (chars_eq(&k, "pageup") || chars_eq(&k, "pagedown")) {
        KeyAction::MoveTab(if chars_eq(&k, "pageup") { -1 } else { 1 })
    } else if ctrl && !shift && !alt && letter_key(&k, 'w') {
        KeyAction::CloseTab
    } else if ctrl && !shift && !alt && letter_key(&k, 't') {
        KeyAction::NewTab
    } else if ctrl && !alt && chars_eq(&k, "tab") {
        KeyAction::CycleTab(if shift { -1 } else { 1 })
    } else if has_key_char && (!ctrl && !alt || prefer_character_input) {
        KeyAction::Ignore
    } else {
        let bytes = encode_key(key, ctrl, alt);
        if bytes.len() == 0 {
            KeyAction::Ignore
        } else {
            KeyAction::Send(bytes)
        }
    }
}

/// Pasted text with its line ends as the Enter key sends them: CR LF and a
/// lone LF become CR.
pub open spec fn paste_newlines(s: Seq<char>) -> Seq<char>
    decreases s.len(),
{
    if s.len() == 0 {
        Seq::empty()
    } else if s[0] == '\r' && s.len() > 1 && s[1] == '\n' {
        seq!['\r'] + paste_newlines(s.subrange(2, s.len() as int))
    } else if s[0] == '\n' {
        seq!['\r'] + paste_newlines(s.subrange(1, s.len() as int))
    } else {
        seq![s[0]] + paste_newlines(s.subrange(1, s.len() as int))
    }
}

/// The text sent for pasted `text`: line ends made CR, and wrapped in
/// `ESC [200~` ... `ESC [201~` when the remote program asked for bracketed
/// paste.
pub open spec fn paste_text_spec(text: Seq<char>, bracketed: bool) -> Seq<char> {
    if bracketed {
        "\x1b[200~"@ + paste_newlines(text) + "\x1b[201~"@
    } else {
        paste_newlines(text)
    }
}

/// The bytes to send for pasted `text`; `None` for empty text.
pub fn paste_bytes(text: &str, bracketed: bool) -> (r: Option<Vec<u8>>)
    ensures
        text@.len() == 0 ==> r is None,
        text@.len() > 0 ==> (r matches Some(b) && b@ == vstd::utf8::encode_utf8(
            paste_text_spec(text@, bracketed),
        )),
{
    let v = chars_of(text);
    if v.len() == 0 {
        return None;
    }
    let mut out = if bracketed {
        "\x1b[200~".to_owned()
    } else {
        String::new()
    };
    let ghost start = out@;
    let n = v.len();
    let mut i: usize = 0;
    assert(v@.subrange(0, n as int) == v@);
    while i < n
        invariant
            i <= n,
            n == v.len(),
            start + paste_newlines(v@) == out@ + paste_newlines(v@.subrange(i as int, n as int)),
        decreases n - i,
    {
        let ghost rest = v@.subrange(i as int, n as int);
        if v[i] == '\r' && i + 1 < n && v[i + 1] == '\n' {
            push_char(&mut out, '\r');
            proof {
                assert(rest[0] == '\r' && rest.len() > 1 && rest[1] == '\n');
                assert(rest.subrange(2, rest.len() as int) == v@.subrange(i + 2, n as int));
                assert(paste_newlines(rest) == seq!['\r'] + paste_newlines(v@.subrange(i + 2, n as int)));
            }
            i += 2;
        } else {
            let c = v[i];
            let o = if c == '\n' {
                '\r'
            } else {
                c
            };
            push_char(&mut out, o);
            proof {
                assert(rest[0] == c);
                assert(rest.subrange(1, rest.len() as int) == v@.subrange(i + 1, n as int));
                assert(paste_newlines(rest) == seq![o] + paste_newlines(v@.subrange(i + 1, n as int)));
            }
            i += 1;
        }
    }
    proof {
        assert(v@.subrange(n as int, n as int) == Seq::<char>::empty());
        assert(out@ == start + paste_newlines(v@));
    }
    if bracketed {
        out.append("\x1b[201~");
    }
    Some(string_into_bytes(out))
}


/// What `std::path::Path::file_name` gives for the path `p`, as text.
pub uninterp spec fn spec_path_file_name(p: Seq<char>) -> Option<Seq<char>>;

/// The file name of the path `p` (`Path::file_name`, taken as UTF-8).
#[verifier::external_body]
fn path_file_name(p: &str) -> (r: Option<String>)
    ensures
        r matches Some(n) ==> spec_path_file_name(p@) == Some(n@),
        r is None ==> spec_path_file_name(p@) is None,
{
    match std::path::Path::new(p).file_name() {
        Some(n) => match n.to_str() {
            Some(s) => Some(s.to_owned()),
            None => None,
        },
        None => None,
    }
}

/// The name shown under a queued image: its file name, or "image".
pub fn image_display_name(p: &str) -> (r: String)
    ensures
        r@ == match spec_path_file_name(p@) {
            Some(n) => n,
            None => "image"@,
        },
{
    match path_file_name(p) {
        Some(n) => n,
        None => "image".to_owned(),
    }
}

/// The extension an image is uploaded with: its own, in lower case, or
/// "png" when it has none.
pub fn upload_extension(p: &str) -> (r: String)
    ensures
        r@ == match spec_path_extension(p@) {
            Some(e) => text::spec_to_lowercase(e),
            None => "png"@,
        },
{
    match path_extension(p) {
        Some(e) => text::to_lowercase(e.as_str()),
        None => "png".to_owned(),
    }
}

/// What the send button of the input bar does.
#[derive(Debug, PartialEq, Eq)]
pub enum SendPlan {
    /// An upload is running: nothing.
    Blocked,
    /// No image: type the line (when there is text) and clear the input.
    Text(Option<Vec<u8>>),
    /// Images are queued: read them and upload them with the text.
    Images,
}

/// The bytes that type the trimmed `typed` and Enter; `None` when it is
/// blank.
pub fn line_bytes(typed: &str) -> (r: Option<Vec<u8>>)
    ensures
        text::trim_seq(typed@).len() == 0 ==> r is None,
        text::trim_seq(typed@).len() > 0 ==> (r matches Some(b) && b@ == vstd::utf8::encode_utf8(
            text::trim_seq(typed@) + "\r"@,
        )),
{
    let t = text::trim(typed);
    if chars_of(t.as_str()).len() == 0 {
        None
    } else {
        let mut t = t;
        t.append("\r");
        Some(string_into_bytes(t))
    }
}

/// What pressing send does, given the typed text, whether an upload is
/// running for the connection and whether images are queued.
pub fn plan_send(typed: &str, uploading: bool, has_images: bool) -> (r: SendPlan)
    ensures
        uploading ==> r == SendPlan::Blocked,
        !uploading && has_images ==> r == SendPlan::Images,
        !uploading && !has_images ==> (r matches SendPlan::Text(b) && (text::trim_seq(typed@).len()
            == 0 ==> b is None) && (text::trim_seq(typed@).len() > 0 ==> (b matches Some(x) && x@
            == vstd::utf8::encode_utf8(text::trim_seq(typed@) + "\r"@)))),
{
    if uploading {
        SendPlan::Blocked
    } else if has_images {
        SendPlan::Images
    } else {
        SendPlan::Text(line_bytes(typed))
    }
}


/// Pasted text never sends a bare line feed: every line end becomes a
/// carriage return, as the Enter key sends it.
pub proof fn law_paste_has_no_line_feed(s: Seq<char>)
    ensures
        forall|i: int| 0 <= i < paste_newlines(s).len() ==> paste_newlines(s)[i] != '\n',
    decreases s.len(),
{
    if s.len() > 0 {
        let k: int = if s[0] == '\r' && s.len() > 1 && s[1] == '\n' {
            2
        } else {
            1
        };
        let rest = s.subrange(k, s.len() as int);
        law_paste_has_no_line_feed(rest);
        let head: char = if s[0] == '\n' {
            '\r'
        } else {
            s[0]
        };
        assert(paste_newlines(s) == seq![head] + paste_newlines(rest));
        assert forall|i: int| 0 <= i < paste_newlines(s).len() implies paste_newlines(s)[i] != '\n' by {
            if i > 0 {
                assert(paste_newlines(s)[i] == paste_newlines(rest)[i - 1]);
            }
        }
    }
}

} // verus!
