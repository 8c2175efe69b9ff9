//! What the per-connection SSH task decides: the bytes a key press sends, how
//! the output of `cat /etc/os-release`, `tmux list-sessions` and
//! `tmux show-options` is read, the command that attaches a tmux session, and
//! the remote paths of uploaded images.
use vstd::prelude::*;
use crate::ids::SessionId;
use crate::model::RemoteSession;
use crate::text::{
    self, chars_eq, chars_of, contains_lit, dec_string, dec_string_u128, find_char,
    lower_chars, parse_i64_range, parse_unsigned_range, push_char, range_eq, slice_chars,
    split_lines, string_into_bytes, string_of, to_lowercase, trim_bounds, trim_quote_bounds,
    utf8_decode, utf8_decode_lossy,
};

verus! {

/// Bytes of the named special keys, matched on the lowercased key name.
pub open spec fn special_key_bytes(l: Seq<char>) -> Option<Seq<u8>> {
    if l == "enter"@ {
        Some(seq![13u8])
    } else if l == "backspace"@ {
        Some(seq![0x7fu8])
    } else if l == "tab"@ {
        Some(seq![9u8])
    } else if l == "escape"@ || l == "esc"@ {
        Some(seq![0x1bu8])
    } else if l == "space"@ {
        Some(seq![32u8])
    } else if l == "up"@ || l == "arrowup"@ {
        Some(seq![0x1bu8, 0x5b, 0x41])
    } else if l == "down"@ || l == "arrowdown"@ {
        Some(seq![0x1bu8, 0x5b, 0x42])
    } else if l == "right"@ || l == "arrowright"@ {
        Some(seq![0x1bu8, 0x5b, 0x43])
    } else if l == "left"@ || l == "arrowleft"@ {
        Some(seq![0x1bu8, 0x5b, 0x44])
    } else if l == "home"@ {
        Some(seq![0x1bu8, 0x5b, 0x48])
    } else if l == "end"@ {
        Some(seq![0x1bu8, 0x5b, 0x46])
    } else if l == "pageup"@ {
        Some(seq![0x1bu8, 0x5b, 0x35, 0x7e])
    } else if l == "pagedown"@ {
        Some(seq![0x1bu8, 0x5b, 0x36, 0x7e])
    } else if l == "delete"@ {
        Some(seq![0x1bu8, 0x5b, 0x33, 0x7e])
    } else if l == "insert"@ {
        Some(seq![0x1bu8, 0x5b, 0x32, 0x7e])
    } else {
        None
    }
}

/// The bytes a key press sends to the remote terminal.
///
/// With Ctrl, a key whose first character is an ASCII letter (either case)
/// sends its control code (Ctrl+A is 1) and anything else sends nothing; Alt
/// is then ignored. Otherwise the key name, lowercased, picks a special key;
/// a name whose lowercase form is one byte long sends the key's own bytes
/// (case kept); other names send nothing. Alt puts ESC in front of a
/// non-empty result.
pub open spec fn encode_key_spec(key: Seq<char>, ctrl: bool, alt: bool) -> Seq<u8> {
    encode_lowered_spec(key, text::spec_to_lowercase(key), ctrl, alt)
}

/// What a key press sends, given the key name and its lowercase form
/// `lowered` (as `str::to_lowercase` gives it).
pub open spec fn encode_lowered_spec(key: Seq<char>, lowered: Seq<char>, ctrl: bool, alt: bool) -> Seq<u8> {
    if ctrl {
        if key.len() > 0 && 'A' <= text::upper_char(key[0]) && text::upper_char(key[0]) <= 'Z' {
            seq![((text::upper_char(key[0]) as u32) - 0x40) as u8]
        } else {
            seq![]
        }
    } else {
        let base = match special_key_bytes(lowered) {
            Some(b) => b,
            None => if vstd::utf8::encode_utf8(lowered).len() == 1 {
                vstd::utf8::encode_utf8(key)
            } else {
                seq![]
            },
        };
        if base.len() == 0 {
            seq![]
        } else if alt {
            seq![0x1bu8] + base
        } else {
            base
        }
    }
}

fn special_key_bytes_exec(l: &Vec<char>) -> (r: Option<Vec<u8>>)
    ensures
        r matches Some(b) ==> special_key_bytes(l@) == Some(b@),
        r is None ==> special_key_bytes(l@) is None,
{
    let r: Option<Vec<u8>> = if chars_eq(l, "enter") {
        Some(vec![13u8])
    } else if chars_eq(l, "backspace") {
        Some(vec![0x7fu8])
    } else if chars_eq(l, "tab") {
        Some(vec![9u8])
    } else if chars_eq(l, "escape") || chars_eq(l, "esc") {
        Some(vec![0x1bu8])
    } else if chars_eq(l, "space") {
        Some(vec![32u8])
    } else if chars_eq(l, "up") || chars_eq(l, "arrowup") {
        Some(vec![0x1bu8, 0x5b, 0x41])
    } else if chars_eq(l, "down") || chars_eq(l, "arrowdown") {
        Some(vec![0x1bu8, 0x5b, 0x42])
    } else if chars_eq(l, "right") || chars_eq(l, "arrowright") {
        Some(vec![0x1bu8, 0x5b, 0x43])
    } else if chars_eq(l, "left") || chars_eq(l, "arrowleft") {
        Some(vec![0x1bu8, 0x5b, 0x44])
    } else if chars_eq(l, "home") {
        Some(vec![0x1bu8, 0x5b, 0x48])
    } else if chars_eq(l, "end") {
        Some(vec![0x1bu8, 0x5b, 0x46])
    } else if chars_eq(l, "pageup") {
        Some(vec![0x1bu8, 0x5b, 0x35, 0x7e])
    } else if chars_eq(l, "pagedown") {
        Some(vec![0x1bu8, 0x5b, 0x36, 0x7e])
    } else if chars_eq(l, "delete") {
        Some(vec![0x1bu8, 0x5b, 0x33, 0x7e])
    } else if chars_eq(l, "insert") {
        Some(vec![0x1bu8, 0x5b, 0x32, 0x7e])
    } else {
        None
    };
    r
}

/// A copy of a byte slice.
fn copy_bytes(b: &[u8]) -> (r: Vec<u8>)
    ensures
        r@ == b@,
{
    let mut r: Vec<u8> = Vec::new();
    let mut i: usize = 0;
    while i < b.len()
        invariant
            i <= b.len(),
            r@ == b@.subrange(0, i as int),
        decreases b.len() - i,
    {
        r.push(b[i]);
        assert(b@.subrange(0, i + 1) == b@.subrange(0, i as int).push(b@[i as int]));
        i += 1;
    }
    assert(b@.subrange(0, b@.len() as int) == b@);
    r
}

/// Encodes a key press (key name as the UI reports it, Ctrl, Alt) into the
/// bytes for the remote PTY.
pub fn encode_key(key: &str, ctrl: bool, alt: bool) -> (r: Vec<u8>)
    ensures
        r@ == encode_key_spec(key@, ctrl, alt),
        !ctrl && text::spec_to_lowercase(key@) == "space"@ ==> r@ == (if alt {
            seq![0x1bu8, 0x20]
        } else {
            seq![0x20u8]
        }),
        !ctrl && text::spec_to_lowercase(key@) == "enter"@ ==> r@ == (if alt {
            seq![0x1bu8, 0x0d]
        } else {
            seq![0x0du8]
        }),
{
    proof {
        law_named_keys(key@, alt);
        assert(seq![0x1bu8] + seq![0x20u8] =~= seq![0x1bu8, 0x20]);
        assert(Seq::<u8>::empty() + seq![0x20u8] =~= seq![0x20u8]);
        assert(seq![0x1bu8] + seq![0x0du8] =~= seq![0x1bu8, 0x0d]);
        assert(Seq::<u8>::empty() + seq![0x0du8] =~= seq![0x0du8]);
    }
    let lowered = to_lowercase(key);
    encode_key_lowered(key, lowered.as_str(), ctrl, alt)
}

/// Encodes a key press given the key name and its lowercase form.
pub fn encode_key_lowered(key: &str, lowered: &str, ctrl: bool, alt: bool) -> (r: Vec<u8>)
    ensures
        r@ == encode_lowered_spec(key@, lowered@, ctrl, alt),
{
    if ctrl {
        let v = chars_of(key);
        if v.len() > 0 {
            let upper = text::upper_char_exec(v[0]);
            if 'A' <= upper && upper <= 'Z' {
                let byte = ((upper as u32) - 0x40) as u8;
                let mut out: Vec<u8> = Vec::new();
                out.push(byte);
                assert(out@ == encode_lowered_spec(key@, lowered@, ctrl, alt));
                return out;
            }
        }
        assert(encode_lowered_spec(key@, lowered@, ctrl, alt) =~= Seq::<u8>::empty());
        return Vec::new();
    }
    let l = chars_of(lowered);
    let ghost spec_base = match special_key_bytes(l@) {
        Some(b) => b,
        None => if vstd::utf8::encode_utf8(l@).len() == 1 {
            vstd::utf8::encode_utf8(key@)
        } else {
            seq![]
        },
    };
    let base: Vec<u8> = match special_key_bytes_exec(&l) {
        Some(b) => b,
        None => {
            let lb = lowered.as_bytes();
            if lb.len() == 1 {
                copy_bytes(key.as_bytes())
            } else {
                Vec::new()
            }
        },
    };
    assert(base@ == spec_base);
    assert(base@.len() == 0 ==> encode_lowered_spec(key@, lowered@, ctrl, alt) =~= Seq::<u8>::empty());
    if base.len() == 0 {
        return Vec::new();
    }
    if alt {
        let mut out: Vec<u8> = Vec::new();
        out.push(0x1b);
        let mut i: usize = 0;
        while i < base.len()
            invariant
                i <= base.len(),
                out@ == seq![0x1bu8] + base@.subrange(0, i as int),
            decreases base.len() - i,
        {
            out.push(base[i]);
            assert(base@.subrange(0, i + 1) == base@.subrange(0, i as int).push(base@[i as int]));
            i += 1;
        }
        assert(base@.subrange(0, base@.len() as int) == base@);
        out
    } else {
        base
    }
}

/// Alt adds exactly one ESC in front of what the key sends without it.
pub proof fn law_alt_prefixes_escape(key: Seq<char>)
    ensures
        encode_key_spec(key, false, false).len() > 0 ==> encode_key_spec(key, false, true)
            == seq![0x1bu8] + encode_key_spec(key, false, false),
        encode_key_spec(key, false, false).len() == 0 ==> encode_key_spec(key, false, true).len()
            == 0,
{
}

/// A copy of `v` without white space at either end.
pub fn trimmed(v: &Vec<char>) -> (r: Vec<char>)
    ensures
        r@ == text::trim_seq(v@),
{
    let (lo, hi) = trim_bounds(v);
    slice_chars(v, lo, hi)
}

/// The id that an `/etc/os-release` line gives, if it is an `ID=` line with a
/// non-empty value: white space and quotes trimmed, ASCII lowercased.
pub open spec fn id_value(line: Seq<char>) -> Option<Seq<char>> {
    let t = text::trim_seq(line);
    if t.len() >= 3 && t.subrange(0, 3) == "ID="@ {
        let val = text::trim_quotes_seq(text::trim_seq(t.subrange(3, t.len() as int)));
        if val.len() > 0 {
            Some(text::lower_seq(val))
        } else {
            None
        }
    } else {
        None
    }
}

/// The id of the first line that has one.
pub open spec fn first_id(lines: Seq<Seq<char>>) -> Option<Seq<char>>
    decreases lines.len(),
{
    if lines.len() == 0 {
        None
    } else {
        match id_value(lines[0]) {
            Some(v) => Some(v),
            None => first_id(lines.drop_first()),
        }
    }
}

/// The OS id in the output of `cat /etc/os-release`: `None` when the bytes
/// are not UTF-8 or no line is `ID=<value>` (`ID_LIKE=` does not count).
pub open spec fn parse_os_release_spec(b: Seq<u8>) -> Option<Seq<char>> {
    if vstd::utf8::valid_utf8(b) {
        first_id(text::lines_seq(vstd::utf8::decode_utf8(b)))
    } else {
        None
    }
}

proof fn lemma_first_id_skip(ls: Seq<Seq<char>>, i: int)
    requires
        0 <= i <= ls.len(),
        forall|j: int| 0 <= j < i ==> id_value(#[trigger] ls[j]) is None,
    ensures
        first_id(ls) == first_id(ls.subrange(i, ls.len() as int)),
    decreases i,
{
    if i > 0 {
        let t = ls.drop_first();
        assert forall|j: int| 0 <= j < i - 1 implies id_value(#[trigger] t[j]) is None by {
            assert(t[j] == ls[j + 1]);
        }
        lemma_first_id_skip(t, i - 1);
        assert(t.subrange(i - 1, t.len() as int) == ls.subrange(i, ls.len() as int));
    } else {
        assert(ls.subrange(0, ls.len() as int) == ls);
    }
}

/// The id that one line gives, if any.
fn id_value_exec(line: &Vec<char>) -> (r: Option<Vec<char>>)
    ensures
        r matches Some(v) ==> id_value(line@) == Some(v@),
        r is None ==> id_value(line@) is None,
{
    let t = trimmed(line);
    if t.len() >= 3 && range_eq(&t, 0, 3, "ID=") {
        let rest = slice_chars(&t, 3, t.len());
        let rt = trimmed(&rest);
        let (lo, hi) = trim_quote_bounds(&rt);
        if lo < hi {
            let val = slice_chars(&rt, lo, hi);
            return Some(lower_chars(&val));
        }
    }
    None
}

/// The OS id in the output of `cat /etc/os-release`, lowercased and without
/// quotes, or `None`.
pub fn parse_os_release(stdout: &[u8]) -> (r: Option<String>)
    ensures
        r matches Some(s) ==> parse_os_release_spec(stdout@) == Some(s@),
        r is None ==> parse_os_release_spec(stdout@) is None,
        r matches Some(s) ==> s@.len() > 0 && !text::is_quote(s@[0]) && !text::is_quote(s@.last()),
{
    proof {
        law_os_id_unquoted(stdout@);
    }
    parse_os_release_lines(stdout)
}

/// Reads the id from the lines of the output.
fn parse_os_release_lines(stdout: &[u8]) -> (r: Option<String>)
    ensures
        r matches Some(s) ==> parse_os_release_spec(stdout@) == Some(s@),
        r is None ==> parse_os_release_spec(stdout@) is None,
{
    let decoded = match utf8_decode(stdout) {
        Some(s) => s,
        None => return None,
    };
    let v = chars_of(decoded.as_str());
    let lines = split_lines(&v);
    let ghost ls = lines@.map_values(|l: Vec<char>| l@);
    assert(parse_os_release_spec(stdout@) == first_id(ls));
    let mut i: usize = 0;
    while i < lines.len()
        invariant
            i <= lines.len(),
            ls == lines@.map_values(|l: Vec<char>| l@),
            ls == text::lines_seq(v@),
            parse_os_release_spec(stdout@) == first_id(ls),
            forall|j: int| 0 <= j < i ==> id_value(#[trigger] ls[j]) is None,
        decreases lines.len() - i,
    {
        assert(ls[i as int] == lines@[i as int]@);
        match id_value_exec(&lines[i]) {
            Some(val) => {
                proof {
                    lemma_first_id_skip(ls, i as int);
                    let t = ls.subrange(i as int, ls.len() as int);
                    assert(t[0] == ls[i as int]);
                    assert(first_id(t) == Some(val@));
                }
                return Some(string_of(&val));
            },
            None => {},
        }
        i += 1;
    }
    proof {
        lemma_first_id_skip(ls, i as int);
        assert(ls.subrange(i as int, ls.len() as int).len() == 0);
    }
    None
}

/// `s` split at its first `c`: the part before and the part after.
pub open spec fn split_once(s: Seq<char>, c: char) -> Option<(Seq<char>, Seq<char>)> {
    match text::first_index_of(s, c) {
        Some(i) => Some((s.subrange(0, i), s.subrange(i + 1, s.len() as int))),
        None => None,
    }
}

/// The part of `s` before its first `|` (all of `s` when there is none).
pub open spec fn before_bar(s: Seq<char>) -> Seq<char> {
    match split_once(s, '|') {
        Some(p) => p.0,
        None => s,
    }
}

/// The fields of one `list-sessions` line `id|name|windows|activity`: `None`
/// when it has no `|` or an empty id. Id and name are trimmed; windows and
/// activity are 0 when missing or not numbers; the activity field runs to the
/// end of the line.
pub open spec fn session_fields(l: Seq<char>) -> Option<(Seq<char>, Seq<char>, u32, i64)> {
    match split_once(l, '|') {
        None => None,
        Some(p) => {
            let id = text::trim_seq(p.0);
            let r1 = p.1;
            if id.len() == 0 {
                None
            } else {
                let name = text::trim_seq(before_bar(r1));
                let windows: u32 = match split_once(r1, '|') {
                    None => 0,
                    Some(q) => match text::parse_unsigned(
                        text::trim_seq(before_bar(q.1)),
                        0xffff_ffff,
                    ) {
                        Some(w) => w as u32,
                        None => 0,
                    },
                };
                let activity: i64 = match split_once(r1, '|') {
                    None => 0,
                    Some(q) => match split_once(q.1, '|') {
                        None => 0,
                        Some(z) => match text::parse_i64_spec(text::trim_seq(z.1)) {
                            Some(a) => a as i64,
                            None => 0,
                        },
                    },
                };
                Some((id, name, windows, activity))
            }
        },
    }
}

/// The sessions that the lines give, in order.
pub open spec fn sessions_of_lines(ls: Seq<Seq<char>>) -> Seq<(Seq<char>, Seq<char>, u32, i64)>
    decreases ls.len(),
{
    if ls.len() == 0 {
        seq![]
    } else {
        let rest = sessions_of_lines(ls.drop_last());
        match session_fields(ls.last()) {
            Some(f) => rest.push(f),
            None => rest,
        }
    }
}

/// The sessions in the output of
/// `tmux list-sessions -F '#{session_id}|#{session_name}|#{session_windows}|#{session_activity}'`.
pub open spec fn parse_session_list_spec(stdout: Seq<u8>) -> Seq<(Seq<char>, Seq<char>, u32, i64)> {
    sessions_of_lines(text::lines_seq(text::spec_utf8_lossy(stdout)))
}

/// Whether a session matches the fields a spec gives for it.
pub open spec fn session_matches(s: RemoteSession, f: (Seq<char>, Seq<char>, u32, i64)) -> bool {
    s.id@ == f.0 && s.name@ == f.1 && s.windows == f.2 && s.activity == f.3
}

/// `v` split at its first `c`.
fn split_once_exec(v: &Vec<char>, c: char) -> (r: Option<(Vec<char>, Vec<char>)>)
    ensures
        r matches Some(p) ==> split_once(v@, c) == Some((p.0@, p.1@)),
        r is None ==> split_once(v@, c) is None,
{
    match find_char(v, c) {
        Some(i) => Some((slice_chars(v, 0, i), slice_chars(v, i + 1, v.len()))),
        None => None,
    }
}

/// The part of `v` before its first `|`.
fn before_bar_exec(v: &Vec<char>) -> (r: Vec<char>)
    ensures
        r@ == before_bar(v@),
{
    match split_once_exec(v, '|') {
        Some(p) => p.0,
        None => slice_chars(v, 0, v.len()),
    }
}

/// The session that one line gives, if any.
fn session_from_line(l: &Vec<char>) -> (r: Option<RemoteSession>)
    ensures
        r matches Some(s) ==> session_fields(l@) matches Some(f) && session_matches(s, f),
        r is None ==> session_fields(l@) is None,
{
    let (p0, r1) = match split_once_exec(l, '|') {
        Some(p) => p,
        None => return None,
    };
    let id = trimmed(&p0);
    if id.len() == 0 {
        return None;
    }
    let name = trimmed(&before_bar_exec(&r1));
    let mut windows: u32 = 0;
    let mut activity: i64 = 0;
    match split_once_exec(&r1, '|') {
        None => {},
        Some(q) => {
            let w = trimmed(&before_bar_exec(&q.1));
            match parse_unsigned_range(&w, 0, w.len(), 0xffff_ffff) {
                Some(x) => {
                    windows = x as u32;
                },
                None => {},
            }
            match split_once_exec(&q.1, '|') {
                None => {},
                Some(z) => {
                    let a = trimmed(&z.1);
                    match parse_i64_range(&a, 0, a.len()) {
                        Some(x) => {
                            activity = x;
                        },
                        None => {},
                    }
                    assert(a@.subrange(0, a@.len() as int) == a@);
                },
            }
            assert(w@.subrange(0, w@.len() as int) == w@);
        },
    }
    Some(
        RemoteSession {
            id: SessionId(string_of(&id)),
            name: string_of(&name),
            windows,
            activity,
        },
    )
}

/// Reads the sessions out of the stdout of `tmux list-sessions` (format
/// `id|name|windows|activity`), skipping lines without `|` or with an empty
/// id.
pub fn parse_session_list(stdout: &[u8]) -> (r: Vec<RemoteSession>)
    ensures
        r.len() == parse_session_list_spec(stdout@).len(),
        forall|i: int|
            0 <= i < r.len() ==> session_matches(#[trigger] r[i], parse_session_list_spec(stdout@)[i]),
{
    let s = utf8_decode_lossy(stdout);
    let v = chars_of(s.as_str());
    let lines = split_lines(&v);
    let ghost ls = lines@.map_values(|l: Vec<char>| l@);
    let mut r: Vec<RemoteSession> = Vec::new();
    let mut i: usize = 0;
    while i < lines.len()
        invariant
            i <= lines.len(),
            ls == lines@.map_values(|l: Vec<char>| l@),
            ls == text::lines_seq(text::spec_utf8_lossy(stdout@)),
            r.len() == sessions_of_lines(ls.subrange(0, i as int)).len(),
            forall|k: int|
                0 <= k < r.len() ==> session_matches(
                    #[trigger] r[k],
                    sessions_of_lines(ls.subrange(0, i as int))[k],
                ),
        decreases lines.len() - i,
    {
        let ghost prev = ls.subrange(0, i as int);
        let ghost next = ls.subrange(0, i + 1);
        assert(next.drop_last() == prev);
        assert(next.last() == lines@[i as int]@);
        match session_from_line(&lines[i]) {
            Some(sess) => {
                r.push(sess);
            },
            None => {},
        }
        i += 1;
    }
    assert(ls.subrange(0, ls.len() as int) == ls);
    r
}

/// What a run of a remote command gave: its stdout, stderr and exit code.
#[derive(Debug)]
pub struct ExecResult {
    pub stdout: Vec<u8>,
    pub stderr: Vec<u8>,
    pub exit_code: u32,
}

/// The OS id that an `os-release` probe gives: only a successful run is read.
pub open spec fn os_kind_spec(res: Result<ExecResult, String>) -> Option<Seq<char>> {
    match res {
        Ok(r) => if r.exit_code == 0 {
            parse_os_release_spec(r.stdout@)
        } else {
            None
        },
        Err(_) => None,
    }
}

/// The OS id after running `cat /etc/os-release 2>/dev/null` (`Err` holds the
/// error text of a failed run).
pub fn os_kind_from_probe(res: &Result<ExecResult, String>) -> (r: Option<String>)
    ensures
        r matches Some(s) ==> os_kind_spec(*res) == Some(s@),
        r is None ==> os_kind_spec(*res) is None,
{
    match res {
        Ok(x) => if x.exit_code == 0 {
            parse_os_release(x.stdout.as_slice())
        } else {
            None
        },
        Err(_) => None,
    }
}

/// What a `tmux list-sessions` run tells of the remote tmux.
#[derive(Debug)]
pub enum TmuxListOutcome {
    /// tmux is there (with these sessions, maybe none); its mouse option is
    /// checked next.
    Listed { sessions: Vec<RemoteSession> },
    /// tmux is not installed.
    NoTmux,
    /// tmux is there but the query failed.
    Failed { msg: String },
}

/// The failure text of a non-zero `list-sessions` run: the trimmed stderr, or
/// `tmux list-sessions exit <code>` when that is empty.
pub open spec fn list_failure_text(stderr: Seq<char>, code: u32) -> Seq<char> {
    if text::trim_seq(stderr).len() == 0 {
        "tmux list-sessions exit "@ + text::dec_seq(code as nat)
    } else {
        text::trim_seq(stderr)
    }
}

/// Whether the outcome is `Listed` with exactly the sessions `fs`.
pub open spec fn listed_as(o: TmuxListOutcome, fs: Seq<(Seq<char>, Seq<char>, u32, i64)>) -> bool {
    match o {
        TmuxListOutcome::Listed { sessions } => sessions.len() == fs.len() && forall|i: int|
            0 <= i < sessions.len() ==> session_matches(#[trigger] sessions[i], fs[i]),
        _ => false,
    }
}

/// How a `list-sessions` run is read: exit 0 lists the sessions; otherwise
/// stderr decides: "not found" means no tmux, "no server running" or "no
/// sessions" means tmux with no session, anything else is a failure with that
/// text; an error of the run itself is a failure with its text.
pub open spec fn tmux_list_spec(res: Result<ExecResult, String>, o: TmuxListOutcome) -> bool {
    match res {
        Err(e) => o matches TmuxListOutcome::Failed { msg } && msg@ == e@,
        Ok(r) => if r.exit_code == 0 {
            listed_as(o, parse_session_list_spec(r.stdout@))
        } else {
            let s = text::spec_utf8_lossy(r.stderr@);
            if text::contains_seq(s, "command not found"@) || text::contains_seq(s, "not found"@) {
                o is NoTmux
            } else if text::contains_seq(s, "no server running"@) || text::contains_seq(
                s,
                "no sessions"@,
            ) {
                listed_as(o, seq![])
            } else {
                o matches TmuxListOutcome::Failed { msg } && msg@ == list_failure_text(
                    s,
                    r.exit_code,
                )
            }
        },
    }
}

/// Reads the result of `tmux list-sessions`.
pub fn classify_tmux_list(res: Result<ExecResult, String>) -> (o: TmuxListOutcome)
    ensures
        tmux_list_spec(res, o),
        res matches Ok(r) && r.exit_code != 0 && (text::contains_seq(
            text::spec_utf8_lossy(r.stderr@),
            "no server running"@,
        ) || text::contains_seq(text::spec_utf8_lossy(r.stderr@), "no sessions"@))
            && !text::contains_seq(text::spec_utf8_lossy(r.stderr@), "not found"@) ==> (o matches TmuxListOutcome::Listed { sessions }
            && sessions@.len() == 0),
{
    let ghost res0 = res;
    let o = classify_tmux_list_step(res);
    proof {
        if let Ok(r) = res0 {
            if r.exit_code != 0 && (text::contains_seq(text::spec_utf8_lossy(r.stderr@), "no server running"@)
                || text::contains_seq(text::spec_utf8_lossy(r.stderr@), "no sessions"@))
                && !text::contains_seq(text::spec_utf8_lossy(r.stderr@), "not found"@) {
                law_no_server_means_empty_list(r, o);
            }
        }
    }
    o
}

/// Reads the result of `tmux list-sessions`, case by case.
fn classify_tmux_list_step(res: Result<ExecResult, String>) -> (o: TmuxListOutcome)
    ensures
        tmux_list_spec(res, o),
{
    match res {
        Err(e) => TmuxListOutcome::Failed { msg: e },
        Ok(r) => {
            if r.exit_code == 0 {
                let sessions = parse_session_list(r.stdout.as_slice());
                return TmuxListOutcome::Listed { sessions };
            }
            let s = utf8_decode_lossy(r.stderr.as_slice());
            let v = chars_of(s.as_str());
            if contains_lit(&v, "command not found") || contains_lit(&v, "not found") {
                TmuxListOutcome::NoTmux
            } else if contains_lit(&v, "no server running") || contains_lit(&v, "no sessions") {
                TmuxListOutcome::Listed { sessions: Vec::new() }
            } else {
                let t = trimmed(&v);
                if t.len() == 0 {
                    let mut msg = "tmux list-sessions exit ".to_owned();
                    let d = dec_string(r.exit_code as u64);
                    msg.append(d.as_str());
                    TmuxListOutcome::Failed { msg }
                } else {
                    TmuxListOutcome::Failed { msg: string_of(&t) }
                }
            }
        },
    }
}

/// Whether `tmux show-options -gv mouse` says the mouse is on: a successful
/// run whose trimmed stdout is `on` in any ASCII case.
pub open spec fn mouse_on_spec(res: Result<ExecResult, String>) -> bool {
    match res {
        Ok(r) => r.exit_code == 0 && text::lower_seq(text::trim_seq(text::spec_utf8_lossy(r.stdout@)))
            == "on"@,
        Err(_) => false,
    }
}

/// Whether the remote tmux has its mouse option on; when it has not, the user
/// is told how to turn it on.
pub fn tmux_mouse_on(res: &Result<ExecResult, String>) -> (b: bool)
    ensures
        b == mouse_on_spec(*res),
{
    match res {
        Ok(r) => {
            if r.exit_code != 0 {
                return false;
            }
            let s = utf8_decode_lossy(r.stdout.as_slice());
            let v = chars_of(s.as_str());
            let t = trimmed(&v);
            let l = lower_chars(&t);
            chars_eq(&l, "on")
        },
        Err(_) => false,
    }
}

/// A session id with each `'` written as `'\''`, for use inside single quotes.
pub open spec fn shell_quote_escape(s: Seq<char>) -> Seq<char>
    decreases s.len(),
{
    if s.len() == 0 {
        seq![]
    } else {
        let rest = shell_quote_escape(s.drop_last());
        if s.last() == '\'' {
            rest + "'\\''"@
        } else {
            rest.push(s.last())
        }
    }
}

/// The text typed into the shell to attach a tmux session:
/// `tmux attach -t '<id>'` and a carriage return.
pub open spec fn attach_command_spec(id: Seq<char>) -> Seq<char> {
    "tmux attach -t '"@ + shell_quote_escape(id) + "'\r"@
}

/// The bytes that attach the remote tmux session `session`.
pub fn attach_command_bytes(session: &SessionId) -> (r: Vec<u8>)
    ensures
        r@ == vstd::utf8::encode_utf8(attach_command_spec(session@)),
{
    let v = chars_of(session.as_str());
    let mut out = "tmux attach -t '".to_owned();
    let ghost start = out@;
    let mut i: usize = 0;
    while i < v.len()
        invariant
            i <= v.len(),
            v@ == session@,
            start == "tmux attach -t '"@,
            out@ == start + shell_quote_escape(v@.subrange(0, i as int)),
        decreases v.len() - i,
    {
        let ghost pre = v@.subrange(0, i as int);
        assert(v@.subrange(0, i + 1).drop_last() == pre);
        if v[i] == '\'' {
            out.append("'\\''");
        } else {
            push_char(&mut out, v[i]);
        }
        i += 1;
    }
    assert(v@.subrange(0, v@.len() as int) == v@);
    out.append("'\r");
    string_into_bytes(out)
}

/// The remote path of a single pasted image uploaded at `ts_millis`:
/// `/tmp/aish-clip-<ts>.png`.
pub fn clip_upload_path(ts_millis: u128) -> (r: String)
    ensures
        r@ == "/tmp/aish-clip-"@ + text::dec_seq(ts_millis as nat) + ".png"@,
{
    let mut r = "/tmp/aish-clip-".to_owned();
    let d = dec_string_u128(ts_millis);
    r.append(d.as_str());
    r.append(".png");
    r
}

/// The remote path of image `i` of a batch uploaded at `ts_millis`, with
/// extension `ext`: `/tmp/aish-clip-<ts>-<i>.<ext>`.
pub fn batch_upload_path(ts_millis: u128, i: usize, ext: &str) -> (r: String)
    ensures
        r@ == "/tmp/aish-clip-"@ + text::dec_seq(ts_millis as nat) + "-"@ + text::dec_seq(
            i as nat,
        ) + "."@ + ext@,
{
    let mut r = "/tmp/aish-clip-".to_owned();
    let d = dec_string_u128(ts_millis);
    r.append(d.as_str());
    r.append("-");
    let k = dec_string(i as u64);
    r.append(k.as_str());
    r.append(".");
    r.append(ext);
    r
}

/// A failed `tmux list-sessions` run whose error output says no server is
/// running (tmux installed, never started) or that there are no sessions,
/// and does not say tmux was not found, means tmux is there with no
/// sessions.
pub proof fn law_no_server_means_empty_list(r: ExecResult, o: TmuxListOutcome)
    requires
        tmux_list_spec(Ok(r), o),
        r.exit_code != 0,
        text::contains_seq(text::spec_utf8_lossy(r.stderr@), "no server running"@)
            || text::contains_seq(text::spec_utf8_lossy(r.stderr@), "no sessions"@),
        !text::contains_seq(text::spec_utf8_lossy(r.stderr@), "not found"@),
    ensures
        o matches TmuxListOutcome::Listed { sessions } && sessions@.len() == 0,
{
    let s = text::spec_utf8_lossy(r.stderr@);
    if text::contains_seq(s, "command not found"@) {
        let i = choose|i: int| text::occurs_at(s, "command not found"@, i);
        reveal_strlit("command not found");
        reveal_strlit("not found");
        let big = s.subrange(i, i + 17);
        assert(big == "command not found"@);
        assert(s.subrange(i + 8, i + 17) =~= big.subrange(8, 17));
        assert(big.subrange(8, 17) =~= "not found"@);
        assert(text::occurs_at(s, "not found"@, i + 8));
    }
}

/// A failed run whose error output says tmux was not found means no tmux;
/// a successful run always lists sessions.
pub proof fn law_tmux_outcome_kinds(r: ExecResult, o: TmuxListOutcome)
    requires
        tmux_list_spec(Ok(r), o),
    ensures
        r.exit_code == 0 ==> o is Listed,
        r.exit_code != 0 && text::contains_seq(text::spec_utf8_lossy(r.stderr@), "not found"@) ==> o is NoTmux,
{
}

/// The id read from `/etc/os-release` is never empty and never starts or
/// ends with a quote of either kind: quotes around the value are stripped.
pub proof fn law_os_id_unquoted(b: Seq<u8>)
    ensures
        parse_os_release_spec(b) matches Some(id) ==> id.len() > 0 && !text::is_quote(id[0])
            && !text::is_quote(id.last()),
{
    if vstd::utf8::valid_utf8(b) {
        lemma_first_id_unquoted(text::lines_seq(vstd::utf8::decode_utf8(b)));
    }
}

/// Every id a line gives is unquoted at both ends.
proof fn lemma_first_id_unquoted(ls: Seq<Seq<char>>)
    ensures
        first_id(ls) matches Some(id) ==> id.len() > 0 && !text::is_quote(id[0]) && !text::is_quote(
            id.last(),
        ),
    decreases ls.len(),
{
    if ls.len() > 0 {
        lemma_id_value_unquoted(ls[0]);
        lemma_first_id_unquoted(ls.drop_first());
    }
}

/// The id of one line is unquoted at both ends.
proof fn lemma_id_value_unquoted(line: Seq<char>)
    ensures
        id_value(line) matches Some(id) ==> id.len() > 0 && !text::is_quote(id[0]) && !text::is_quote(
            id.last(),
        ),
{
    let t = text::trim_seq(line);
    if t.len() >= 3 && t.subrange(0, 3) == "ID="@ {
        let x = text::trim_seq(t.subrange(3, t.len() as int));
        let q = text::quote_pred();
        let a = text::trim_start_by(x, q);
        text::lemma_trim_start_first(x, q);
        text::lemma_trim_end_prefix(a, q);
        let val = text::trim_quotes_seq(x);
        assert(val == text::trim_end_by(a, q));
        if val.len() > 0 {
            assert(val[0] == a[0]);
            assert(!q(val[0]));
            assert(!q(val.last()));
            let l = text::lower_seq(val);
            assert(l[0] == text::lower_char(val[0]));
            assert(l.last() == text::lower_char(val.last()));
        }
    }
}

/// The named keys send the bytes a terminal expects, whatever the case of
/// the name: Enter a carriage return, Tab a tab, Space a space, Backspace
/// DEL, Escape ESC and the arrows their cursor sequences (ESC [ A/B/C/D);
/// with Alt, ESC goes in front.
pub proof fn law_named_keys(key: Seq<char>, alt: bool)
    ensures
        ({
            let l = text::spec_to_lowercase(key);
            let pre = if alt { seq![0x1bu8] } else { Seq::<u8>::empty() };
            &&& l == "enter"@ ==> encode_key_spec(key, false, alt) == pre + seq![0x0du8]
            &&& l == "tab"@ ==> encode_key_spec(key, false, alt) == pre + seq![0x09u8]
            &&& l == "space"@ ==> encode_key_spec(key, false, alt) == pre + seq![0x20u8]
            &&& l == "backspace"@ ==> encode_key_spec(key, false, alt) == pre + seq![0x7fu8]
            &&& l == "escape"@ ==> encode_key_spec(key, false, alt) == pre + seq![0x1bu8]
            &&& l == "up"@ ==> encode_key_spec(key, false, alt) == pre + seq![0x1bu8, 0x5b, 0x41]
            &&& l == "down"@ ==> encode_key_spec(key, false, alt) == pre + seq![0x1bu8, 0x5b, 0x42]
            &&& l == "right"@ ==> encode_key_spec(key, false, alt) == pre + seq![0x1bu8, 0x5b, 0x43]
            &&& l == "left"@ ==> encode_key_spec(key, false, alt) == pre + seq![0x1bu8, 0x5b, 0x44]
        }),
{
    let l = text::spec_to_lowercase(key);
    reveal_strlit("enter");
    reveal_strlit("backspace");
    reveal_strlit("tab");
    reveal_strlit("escape");
    reveal_strlit("esc");
    reveal_strlit("space");
    reveal_strlit("up");
    reveal_strlit("arrowup");
    reveal_strlit("down");
    reveal_strlit("arrowdown");
    reveal_strlit("right");
    reveal_strlit("arrowright");
    reveal_strlit("left");
    reveal_strlit("arrowleft");
    assert("tab"@ != "enter"@) by {
        assert("tab"@.len() != "enter"@.len());
    }
    assert("tab"@ != "backspace"@) by {
        assert("tab"@.len() != "backspace"@.len());
    }
    assert("space"@ != "enter"@) by {
        assert("space"@[0] != "enter"@[0]);
    }
    assert("space"@ != "backspace"@) by {
        assert("space"@.len() != "backspace"@.len());
    }
    assert("space"@ != "tab"@) by {
        assert("space"@.len() != "tab"@.len());
    }
    assert("space"@ != "escape"@) by {
        assert("space"@.len() != "escape"@.len());
    }
    assert("space"@ != "esc"@) by {
        assert("space"@.len() != "esc"@.len());
    }
    assert("backspace"@ != "enter"@) by {
        assert("backspace"@.len() != "enter"@.len());
    }
    assert("escape"@ != "enter"@) by {
        assert("escape"@.len() != "enter"@.len());
    }
    assert("escape"@ != "backspace"@) by {
        assert("escape"@.len() != "backspace"@.len());
    }
    assert("escape"@ != "tab"@) by {
        assert("escape"@.len() != "tab"@.len());
    }
    assert("up"@ != "enter"@) by {
        assert("up"@.len() != "enter"@.len());
    }
    assert("up"@ != "backspace"@) by {
        assert("up"@.len() != "backspace"@.len());
    }
    assert("up"@ != "tab"@) by {
        assert("up"@.len() != "tab"@.len());
    }
    assert("up"@ != "escape"@) by {
        assert("up"@.len() != "escape"@.len());
    }
    assert("up"@ != "esc"@) by {
        assert("up"@.len() != "esc"@.len());
    }
    assert("up"@ != "space"@) by {
        assert("up"@.len() != "space"@.len());
    }
    assert("down"@ != "enter"@) by {
        assert("down"@.len() != "enter"@.len());
    }
    assert("down"@ != "backspace"@) by {
        assert("down"@.len() != "backspace"@.len());
    }
    assert("down"@ != "tab"@) by {
        assert("down"@.len() != "tab"@.len());
    }
    assert("down"@ != "escape"@) by {
        assert("down"@.len() != "escape"@.len());
    }
    assert("down"@ != "esc"@) by {
        assert("down"@.len() != "esc"@.len());
    }
    assert("down"@ != "space"@) by {
        assert("down"@.len() != "space"@.len());
    }
    assert("down"@ != "up"@) by {
        assert("down"@.len() != "up"@.len());
    }
    assert("down"@ != "arrowup"@) by {
        assert("down"@.len() != "arrowup"@.len());
    }
    assert("right"@ != "enter"@) by {
        assert("right"@[0] != "enter"@[0]);
    }
    assert("right"@ != "backspace"@) by {
        assert("right"@.len() != "backspace"@.len());
    }
    assert("right"@ != "tab"@) by {
        assert("right"@.len() != "tab"@.len());
    }
    assert("right"@ != "escape"@) by {
        assert("right"@.len() != "escape"@.len());
    }
    assert("right"@ != "esc"@) by {
        assert("right"@.len() != "esc"@.len());
    }
    assert("right"@ != "space"@) by {
        assert("right"@[0] != "space"@[0]);
    }
    assert("right"@ != "up"@) by {
        assert("right"@.len() != "up"@.len());
    }
    assert("right"@ != "arrowup"@) by {
        assert("right"@.len() != "arrowup"@.len());
    }
    assert("right"@ != "down"@) by {
        assert("right"@.len() != "down"@.len());
    }
    assert("right"@ != "arrowdown"@) by {
        assert("right"@.len() != "arrowdown"@.len());
    }
    assert("left"@ != "enter"@) by {
        assert("left"@.len() != "enter"@.len());
    }
    assert("left"@ != "backspace"@) by {
        assert("left"@.len() != "backspace"@.len());
    }
    assert("left"@ != "tab"@) by {
        assert("left"@.len() != "tab"@.len());
    }
    assert("left"@ != "escape"@) by {
        assert("left"@.len() != "escape"@.len());
    }
    assert("left"@ != "esc"@) by {
        assert("left"@.len() != "esc"@.len());
    }
    assert("left"@ != "space"@) by {
        assert("left"@.len() != "space"@.len());
    }
    assert("left"@ != "up"@) by {
        assert("left"@.len() != "up"@.len());
    }
    assert("left"@ != "arrowup"@) by {
        assert("left"@.len() != "arrowup"@.len());
    }
    assert("left"@ != "down"@) by {
        assert("left"@[0] != "down"@[0]);
    }
    assert("left"@ != "arrowdown"@) by {
        assert("left"@.len() != "arrowdown"@.len());
    }
    assert("left"@ != "right"@) by {
        assert("left"@.len() != "right"@.len());
    }
    assert("left"@ != "arrowright"@) by {
        assert("left"@.len() != "arrowright"@.len());
    }
    assert(seq![0x1bu8] + seq![0x0du8] =~= seq![0x1bu8, 0x0d]);
    assert(seq![0x1bu8] + seq![0x09u8] =~= seq![0x1bu8, 0x09]);
    assert(seq![0x1bu8] + seq![0x20u8] =~= seq![0x1bu8, 0x20]);
    assert(seq![0x1bu8] + seq![0x7fu8] =~= seq![0x1bu8, 0x7f]);
    assert(seq![0x1bu8] + seq![0x1bu8] =~= seq![0x1bu8, 0x1b]);
    assert(seq![0x1bu8] + seq![0x1bu8, 0x5b, 0x41] =~= seq![0x1bu8, 0x1b, 0x5b, 0x41]);
    assert(seq![0x1bu8] + seq![0x1bu8, 0x5b, 0x42] =~= seq![0x1bu8, 0x1b, 0x5b, 0x42]);
    assert(seq![0x1bu8] + seq![0x1bu8, 0x5b, 0x43] =~= seq![0x1bu8, 0x1b, 0x5b, 0x43]);
    assert(seq![0x1bu8] + seq![0x1bu8, 0x5b, 0x44] =~= seq![0x1bu8, 0x1b, 0x5b, 0x44]);
    assert(Seq::<u8>::empty() + seq![0x0du8] =~= seq![0x0du8]);
    assert(Seq::<u8>::empty() + seq![0x09u8] =~= seq![0x09u8]);
    assert(Seq::<u8>::empty() + seq![0x20u8] =~= seq![0x20u8]);
    assert(Seq::<u8>::empty() + seq![0x7fu8] =~= seq![0x7fu8]);
    assert(Seq::<u8>::empty() + seq![0x1bu8] =~= seq![0x1bu8]);
    assert(Seq::<u8>::empty() + seq![0x1bu8, 0x5b, 0x41] =~= seq![0x1bu8, 0x5b, 0x41]);
    assert(Seq::<u8>::empty() + seq![0x1bu8, 0x5b, 0x42] =~= seq![0x1bu8, 0x5b, 0x42]);
    assert(Seq::<u8>::empty() + seq![0x1bu8, 0x5b, 0x43] =~= seq![0x1bu8, 0x5b, 0x43]);
    assert(Seq::<u8>::empty() + seq![0x1bu8, 0x5b, 0x44] =~= seq![0x1bu8, 0x5b, 0x44]);
}

} // verus!
