//! The add / edit host form: live checks of the host and port fields, the
//! one-line `user@host:port` shortcut, and turning a draft into a saved host.
use vstd::prelude::*;
use crate::ids::{random_uuid_value, HostId};
use crate::model::{HostConfig, SshAuth};
use crate::text::{
    self, chars_eq, chars_of, contains_lit, dec_string, find_char, has_white_space_chars,
    parse_unsigned_range, rfind_char, slice_chars, string_of, trim_bounds,
};

verus! {

/// Live check of the host field: empty is fine (required only on save);
/// white space or a `://` scheme prefix is an error.
pub open spec fn validate_host_spec(s: Seq<char>) -> Option<Seq<char>> {
    let t = text::trim_seq(s);
    if t.len() == 0 {
        None
    } else if text::has_white_space(t) {
        Some("不能含空格"@)
    } else if text::contains_seq(t, "://"@) {
        Some("不要带协议前缀（如 ssh://）"@)
    } else {
        None
    }
}

/// A copy of `v` without white space at either end.
fn trimmed_chars(v: &Vec<char>) -> (r: Vec<char>)
    ensures
        r@ == text::trim_seq(v@),
{
    let (lo, hi) = trim_bounds(v);
    slice_chars(v, lo, hi)
}

/// Checks the host field as the user types.
pub fn validate_host(s: &str) -> (r: Option<&'static str>)
    ensures
        r matches Some(m) ==> validate_host_spec(s@) == Some(m@),
        r is None ==> validate_host_spec(s@) is None,
{
    let t = trimmed_chars(&chars_of(s));
    if t.len() == 0 {
        return None;
    }
    if has_white_space_chars(&t) {
        return Some("不能含空格");
    }
    if contains_lit(&t, "://") {
        return Some("不要带协议前缀（如 ssh://）");
    }
    None
}

/// Whether `p` is a port number 1-65535 (as `str::parse::<u32>` reads it).
pub open spec fn port_ok(p: Seq<char>) -> bool {
    text::parse_unsigned(p, 0xffff_ffff) matches Some(n) && 1 <= n <= 65535
}

/// Live check of the port field: empty is fine (22 is used); not a number or
/// out of 1-65535 is an error.
pub open spec fn validate_port_spec(s: Seq<char>) -> Option<Seq<char>> {
    let t = text::trim_seq(s);
    if t.len() == 0 {
        None
    } else {
        match text::parse_unsigned(t, 0xffff_ffff) {
            None => Some("必须是数字"@),
            Some(n) => if !(1 <= n <= 65535) {
                Some("范围 1 - 65535"@)
            } else {
                None
            },
        }
    }
}

/// Checks the port field as the user types.
pub fn validate_port(s: &str) -> (r: Option<&'static str>)
    ensures
        r matches Some(m) ==> validate_port_spec(s@) == Some(m@),
        r is None ==> validate_port_spec(s@) is None,
{
    let t = trimmed_chars(&chars_of(s));
    if t.len() == 0 {
        return None;
    }
    assert(t@.subrange(0, t@.len() as int) == t@);
    match parse_unsigned_range(&t, 0, t.len(), 0xffff_ffff) {
        None => Some("必须是数字"),
        Some(n) => if !(1 <= n && n <= 65535) {
            Some("范围 1 - 65535")
        } else {
            None
        },
    }
}

/// The host and port of the part after `@`: a bracketed IPv6 host `[...]`
/// with an optional `:port`, or else split at the last `:`; the port is `22`
/// when absent and must be 1-65535 when present.
pub open spec fn host_port_spec(rest: Seq<char>) -> Option<(Seq<char>, Seq<char>)> {
    if rest.len() > 0 && rest[0] == '[' {
        let stripped = rest.drop_first();
        match text::first_index_of(stripped, ']') {
            None => None,
            Some(end) => {
                let host = "["@ + stripped.subrange(0, end) + "]"@;
                let after = stripped.subrange(end + 1, stripped.len() as int);
                if after.len() == 0 {
                    Some((host, "22"@))
                } else if after[0] != ':' {
                    None
                } else if port_ok(after.drop_first()) {
                    Some((host, after.drop_first()))
                } else {
                    None
                }
            },
        }
    } else {
        match text::last_index_of(rest, ':') {
            Some(idx) => {
                let p = rest.subrange(idx + 1, rest.len() as int);
                if port_ok(p) {
                    Some((rest.subrange(0, idx), p))
                } else {
                    None
                }
            },
            None => Some((rest, "22"@)),
        }
    }
}

/// The one-line connection string `user@host:port` read as
/// `(user, host, port)`: user empty when there is no `@`, port `22` when
/// absent. `None` for an empty string, white space, a second `@`, a bad port,
/// or an empty host.
pub open spec fn parse_connection_spec(s: Seq<char>) -> Option<(Seq<char>, Seq<char>, Seq<char>)> {
    let t = text::trim_seq(s);
    if t.len() == 0 || text::has_white_space(t) {
        None
    } else {
        let (user, rest) = match text::first_index_of(t, '@') {
            Some(idx) => (t.subrange(0, idx), t.subrange(idx + 1, t.len() as int)),
            None => (Seq::<char>::empty(), t),
        };
        if text::first_index_of(rest, '@') is Some {
            None
        } else {
            match host_port_spec(rest) {
                None => None,
                Some((host, port)) => if host.len() == 0 || host == "[]"@ {
                    None
                } else {
                    Some((user, host, port))
                },
            }
        }
    }
}

fn port_ok_exec(v: &Vec<char>, lo: usize, hi: usize) -> (b: bool)
    requires
        lo <= hi <= v.len(),
    ensures
        b == port_ok(v@.subrange(lo as int, hi as int)),
{
    match parse_unsigned_range(v, lo, hi, 0xffff_ffff) {
        Some(n) => 1 <= n && n <= 65535,
        None => false,
    }
}

fn host_port_exec(rest: &Vec<char>) -> (r: Option<(Vec<char>, Vec<char>)>)
    ensures
        r matches Some(p) ==> host_port_spec(rest@) == Some((p.0@, p.1@)),
        r is None ==> host_port_spec(rest@) is None,
{
    if rest.len() > 0 && rest[0] == '[' {
        let stripped = slice_chars(rest, 1, rest.len());
        assert(stripped@ == rest@.drop_first());
        let end = match find_char(&stripped, ']') {
            Some(e) => e,
            None => return None,
        };
        let inner = slice_chars(&stripped, 0, end);
        let mut host: Vec<char> = Vec::new();
        host.push('[');
        let mut i: usize = 0;
        while i < inner.len()
            invariant
                i <= inner.len(),
                host@ == seq!['['] + inner@.subrange(0, i as int),
            decreases inner.len() - i,
        {
            host.push(inner[i]);
            assert(inner@.subrange(0, i + 1) == inner@.subrange(0, i as int).push(inner@[i as int]));
            i += 1;
        }
        host.push(']');
        proof {
            reveal_strlit("[");
            reveal_strlit("]");
            assert(inner@.subrange(0, inner@.len() as int) == inner@);
            assert(host@ =~= "["@ + stripped@.subrange(0, end as int) + "]"@);
        }
        let after = slice_chars(&stripped, end + 1, stripped.len());
        if after.len() == 0 {
            let mut p: Vec<char> = Vec::new();
            p.push('2');
            p.push('2');
            proof {
                reveal_strlit("22");
                assert(p@ =~= "22"@);
            }
            return Some((host, p));
        }
        if after[0] != ':' {
            return None;
        }
        if port_ok_exec(&after, 1, after.len()) {
            let p = slice_chars(&after, 1, after.len());
            assert(p@ == after@.drop_first());
            Some((host, p))
        } else {
            assert(after@.subrange(1, after@.len() as int) == after@.drop_first());
            None
        }
    } else {
        match rfind_char(rest, ':') {
            Some(idx) => {
                if port_ok_exec(rest, idx + 1, rest.len()) {
                    Some((slice_chars(rest, 0, idx), slice_chars(rest, idx + 1, rest.len())))
                } else {
                    None
                }
            },
            None => {
                let mut p: Vec<char> = Vec::new();
                p.push('2');
                p.push('2');
                proof {
                    reveal_strlit("22");
                    assert(p@ =~= "22"@);
                }
                Some((slice_chars(rest, 0, rest.len()), p))
            },
        }
    }
}

/// Reads a one-line `user@host:port` connection string into
/// `(user, host, port)`, or `None` when it cannot be read.
pub fn parse_connection_string(s: &str) -> (r: Option<(String, String, String)>)
    ensures
        r matches Some(p) ==> parse_connection_spec(s@) == Some((p.0@, p.1@, p.2@)),
        r is None ==> parse_connection_spec(s@) is None,
{
    let t = trimmed_chars(&chars_of(s));
    if t.len() == 0 || has_white_space_chars(&t) {
        return None;
    }
    let (user, rest) = match find_char(&t, '@') {
        Some(idx) => (slice_chars(&t, 0, idx), slice_chars(&t, idx + 1, t.len())),
        None => (Vec::new(), slice_chars(&t, 0, t.len())),
    };
    assert(t@.subrange(0, t@.len() as int) == t@);
    if find_char(&rest, '@').is_some() {
        return None;
    }
    let (host, port) = match host_port_exec(&rest) {
        Some(p) => p,
        None => return None,
    };
    if host.len() == 0 || chars_eq(&host, "[]") {
        return None;
    }
    Some((string_of(&user), string_of(&host), string_of(&port)))
}


/// The authentication chosen with the form's radio buttons.
#[derive(Debug, Clone, Copy, PartialEq, Eq, Structural)]
pub enum AuthKind {
    KeyFile,
    Password,
}

impl Default for AuthKind {
    fn default() -> (r: Self)
        ensures
            r == AuthKind::KeyFile,
    {
        AuthKind::KeyFile
    }
}

/// The form as the user fills it in. The port stays text until saving so that
/// a half-typed value can stand; `password` is the passphrase for a key file.
#[derive(Debug, Clone)]
pub struct HostFormDraft {
    pub label: String,
    pub host: String,
    pub port: String,
    pub user: String,
    pub auth_kind: AuthKind,
    pub key_path: String,
    pub password: String,
    /// Message shown under the form when saving failed.
    pub error: Option<String>,
}

impl Default for HostFormDraft {
    fn default() -> (r: Self)
        ensures
            r.label@.len() == 0,
            r.host@.len() == 0,
            r.port@.len() == 0,
            r.user@.len() == 0,
            r.auth_kind == AuthKind::KeyFile,
            r.key_path@.len() == 0,
            r.password@.len() == 0,
            r.error is None,
    {
        HostFormDraft {
            label: String::new(),
            host: String::new(),
            port: String::new(),
            user: String::new(),
            auth_kind: AuthKind::KeyFile,
            key_path: String::new(),
            password: String::new(),
            error: None,
        }
    }
}

/// Whether the path names an existing file or directory
/// (`std::path::Path::exists`). It depends on the disk, so nothing is stated.
#[verifier::external_body]
pub(crate) fn path_exists(p: &str) -> bool {
    std::path::Path::new(p).exists()
}

/// The message that stops saving a draft, if any: label, host, port (a
/// `u16`), user and the key path must be filled in, the key file must exist,
/// and a new host with a password must have one (an edit keeps the stored
/// password when the field is left empty).
pub open spec fn draft_error_spec(d: HostFormDraft, editing: bool, key_exists: bool) -> Option<Seq<char>> {
    if text::trim_seq(d.label@).len() == 0 {
        Some("label 不能为空"@)
    } else if text::trim_seq(d.host@).len() == 0 {
        Some("host 不能为空"@)
    } else if text::parse_unsigned(text::trim_seq(d.port@), 65535) is None {
        Some("port 必须是 1-65535 的数字"@)
    } else if text::trim_seq(d.user@).len() == 0 {
        Some("user 不能为空"@)
    } else {
        match d.auth_kind {
            AuthKind::KeyFile => if text::trim_seq(d.key_path@).len() == 0 {
                Some("key path 不能为空"@)
            } else if !key_exists {
                Some("key 文件不存在: "@ + text::trim_seq(d.key_path@))
            } else {
                None
            },
            AuthKind::Password => if !editing && d.password@.len() == 0 {
                Some("password 不能为空"@)
            } else {
                None
            },
        }
    }
}

/// Whether `c` is the host a draft that passed the checks gives: trimmed
/// fields, the parsed port, the chosen authentication (the password field
/// carried over as password or key passphrase), no OS id yet.
pub open spec fn draft_config_spec(d: HostFormDraft, id: HostId, c: HostConfig) -> bool {
    &&& c.id == id
    &&& c.label@ == text::trim_seq(d.label@)
    &&& c.host@ == text::trim_seq(d.host@)
    &&& Some(c.port as nat) == text::parse_unsigned(text::trim_seq(d.port@), 65535)
    &&& c.user@ == text::trim_seq(d.user@)
    &&& c.os_kind is None
    &&& match d.auth_kind {
        AuthKind::KeyFile => c.auth matches SshAuth::KeyFile { path, passphrase } && path@
            == text::trim_seq(d.key_path@) && passphrase@ == d.password@,
        AuthKind::Password => c.auth matches SshAuth::Password { password } && password@
            == d.password@,
    }
}

/// What saving a draft gives, given the id to keep (`id`), the id a new host
/// would get (`fresh`) and whether the key file exists.
pub open spec fn draft_result_spec(
    d: HostFormDraft,
    id: Option<HostId>,
    fresh: HostId,
    key_exists: bool,
    r: Result<HostConfig, String>,
) -> bool {
    match draft_error_spec(d, id is Some, key_exists) {
        Some(msg) => r matches Err(e) && e@ == msg,
        None => r matches Ok(c) && draft_config_spec(
            d,
            match id {
                Some(i) => i,
                None => fresh,
            },
            c,
        ),
    }
}

/// Whether `d` is the form filled from the saved host `cfg` for editing:
/// the fields as saved, the port in decimal, the password field empty, and
/// an agent host shown as a key-file host without a path.
pub open spec fn draft_of(cfg: HostConfig, d: HostFormDraft) -> bool {
    &&& d.label@ == cfg.label@
    &&& d.host@ == cfg.host@
    &&& d.port@ == text::dec_seq(cfg.port as nat)
    &&& d.user@ == cfg.user@
    &&& d.password@.len() == 0
    &&& d.error is None
    &&& match cfg.auth {
        SshAuth::KeyFile { path, .. } => d.auth_kind == AuthKind::KeyFile && d.key_path@ == path@,
        SshAuth::Password { .. } => d.auth_kind == AuthKind::Password && d.key_path@.len() == 0,
        SshAuth::Agent => d.auth_kind == AuthKind::KeyFile && d.key_path@.len() == 0,
    }
}

/// Copies a string.
fn copy_string(s: &String) -> (r: String)
    ensures
        r@ == s@,
{
    s.clone()
}

impl HostFormDraft {
    /// A draft filled from a saved host, for editing. The password field
    /// stays empty (leaving it empty keeps the stored password); an agent
    /// host shows as a key-file host without a path.
    pub fn from_config(cfg: &HostConfig) -> (d: Self)
        ensures
            draft_of(*cfg, d),
    {
        let (auth_kind, key_path) = match &cfg.auth {
            SshAuth::KeyFile { path, .. } => (AuthKind::KeyFile, copy_string(path)),
            SshAuth::Password { .. } => (AuthKind::Password, String::new()),
            SshAuth::Agent => (AuthKind::KeyFile, String::new()),
        };
        HostFormDraft {
            label: copy_string(&cfg.label),
            host: copy_string(&cfg.host),
            port: dec_string(cfg.port as u64),
            user: copy_string(&cfg.user),
            auth_kind,
            key_path,
            password: String::new(),
            error: None,
        }
    }

    /// Checks the draft and builds the host, given whether the key file
    /// exists and the id a new host gets; `id` is the host being edited.
    pub fn into_config_checked(&self, id: Option<HostId>, fresh: HostId, key_exists: bool) -> (r:
        Result<HostConfig, String>)
        ensures
            draft_result_spec(*self, id, fresh, key_exists, r),
    {
        let label = trimmed_chars(&chars_of(self.label.as_str()));
        if label.len() == 0 {
            return Err("label 不能为空".to_owned());
        }
        let host = trimmed_chars(&chars_of(self.host.as_str()));
        if host.len() == 0 {
            return Err("host 不能为空".to_owned());
        }
        let port_chars = trimmed_chars(&chars_of(self.port.as_str()));
        assert(port_chars@.subrange(0, port_chars@.len() as int) == port_chars@);
        let port: u16 = match parse_unsigned_range(&port_chars, 0, port_chars.len(), 65535) {
            Some(p) => p as u16,
            None => return Err("port 必须是 1-65535 的数字".to_owned()),
        };
        let user = trimmed_chars(&chars_of(self.user.as_str()));
        if user.len() == 0 {
            return Err("user 不能为空".to_owned());
        }
        let auth = match self.auth_kind {
            AuthKind::KeyFile => {
                let key = trimmed_chars(&chars_of(self.key_path.as_str()));
                if key.len() == 0 {
                    return Err("key path 不能为空".to_owned());
                }
                let key_str = string_of(&key);
                if !key_exists {
                    let mut msg = "key 文件不存在: ".to_owned();
                    msg.append(key_str.as_str());
                    return Err(msg);
                }
                SshAuth::KeyFile { path: key_str, passphrase: copy_string(&self.password) }
            },
            AuthKind::Password => {
                if id.is_none() && self.password.as_str().is_empty() {
                    return Err("password 不能为空".to_owned());
                }
                SshAuth::Password { password: copy_string(&self.password) }
            },
        };
        let the_id = match id {
            Some(i) => i,
            None => fresh,
        };
        Ok(
            HostConfig {
                id: the_id,
                label: string_of(&label),
                host: string_of(&host),
                port,
                user: string_of(&user),
                auth,
                os_kind: None,
            },
        )
    }

    /// Checks the draft and builds the host to save; `id` is the host being
    /// edited, a new host gets a fresh random id. For a key file the disk is
    /// asked whether the file exists.
    pub fn into_config(&self, id: Option<HostId>) -> (r: Result<HostConfig, String>)
        ensures
            exists|fresh: HostId, key_exists: bool|
                draft_result_spec(*self, id, fresh, key_exists, r),
            self.auth_kind == AuthKind::Password ==> exists|fresh: HostId|
                draft_result_spec(*self, id, fresh, false, r),
    {
        let fresh = match id {
            Some(i) => i,
            None => HostId(random_uuid_value()),
        };
        let key_exists = match self.auth_kind {
            AuthKind::KeyFile => self.key_file_exists(),
            AuthKind::Password => false,
        };
        self.into_config_checked(id, fresh, key_exists)
    }

    /// Whether the trimmed key path names an existing file; an empty path
    /// does not. It depends on the disk.
    pub(crate) fn key_file_exists(&self) -> (b: bool)
        ensures
            text::trim_seq(self.key_path@).len() == 0 ==> !b,
    {
        let key = trimmed_chars(&chars_of(self.key_path.as_str()));
        if key.len() == 0 {
            false
        } else {
            let key_str = string_of(&key);
            path_exists(key_str.as_str())
        }
    }
}

/// A connection string built from its parts reads back as those parts, when
/// the user has no `@` or white space, the host is non-empty with none of
/// `@`, `:`, `[` or white space, and the port is a valid port number.
pub proof fn law_connection_string_roundtrip(user: Seq<char>, host: Seq<char>, port: Seq<char>)
    requires
        user.len() > 0,
        host.len() > 0,
        forall|i: int|
            0 <= i < user.len() ==> user[i] != '@' && !text::is_white_space(#[trigger] user[i]),
        forall|i: int|
            0 <= i < host.len() ==> host[i] != '@' && host[i] != ':' && host[i] != '['
                && !text::is_white_space(#[trigger] host[i]),
        forall|i: int| 0 <= i < port.len() ==> text::is_digit(#[trigger] port[i]),
        port_ok(port),
    ensures
        parse_connection_spec(user + "@"@ + host + ":"@ + port) == Some((user, host, port)),
{
    reveal_strlit("@");
    reveal_strlit(":");
    reveal_strlit("[]");
    let ghost s = user + "@"@ + host + ":"@ + port;
    let ghost rest = host + ":"@ + port;
    let ul = user.len() as int;
    let hl = host.len() as int;
    assert(port.len() > 0);
    assert(s =~= user + seq!['@'] + rest);
    assert(rest =~= host + seq![':'] + port);
    assert forall|i: int| 0 <= i < s.len() implies !text::is_white_space(#[trigger] s[i]) by {
        if i < ul {
            assert(s[i] == user[i]);
        } else if i == ul {
        } else if i < ul + 1 + hl {
            assert(s[i] == host[i - ul - 1]);
        } else if i == ul + 1 + hl {
        } else {
            assert(s[i] == port[i - ul - 2 - hl]);
        }
    }
    assert(text::trim_start_seq(s) == s);
    assert(text::trim_end_seq(s) == s);
    assert(!text::has_white_space(s));
    assert forall|j: int| 0 <= j < ul implies s[j] != '@' by {
        assert(s[j] == user[j]);
    }
    text::lemma_first_index_of_char(s, '@', ul);
    assert(s.subrange(0, ul) =~= user);
    assert(s.subrange(ul + 1, s.len() as int) =~= rest);
    assert forall|j: int| 0 <= j < rest.len() implies rest[j] != '@' by {
        if j < hl {
            assert(rest[j] == host[j]);
        } else if j > hl {
            assert(rest[j] == port[j - hl - 1]);
        }
    }
    text::lemma_first_index_of_char(rest, '@', rest.len() as int);
    assert(rest[0] == host[0]);
    assert forall|j: int| hl < j < rest.len() implies rest[j] != ':' by {
        assert(rest[j] == port[j - hl - 1]);
    }
    text::lemma_last_index_of_char(rest, ':', hl);
    assert(rest.subrange(hl + 1, rest.len() as int) =~= port);
    assert(rest.subrange(0, hl) =~= host);
    assert(host != "[]"@) by {
        assert(host[0] != '[');
        assert("[]"@[0] == '[');
    }
}

} // verus!

verus! {

/// Whether `s` is non-empty with no white space at either end.
pub open spec fn clean_field(s: Seq<char>) -> bool {
    s.len() > 0 && !text::is_white_space(s[0]) && !text::is_white_space(s.last())
}

/// Trimming a clean field changes nothing.
proof fn lemma_trim_clean(s: Seq<char>)
    requires
        clean_field(s),
    ensures
        text::trim_seq(s) == s,
{
    let p = text::white_space_pred();
    text::lemma_trim_start_index(s, p, 0);
    assert(s.subrange(0, s.len() as int) == s);
    text::lemma_trim_end_index(s, p, s.len() as int);
}

/// The decimal form of `n` is a non-empty run of digits that denotes `n`.
proof fn lemma_dec_seq_digits(n: nat)
    ensures
        text::dec_seq(n).len() > 0,
        text::all_digits(text::dec_seq(n)),
        text::digits_value(text::dec_seq(n)) == n,
    decreases n,
{
    let d = text::dec_seq(n);
    let k: nat = n % 10;
    assert(text::digit_char(k) as u32 == 48 + k);
    assert(('0' as u32) == 48);
    if n < 10 {
        assert(d[0] == text::digit_char(n));
        assert(d.drop_last() =~= Seq::<char>::empty());
        assert(text::digits_value(d.drop_last()) == 0);
        assert(d.last() == text::digit_char(k));
    } else {
        lemma_dec_seq_digits(n / 10);
        let pre = text::dec_seq(n / 10);
        assert(d.drop_last() =~= pre);
        assert forall|i: int| 0 <= i < d.len() implies text::is_digit(#[trigger] d[i]) by {
            if i < pre.len() {
                assert(d[i] == pre[i]);
            }
        }
        assert(d.last() == text::digit_char(k));
        assert((n / 10) * 10 + n % 10 == n);
    }
}

/// The decimal form of a port reads back as that port.
proof fn lemma_port_text_roundtrip(port: u16)
    ensures
        text::parse_unsigned(text::trim_seq(text::dec_seq(port as nat)), 65535) == Some(port as nat),
{
    let d = text::dec_seq(port as nat);
    lemma_dec_seq_digits(port as nat);
    assert(text::is_digit(d[0]) && text::is_digit(d.last()));
    lemma_trim_clean(d);
    assert(d[0] != '+');
    assert(text::unsigned_body(d) == d);
}

/// Editing a saved host and saving the form without changing it gives the
/// same host back under its own id, when its label, host, user and key path
/// have no white space at either end and its key file exists (an agent host
/// cannot be saved this way: the form shows it without a key path). The
/// passwords come back empty, which an edit reads as "keep the stored one".
pub proof fn law_edit_unchanged_keeps_host(
    c: HostConfig,
    d: HostFormDraft,
    fresh: HostId,
    key_exists: bool,
    r: Result<HostConfig, String>,
)
    requires
        draft_of(c, d),
        clean_field(c.label@),
        clean_field(c.host@),
        clean_field(c.user@),
        match c.auth {
            SshAuth::KeyFile { path, .. } => clean_field(path@) && key_exists,
            SshAuth::Password { .. } => true,
            SshAuth::Agent => false,
        },
        draft_result_spec(d, Some(c.id), fresh, key_exists, r),
    ensures
        r matches Ok(c2) && {
            &&& c2.id == c.id
            &&& c2.label@ == c.label@
            &&& c2.host@ == c.host@
            &&& c2.port == c.port
            &&& c2.user@ == c.user@
            &&& match c.auth {
                SshAuth::KeyFile { path, .. } => c2.auth matches SshAuth::KeyFile {
                    path: p2,
                    passphrase,
                } && p2@ == path@ && passphrase@.len() == 0,
                SshAuth::Password { .. } => c2.auth matches SshAuth::Password { password }
                    && password@.len() == 0,
                SshAuth::Agent => false,
            }
        },
{
    lemma_trim_clean(c.label@);
    lemma_trim_clean(c.host@);
    lemma_trim_clean(c.user@);
    lemma_port_text_roundtrip(c.port);
    match c.auth {
        SshAuth::KeyFile { path, .. } => {
            lemma_trim_clean(path@);
        },
        _ => {},
    }
}

} // verus!
