//! Identifiers of hosts, connections, tabs and tmux sessions.
//!
//! Host, connection and tab ids are random UUIDs, held as their 128-bit value.
use vstd::prelude::*;

verus! {

/// A fresh random UUID (version 4), as its 128-bit value.
///
/// Calls `uuid::Uuid::new_v4` and `Uuid::as_u128`. The value is random, so
/// nothing is promised of it.
#[verifier::external_body]
pub(crate) fn random_uuid_value() -> u128 {
    uuid::Uuid::new_v4().as_u128()
}

/// The hexadecimal digit for `d` < 16, in lower case.
pub open spec fn hex_digit(d: nat) -> char {
    if d < 10 {
        (('0' as nat) + d) as char
    } else {
        (('a' as nat) + d - 10) as char
    }
}

/// The 32 hexadecimal digits of `v`, most significant first.
pub open spec fn hex32(v: u128) -> Seq<char> {
    Seq::new(32, |i: int| hex_digit(((v as nat) / vstd::arithmetic::power::pow(16, (31 - i) as nat) as nat) % 16))
}

/// The hyphenated form of a UUID: `xxxxxxxx-xxxx-xxxx-xxxx-xxxxxxxxxxxx`,
/// in lower-case hexadecimal.
pub open spec fn uuid_text_spec(v: u128) -> Seq<char> {
    let h = hex32(v);
    h.subrange(0, 8) + "-"@ + h.subrange(8, 12) + "-"@ + h.subrange(12, 16) + "-"@ + h.subrange(16, 20)
        + "-"@ + h.subrange(20, 32)
}

/// What `uuid::Uuid::parse_str` makes of a text, by the UUID's value: it
/// accepts the simple, hyphenated, braced and URN forms.
pub uninterp spec fn spec_uuid_parse(s: Seq<char>) -> Option<u128>;

/// The hyphenated text of the UUID with value `v` (`Uuid::from_u128` and
/// its `Display`, which writes lower-case hexadecimal with hyphens). What it
/// writes parses back to `v`: `parse_str` accepts every form this crate writes.
#[verifier::external_body]
pub(crate) fn uuid_text(v: u128) -> (r: String)
    ensures
        r@ == uuid_text_spec(v),
        spec_uuid_parse(r@) == Some(v),
{
    uuid::Uuid::from_u128(v).to_string()
}

/// Parses a UUID (`uuid::Uuid::parse_str`) and gives its value; `None` when
/// the text is no UUID.
#[verifier::external_body]
pub(crate) fn parse_uuid(s: &str) -> (r: Option<u128>)
    ensures
        r == spec_uuid_parse(s@),
{
    match uuid::Uuid::parse_str(s) {
        Ok(u) => Some(u.as_u128()),
        Err(_) => None,
    }
}

/// Identifier of a saved host configuration.
#[derive(Clone, Copy, PartialEq, Eq, Structural, Debug, Hash)]
pub struct HostId(pub u128);

/// Identifier of one live connection; a host may have several.
#[derive(Clone, Copy, PartialEq, Eq, Structural, Debug, Hash)]
pub struct ConnectionId(pub u128);

/// Identifier of a tab of the tab bar.
#[derive(Clone, Copy, PartialEq, Eq, Structural, Debug, Hash)]
pub struct TabId(pub u128);

impl HostId {
    /// A new random id.
    pub fn new() -> (r: Self) {
        HostId(random_uuid_value())
    }
}

impl ConnectionId {
    /// A new random id.
    pub fn new() -> (r: Self) {
        ConnectionId(random_uuid_value())
    }
}

impl TabId {
    /// A new random id.
    pub fn new() -> (r: Self) {
        TabId(random_uuid_value())
    }
}

/// Identifier of a remote tmux session, such as `$0`.
#[derive(Debug, PartialEq, Eq)]
pub struct SessionId(pub String);

impl View for SessionId {
    type V = Seq<char>;

    open spec fn view(&self) -> Seq<char> {
        self.0@
    }
}

impl SessionId {
    /// A session id with the text `s`.
    pub fn new(s: &str) -> (r: Self)
        ensures
            r@ == s@,
    {
        SessionId(s.to_owned())
    }

    /// The text of the id.
    pub fn as_str(&self) -> (r: &str)
        ensures
            r@ == self@,
    {
        self.0.as_str()
    }

    /// A copy of the id.
    pub fn duplicate(&self) -> (r: Self)
        ensures
            r@ == self@,
    {
        SessionId(self.0.clone())
    }

    /// Whether two ids have the same text.
    pub fn same_as(&self, other: &SessionId) -> (b: bool)
        ensures
            b == (self@ == other@),
    {
        self.0 == other.0
    }
}

} // verus!
