//! Names of the OS keyring entries that hold passwords and key passphrases,
//! and the errors of the keyring.
//!
//! Every entry is under the service "aish"; the user name is the host's id,
//! with "-passphrase" for the passphrase of an encrypted key.
use vstd::prelude::*;
use crate::ids::{self, uuid_text, HostId};

verus! {

/// The keyring service of every entry.
pub const SERVICE: &'static str = "aish";

/// A failure of the keyring.
#[derive(Debug)]
pub enum SecretError {
    /// The keyring failed; its message.
    Keyring(String),
    /// There is no such entry.
    NoEntry,
}

/// The message of a keyring failure.
pub open spec fn secret_error_text(e: SecretError) -> Seq<char> {
    match e {
        SecretError::Keyring(m) => "keyring 操作失败: "@ + m@,
        SecretError::NoEntry => "条目不存在"@,
    }
}

impl SecretError {
    /// The message shown for the error.
    pub fn message(&self) -> (r: String)
        ensures
            r@ == secret_error_text(*self),
    {
        match self {
            SecretError::Keyring(m) => {
                let mut r = "keyring 操作失败: ".to_owned();
                r.append(m.as_str());
                r
            },
            SecretError::NoEntry => "条目不存在".to_owned(),
        }
    }
}

/// The keyring user name of the password of `host`: its id.
pub fn password_username(host: HostId) -> (r: String)
    ensures
        r@ == ids::uuid_text_spec(host.0),
{
    uuid_text(host.0)
}

/// The keyring user name of the key passphrase of `host`: its id followed by
/// "-passphrase", so that it never meets the password's entry.
pub fn passphrase_username(host: HostId) -> (r: String)
    ensures
        r@ == ids::uuid_text_spec(host.0) + "-passphrase"@,
{
    let mut r = uuid_text(host.0);
    r.append("-passphrase");
    r
}

/// The password and the passphrase of a host live under different names.
pub proof fn law_password_and_passphrase_names_differ(host: HostId)
    ensures
        ids::uuid_text_spec(host.0) != ids::uuid_text_spec(host.0) + "-passphrase"@,
{
    reveal_strlit("-passphrase");
    assert((ids::uuid_text_spec(host.0) + "-passphrase"@).len() > ids::uuid_text_spec(host.0).len());
}

} // verus!
