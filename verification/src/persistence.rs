//! What saving and loading the host list decides: which passwords go to the
//! keyring, and the messages of the errors. The files themselves are read
//! and written by the application.
use vstd::prelude::*;
use crate::events::UiAction;
use crate::ids::{self, parse_uuid, uuid_text, HostId};
use crate::model::{HostConfig, SshAuth};
use crate::secrets::{self, SecretError};
use crate::state::AppState;
use crate::text::chars_of;

verus! {

/// The passwords to put in the keyring before the hosts are written (the
/// file never holds them): each password host with a non-empty password, in
/// order. An empty password is an edit that keeps the stored one.
pub open spec fn passwords_to_store_spec(hosts: Seq<HostConfig>) -> Seq<(HostId, Seq<char>)>
    decreases hosts.len(),
{
    if hosts.len() == 0 {
        Seq::empty()
    } else {
        let rest = passwords_to_store_spec(hosts.drop_last());
        match hosts.last().auth {
            SshAuth::Password { password } => if password@.len() > 0 {
                rest.push((hosts.last().id, password@))
            } else {
                rest
            },
            _ => rest,
        }
    }
}

/// The passwords to put in the keyring before the hosts are written.
pub fn passwords_to_store(hosts: &Vec<HostConfig>) -> (r: Vec<(HostId, String)>)
    ensures
        r@.len() == passwords_to_store_spec(hosts@).len(),
        forall|i: int|
            0 <= i < r@.len() ==> (#[trigger] r@[i]).0 == passwords_to_store_spec(hosts@)[i].0
                && r@[i].1@ == passwords_to_store_spec(hosts@)[i].1,
{
    let mut r: Vec<(HostId, String)> = Vec::new();
    let mut i: usize = 0;
    while i < hosts.len()
        invariant
            i <= hosts.len(),
            r@.len() == passwords_to_store_spec(hosts@.take(i as int)).len(),
            forall|j: int|
                0 <= j < r@.len() ==> (#[trigger] r@[j]).0 == passwords_to_store_spec(
                    hosts@.take(i as int),
                )[j].0 && r@[j].1@ == passwords_to_store_spec(hosts@.take(i as int))[j].1,
        decreases hosts.len() - i,
    {
        assert(hosts@.take(i + 1).drop_last() == hosts@.take(i as int));
        match &hosts[i].auth {
            SshAuth::Password { password } => {
                if chars_of(password.as_str()).len() > 0 {
                    r.push((hosts[i].id, password.clone()));
                }
            },
            _ => {},
        }
        i += 1;
    }
    assert(hosts@.take(i as int) == hosts@);
    r
}

/// How hosts.json records the authentication of a host: the kind, and the
/// key path; never a password or a passphrase.
#[derive(Debug)]
pub enum StoredAuth {
    KeyFile { path: String },
    Password,
    Agent,
}

/// How hosts.json records a host: its id as hyphenated UUID text and its
/// fields, without any secret.
#[derive(Debug)]
pub struct StoredHost {
    pub id: String,
    pub label: String,
    pub host: String,
    pub port: u16,
    pub user: String,
    pub auth: StoredAuth,
    pub os_kind: Option<String>,
}

/// Whether `r` records the host `h`: every field but the secrets, the id
/// as text that reads back as it.
pub open spec fn stores(h: HostConfig, r: StoredHost) -> bool {
    &&& r.id@ == ids::uuid_text_spec(h.id.0)
    &&& ids::spec_uuid_parse(r.id@) == Some(h.id.0)
    &&& r.label@ == h.label@
    &&& r.host@ == h.host@
    &&& r.port == h.port
    &&& r.user@ == h.user@
    &&& crate::events::opt_text(r.os_kind) == crate::events::opt_text(h.os_kind)
    &&& match h.auth {
        SshAuth::KeyFile { path, .. } => r.auth matches StoredAuth::KeyFile { path: p } && p@ == path@,
        SshAuth::Password { .. } => r.auth is Password,
        SshAuth::Agent => r.auth is Agent,
    }
}

/// Copies an optional string.
fn copy_opt(o: &Option<String>) -> (r: Option<String>)
    ensures
        crate::events::opt_text(r) == crate::events::opt_text(*o),
{
    match o {
        Some(s) => Some(s.clone()),
        None => None,
    }
}

/// The record of a host written to hosts.json; the password and the key
/// passphrase are left out (they live in the keyring).
pub fn stored_host(h: &HostConfig) -> (r: StoredHost)
    ensures
        stores(*h, r),
{
    let auth = match &h.auth {
        SshAuth::KeyFile { path, .. } => StoredAuth::KeyFile { path: path.clone() },
        SshAuth::Password { .. } => StoredAuth::Password,
        SshAuth::Agent => StoredAuth::Agent,
    };
    StoredHost {
        id: uuid_text(h.id.0),
        label: h.label.clone(),
        host: h.host.clone(),
        port: h.port,
        user: h.user.clone(),
        auth,
        os_kind: copy_opt(&h.os_kind),
    }
}

/// Whether `h` is the host read back from the record `r` with id `id`:
/// its fields, and empty secrets.
pub open spec fn loaded_from(r: StoredHost, id: u128, h: HostConfig) -> bool {
    &&& h.id == HostId(id)
    &&& h.label@ == r.label@
    &&& h.host@ == r.host@
    &&& h.port == r.port
    &&& h.user@ == r.user@
    &&& crate::events::opt_text(h.os_kind) == crate::events::opt_text(r.os_kind)
    &&& match r.auth {
        StoredAuth::KeyFile { path } => h.auth matches SshAuth::KeyFile { path: p, passphrase }
            && p@ == path@ && passphrase@.len() == 0,
        StoredAuth::Password => h.auth matches SshAuth::Password { password } && password@.len() == 0,
        StoredAuth::Agent => h.auth is Agent,
    }
}

/// The host a record of hosts.json stands for, with empty secrets; `None`
/// when its id is no UUID.
pub fn host_from_stored(r: StoredHost) -> (h: Option<HostConfig>)
    ensures
        h is None <==> ids::spec_uuid_parse(r.id@) is None,
        h matches Some(c) ==> loaded_from(r, ids::spec_uuid_parse(r.id@)->0, c),
{
    let id = match parse_uuid(r.id.as_str()) {
        Some(v) => v,
        None => return None,
    };
    let auth = match r.auth {
        StoredAuth::KeyFile { path } => SshAuth::KeyFile { path, passphrase: String::new() },
        StoredAuth::Password => SshAuth::Password { password: String::new() },
        StoredAuth::Agent => SshAuth::Agent,
    };
    Some(
        HostConfig {
            id: HostId(id),
            label: r.label,
            host: r.host,
            port: r.port,
            user: r.user,
            auth,
            os_kind: r.os_kind,
        },
    )
}

/// Writing a host to hosts.json and reading it back gives the same host
/// with its password and key passphrase empty: the file holds every field
/// but the secrets, which stay in the keyring.
pub proof fn law_stored_host_roundtrip(h: HostConfig, r: StoredHost, back: Option<HostConfig>)
    requires
        stores(h, r),
        back is None <==> ids::spec_uuid_parse(r.id@) is None,
        back matches Some(c) ==> loaded_from(r, ids::spec_uuid_parse(r.id@)->0, c),
    ensures
        back matches Some(c) && c.id == h.id && c.label@ == h.label@ && c.host@ == h.host@ && c.port
            == h.port && c.user@ == h.user@ && crate::events::opt_text(c.os_kind)
            == crate::events::opt_text(h.os_kind) && match h.auth {
            SshAuth::KeyFile { path, .. } => c.auth matches SshAuth::KeyFile { path: p, passphrase }
                && p@ == path@ && passphrase@.len() == 0,
            SshAuth::Password { .. } => c.auth matches SshAuth::Password { password }
                && password@.len() == 0,
            SshAuth::Agent => c.auth is Agent,
        },
{
}

/// Why the host list could not be read.
#[derive(Debug)]
pub enum LoadError {
    /// There is no configuration directory.
    NoConfigDir,
    /// Reading the file failed (its message).
    Io(String),
    /// The file is no valid host list (the parser's message).
    Parse(String),
}

/// Why the host list could not be written.
#[derive(Debug)]
pub enum SaveError {
    NoConfigDir,
    Io(String),
    Serialize(String),
    /// A password could not be put in the keyring.
    Secret(SecretError),
}

/// The message of a load error.
pub open spec fn load_error_text(e: LoadError) -> Seq<char> {
    match e {
        LoadError::NoConfigDir => "config directory not found (HOME / APPDATA unset?)"@,
        LoadError::Io(m) => "read hosts.json failed: "@ + m@,
        LoadError::Parse(m) => "parse hosts.json failed: "@ + m@,
    }
}

/// The message of a save error.
pub open spec fn save_error_text(e: SaveError) -> Seq<char> {
    match e {
        SaveError::NoConfigDir => "config directory not found"@,
        SaveError::Io(m) => "io error: "@ + m@,
        SaveError::Serialize(m) => "serialize failed: "@ + m@,
        SaveError::Secret(s) => "keyring 写入失败: "@ + secrets::secret_error_text(s),
    }
}

/// `a` followed by `b`.
fn joined(a: &str, b: &str) -> (r: String)
    ensures
        r@ == a@ + b@,
{
    let mut r = a.to_owned();
    r.append(b);
    r
}

impl LoadError {
    /// The message shown for the error.
    pub fn message(&self) -> (r: String)
        ensures
            r@ == load_error_text(*self),
    {
        match self {
            LoadError::NoConfigDir => "config directory not found (HOME / APPDATA unset?)".to_owned(),
            LoadError::Io(m) => joined("read hosts.json failed: ", m.as_str()),
            LoadError::Parse(m) => joined("parse hosts.json failed: ", m.as_str()),
        }
    }
}

impl SaveError {
    /// The message shown for the error.
    pub fn message(&self) -> (r: String)
        ensures
            r@ == save_error_text(*self),
    {
        match self {
            SaveError::NoConfigDir => "config directory not found".to_owned(),
            SaveError::Io(m) => joined("io error: ", m.as_str()),
            SaveError::Serialize(m) => joined("serialize failed: ", m.as_str()),
            SaveError::Secret(s) => {
                let m = s.message();
                joined("keyring 写入失败: ", m.as_str())
            },
        }
    }
}

impl AppState {
    /// Takes the result of reading the host list again after a failure: the
    /// hosts replace the list and the error is cleared, or the new error is
    /// kept. Returns the toast to show.
    pub fn reload_hosts(&mut self, r: Result<Vec<HostConfig>, String>) -> (toast: UiAction)
        ensures
            match r {
                Ok(hosts) => {
                    &&& (*final(self)) == (AppState {
                        hosts: final(self).hosts,
                        hosts_load_error: None,
                        ..*old(self)
                    })
                    &&& final(self).hosts@ == hosts@
                    &&& toast matches UiAction::ToastSuccess(m) && m@ == "主机列表已恢复"@
                },
                Err(msg) => {
                    &&& (*final(self)) == (AppState {
                        hosts_load_error: final(self).hosts_load_error,
                        ..*old(self)
                    })
                    &&& final(self).hosts_load_error matches Some(e) && e@ == msg@
                    &&& toast matches UiAction::ToastError(m) && m@ == "加载失败："@ + msg@
                },
            },
    {
        match r {
            Ok(hosts) => {
                self.hosts = hosts;
                self.hosts_load_error = None;
                UiAction::ToastSuccess("主机列表已恢复".to_owned())
            },
            Err(msg) => {
                let t = joined("加载失败：", msg.as_str());
                self.hosts_load_error = Some(msg);
                UiAction::ToastError(t)
            },
        }
    }
}

} // verus!
