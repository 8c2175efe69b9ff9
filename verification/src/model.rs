//! Saved host configurations and remote tmux sessions.
use vstd::prelude::*;
use crate::ids::{HostId, SessionId};

verus! {

/// How to log in to a host.
#[derive(Debug, Clone, PartialEq, Eq)]
pub enum SshAuth {
    /// A private key file; the passphrase is empty for unencrypted keys.
    KeyFile { path: String, passphrase: String },
    /// A password; empty in the saved file (it lives in the OS keyring).
    Password { password: String },
    /// The SSH agent (not supported yet).
    Agent,
}

/// A saved host.
#[derive(Debug, Clone, PartialEq, Eq)]
pub struct HostConfig {
    pub id: HostId,
    pub label: String,
    pub host: String,
    pub port: u16,
    pub user: String,
    pub auth: SshAuth,
    /// The `/etc/os-release` id detected on the last connection.
    pub os_kind: Option<String>,
}

/// One session of a remote tmux server.
#[derive(Debug, PartialEq, Eq)]
pub struct RemoteSession {
    pub id: SessionId,
    pub name: String,
    /// Number of windows (0 when tmux did not say).
    pub windows: u32,
    /// Last activity, Unix seconds (0 when tmux did not say).
    pub activity: i64,
}

} // verus!
