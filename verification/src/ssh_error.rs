//! Errors of the SSH client, by the text of their causes.
use vstd::prelude::*;
use crate::state::SshErrorKind;

verus! {

/// A failure of the SSH client. Causes from the network, the file system or
/// the SSH library are kept as their message.
#[derive(Debug)]
pub enum SshError {
    /// The TCP connection failed.
    Connect(String),
    /// The server refused the credentials, or the method is not supported.
    Auth(String),
    /// The key file could not be read.
    KeyFileRead { path: String, source: String },
    /// The key file could not be parsed.
    KeyFileParse { path: String, source: String },
    /// The SSH protocol failed.
    Protocol(String),
    /// An I/O error after the connection was up.
    Io(String),
}

/// How a path is written between quotes by `Debug` (`{:?}` on a path).
pub uninterp spec fn spec_debug_path(path: Seq<char>) -> Seq<char>;

/// `{:?}` of the path `path`: the path between double quotes, with quotes,
/// backslashes and control characters escaped. The text is named.
#[verifier::external_body]
fn debug_path(path: &str) -> (r: String)
    ensures
        r@ == spec_debug_path(path@),
{
    format!("{:?}", std::path::Path::new(path))
}

/// The message of an error.
pub open spec fn ssh_error_text(e: SshError) -> Seq<char> {
    match e {
        SshError::Connect(m) => "connect failed: "@ + m@,
        SshError::Auth(m) => "auth failed: "@ + m@,
        SshError::KeyFileRead { path, source } => "key file "@ + spec_debug_path(path@)
            + " not readable: "@ + source@,
        SshError::KeyFileParse { path, source } => "key file "@ + spec_debug_path(path@)
            + " parse failed: "@ + source@,
        SshError::Protocol(m) => "ssh protocol error: "@ + m@,
        SshError::Io(m) => "io error: "@ + m@,
    }
}

/// The kind of an error.
pub open spec fn ssh_error_kind(e: SshError) -> SshErrorKind {
    match e {
        SshError::Connect(_) => SshErrorKind::ConnectFailed,
        SshError::Auth(_) | SshError::KeyFileRead { .. } | SshError::KeyFileParse { .. } => {
            SshErrorKind::AuthFailed
        },
        SshError::Io(_) => SshErrorKind::Io,
        SshError::Protocol(_) => SshErrorKind::Protocol,
    }
}

/// `a` followed by `b`.
fn joined(a: &str, b: &str) -> (r: String)
    ensures
        r@ == a@ + b@,
{
    let mut r = a.to_owned();
    r.append(b);
    r
}

impl SshError {
    /// Coarse class of the error: connecting, logging in (key files
    /// included), I/O, or the protocol.
    pub fn kind(&self) -> (k: SshErrorKind)
        ensures
            k == ssh_error_kind(*self),
    {
        match self {
            SshError::Connect(_) => SshErrorKind::ConnectFailed,
            SshError::Auth(_) | SshError::KeyFileRead { .. } | SshError::KeyFileParse { .. } => {
                SshErrorKind::AuthFailed
            },
            SshError::Io(_) => SshErrorKind::Io,
            SshError::Protocol(_) => SshErrorKind::Protocol,
        }
    }

    /// The message shown for the error.
    pub fn message(&self) -> (r: String)
        ensures
            r@ == ssh_error_text(*self),
    {
        match self {
            SshError::Connect(m) => joined("connect failed: ", m.as_str()),
            SshError::Auth(m) => joined("auth failed: ", m.as_str()),
            SshError::KeyFileRead { path, source } => {
                let mut r = "key file ".to_owned();
                let p = debug_path(path.as_str());
                r.append(p.as_str());
                r.append(" not readable: ");
                r.append(source.as_str());
                r
            },
            SshError::KeyFileParse { path, source } => {
                let mut r = "key file ".to_owned();
                let p = debug_path(path.as_str());
                r.append(p.as_str());
                r.append(" parse failed: ");
                r.append(source.as_str());
                r
            },
            SshError::Protocol(m) => joined("ssh protocol error: ", m.as_str()),
            SshError::Io(m) => joined("io error: ", m.as_str()),
        }
    }
}

} // verus!
