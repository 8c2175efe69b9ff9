use aish::secrets::{passphrase_username, password_username, SecretError, SERVICE};
use aish::ssh_error::SshError;
use aish::state::SshErrorKind;
use aish::ids::HostId;

#[test]
fn smoke() {
    assert_eq!(2 + 2, 4);
}

#[test]
fn connect_error_kind() {
    let err = SshError::Connect("refused".into());
    assert_eq!(err.kind(), SshErrorKind::ConnectFailed);
}

#[test]
fn auth_error_kind() {
    let err = SshError::Auth("server rejected".into());
    assert_eq!(err.kind(), SshErrorKind::AuthFailed);
}

#[test]
fn key_file_read_error_kind_is_auth() {
    let err = SshError::KeyFileRead { path: "/nope".into(), source: "missing".into() };
    assert_eq!(err.kind(), SshErrorKind::AuthFailed);
}

#[test]
fn key_file_parse_error_kind_is_auth() {
    let err = SshError::KeyFileParse {
        path: "/home/user/.ssh/id_ed25519".into(),
        source: "The key is encrypted".into(),
    };
    assert_eq!(err.kind(), SshErrorKind::AuthFailed);
}

#[test]
fn io_error_kind() {
    let err = SshError::Io("pipe broken".into());
    assert_eq!(err.kind(), SshErrorKind::Io);
}

#[test]
fn protocol_error_kind() {
    let err = SshError::Protocol("Disconnected".into());
    assert_eq!(err.kind(), SshErrorKind::Protocol);
}

#[test]
fn error_display_contains_inner_message() {
    let err = SshError::Auth("bad key".into());
    let s = err.message();
    assert!(s.contains("auth failed"));
    assert!(s.contains("bad key"));
}

#[test]
fn error_messages_exact() {
    assert_eq!(SshError::Connect("refused".into()).message(), "connect failed: refused");
    assert_eq!(SshError::Io("eof".into()).message(), "io error: eof");
    assert_eq!(
        SshError::KeyFileRead { path: "/nope".into(), source: "missing".into() }.message(),
        "key file \"/nope\" not readable: missing"
    );
}

#[test]
fn keyring_names() {
    assert_eq!(SERVICE, "aish");
    let id = HostId(0x0123_4567_89ab_cdef_0123_4567_89ab_cdef);
    assert_eq!(password_username(id), "01234567-89ab-cdef-0123-456789abcdef");
    assert_eq!(passphrase_username(id), "01234567-89ab-cdef-0123-456789abcdef-passphrase");
    assert_ne!(password_username(id), passphrase_username(id));
}

#[test]
fn secret_error_messages() {
    assert_eq!(SecretError::NoEntry.message(), "条目不存在");
    assert_eq!(SecretError::Keyring("locked".into()).message(), "keyring 操作失败: locked");
}
