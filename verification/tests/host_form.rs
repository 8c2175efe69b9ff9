use aish::host_form::{parse_connection_string, AuthKind, HostFormDraft};
use aish::ids::HostId;
use aish::model::{HostConfig, SshAuth};

fn draft(label: &str, port: &str, auth_kind: AuthKind, key_path: &str, password: &str) -> HostFormDraft {
    HostFormDraft {
        label: label.into(),
        host: "1.2.3.4".into(),
        port: port.into(),
        user: "root".into(),
        auth_kind,
        key_path: key_path.into(),
        password: password.into(),
        error: None,
    }
}

fn mk_host(label: &str) -> HostConfig {
    HostConfig {
        id: HostId::new(),
        label: label.into(),
        host: "example.com".into(),
        port: 22,
        user: "larry".into(),
        auth: SshAuth::KeyFile { path: "/tmp/k".into(), passphrase: String::new() },
        os_kind: None,
    }
}

#[test]
fn parse_typical_user_host_port() {
    assert_eq!(
        parse_connection_string("larry@1.2.3.4:22"),
        Some(("larry".into(), "1.2.3.4".into(), "22".into()))
    );
}

#[test]
fn parse_user_host_default_port() {
    assert_eq!(
        parse_connection_string("larry@example.com"),
        Some(("larry".into(), "example.com".into(), "22".into()))
    );
}

#[test]
fn parse_host_only_no_user() {
    assert_eq!(
        parse_connection_string("example.com"),
        Some((String::new(), "example.com".into(), "22".into()))
    );
}

#[test]
fn parse_host_with_port_no_user() {
    assert_eq!(
        parse_connection_string("example.com:2222"),
        Some((String::new(), "example.com".into(), "2222".into()))
    );
}

#[test]
fn parse_user_with_dashes() {
    assert_eq!(
        parse_connection_string("my-user@my-host.com:22"),
        Some(("my-user".into(), "my-host.com".into(), "22".into()))
    );
}

#[test]
fn parse_ipv6_with_port() {
    assert_eq!(
        parse_connection_string("user@[::1]:22"),
        Some(("user".into(), "[::1]".into(), "22".into()))
    );
}

#[test]
fn parse_empty_returns_none() {
    assert_eq!(parse_connection_string(""), None);
    assert_eq!(parse_connection_string("   "), None);
}

#[test]
fn parse_invalid_port_returns_none() {
    assert_eq!(parse_connection_string("user@host:99999"), None);
    assert_eq!(parse_connection_string("user@host:abc"), None);
    assert_eq!(parse_connection_string("user@host:0"), None);
}

#[test]
fn parse_with_whitespace_returns_none() {
    assert_eq!(parse_connection_string("user @host"), None);
    assert_eq!(parse_connection_string("user@ host"), None);
}

#[test]
fn parse_double_at_returns_none() {
    assert_eq!(parse_connection_string("a@b@c"), None);
}

#[test]
fn draft_keyfile_into_config_validates_empty_label() {
    let d = draft("", "22", AuthKind::KeyFile, "/tmp/x", "");
    let r = d.into_config(None);
    assert!(r.is_err());
    assert!(r.unwrap_err().contains("label"));
}

#[test]
fn draft_keyfile_into_config_validates_port_non_numeric() {
    let d = draft("v", "abc", AuthKind::KeyFile, "/tmp/x", "");
    assert!(d.into_config(None).unwrap_err().contains("port"));
}

#[test]
fn draft_keyfile_into_config_validates_key_file_exists() {
    let d = draft("v", "22", AuthKind::KeyFile, "/nonexistent/path/aish_test_only", "");
    assert!(d.into_config(None).unwrap_err().contains("key 文件不存在"));
}

#[test]
fn draft_keyfile_into_config_succeeds_with_existing_key() {
    // "/" always exists; the form only checks that the key path exists.
    let d = draft("v", "22", AuthKind::KeyFile, "/", "");
    let cfg = d.into_config(None).unwrap();
    assert_eq!(cfg.label, "v");
    assert!(matches!(cfg.auth, SshAuth::KeyFile { .. }));
}

#[test]
fn draft_keyfile_into_config_preserves_id_when_provided() {
    let d = draft("v", "22", AuthKind::KeyFile, "/", "");
    let id = HostId::new();
    let cfg = d.into_config(Some(id)).unwrap();
    assert_eq!(cfg.id, id);
}

#[test]
fn draft_password_new_requires_nonempty_password() {
    let d = draft("v", "22", AuthKind::Password, "", "");
    let r = d.into_config(None);
    assert!(r.is_err());
    assert!(r.unwrap_err().contains("password"));
}

#[test]
fn draft_password_new_succeeds_with_password() {
    let d = draft("v", "22", AuthKind::Password, "", "secret");
    let cfg = d.into_config(None).unwrap();
    match cfg.auth {
        SshAuth::Password { password } => assert_eq!(password, "secret"),
        _ => panic!("expected Password variant"),
    }
}

#[test]
fn draft_password_edit_allows_empty_password() {
    let id = HostId::new();
    let d = draft("v", "22", AuthKind::Password, "", "");
    let cfg = d.into_config(Some(id)).unwrap();
    match cfg.auth {
        SshAuth::Password { password } => assert_eq!(password, ""),
        _ => panic!("expected Password variant"),
    }
}

#[test]
fn draft_from_config_password_keeps_password_empty() {
    let host = HostConfig {
        id: HostId::new(),
        label: "v".into(),
        host: "1.2.3.4".into(),
        port: 22,
        user: "root".into(),
        auth: SshAuth::Password { password: "this-should-be-ignored".into() },
        os_kind: None,
    };
    let d = HostFormDraft::from_config(&host);
    assert_eq!(d.auth_kind, AuthKind::Password);
    assert_eq!(d.password, "");
}

#[test]
fn draft_from_config_keyfile_extracts_path() {
    let h = mk_host("v");
    let d = HostFormDraft::from_config(&h);
    assert_eq!(d.auth_kind, AuthKind::KeyFile);
    assert!(d.key_path.contains("/tmp/k") || d.key_path.contains("\\tmp\\k"));
}

#[test]
fn draft_checked_trims_fields_and_reports_in_order() {
    let d = HostFormDraft {
        label: "  web  ".into(),
        host: " example.com ".into(),
        port: " 2222 ".into(),
        user: " admin ".into(),
        auth_kind: AuthKind::KeyFile,
        key_path: " /k ".into(),
        password: String::new(),
        error: None,
    };
    let fresh = HostId(7);
    let cfg = d.into_config_checked(None, fresh, true).unwrap();
    assert_eq!(cfg.id, fresh);
    assert_eq!(cfg.label, "web");
    assert_eq!(cfg.host, "example.com");
    assert_eq!(cfg.port, 2222);
    assert_eq!(cfg.user, "admin");
    assert_eq!(cfg.auth, SshAuth::KeyFile { path: "/k".into(), passphrase: String::new() });
    assert_eq!(d.into_config_checked(None, fresh, false).unwrap_err(), "key 文件不存在: /k");
    let mut no_host = d.clone();
    no_host.host = "   ".into();
    assert_eq!(no_host.into_config_checked(None, fresh, true).unwrap_err(), "host 不能为空");
    let mut big_port = d.clone();
    big_port.port = "65536".into();
    assert_eq!(
        big_port.into_config_checked(None, fresh, true).unwrap_err(),
        "port 必须是 1-65535 的数字"
    );
}

#[test]
fn edit_without_changes_keeps_host() {
    let cfg = HostConfig {
        id: HostId(77),
        label: "db".into(),
        host: "10.0.0.5".into(),
        port: 2200,
        user: "admin".into(),
        auth: SshAuth::Password { password: String::new() },
        os_kind: None,
    };
    let d = HostFormDraft::from_config(&cfg);
    let back = d.into_config(Some(cfg.id)).expect("unchanged draft saves");
    assert_eq!(back, cfg);
}
