use aish::actor::{encode_key, parse_os_release, parse_session_list};
use aish::events::SshEvent;
use aish::ids::{ConnectionId, HostId};
use aish::model::{HostConfig, SshAuth};
use aish::secrets::SecretError;
use aish::session::{needs_keyring_password, with_keyring_password};
use aish::state::SshErrorKind;

#[test]
fn parse_session_list_basic() {
    let s = b"$0|dev\n$1|work\n";
    let result = parse_session_list(s);
    assert_eq!(result.len(), 2);
    assert_eq!(result[0].id.as_str(), "$0");
    assert_eq!(result[0].name, "dev");
    assert_eq!(result[1].id.as_str(), "$1");
    assert_eq!(result[1].name, "work");
}

#[test]
fn parse_session_list_empty_stdout() {
    let result = parse_session_list(b"");
    assert!(result.is_empty());
}

#[test]
fn parse_session_list_trims_whitespace() {
    let s = b"  $0  |  dev with spaces  \n";
    let result = parse_session_list(s);
    assert_eq!(result.len(), 1);
    assert_eq!(result[0].id.as_str(), "$0");
    assert_eq!(result[0].name, "dev with spaces");
}

#[test]
fn parse_session_list_skips_lines_without_pipe() {
    let s = b"$0|dev\nbroken-line\n$1|work\n";
    let result = parse_session_list(s);
    assert_eq!(result.len(), 2);
    assert_eq!(result[0].name, "dev");
    assert_eq!(result[1].name, "work");
}

#[test]
fn parse_session_list_with_windows_and_activity() {
    let s = b"$0|dev|3|1700000000\n$1|work|5|1700001234\n";
    let result = parse_session_list(s);
    assert_eq!(result.len(), 2);
    assert_eq!(result[0].windows, 3);
    assert_eq!(result[0].activity, 1700000000);
    assert_eq!(result[1].windows, 5);
    assert_eq!(result[1].activity, 1700001234);
}

#[test]
fn parse_session_list_missing_extra_fields_fallback_zero() {
    let s = b"$0|dev\n$1|work|2\n";
    let result = parse_session_list(s);
    assert_eq!(result.len(), 2);
    assert_eq!(result[0].windows, 0);
    assert_eq!(result[0].activity, 0);
    assert_eq!(result[1].windows, 2);
    assert_eq!(result[1].activity, 0);
}

#[test]
fn parse_os_release_ubuntu() {
    let s = b"NAME=\"Ubuntu\"\nVERSION=\"24.04 LTS\"\nID=ubuntu\nID_LIKE=debian\n";
    assert_eq!(parse_os_release(s).as_deref(), Some("ubuntu"));
}

#[test]
fn parse_os_release_unquoted_id() {
    let s = b"NAME=Arch Linux\nID=arch\n";
    assert_eq!(parse_os_release(s).as_deref(), Some("arch"));
}

#[test]
fn parse_os_release_single_quoted_id() {
    let s = b"ID='alpine'\n";
    assert_eq!(parse_os_release(s).as_deref(), Some("alpine"));
}

#[test]
fn parse_os_release_lowercases() {
    let s = b"ID=CentOS\n";
    assert_eq!(parse_os_release(s).as_deref(), Some("centos"));
}

#[test]
fn parse_os_release_no_id_line_returns_none() {
    let s = b"NAME=\"Ubuntu\"\nVERSION=\"24.04\"\n";
    assert_eq!(parse_os_release(s), None);
}

#[test]
fn parse_os_release_empty_returns_none() {
    assert_eq!(parse_os_release(b""), None);
}

#[test]
fn parse_os_release_ignores_id_like() {
    let s = b"ID_LIKE=debian\nID=ubuntu\n";
    assert_eq!(parse_os_release(s).as_deref(), Some("ubuntu"));
}

#[test]
fn password_empty_no_keyring_entry_emits_auth_error() {
    let cfg = HostConfig {
        id: HostId::new(),
        label: "no-pwd".into(),
        host: "127.0.0.1".into(),
        port: 22,
        user: "root".into(),
        auth: SshAuth::Password { password: String::new() },
        os_kind: None,
    };
    let conn = ConnectionId::new();
    assert!(needs_keyring_password(&cfg));
    match with_keyring_password(conn, cfg, Err(SecretError::NoEntry)) {
        Err(SshEvent::Error { kind: SshErrorKind::AuthFailed, msg, .. }) => {
            assert!(
                msg.contains("keyring") || msg.contains("没有"),
                "expected keyring/没有 in msg, got: {}",
                msg
            );
        }
        other => panic!("expected AuthFailed Error, got: {:?}", other),
    }
}

#[test]
fn encode_normal_chars() {
    assert_eq!(encode_key("a", false, false), b"a");
    assert_eq!(encode_key("Z", false, false), b"Z");
    assert_eq!(encode_key(" ", false, false), b" ");
    assert_eq!(encode_key("/", false, false), b"/");
}

#[test]
fn encode_special_keys() {
    assert_eq!(encode_key("enter", false, false), vec![b'\r']);
    assert_eq!(encode_key("backspace", false, false), vec![0x7f]);
    assert_eq!(encode_key("tab", false, false), vec![b'\t']);
    assert_eq!(encode_key("escape", false, false), vec![0x1b]);
}

#[test]
fn encode_ctrl_combinations() {
    assert_eq!(encode_key("c", true, false), vec![0x03]);
    assert_eq!(encode_key("d", true, false), vec![0x04]);
    assert_eq!(encode_key("a", true, false), vec![0x01]);
    assert_eq!(encode_key("Z", true, false), vec![0x1a]);
}

#[test]
fn unrecognized_keys_return_empty() {
    assert_eq!(encode_key("F1", false, false), Vec::<u8>::new());
}

#[test]
fn encode_arrow_keys_normal_mode() {
    assert_eq!(encode_key("up", false, false), b"\x1b[A".to_vec());
    assert_eq!(encode_key("ArrowUp", false, false), b"\x1b[A".to_vec());
    assert_eq!(encode_key("down", false, false), b"\x1b[B".to_vec());
    assert_eq!(encode_key("right", false, false), b"\x1b[C".to_vec());
    assert_eq!(encode_key("left", false, false), b"\x1b[D".to_vec());
}

#[test]
fn encode_navigation_keys() {
    assert_eq!(encode_key("home", false, false), b"\x1b[H".to_vec());
    assert_eq!(encode_key("end", false, false), b"\x1b[F".to_vec());
    assert_eq!(encode_key("pageup", false, false), b"\x1b[5~".to_vec());
    assert_eq!(encode_key("pagedown", false, false), b"\x1b[6~".to_vec());
    assert_eq!(encode_key("delete", false, false), b"\x1b[3~".to_vec());
    assert_eq!(encode_key("insert", false, false), b"\x1b[2~".to_vec());
}

#[test]
fn encode_uppercase_chars_preserve_case() {
    assert_eq!(encode_key("Z", false, false), b"Z");
    assert_eq!(encode_key("A", false, false), b"A");
}

#[test]
fn encode_alt_prefixes_escape() {
    assert_eq!(encode_key("f", false, true), b"\x1bf".to_vec());
    // Ctrl wins over Alt: only the control byte is sent.
    assert_eq!(encode_key("c", true, true), vec![0x03]);
}
