use aish::actor::{classify_tmux_list, encode_key_lowered, ExecResult, TmuxListOutcome};
use aish::events::SshEvent;
use aish::ids::{ConnectionId, HostId, SessionId};
use aish::model::{HostConfig, SshAuth};
use aish::persistence::{host_from_stored, stored_host, StoredAuth};
use aish::session::{
    after_attach_write, batch_events, batch_paths, connect_address, login_plan, login_rejected,
    tmux_query_events, LoginPlan,
};
use aish::ssh_error::SshError;

#[test]
fn attach_reported_only_after_a_successful_write() {
    let conn = ConnectionId(4);
    match after_attach_write(conn, SessionId::new("$2"), Ok(())) {
        Some(SshEvent::TmuxAttached { conn: c, session }) => {
            assert_eq!(c, conn);
            assert_eq!(session.as_str(), "$2");
        }
        other => panic!("expected TmuxAttached, got {:?}", other),
    }
    assert!(after_attach_write(conn, SessionId::new("$2"), Err("broken pipe".into())).is_none());
}

#[test]
fn batch_paths_number_the_images() {
    let paths = batch_paths(1715174400123, &vec!["png".to_string(), "jpg".to_string()]);
    assert_eq!(paths, vec!["/tmp/aish-clip-1715174400123-0.png", "/tmp/aish-clip-1715174400123-1.jpg"]);
}

#[test]
fn batch_goes_on_after_a_failure_and_ends_once() {
    let conn = ConnectionId(9);
    let paths = batch_paths(7, &vec!["png".to_string(), "png".to_string(), "gif".to_string()]);
    let results = vec![Ok(()), Err("permission denied".to_string()), Ok(())];
    let evs = batch_events(conn, &paths, &results, "describe".into());
    assert_eq!(evs.len(), 7);
    assert!(matches!(&evs[0], SshEvent::ImageUploaded { path, .. } if path == "/tmp/aish-clip-7-0.png"));
    assert!(matches!(&evs[1], SshEvent::BatchProgress { done: 1, total: 3, .. }));
    assert!(matches!(&evs[2], SshEvent::ImageUploadFailed { msg, .. } if msg == "permission denied"));
    assert!(matches!(&evs[3], SshEvent::BatchProgress { done: 2, total: 3, .. }));
    assert!(matches!(&evs[4], SshEvent::ImageUploaded { path, .. } if path == "/tmp/aish-clip-7-2.gif"));
    assert!(matches!(&evs[5], SshEvent::BatchProgress { done: 3, total: 3, .. }));
    assert!(matches!(&evs[6], SshEvent::BatchDone { text, .. } if text == "describe"));
    let done = evs.iter().filter(|e| matches!(e, SshEvent::BatchDone { .. })).count();
    assert_eq!(done, 1);
}

#[test]
fn empty_batch_only_reports_done() {
    let evs = batch_events(ConnectionId(1), &vec![], &vec![], "t".into());
    assert_eq!(evs.len(), 1);
    assert!(matches!(&evs[0], SshEvent::BatchDone { .. }));
}

#[test]
fn tmux_query_starts_then_reports() {
    let conn = ConnectionId(3);
    let o = classify_tmux_list(Ok(ExecResult {
        stdout: vec![],
        stderr: b"bash: tmux: command not found".to_vec(),
        exit_code: 127,
    }));
    let (evs, check_mouse) = tmux_query_events(conn, o);
    assert_eq!(evs.len(), 2);
    assert!(matches!(evs[0], SshEvent::TmuxQueryStarted { conn: c } if c == conn));
    assert!(matches!(evs[1], SshEvent::TmuxNoTmux { .. }));
    assert!(!check_mouse);
    let (evs, check_mouse) = tmux_query_events(conn, TmuxListOutcome::Listed { sessions: vec![] });
    assert!(matches!(evs[1], SshEvent::TmuxSessionsListed { .. }));
    assert!(check_mouse);
}

#[test]
fn stored_host_holds_no_secret_and_reads_back() {
    let h = HostConfig {
        id: HostId(0x0123_4567_89ab_cdef_0011_2233_4455_6677),
        label: "vps".into(),
        host: "1.2.3.4".into(),
        port: 22,
        user: "root".into(),
        auth: SshAuth::Password { password: "p@ss".into() },
        os_kind: Some("debian".into()),
    };
    let r = stored_host(&h);
    assert_eq!(r.id, "01234567-89ab-cdef-0011-223344556677");
    assert!(matches!(r.auth, StoredAuth::Password));
    let back = host_from_stored(r).expect("id reads back");
    assert_eq!(back.id, h.id);
    assert_eq!(back.os_kind.as_deref(), Some("debian"));
    assert_eq!(back.auth, SshAuth::Password { password: String::new() });

    let k = HostConfig { auth: SshAuth::KeyFile { path: "/k".into(), passphrase: "x".into() }, ..h };
    let back = host_from_stored(stored_host(&k)).unwrap();
    assert_eq!(back.auth, SshAuth::KeyFile { path: "/k".into(), passphrase: String::new() });
}

#[test]
fn encode_key_lowered_uses_the_given_lowercase_form() {
    assert_eq!(encode_key_lowered("Enter", "enter", false, false), vec![13u8]);
    assert_eq!(encode_key_lowered("A", "a", false, true), vec![0x1bu8, b'A']);
    assert_eq!(encode_key_lowered("c", "c", true, false), vec![3u8]);
    assert!(encode_key_lowered("F13", "f13", false, false).is_empty());
}

#[test]
fn connect_address_and_login_plan() {
    let mut h = HostConfig {
        id: HostId(1),
        label: "l".into(),
        host: "example.com".into(),
        port: 2222,
        user: "bob".into(),
        auth: SshAuth::Password { password: String::new() },
        os_kind: None,
    };
    assert_eq!(connect_address(&h), "example.com:2222");
    match login_plan(&h) {
        Err(e) => assert_eq!(e.message(), "auth failed: 密码为空（keyring 未取到值或未设置）"),
        Ok(p) => panic!("expected an error, got {:?}", p),
    }
    h.auth = SshAuth::Password { password: "pw".into() };
    assert_eq!(login_plan(&h).ok(), Some(LoginPlan::Password { password: "pw".into() }));
    h.auth = SshAuth::KeyFile { path: "/k".into(), passphrase: String::new() };
    assert_eq!(login_plan(&h).ok(), Some(LoginPlan::PublicKey { path: "/k".into() }));
    h.auth = SshAuth::Agent;
    assert!(matches!(login_plan(&h), Err(SshError::Auth(m)) if m == "Agent auth not supported (M5+)"));
    assert!(matches!(login_rejected(true, "bob"), SshError::Auth(m) if m == "server rejected publickey for user bob"));
}
