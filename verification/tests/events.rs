use aish::events::{apply_event, SessionCommand, SshEvent, UiAction};
use aish::ids::{ConnectionId, HostId, SessionId, TabId};
use aish::model::{HostConfig, RemoteSession, SshAuth};
use aish::session::{
    batch_item_events, on_channel_message, on_command, shell_failed, upload_event, write_failed,
    ActorStep, ChannelMessage, ShellStage,
};
use aish::state::{AppState, ConnectionPhase, DisconnectReason, SshErrorKind, Tab, TabContent, TmuxState};

fn state_with_conn() -> (AppState, ConnectionId, HostId) {
    let h = HostConfig {
        id: HostId(11),
        label: "box".into(),
        host: "example.com".into(),
        port: 22,
        user: "u".into(),
        auth: SshAuth::Password { password: String::new() },
        os_kind: None,
    };
    let host_id = h.id;
    let mut s = AppState::with_hosts(vec![h]);
    let conn = s.open_connection(host_id);
    s.register_session(conn);
    (s, conn, host_id)
}

fn toast(r: &[UiAction]) -> String {
    match r {
        [UiAction::ToastError(m)] => m.clone(),
        other => panic!("expected one error toast, got {:?}", other),
    }
}

#[test]
fn network_error_disconnect_toasts_and_keeps_reason() {
    let (mut s, conn, _) = state_with_conn();
    let r = apply_event(
        &mut s,
        SshEvent::Disconnected { conn, reason: DisconnectReason::NetworkError("reset".into()) },
    );
    assert_eq!(toast(&r.actions), "box #1: 连接中断 — reset");
    assert!(r.redraw);
    assert!(!s.is_session_active(conn));
    assert_eq!(
        s.connection_phases.get(&conn.0),
        Some(&ConnectionPhase::Disconnected { reason: "网络错误: reset".into() })
    );
}

#[test]
fn user_disconnect_is_silent() {
    let (mut s, conn, _) = state_with_conn();
    let r = apply_event(&mut s, SshEvent::Disconnected { conn, reason: DisconnectReason::UserRequested });
    assert!(r.actions.is_empty());
    assert_eq!(
        s.connection_phases.get(&conn.0),
        Some(&ConnectionPhase::Disconnected { reason: "用户主动断开".into() })
    );
}

#[test]
fn error_event_toasts_by_kind() {
    let (mut s, conn, _) = state_with_conn();
    let r = apply_event(&mut s, SshEvent::Error { conn, kind: SshErrorKind::AuthFailed, msg: "denied".into() });
    assert_eq!(toast(&r.actions), "box #1: 登录失败 — denied");
    assert_eq!(
        s.connection_phases.get(&conn.0),
        Some(&ConnectionPhase::Disconnected { reason: "登录失败: denied".into() })
    );
    let r = apply_event(
        &mut s,
        SshEvent::Error { conn: ConnectionId(0), kind: SshErrorKind::Protocol, msg: "Disconnected".into() },
    );
    assert_eq!(toast(&r.actions), "未知连接: 连接已断开 — 双击 tab 可重连");
}

#[test]
fn pane_output_goes_to_the_terminal() {
    let (mut s, conn, _) = state_with_conn();
    let r = apply_event(&mut s, SshEvent::PaneOutput { conn, bytes: b"hi".to_vec() });
    assert!(matches!(&r.actions[..], [UiAction::FeedTerminal { conn: c, bytes }] if *c == conn && bytes == b"hi"));
}

#[test]
fn uploaded_image_path_is_typed_with_a_space() {
    let (mut s, conn, _) = state_with_conn();
    let r = apply_event(&mut s, SshEvent::ImageUploaded { conn, path: "/tmp/a.png".into() });
    assert!(matches!(&r.actions[..], [UiAction::SendBytes { bytes, .. }] if bytes == b" /tmp/a.png"));
    s.drop_session(conn, "gone");
    let r = apply_event(&mut s, SshEvent::ImageUploaded { conn, path: "/tmp/a.png".into() });
    assert!(r.actions.is_empty());
}

#[test]
fn batch_events_update_progress() {
    let (mut s, conn, _) = state_with_conn();
    apply_event(&mut s, SshEvent::BatchProgress { conn, done: 1, total: 3 });
    assert_eq!(s.pending_uploads.get(&conn.0), Some(&(1, 3)));
    let r = apply_event(&mut s, SshEvent::BatchDone { conn, text: "look".into() });
    assert!(s.pending_uploads.is_empty());
    assert!(matches!(&r.actions[..], [UiAction::SendBytes { bytes, .. }] if bytes == b" look"));
    let r = apply_event(&mut s, SshEvent::BatchDone { conn, text: String::new() });
    assert!(r.actions.is_empty());
    let r = apply_event(
        &mut s,
        SshEvent::BatchAborted { conn, succeeded: 2, total: 5, reason: "timeout".into() },
    );
    assert_eq!(toast(&r.actions), "box #1: 上传失败（2/5）— timeout，请重试");
    assert_eq!(s.last_aborted_batch.get(&conn.0), Some(&(2, 5)));
}

#[test]
fn listed_sessions_open_the_picker_for_the_current_tab() {
    let (mut s, conn, _) = state_with_conn();
    s.tabs.push(Tab { id: TabId(1), content: TabContent::Connection(conn), title: "t".into(), title_locked: false });
    s.selected_tab = Some(TabId(1));
    let sessions = vec![RemoteSession { id: SessionId::new("$0"), name: "dev".into(), windows: 1, activity: 0 }];
    apply_event(&mut s, SshEvent::TmuxSessionsListed { conn, sessions });
    assert_eq!(s.pending_session_picker, Some(conn));
    assert!(matches!(s.tmux_state.get(&conn.0), Some(TmuxState::Detected { attached: None, .. })));
}

#[test]
fn empty_session_list_opens_no_picker() {
    let (mut s, conn, _) = state_with_conn();
    s.tabs.push(Tab { id: TabId(1), content: TabContent::Connection(conn), title: "t".into(), title_locked: false });
    s.selected_tab = Some(TabId(1));
    apply_event(&mut s, SshEvent::TmuxSessionsListed { conn, sessions: vec![] });
    assert_eq!(s.pending_session_picker, None);
}

#[test]
fn os_detection_saves_only_changes() {
    let (mut s, _, host_id) = state_with_conn();
    let r = apply_event(&mut s, SshEvent::OsDetected { host_id, os_kind: Some("debian".into()) });
    assert!(matches!(&r.actions[..], [UiAction::SaveHosts]));
    assert_eq!(s.hosts[0].os_kind.as_deref(), Some("debian"));
    let r = apply_event(&mut s, SshEvent::OsDetected { host_id, os_kind: Some("debian".into()) });
    assert!(r.actions.is_empty() && !r.redraw);
}

#[test]
fn mouse_hint_names_the_connection() {
    let (mut s, conn, _) = state_with_conn();
    let r = apply_event(&mut s, SshEvent::TmuxMouseDisabled { conn });
    match &r.actions[..] {
        [UiAction::ToastWarning(m)] => assert!(m.starts_with("box #1: 远端 tmux 鼠标未开启")),
        other => panic!("unexpected {:?}", other),
    }
}

#[test]
fn channel_messages_drive_the_task() {
    let conn = ConnectionId(3);
    assert!(matches!(
        on_channel_message(conn, Some(ChannelMessage::Data(b"x".to_vec()))),
        ActorStep::Emit(SshEvent::PaneOutput { .. })
    ));
    assert!(matches!(
        on_channel_message(conn, None),
        ActorStep::Finish(SshEvent::Disconnected { reason: DisconnectReason::RemoteExited, .. })
    ));
    assert!(matches!(on_channel_message(conn, Some(ChannelMessage::ExitStatus(0))), ActorStep::Continue));
}

#[test]
fn commands_drive_the_task() {
    let conn = ConnectionId(3);
    assert!(matches!(on_command(conn, Some(SessionCommand::Resize { cols: 80, rows: 24 })), ActorStep::Resize { cols: 80, rows: 24 }));
    match on_command(conn, Some(SessionCommand::AttachTmux { session: SessionId::new("it's") })) {
        ActorStep::Attach { bytes, session } => {
            assert_eq!(bytes, b"tmux attach -t 'it'\\''s'\r".to_vec());
            assert_eq!(session.as_str(), "it's");
        }
        other => panic!("unexpected {:?}", other),
    }
    assert!(matches!(
        on_command(conn, None),
        ActorStep::Finish(SshEvent::Disconnected { reason: DisconnectReason::UserRequested, .. })
    ));
    assert!(matches!(
        write_failed(conn, "broken".into()),
        SshEvent::Disconnected { reason: DisconnectReason::NetworkError(_), .. }
    ));
}

#[test]
fn upload_results_become_events() {
    let conn = ConnectionId(3);
    assert!(matches!(upload_event(conn, "/tmp/p".into(), Ok(())), SshEvent::ImageUploaded { .. }));
    let (first, progress) = batch_item_events(conn, 1, 4, "/tmp/q".into(), Err("denied".into()));
    assert!(matches!(first, SshEvent::ImageUploadFailed { msg, .. } if msg == "denied"));
    assert!(matches!(progress, SshEvent::BatchProgress { done: 2, total: 4, .. }));
    match shell_failed(conn, ShellStage::RequestPty, "no pty") {
        SshEvent::Error { kind: SshErrorKind::Protocol, msg, .. } => assert_eq!(msg, "request_pty: no pty"),
        other => panic!("unexpected {:?}", other),
    }
}

use aish::actor::{ExecResult, TmuxListOutcome};
use aish::session::{mouse_check_event, os_detected_event, tmux_list_event};

#[test]
fn probe_results_become_events() {
    let ok = |out: &[u8]| Ok::<ExecResult, String>(ExecResult { stdout: out.to_vec(), stderr: vec![], exit_code: 0 });
    match os_detected_event(HostId(1), &ok(b"ID=fedora\n")) {
        SshEvent::OsDetected { os_kind, .. } => assert_eq!(os_kind.as_deref(), Some("fedora")),
        other => panic!("unexpected {:?}", other),
    }
    assert!(mouse_check_event(ConnectionId(1), &ok(b" ON \n")).is_none());
    assert!(matches!(mouse_check_event(ConnectionId(1), &ok(b"off")), Some(SshEvent::TmuxMouseDisabled { .. })));
    assert!(matches!(mouse_check_event(ConnectionId(1), &Err("x".into())), Some(SshEvent::TmuxMouseDisabled { .. })));
    let (e, check) = tmux_list_event(ConnectionId(1), TmuxListOutcome::NoTmux);
    assert!(matches!(e, SshEvent::TmuxNoTmux { .. }) && !check);
    let (e, check) = tmux_list_event(ConnectionId(1), TmuxListOutcome::Listed { sessions: vec![] });
    assert!(matches!(e, SshEvent::TmuxSessionsListed { .. }) && check);
}

#[test]
fn upload_image_command_constructible() {
    let cmd = SessionCommand::UploadImage { data: vec![0u8, 1, 2, 3] };
    match cmd {
        SessionCommand::UploadImage { data } => assert_eq!(data.len(), 4),
        _ => panic!("wrong variant"),
    }
}

#[test]
fn image_uploaded_event_carries_path() {
    let conn = ConnectionId::new();
    let event = SshEvent::ImageUploaded { conn, path: "/tmp/aish-clip-123.png".into() };
    match event {
        SshEvent::ImageUploaded { conn: c, path } => {
            assert_eq!(c, conn);
            assert_eq!(path, "/tmp/aish-clip-123.png");
        }
        _ => panic!("wrong variant"),
    }
}

#[test]
fn image_upload_failed_event_carries_msg() {
    let conn = ConnectionId::new();
    let event = SshEvent::ImageUploadFailed { conn, msg: "permission denied".into() };
    match event {
        SshEvent::ImageUploadFailed { conn: c, msg } => {
            assert_eq!(c, conn);
            assert!(msg.contains("permission"));
        }
        _ => panic!("wrong variant"),
    }
}

#[test]
fn upload_batch_command_carries_images_and_text() {
    let cmd = SessionCommand::UploadBatch {
        images: vec![(vec![0u8, 1, 2], "png".into()), (vec![3u8, 4], "jpg".into())],
        text: "describe this".into(),
    };
    match cmd {
        SessionCommand::UploadBatch { images, text } => {
            assert_eq!(images.len(), 2);
            assert_eq!(images[0].1, "png");
            assert_eq!(text, "describe this");
        }
        _ => panic!("wrong variant"),
    }
}

#[test]
fn batch_progress_event_carries_done_total() {
    let conn = ConnectionId::new();
    let event = SshEvent::BatchProgress { conn, done: 2, total: 5 };
    match event {
        SshEvent::BatchProgress { done, total, .. } => {
            assert_eq!(done, 2);
            assert_eq!(total, 5);
        }
        _ => panic!("wrong variant"),
    }
}

#[test]
fn batch_done_event_carries_text() {
    let conn = ConnectionId::new();
    let event = SshEvent::BatchDone { conn, text: "hello world".into() };
    match event {
        SshEvent::BatchDone { text, .. } => {
            assert_eq!(text, "hello world");
        }
        _ => panic!("wrong variant"),
    }
}
