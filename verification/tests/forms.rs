use aish::events::UiAction;
use aish::forms::FormSave;
use aish::host_form::{AuthKind, HostFormDraft};
use aish::ids::HostId;
use aish::model::{HostConfig, SshAuth};
use aish::persistence::{passwords_to_store, LoadError, SaveError};
use aish::secrets::SecretError;
use aish::state::{AppState, HostFormState};

fn host(id: u128, label: &str, auth: SshAuth) -> HostConfig {
    HostConfig {
        id: HostId(id),
        label: label.into(),
        host: "h".into(),
        port: 22,
        user: "u".into(),
        auth,
        os_kind: None,
    }
}

fn password_draft(label: &str, password: &str) -> HostFormDraft {
    HostFormDraft {
        label: label.into(),
        host: "h".into(),
        port: "22".into(),
        user: "u".into(),
        auth_kind: AuthKind::Password,
        key_path: String::new(),
        password: password.into(),
        error: None,
    }
}

#[test]
fn saving_without_a_dialog_does_nothing() {
    let mut s = AppState::with_hosts(vec![]);
    assert_eq!(s.save_host_form(password_draft("a", "p")), FormSave::NoForm);
    assert!(s.hosts.is_empty());
}

#[test]
fn adding_a_host_closes_the_dialog() {
    let mut s = AppState::with_hosts(vec![]);
    s.open_add_form();
    assert_eq!(s.save_host_form_with(password_draft(" a ", "p"), HostId(3), false), FormSave::Saved);
    assert!(s.modal.is_none());
    assert_eq!(s.hosts.len(), 1);
    assert_eq!(s.hosts[0].id, HostId(3));
    assert_eq!(s.hosts[0].label, "a");
}

#[test]
fn a_refused_draft_stays_with_its_reason() {
    let mut s = AppState::with_hosts(vec![]);
    s.open_add_form();
    assert_eq!(s.save_host_form_with(password_draft("a", ""), HostId(3), false), FormSave::Invalid);
    match &s.modal {
        Some(HostFormState::Adding(d)) => assert_eq!(d.error.as_deref(), Some("password 不能为空")),
        other => panic!("unexpected {:?}", other),
    }
    assert!(s.hosts.is_empty());
}

#[test]
fn editing_keeps_the_id_and_allows_an_empty_password() {
    let mut s = AppState::with_hosts(vec![host(9, "old", SshAuth::Password { password: String::new() })]);
    assert!(s.open_edit_form(HostId(9)));
    assert!(!s.open_edit_form(HostId(1)));
    assert_eq!(s.save_host_form_with(password_draft("new", ""), HostId(3), false), FormSave::Saved);
    assert_eq!(s.hosts[0].id, HostId(9));
    assert_eq!(s.hosts[0].label, "new");
}

#[test]
fn confirming_a_delete_removes_the_host() {
    let mut s = AppState::with_hosts(vec![host(9, "old", SshAuth::Agent)]);
    assert!(s.open_delete_confirm(HostId(9)));
    match &s.modal {
        Some(HostFormState::DeleteConfirm { label, .. }) => assert_eq!(label, "old"),
        other => panic!("unexpected {:?}", other),
    }
    assert_eq!(s.save_host_form(password_draft("x", "y")), FormSave::Deleted(HostId(9)));
    assert!(s.hosts.is_empty());
    assert!(s.modal.is_none());
}

#[test]
fn only_new_passwords_go_to_the_keyring() {
    let hosts = vec![
        host(1, "a", SshAuth::Password { password: "pw".into() }),
        host(2, "b", SshAuth::Password { password: String::new() }),
        host(3, "c", SshAuth::KeyFile { path: "/k".into(), passphrase: "x".into() }),
    ];
    assert_eq!(passwords_to_store(&hosts), vec![(HostId(1), "pw".to_string())]);
}

#[test]
fn error_messages() {
    assert_eq!(LoadError::Parse("eof".into()).message(), "parse hosts.json failed: eof");
    assert_eq!(
        SaveError::Secret(SecretError::NoEntry).message(),
        "keyring 写入失败: 条目不存在"
    );
}

#[test]
fn reloading_hosts_clears_or_keeps_the_error() {
    let mut s = AppState::with_hosts(vec![]);
    s.hosts_load_error = Some("x".into());
    match s.reload_hosts(Err("bad".into())) {
        UiAction::ToastError(m) => assert_eq!(m, "加载失败：bad"),
        other => panic!("unexpected {:?}", other),
    }
    assert_eq!(s.hosts_load_error.as_deref(), Some("bad"));
    match s.reload_hosts(Ok(vec![host(1, "a", SshAuth::Agent)])) {
        UiAction::ToastSuccess(m) => assert_eq!(m, "主机列表已恢复"),
        other => panic!("unexpected {:?}", other),
    }
    assert!(s.hosts_load_error.is_none());
    assert_eq!(s.hosts.len(), 1);
}

#[test]
fn delete_button_of_edit_dialog_asks_for_confirmation() {
    let mut s = AppState::with_hosts(vec![host(3, "db", SshAuth::Agent)]);
    assert!(!s.ask_delete_from_edit());
    assert!(s.modal.is_none());
    assert!(s.open_edit_form(HostId(3)));
    if let Some(HostFormState::Editing { draft, .. }) = &mut s.modal {
        draft.label = "db-renamed".into();
    }
    assert!(s.ask_delete_from_edit());
    match &s.modal {
        Some(HostFormState::DeleteConfirm { id, label }) => {
            assert_eq!(*id, HostId(3));
            assert_eq!(label, "db-renamed");
        }
        other => panic!("expected a delete confirmation, got {:?}", other),
    }
    s.cancel_host_form();
    assert!(s.modal.is_none());
    assert_eq!(s.hosts.len(), 1);
}
