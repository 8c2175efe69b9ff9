use aish::home::active_cards;
use aish::ids::{HostId, SessionId};
use aish::model::{HostConfig, RemoteSession, SshAuth};
use aish::state::{AppState, TmuxState};

fn mk_host(label: &str, host: &str, port: u16) -> HostConfig {
    HostConfig {
        id: HostId::new(),
        label: label.into(),
        host: host.into(),
        port,
        user: "larry".into(),
        auth: SshAuth::KeyFile { path: "/tmp/k".into(), passphrase: String::new() },
        os_kind: None,
    }
}

#[test]
fn active_cards_only_for_connections_with_a_phase() {
    let h = mk_host("web", "example.com", 2222);
    let host_id = h.id;
    let mut state = AppState::with_hosts(vec![h]);
    let a = state.open_connection(host_id);
    let b = state.open_connection(host_id);
    state.register_session(b);
    let cards = active_cards(&state);
    assert_eq!(cards.len(), 1);
    assert_eq!(cards[0].conn, b);
    assert_ne!(cards[0].conn, a);
    assert_eq!(cards[0].host_label, "web");
    assert_eq!(cards[0].user_at_host, "larry@example.com:2222");
    assert_eq!(cards[0].tmux_label, None);
}

#[test]
fn active_cards_sorted_by_connection_id() {
    let h = mk_host("web", "example.com", 22);
    let host_id = h.id;
    let mut state = AppState::with_hosts(vec![h]);
    let mut ids = Vec::new();
    for _ in 0..4 {
        let c = state.open_connection(host_id);
        state.register_session(c);
        ids.push(c);
    }
    let cards = active_cards(&state);
    assert_eq!(cards.len(), 4);
    for w in cards.windows(2) {
        assert!(w[0].conn.0 < w[1].conn.0);
    }
    ids.sort_by_key(|c| c.0);
    let got: Vec<_> = cards.iter().map(|c| c.conn).collect();
    assert_eq!(got, ids);
}

#[test]
fn active_card_of_a_removed_host_is_unknown() {
    let h = mk_host("web", "example.com", 22);
    let host_id = h.id;
    let mut state = AppState::with_hosts(vec![h]);
    let c = state.open_connection(host_id);
    state.register_session(c);
    assert!(state.remove_host(host_id));
    let cards = active_cards(&state);
    assert_eq!(cards.len(), 1);
    assert_eq!(cards[0].host_label, "unknown");
    assert_eq!(cards[0].user_at_host, "");
}

#[test]
fn active_card_names_the_attached_tmux_session() {
    let h = mk_host("web", "example.com", 22);
    let host_id = h.id;
    let mut state = AppState::with_hosts(vec![h]);
    let c = state.open_connection(host_id);
    state.register_session(c);
    let sessions = vec![
        RemoteSession { id: SessionId::new("$0"), name: "main".into(), windows: 1, activity: 0 },
        RemoteSession { id: SessionId::new("$1"), name: "work".into(), windows: 2, activity: 0 },
    ];
    state.tmux_state.insert(
        c.0,
        TmuxState::Detected { sessions, attached: Some(SessionId::new("$1")) },
    );
    let cards = active_cards(&state);
    assert_eq!(cards[0].tmux_label.as_deref(), Some("work"));

    state.mark_tmux_detached(c, SessionId::new("$1"));
    let cards = active_cards(&state);
    assert_eq!(cards[0].tmux_label, None);
}
