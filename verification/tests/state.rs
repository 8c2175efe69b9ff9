use aish::humanize::{humanize_last_connected, humanize_nanos_since, humanize_secs};
use aish::recent::recent_hosts;
use aish::ids::{ConnectionId, HostId, SessionId, TabId};
use aish::model::{HostConfig, SshAuth};
use aish::state::{
    AppState, Connection, ConnectionPhase, SidebarTab, Tab, TabContent, TmuxState, DEFAULT_COLS,
    DEFAULT_ROWS,
};
use std::time::{Duration, SystemTime};

fn mk_host(label: &str) -> HostConfig {
    HostConfig {
        id: HostId::new(),
        label: label.into(),
        host: "example.com".into(),
        port: 22,
        user: "larry".into(),
        auth: SshAuth::KeyFile { path: "/tmp/k".into(), passphrase: String::new() },
        os_kind: None,
    }
}

fn tab(id: TabId, content: TabContent, title: &str) -> Tab {
    Tab { id, content, title: title.into(), title_locked: false }
}

#[test]
fn with_hosts_initializes() {
    let h = mk_host("a");
    let state = AppState::with_hosts(vec![h]);
    assert_eq!(state.hosts.len(), 1);
    assert!(state.host_pty_dimensions.is_empty());
}

#[test]
fn hosts_load_error_default_is_none() {
    let state = AppState::with_hosts(vec![]);
    assert!(state.hosts_load_error.is_none());
}

#[test]
fn register_session_inits_dimensions() {
    let h = mk_host("a");
    let host_id = h.id;
    let mut state = AppState::with_hosts(vec![h]);
    let conn = state.open_connection(host_id);
    state.register_session(conn);
    assert_eq!(state.host_pty_dimensions.get(&conn.0), Some(&(DEFAULT_COLS, DEFAULT_ROWS)));
    assert_eq!(state.connection_phases.get(&conn.0), Some(&ConnectionPhase::Connecting));
}

#[test]
fn drop_session_keeps_terminal() {
    let h = mk_host("a");
    let host_id = h.id;
    let mut state = AppState::with_hosts(vec![h]);
    let conn = state.open_connection(host_id);
    state.register_session(conn);
    state.drop_session(conn, "test");
    assert!(!state.is_session_active(conn));
    assert!(state.connection(conn).is_some());
    assert_eq!(
        state.connection_phases.get(&conn.0),
        Some(&ConnectionPhase::Disconnected { reason: "test".into() })
    );
}

#[test]
fn resize_updates_dimensions() {
    let h = mk_host("a");
    let host_id = h.id;
    let mut state = AppState::with_hosts(vec![h]);
    let conn = state.open_connection(host_id);
    state.resize_term(conn, 100, 30);
    assert_eq!(state.host_pty_dimensions.get(&conn.0), Some(&(100, 30)));
    assert_eq!(state.pty_dimensions(conn), (100, 30));
    assert_eq!(state.pty_dimensions(ConnectionId(0)), (DEFAULT_COLS, DEFAULT_ROWS));
}

#[test]
fn open_connection_assigns_incrementing_label() {
    let h = mk_host("box");
    let host_id = h.id;
    let mut state = AppState::with_hosts(vec![h]);
    let c1 = state.open_connection(host_id);
    let c2 = state.open_connection(host_id);
    assert_ne!(c1, c2);
    assert_eq!(state.connection(c1).unwrap().label, "box #1");
    assert_eq!(state.connection(c2).unwrap().label, "box #2");
}

#[test]
fn open_connection_for_unknown_host_is_labelled_host() {
    let mut state = AppState::with_hosts(vec![]);
    let c = state.open_connection(HostId(42));
    assert_eq!(state.connection(c).unwrap().label, "host #1");
}

#[test]
fn remove_connection_clears_all_per_conn_state() {
    let h = mk_host("a");
    let host_id = h.id;
    let mut state = AppState::with_hosts(vec![h]);
    let conn = state.open_connection(host_id);
    state.host_pty_dimensions.insert(conn.0, (80, 24));
    state.tmux_state.insert(conn.0, TmuxState::NotChecked);
    state.remove_connection(conn);
    assert!(state.connection(conn).is_none());
    assert!(!state.host_pty_dimensions.contains_key(&conn.0));
    assert!(!state.tmux_state.contains_key(&conn.0));
}

#[test]
fn remove_connection_closes_referencing_tab() {
    let h = mk_host("a");
    let host_id = h.id;
    let mut state = AppState::with_hosts(vec![h]);
    let conn = state.open_connection(host_id);
    let tab_id = TabId::new();
    state.tabs.push(tab(tab_id, TabContent::Connection(conn), "x"));
    state.selected_tab = Some(tab_id);
    state.remove_connection(conn);
    assert!(!state.tabs.iter().any(|t| t.id == tab_id));
}

#[test]
fn remove_connection_selects_the_next_surviving_tab() {
    let mut state = AppState::with_hosts(vec![]);
    let conn = state.open_connection(HostId(1));
    let ids: Vec<TabId> = (0..4).map(|i| TabId(100 + i)).collect();
    state.tabs.push(tab(ids[0], TabContent::Default, "a"));
    state.tabs.push(tab(ids[1], TabContent::Connection(conn), "b"));
    state.tabs.push(tab(ids[2], TabContent::Connection(conn), "c"));
    state.tabs.push(tab(ids[3], TabContent::Default, "d"));
    state.selected_tab = Some(ids[1]);
    state.pending_session_picker = Some(conn);
    state.remove_connection(conn);
    assert_eq!(state.tabs.len(), 2);
    assert_eq!(state.selected_tab, Some(ids[3]));
    assert_eq!(state.pending_session_picker, None);
}

#[test]
fn cycle_selected_tab_wraps_around() {
    let mut state = AppState::with_hosts(vec![]);
    let ids: Vec<_> = (0..3).map(|_| TabId::new()).collect();
    for id in &ids {
        state.tabs.push(tab(*id, TabContent::Default, "t"));
    }
    state.selected_tab = Some(ids[2]);
    assert!(state.cycle_selected_tab(1));
    assert_eq!(state.selected_tab, Some(ids[0]));
    assert!(state.cycle_selected_tab(-1));
    assert_eq!(state.selected_tab, Some(ids[2]));
}

#[test]
fn cycle_selected_tab_by_large_steps() {
    let mut state = AppState::with_hosts(vec![]);
    let ids: Vec<_> = (0..3).map(|i| TabId(i)).collect();
    for id in &ids {
        state.tabs.push(tab(*id, TabContent::Default, "t"));
    }
    state.selected_tab = Some(ids[0]);
    assert!(state.cycle_selected_tab(-4));
    assert_eq!(state.selected_tab, Some(ids[2]));
    assert!(state.cycle_selected_tab(7));
    assert_eq!(state.selected_tab, Some(ids[0]));
}

#[test]
fn cycle_selected_tab_single_tab_noop() {
    let mut state = AppState::with_hosts(vec![]);
    let id = TabId::new();
    state.tabs.push(tab(id, TabContent::Default, "t"));
    state.selected_tab = Some(id);
    assert!(!state.cycle_selected_tab(1));
    assert!(!state.cycle_selected_tab(-1));
}

#[test]
fn append_default_tab_adds_and_selects() {
    let mut state = AppState::with_hosts(vec![]);
    let len_before = state.tabs.len();
    let id = state.append_default_tab();
    assert_eq!(state.tabs.len(), len_before + 1);
    assert_eq!(state.selected_tab, Some(id));
    assert!(matches!(state.tabs.last().unwrap().content, TabContent::Default));
    assert_eq!(state.tabs.last().unwrap().title, "新连接");
}

#[test]
fn move_tab_drag_right() {
    let mut state = AppState::with_hosts(vec![]);
    let ids: Vec<_> = (0..4).map(|_| TabId::new()).collect();
    for (i, id) in ids.iter().enumerate() {
        state.tabs.push(Tab { id: *id, content: TabContent::Default, title: format!("{}", i), title_locked: false });
    }
    assert!(state.move_tab(ids[0], ids[2]));
    assert_eq!(state.tabs[0].id, ids[1]);
    assert_eq!(state.tabs[1].id, ids[2]);
    assert_eq!(state.tabs[2].id, ids[0]);
    assert_eq!(state.tabs[3].id, ids[3]);
}

#[test]
fn move_tab_drag_left() {
    let mut state = AppState::with_hosts(vec![]);
    let ids: Vec<_> = (0..4).map(|_| TabId::new()).collect();
    for (i, id) in ids.iter().enumerate() {
        state.tabs.push(Tab { id: *id, content: TabContent::Default, title: format!("{}", i), title_locked: false });
    }
    assert!(state.move_tab(ids[2], ids[1]));
    assert_eq!(state.tabs[0].id, ids[0]);
    assert_eq!(state.tabs[1].id, ids[2]);
    assert_eq!(state.tabs[2].id, ids[1]);
    assert_eq!(state.tabs[3].id, ids[3]);
}

#[test]
fn move_tab_same_id_noop() {
    let mut state = AppState::with_hosts(vec![]);
    let id = TabId::new();
    state.tabs.push(tab(id, TabContent::Default, "x"));
    assert!(!state.move_tab(id, id));
    assert_eq!(state.tabs.len(), 1);
}

#[test]
fn move_tab_nonexistent_noop() {
    let mut state = AppState::with_hosts(vec![]);
    let real = TabId::new();
    let ghost = TabId::new();
    state.tabs.push(tab(real, TabContent::Default, "x"));
    assert!(!state.move_tab(ghost, real));
    assert!(!state.move_tab(real, ghost));
}

#[test]
fn move_selected_tab_right_swaps_with_neighbor() {
    let mut state = AppState::with_hosts(vec![]);
    let id1 = TabId::new();
    let id2 = TabId::new();
    state.tabs.push(tab(id1, TabContent::Default, "1"));
    state.tabs.push(tab(id2, TabContent::Default, "2"));
    state.selected_tab = Some(id1);
    assert!(state.move_selected_tab(1));
    assert_eq!(state.tabs[0].id, id2);
    assert_eq!(state.tabs[1].id, id1);
    assert_eq!(state.selected_tab, Some(id1));
}

#[test]
fn move_selected_tab_right_then_left_restores_order() {
    let mut state = AppState::with_hosts(vec![]);
    let ids: Vec<_> = (0..3).map(|i| TabId(i)).collect();
    for id in &ids {
        state.tabs.push(tab(*id, TabContent::Default, "t"));
    }
    state.selected_tab = Some(ids[1]);
    assert!(state.move_selected_tab(1));
    assert!(state.move_selected_tab(-1));
    let order: Vec<TabId> = state.tabs.iter().map(|t| t.id).collect();
    assert_eq!(order, ids);
}

#[test]
fn move_selected_tab_at_boundary_noop() {
    let mut state = AppState::with_hosts(vec![]);
    let id1 = TabId::new();
    state.tabs.push(tab(id1, TabContent::Default, "1"));
    state.selected_tab = Some(id1);
    assert!(!state.move_selected_tab(-1));
    assert!(!state.move_selected_tab(1));
}

#[test]
fn move_selected_tab_no_selection_noop() {
    let mut state = AppState::with_hosts(vec![]);
    assert!(!state.move_selected_tab(1));
    assert!(!state.move_selected_tab(-1));
}

#[test]
fn move_selected_tab_invalid_delta_noop() {
    let mut state = AppState::with_hosts(vec![]);
    let id1 = TabId::new();
    let id2 = TabId::new();
    state.tabs.push(tab(id1, TabContent::Default, "1"));
    state.tabs.push(tab(id2, TabContent::Default, "2"));
    state.selected_tab = Some(id1);
    assert!(!state.move_selected_tab(0));
    assert!(!state.move_selected_tab(2));
    assert!(!state.move_selected_tab(-2));
}

#[test]
fn close_tab_picks_neighbor_when_current() {
    let mut state = AppState::with_hosts(vec![]);
    let id1 = TabId::new();
    let id2 = TabId::new();
    state.tabs.push(tab(id1, TabContent::Default, "1"));
    state.tabs.push(tab(id2, TabContent::Default, "2"));
    state.selected_tab = Some(id2);
    state.close_tab(id2);
    assert_eq!(state.selected_tab, Some(id1));
    assert_eq!(state.tabs.len(), 1);
}

#[test]
fn close_tab_allows_empty_tabs() {
    let mut state = AppState::with_hosts(vec![]);
    let tab_id = TabId::new();
    state.tabs.push(tab(tab_id, TabContent::Default, "test"));
    state.selected_tab = Some(tab_id);
    state.close_tab(tab_id);
    assert!(state.tabs.is_empty(), "tabs should be empty after closing last tab");
}

#[test]
fn remove_host_keeps_active_connections() {
    let h = mk_host("a");
    let host_id = h.id;
    let mut state = AppState::with_hosts(vec![h]);
    let conn = state.open_connection(host_id);
    assert!(state.remove_host(host_id));
    assert!(state.hosts.is_empty());
    assert!(state.connection(conn).is_some());
}

#[test]
fn add_host_appends() {
    let mut state = AppState::with_hosts(vec![]);
    let h = mk_host("v");
    let id = h.id;
    state.add_host(h);
    assert_eq!(state.hosts.len(), 1);
    assert_eq!(state.hosts[0].id, id);
}

#[test]
fn update_host_replaces_in_place() {
    let h1 = mk_host("orig");
    let id = h1.id;
    let mut state = AppState::with_hosts(vec![h1]);
    let mut new_cfg = mk_host("renamed");
    new_cfg.id = id;
    let ok = state.update_host(id, new_cfg);
    assert!(ok);
    assert_eq!(state.hosts[0].label, "renamed");
}

#[test]
fn update_host_returns_false_for_unknown_id() {
    let mut state = AppState::with_hosts(vec![]);
    let unknown = HostId::new();
    let cfg = mk_host("x");
    let ok = state.update_host(unknown, cfg);
    assert!(!ok);
}

#[test]
fn remove_host_only_removes_config() {
    let h = mk_host("v");
    let host_id = h.id;
    let mut state = AppState::with_hosts(vec![h]);
    let ok = state.remove_host(host_id);
    assert!(ok);
    assert!(state.hosts.is_empty());
}

#[test]
fn remove_host_returns_false_for_unknown_id() {
    let mut state = AppState::with_hosts(vec![]);
    let unknown = HostId::new();
    assert!(!state.remove_host(unknown));
}

#[test]
fn drop_session_clears_tmux_state() {
    let h = mk_host("a");
    let host_id = h.id;
    let mut state = AppState::with_hosts(vec![h]);
    let conn = state.open_connection(host_id);
    state.register_session(conn);
    state.tmux_state.insert(conn.0, TmuxState::NotChecked);
    state.drop_session(conn, "test");
    assert!(!state.tmux_state.contains_key(&conn.0));
}

#[test]
fn mark_tmux_attached_updates_detected_state() {
    let h = mk_host("a");
    let host_id = h.id;
    let mut state = AppState::with_hosts(vec![h]);
    let conn = state.open_connection(host_id);
    let sess = SessionId::new("$0");
    state.tmux_state.insert(conn.0, TmuxState::Detected { sessions: vec![], attached: None });
    state.mark_tmux_attached(conn, sess.duplicate());
    match state.tmux_state.get(&conn.0) {
        Some(TmuxState::Detected { attached, .. }) => assert_eq!(attached.as_ref(), Some(&sess)),
        other => panic!("expected Detected, got {:?}", other),
    }
}

#[test]
fn mark_tmux_attached_noop_when_not_detected() {
    let h = mk_host("a");
    let host_id = h.id;
    let mut state = AppState::with_hosts(vec![h]);
    let conn = state.open_connection(host_id);
    state.tmux_state.insert(conn.0, TmuxState::NotChecked);
    state.mark_tmux_attached(conn, SessionId::new("$0"));
    assert!(matches!(state.tmux_state.get(&conn.0), Some(TmuxState::NotChecked)));
}

#[test]
fn mark_tmux_detached_clears_only_the_same_session() {
    let mut state = AppState::with_hosts(vec![]);
    let conn = ConnectionId(5);
    state.tmux_state.insert(conn.0, TmuxState::Detected { sessions: vec![], attached: None });
    state.mark_tmux_attached(conn, SessionId::new("$1"));
    state.mark_tmux_detached(conn, SessionId::new("$2"));
    assert!(matches!(
        state.tmux_state.get(&conn.0),
        Some(TmuxState::Detected { attached: Some(_), .. })
    ));
    state.mark_tmux_detached(conn, SessionId::new("$1"));
    assert!(matches!(
        state.tmux_state.get(&conn.0),
        Some(TmuxState::Detected { attached: None, .. })
    ));
}

#[test]
fn set_tab_title_respects_lock_and_trims() {
    let mut state = AppState::with_hosts(vec![]);
    let conn = ConnectionId(9);
    let locked = TabId(1);
    let open = TabId(2);
    state.tabs.push(Tab { id: locked, content: TabContent::Connection(conn), title: "mine".into(), title_locked: true });
    state.tabs.push(tab(open, TabContent::Connection(conn), "old"));
    assert!(state.set_tab_title_for_conn(conn, "  user@box: ~  ".into()));
    assert_eq!(state.tabs[0].title, "mine");
    assert_eq!(state.tabs[1].title, "user@box: ~");
    assert!(!state.set_tab_title_for_conn(conn, "user@box: ~".into()));
    assert!(!state.set_tab_title_for_conn(conn, "   ".into()));
    state.rename_tab_locked(open, "renamed".into());
    assert!(!state.set_tab_title_for_conn(conn, "other".into()));
    assert_eq!(state.tabs[1].title, "renamed");
    assert!(state.tabs[1].title_locked);
}

#[test]
fn reopen_connection_returns_host_and_reconnects() {
    let h = mk_host("a");
    let host_id = h.id;
    let mut state = AppState::with_hosts(vec![h]);
    let conn = state.open_connection(host_id);
    state.register_session(conn);
    state.mark_connected(conn);
    assert_eq!(state.connection_phases.get(&conn.0), Some(&ConnectionPhase::Connected));
    state.drop_session(conn, "bye");
    assert_eq!(state.reopen_connection(conn), Some(host_id));
    assert!(state.is_session_active(conn));
    assert_eq!(state.connection_phases.get(&conn.0), Some(&ConnectionPhase::Connecting));
    assert_eq!(state.reopen_connection(ConnectionId(0)), None);
}

#[test]
fn sidebar_default_is_home() {
    let state = AppState::with_hosts(vec![]);
    assert_eq!(state.sidebar, SidebarTab::Home);
}

#[test]
fn with_hosts_starts_with_empty_tabs() {
    let state = AppState::with_hosts(vec![]);
    assert!(state.tabs.is_empty());
    assert_eq!(state.selected_tab, None);
}

#[test]
fn humanize_opened_at_just_now() {
    let conn = Connection {
        id: ConnectionId::new(),
        host_id: HostId::new(),
        label: "test".into(),
        opened_at: SystemTime::now(),
    };
    assert_eq!(conn.humanize_opened_at(), "just now");
}

#[test]
fn humanize_opened_at_minutes() {
    let conn = Connection {
        id: ConnectionId::new(),
        host_id: HostId::new(),
        label: "test".into(),
        opened_at: SystemTime::now() - Duration::from_secs(125),
    };
    assert_eq!(conn.humanize_opened_at(), "2m ago");
}

#[test]
fn humanize_last_connected_just_now() {
    let t = SystemTime::now();
    assert_eq!(humanize_last_connected(t), "just now");
}

#[test]
fn humanize_last_connected_hours() {
    let t = SystemTime::now() - Duration::from_secs(7200);
    assert_eq!(humanize_last_connected(t), "2h ago");
}

#[test]
fn humanize_thresholds() {
    assert_eq!(humanize_secs(59), "just now");
    assert_eq!(humanize_secs(60), "1m ago");
    assert_eq!(humanize_secs(86399), "23h ago");
    assert_eq!(humanize_secs(86400), "yesterday");
    assert_eq!(humanize_secs(172799), "yesterday");
    assert_eq!(humanize_secs(172800), "2d ago");
}

#[test]
fn last_connected_field_accessible() {
    let state = AppState::with_hosts(vec![]);
    assert!(state.last_connected.is_empty());
}

#[test]
fn connections_of_counts_a_hosts_connections() {
    let a = mk_host("a");
    let b = mk_host("b");
    let (ida, idb) = (a.id, b.id);
    let mut state = AppState::with_hosts(vec![a, b]);
    state.open_connection(ida);
    state.open_connection(ida);
    state.open_connection(idb);
    assert_eq!(state.connections_of(ida), 2);
    assert_eq!(state.connections_of(idb), 1);
    assert_eq!(state.connections_of(HostId::new()), 0);
}

#[test]
fn cycle_selected_tab_with_large_delta() {
    let mut state = AppState::with_hosts(vec![]);
    let ids: Vec<TabId> = (0..3).map(|_| TabId::new()).collect();
    for id in &ids {
        state.tabs.push(tab(*id, TabContent::Default, "t"));
    }
    state.selected_tab = Some(ids[0]);
    // (0 + i32::MAX - 1) mod 3 == 0
    assert!(state.cycle_selected_tab(i32::MAX - 1));
    assert_eq!(state.selected_tab, Some(ids[0]));
    assert!(state.cycle_selected_tab(i32::MIN));
    // (0 + i32::MIN) rem_euclid 3 == 1
    assert_eq!(state.selected_tab, Some(ids[1]));
}

#[test]
fn humanize_nanos_since_uses_whole_seconds() {
    let base: u128 = 1_715_174_400_000_000_000;
    assert_eq!(humanize_nanos_since(base, base + 59_999_999_999), "just now");
    assert_eq!(humanize_nanos_since(base, base + 60_000_000_000), "1m ago");
    assert_eq!(humanize_nanos_since(base + 5, base), "just now");
}

#[test]
fn recent_order_follows_sub_second_times() {
    let a = mk_host("a");
    let b = mk_host("b");
    let (ida, idb) = (a.id, b.id);
    let mut state = AppState::with_hosts(vec![a, b]);
    state.last_connected.insert(ida.0, 1_000_000_000_000);
    state.last_connected.insert(idb.0, 1_000_000_000_500);
    let r = recent_hosts(&state, 5);
    assert_eq!(r[0].host_id, idb);
    assert_eq!(r[1].host_id, ida);
}
