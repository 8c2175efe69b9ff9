use aish::ids::{ConnectionId, HostId, SessionId, TabId};
use aish::model::{HostConfig, RemoteSession, SshAuth};
use aish::recent::{recent_hosts, RECENT_LIST_MAX};
use aish::state::{AppState, SidebarTab, Tab, TabContent, TmuxState};
use aish::ui::{
    menu_step, ssh_command, CardClick, MainPage, MenuKey, PhaseOverlay, PickerKey, PickerStep,
    HOST_MENU_ITEM_COUNT,
};

fn host(id: u128, label: &str) -> HostConfig {
    HostConfig {
        id: HostId(id),
        label: label.into(),
        host: "h.example".into(),
        port: 22,
        user: "me".into(),
        auth: SshAuth::Agent,
        os_kind: None,
    }
}

#[test]
fn ssh_command_omits_default_port() {
    let mut h = host(1, "a");
    assert_eq!(ssh_command(&h), "ssh me@h.example");
    h.port = 2222;
    assert_eq!(ssh_command(&h), "ssh -p 2222 me@h.example");
}

#[test]
fn menu_navigation_wraps() {
    assert_eq!(menu_step(0, MenuKey::Up, HOST_MENU_ITEM_COUNT), 2);
    assert_eq!(menu_step(2, MenuKey::Down, HOST_MENU_ITEM_COUNT), 0);
    assert_eq!(menu_step(1, MenuKey::Down, HOST_MENU_ITEM_COUNT), 2);
}

#[test]
fn recent_hosts_sorted_and_limited() {
    let mut s = AppState::with_hosts((1..=7).map(|i| host(i, &format!("h{}", i))).collect());
    for i in 1..=7u128 {
        s.last_connected.insert(i, 100 + i);
    }
    s.last_connected.insert(99, 1000); // a host that is gone
    let r = recent_hosts(&s, RECENT_LIST_MAX);
    let ids: Vec<u128> = r.iter().map(|e| e.host_id.0).collect();
    assert_eq!(ids, vec![7, 6, 5, 4, 3]);
    assert_eq!(r[0].label, "h7");
    assert_eq!(r[0].last, 107);
    let all = recent_hosts(&s, 10);
    assert_eq!(all.len(), 7);
}

#[test]
fn connect_in_new_tab_titles_and_records() {
    let mut s = AppState::with_hosts(vec![host(5, "web")]);
    let (conn, tab) = s.connect_in_new_tab(HostId(5), 1234, Some("新连接"));
    assert_eq!(s.selected_tab, Some(tab));
    assert_eq!(s.sidebar, SidebarTab::Terminal);
    assert_eq!(s.tabs.last().unwrap().title, "web");
    assert_eq!(s.tabs.last().unwrap().content, TabContent::Connection(conn));
    assert_eq!(s.last_connected.get(&5), Some(&1234));
    assert_eq!(s.connection(conn).unwrap().label, "web #1");
    let (_, _) = s.connect_in_new_tab(HostId(6), 1, None);
    assert_eq!(s.tabs.last().unwrap().title, "host #1");
    let (_, _) = s.connect_in_new_tab(HostId(6), 1, Some("新连接"));
    assert_eq!(s.tabs.last().unwrap().title, "新连接");
}

#[test]
fn show_connection_reuses_its_tab() {
    let mut s = AppState::with_hosts(vec![host(5, "web")]);
    let conn = s.open_connection(HostId(5));
    let t = s.show_connection(conn);
    assert_eq!(s.tabs.len(), 1);
    assert_eq!(s.tabs[0].title, "web");
    s.append_default_tab();
    assert_eq!(s.show_connection(conn), t);
    assert_eq!(s.tabs.len(), 2);
    assert_eq!(s.selected_tab, Some(t));
}

#[test]
fn closing_a_connection_tab_stops_its_task() {
    let mut s = AppState::with_hosts(vec![host(5, "web")]);
    let conn = s.open_connection(HostId(5));
    s.register_session(conn);
    s.tabs.push(Tab { id: TabId(1), content: TabContent::Connection(conn), title: "t".into(), title_locked: false });
    assert_eq!(s.close_tab_and_connection(TabId(1)), Some(conn));
    assert!(s.tabs.is_empty());
    assert!(s.connection(conn).is_none());
    assert_eq!(s.close_tab_and_connection(TabId(1)), None);
    let _ = ConnectionId(0);
}

#[test]
fn detach_keeps_the_connection_and_goes_home() {
    let mut s = AppState::with_hosts(vec![host(5, "web")]);
    let conn = s.open_connection(HostId(5));
    s.tabs.push(Tab { id: TabId(1), content: TabContent::Connection(conn), title: "t".into(), title_locked: false });
    s.sidebar = SidebarTab::Terminal;
    s.detach_tab(TabId(1));
    assert!(s.tabs.is_empty());
    assert!(s.connection(conn).is_some());
    assert_eq!(s.sidebar, SidebarTab::Home);
}

#[test]
fn other_tab_ids_skips_the_kept_tab() {
    let mut s = AppState::with_hosts(vec![]);
    for i in 0..3u128 {
        s.tabs.push(Tab { id: TabId(i), content: TabContent::Default, title: "t".into(), title_locked: false });
    }
    assert_eq!(s.other_tab_ids(TabId(1)), vec![TabId(0), TabId(2)]);
}

use aish::ui::sidebar_shortcut;

#[test]
fn sidebar_shortcuts() {
    assert_eq!(sidebar_shortcut("1", true, false, false), Some(SidebarTab::Home));
    assert_eq!(sidebar_shortcut("3", true, false, false), Some(SidebarTab::Settings));
    assert_eq!(sidebar_shortcut("2", true, true, false), None);
    assert_eq!(sidebar_shortcut("2", false, false, false), None);
    assert_eq!(sidebar_shortcut("4", true, false, false), None);
}

#[test]
fn committing_a_rename_trims_or_defaults() {
    let mut s = AppState::with_hosts(vec![]);
    s.tabs.push(Tab { id: TabId(1), content: TabContent::Default, title: "t".into(), title_locked: false });
    s.commit_tab_rename(TabId(1), "  prod  ");
    assert_eq!(s.tabs[0].title, "prod");
    assert!(s.tabs[0].title_locked);
    s.commit_tab_rename(TabId(1), "   ");
    assert_eq!(s.tabs[0].title, "新连接");
}

#[test]
fn session_picker_shows_only_on_its_terminal() {
    let mut s = AppState::with_hosts(vec![host(5, "web")]);
    let conn = s.open_connection(HostId(5));
    s.register_session(conn);
    s.tabs.push(Tab { id: TabId(1), content: TabContent::Connection(conn), title: "t".into(), title_locked: false });
    s.selected_tab = Some(TabId(1));
    s.pending_session_picker = Some(conn);
    assert_eq!(s.session_picker_target(), None);
    s.sidebar = SidebarTab::Terminal;
    assert_eq!(s.session_picker_target(), Some(conn));
    assert!(s.close_session_picker(conn));
    assert_eq!(s.pending_session_picker, None);
    assert_eq!(s.close_selected_tab(), Some(conn));
    assert!(s.tabs.is_empty());
}

fn picker_state(conn: ConnectionId, names: &[&str]) -> AppState {
    let mut s = AppState::with_hosts(vec![]);
    let sessions = names
        .iter()
        .enumerate()
        .map(|(i, n)| RemoteSession {
            id: SessionId::new(&format!("${}", i)),
            name: n.to_string(),
            windows: 1,
            activity: 0,
        })
        .collect();
    s.tmux_state.insert(conn.0, TmuxState::Detected { sessions, attached: None });
    s
}

#[test]
fn session_picker_arrows_wrap() {
    let conn = ConnectionId(7);
    let s = picker_state(conn, &["a", "b", "c"]);
    assert!(matches!(s.session_picker_key(conn, 0, PickerKey::Up), PickerStep::Select(2)));
    assert!(matches!(s.session_picker_key(conn, 2, PickerKey::Down), PickerStep::Select(0)));
    assert!(matches!(s.session_picker_key(conn, 1, PickerKey::Down), PickerStep::Select(2)));
    assert!(matches!(s.session_picker_key(conn, 1, PickerKey::Up), PickerStep::Select(0)));
}

#[test]
fn session_picker_enter_picks_highlighted() {
    let conn = ConnectionId(7);
    let s = picker_state(conn, &["a", "b"]);
    match s.session_picker_key(conn, 1, PickerKey::Enter) {
        PickerStep::Pick(sid) => assert_eq!(sid.as_str(), "$1"),
        other => panic!("expected a pick, got {:?}", other),
    }
    assert!(matches!(s.session_picker_key(conn, 5, PickerKey::Enter), PickerStep::Ignore));
}

#[test]
fn session_picker_ignores_keys_without_sessions() {
    let conn = ConnectionId(7);
    let s = picker_state(conn, &[]);
    assert!(matches!(s.session_picker_key(conn, 0, PickerKey::Down), PickerStep::Ignore));
    let other = AppState::with_hosts(vec![]);
    assert!(matches!(other.session_picker_key(conn, 0, PickerKey::Enter), PickerStep::Ignore));
}

#[test]
fn card_click_reconnects_only_disconnected() {
    let mut s = AppState::with_hosts(vec![host(1, "a")]);
    let conn = s.open_connection(HostId(1));
    assert_eq!(s.card_click(conn), CardClick::Open);
    s.register_session(conn);
    assert_eq!(s.card_click(conn), CardClick::Open);
    s.mark_connected(conn);
    assert_eq!(s.card_click(conn), CardClick::Open);
    s.drop_session(conn, "eof");
    assert_eq!(s.card_click(conn), CardClick::Reconnect);
}

#[test]
fn main_page_follows_sidebar_and_tabs() {
    let mut s = AppState::with_hosts(vec![host(1, "a")]);
    s.sidebar = SidebarTab::Home;
    assert_eq!(s.main_page(), MainPage::Home);
    s.sidebar = SidebarTab::Settings;
    assert_eq!(s.main_page(), MainPage::Settings);
    s.sidebar = SidebarTab::Terminal;
    assert_eq!(s.main_page(), MainPage::EmptyTerminal);
    s.append_default_tab();
    assert_eq!(s.main_page(), MainPage::Terminal { picker: None, input_bar: None });
    let (conn, _tab) = s.connect_in_new_tab(HostId(1), 100, None);
    assert_eq!(s.main_page(), MainPage::Terminal { picker: None, input_bar: Some(conn) });
    s.pending_session_picker = Some(conn);
    assert_eq!(s.main_page(), MainPage::Terminal { picker: Some(conn), input_bar: Some(conn) });
    s.sidebar = SidebarTab::Home;
    assert_eq!(s.main_page(), MainPage::Home);
}

#[test]
fn terminal_overlay_by_phase() {
    let mut s = AppState::with_hosts(vec![host(1, "web")]);
    assert_eq!(s.terminal_overlay(), PhaseOverlay::Clear);
    let (conn, _tab) = s.connect_in_new_tab(HostId(1), 100, None);
    assert_eq!(s.terminal_overlay(), PhaseOverlay::Clear);
    s.register_session(conn);
    assert_eq!(s.terminal_overlay(), PhaseOverlay::Connecting("正在连接 web #1 …".to_string()));
    s.mark_connected(conn);
    assert_eq!(s.terminal_overlay(), PhaseOverlay::Clear);
    s.drop_session(conn, "connection reset");
    assert_eq!(s.terminal_overlay(), PhaseOverlay::Disconnected("connection reset".to_string()));
}

#[test]
fn tab_items_mark_selection_and_live_sessions() {
    let mut s = AppState::with_hosts(vec![host(1, "web")]);
    let d = s.append_default_tab();
    let (conn, t) = s.connect_in_new_tab(HostId(1), 100, None);
    let items = s.tab_items();
    assert_eq!(items.len(), 2);
    assert_eq!(items[0].id, d);
    assert!(!items[0].selected && !items[0].is_connection && !items[0].alive);
    assert_eq!(items[1].id, t);
    assert_eq!(items[1].title, "web");
    assert!(items[1].selected && items[1].is_connection && !items[1].alive);
    s.register_session(conn);
    assert!(s.tab_items()[1].alive);
}
