//! What the views do to the state when the user clicks: opening a host in a
//! new tab, showing a connection, closing or detaching tabs, and the
//! keyboard navigation of context menus.
use vstd::prelude::*;
use crate::ids::{random_uuid_value, ConnectionId, HostId, TabId};
use crate::ids::SessionId;
use crate::model::{HostConfig, RemoteSession};
use crate::state::TmuxState;
use crate::seqs;
use crate::state::{self, AppState, SidebarTab, Tab, TabContent};
use crate::text::{self, chars_eq, chars_of, dec_string};

verus! {

broadcast use vstd::std_specs::hash::group_hash_axioms;

/// Number of entries of the host context menu (edit, copy ssh command,
/// delete).
pub const HOST_MENU_ITEM_COUNT: usize = 3;

/// Number of entries of the tab context menu (rename, detach, close, close
/// others).
pub const TAB_MENU_ITEM_COUNT: usize = 4;

/// A key of the menu navigation.
#[derive(Debug, Clone, Copy, PartialEq, Eq, Structural)]
pub enum MenuKey {
    Up,
    Down,
}

/// What the main area of the window shows.
#[derive(Debug, Clone, Copy, PartialEq, Eq, Structural)]
pub enum MainPage {
    Home,
    /// The terminal page without any tab: the getting-started guide.
    EmptyTerminal,
    /// The terminal page: the tab bar, the terminal of the selected tab,
    /// the session picker of `picker` over it, and the input bar of
    /// `input_bar` (none for a tab without a connection).
    Terminal { picker: Option<ConnectionId>, input_bar: Option<ConnectionId> },
    Settings,
}

/// What covers the terminal of the selected connection.
#[derive(Debug, PartialEq, Eq)]
pub enum PhaseOverlay {
    /// Nothing: the terminal shows as it is.
    Clear,
    /// A veil with this text while connecting.
    Connecting(String),
    /// A bar at the bottom with the reason and a reconnect button.
    Disconnected(String),
}

/// The label of the connection `c`, empty when there is none.
pub open spec fn conn_label_or_empty(cs: Seq<state::Connection>, c: ConnectionId) -> Seq<char> {
    match state::conn_pos(cs, c) {
        Some(i) => cs[i].label@,
        None => Seq::empty(),
    }
}

/// One tab of the tab bar as drawn: its title, whether it is selected,
/// whether it shows a connection, and whether that connection's SSH task
/// runs (green dot) or not (grey).
#[derive(Debug, PartialEq, Eq)]
pub struct TabItem {
    pub id: TabId,
    pub title: String,
    pub selected: bool,
    pub is_connection: bool,
    pub alive: bool,
}

/// Whether `item` draws the tab `t` of a bar whose selection is `sel`,
/// given the running SSH tasks.
pub open spec fn tab_item_of(t: Tab, sel: Option<TabId>, sessions: Set<u128>, item: TabItem) -> bool {
    &&& item.id == t.id
    &&& item.title@ == t.title@
    &&& item.selected == (sel == Some(t.id))
    &&& item.is_connection == (t.content is Connection)
    &&& item.alive == (t.content matches TabContent::Connection(c) && sessions.contains(c.0))
}

/// What a click on a live-session card of the home page does.
#[derive(Debug, Clone, Copy, PartialEq, Eq, Structural)]
pub enum CardClick {
    /// The connection ended: open it again under the same id.
    Reconnect,
    /// Show the connection in its tab (see `show_connection`).
    Open,
}

/// A key of the session picker.
#[derive(Debug, Clone, Copy, PartialEq, Eq, Structural)]
pub enum PickerKey {
    Up,
    Down,
    Enter,
}

/// What a key does in the session picker.
#[derive(Debug)]
pub enum PickerStep {
    /// Highlight this row.
    Select(usize),
    /// Attach this session.
    Pick(SessionId),
    /// Nothing.
    Ignore,
}

/// The sessions listed for `conn`, empty while no list is known.
pub open spec fn picker_sessions(m: Map<u128, TmuxState>, conn: ConnectionId) -> Seq<
    RemoteSession,
> {
    if m.contains_key(conn.0) {
        match m[conn.0] {
            TmuxState::Detected { sessions, .. } => sessions@,
            _ => Seq::empty(),
        }
    } else {
        Seq::empty()
    }
}

/// The highlighted entry of a menu of `count` entries after `key`, wrapping
/// at both ends.
pub fn menu_step(idx: usize, key: MenuKey, count: usize) -> (r: usize)
    requires
        count > 0,
        idx < usize::MAX,
    ensures
        idx < count ==> r < count,
        r == match key {
            MenuKey::Up => if idx == 0 {
                (count - 1) as int
            } else {
                idx - 1
            },
            MenuKey::Down => (idx + 1) % (count as int),
        },
{
    match key {
        MenuKey::Up => if idx == 0 {
            count - 1
        } else {
            idx - 1
        },
        MenuKey::Down => (idx + 1) % count,
    }
}

/// The command that logs in to `cfg` from a shell: `ssh user@host`, with
/// `-p <port>` unless the port is 22.
pub open spec fn ssh_command_spec(cfg: HostConfig) -> Seq<char> {
    if cfg.port == 22 {
        "ssh "@ + cfg.user@ + "@"@ + cfg.host@
    } else {
        "ssh -p "@ + text::dec_seq(cfg.port as nat) + " "@ + cfg.user@ + "@"@ + cfg.host@
    }
}

/// The command that logs in to `cfg` from a shell.
pub fn ssh_command(cfg: &HostConfig) -> (r: String)
    ensures
        r@ == ssh_command_spec(*cfg),
{
    let mut r = if cfg.port == 22 {
        "ssh ".to_owned()
    } else {
        let mut r = "ssh -p ".to_owned();
        let p = dec_string(cfg.port as u64);
        r.append(p.as_str());
        r.append(" ");
        r
    };
    r.append(cfg.user.as_str());
    r.append("@");
    r.append(cfg.host.as_str());
    r
}

/// The sidebar page a Ctrl+1/2/3 shortcut asks for; other keys, or other
/// modifiers with Ctrl, ask for none.
pub fn sidebar_shortcut(key: &str, ctrl: bool, shift: bool, alt: bool) -> (r: Option<SidebarTab>)
    ensures
        r == if !ctrl || shift || alt {
            None
        } else if key@ == "1"@ {
            Some(SidebarTab::Home)
        } else if key@ == "2"@ {
            Some(SidebarTab::Terminal)
        } else if key@ == "3"@ {
            Some(SidebarTab::Settings)
        } else {
            None
        },
{
    if !ctrl || shift || alt {
        return None;
    }
    let k = chars_of(key);
    if chars_eq(&k, "1") {
        Some(SidebarTab::Home)
    } else if chars_eq(&k, "2") {
        Some(SidebarTab::Terminal)
    } else if chars_eq(&k, "3") {
        Some(SidebarTab::Settings)
    } else {
        None
    }
}

/// The title a tab gets when a rename is committed: the trimmed text, or
/// "新连接" when that is empty.
pub open spec fn rename_title_spec(text: Seq<char>) -> Seq<char> {
    if text::trim_seq(text).len() == 0 {
        "新连接"@
    } else {
        text::trim_seq(text)
    }
}

/// The index of the first tab that shows `conn`.
pub open spec fn conn_tab_pos(tabs: Seq<Tab>, conn: ConnectionId) -> Option<int> {
    seqs::first_match(tabs, |t: Tab| t.content == TabContent::Connection(conn))
}

/// What closing the tab `id` with its connection does: the connection it
/// shows is gone (its task is to be stopped when it ran), or a plain tab
/// simply closes.
pub open spec fn close_tab_conn_spec(s0: AppState, s1: AppState, id: TabId, stop: Option<ConnectionId>) -> bool {
    match state::tab_pos(s0.tabs@, id) {
        Some(i) => match s0.tabs@[i].content {
            TabContent::Connection(c) => {
                &&& stop == if s0.sessions@.contains(c.0) {
                    Some(c)
                } else {
                    None
                }
                &&& !s1.sessions@.contains(c.0)
                &&& state::conn_pos(s1.connections@, c) is None
                &&& exists|mid: AppState|
                    #[trigger] state::removed_connection(s0, mid, c) && state::same_outside_tabs(s1, mid)
                        && (s1.tabs@, s1.selected_tab) == state::close_tab_spec(
                        mid.tabs@,
                        mid.selected_tab,
                        id,
                    )
            },
            TabContent::Default => stop is None && (s1.tabs@, s1.selected_tab) == state::close_tab_spec(
                s0.tabs@,
                s0.selected_tab,
                id,
            ) && state::same_outside_tabs(s1, s0),
        },
        None => stop is None && s1 == s0,
    }
}

impl AppState {
    /// Opens a connection to `host_id` in a new tab at the end, selects it,
    /// shows the terminal page and records `now` (nanoseconds since the Unix epoch) as the
    /// host's last connection. The tab is titled with the host's label; for
    /// a host that is gone, with `fallback`, or the connection's label when
    /// there is no fallback. Returns the connection and the tab.
    pub fn connect_in_new_tab(&mut self, host_id: HostId, now: u128, fallback: Option<&str>) -> (r: (
        ConnectionId,
        TabId,
    ))
        requires
            old(self).wf(),
        ensures
            final(self).wf(),
            ({
                let (conn, tab) = r;
                let mid_conns = final(self).connections@;
                &&& state::conn_pos(mid_conns, conn) matches Some(i) && {
                    let c = mid_conns[i];
                    &&& c.host_id == host_id
                    &&& c.label@ == state::next_label_spec(
                        old(self).hosts@,
                        old(self).connections@,
                        host_id,
                    )
                    &&& mid_conns == state::upsert_connection(old(self).connections@, c)
                }
                &&& final(self).tabs@.len() == old(self).tabs@.len() + 1
                &&& final(self).tabs@.drop_last() == old(self).tabs@
                &&& final(self).tabs@.last().id == tab
                &&& final(self).tabs@.last().content == TabContent::Connection(conn)
                &&& !final(self).tabs@.last().title_locked
                &&& final(self).tabs@.last().title@ == match state::host_label_spec(
                    old(self).hosts@,
                    host_id,
                ) {
                    Some(l) => l,
                    None => match fallback {
                        Some(f) => f@,
                        None => state::next_label_spec(
                            old(self).hosts@,
                            old(self).connections@,
                            host_id,
                        ),
                    },
                }
                &&& final(self).selected_tab == Some(tab)
                &&& final(self).sidebar == SidebarTab::Terminal
                &&& final(self).last_connected@ == old(self).last_connected@.insert(host_id.0, now)
            }),
            (*final(self)) == (AppState {
                connections: final(self).connections,
                tabs: final(self).tabs,
                selected_tab: final(self).selected_tab,
                sidebar: final(self).sidebar,
                last_connected: final(self).last_connected,
                ..*old(self)
            }),
    {
        let conn = self.open_connection(host_id);
        let title = match self.host_label(host_id) {
            Some(l) => l,
            None => match fallback {
                Some(f) => f.to_owned(),
                None => match self.connection(conn) {
                    Some(c) => c.label.clone(),
                    None => String::new(),
                },
            },
        };
        let tab = TabId(random_uuid_value());
        let ghost tabs0 = self.tabs@;
        self.tabs.push(Tab { id: tab, content: TabContent::Connection(conn), title, title_locked: false });
        assert(self.tabs@.drop_last() == tabs0);
        self.selected_tab = Some(tab);
        self.sidebar = SidebarTab::Terminal;
        self.last_connected.insert(host_id.0, now);
        (conn, tab)
    }

    /// Shows the connection `conn`: selects the first tab that shows it, or
    /// opens one at the end titled with its host's label ("connection" when
    /// unknown), and shows the terminal page. Returns the tab selected.
    pub fn show_connection(&mut self, conn: ConnectionId) -> (tab: TabId)
        ensures
            final(self).sidebar == SidebarTab::Terminal,
            final(self).selected_tab == Some(tab),
            match conn_tab_pos(old(self).tabs@, conn) {
                Some(i) => final(self).tabs@ == old(self).tabs@ && tab == old(self).tabs@[i].id,
                None => {
                    &&& final(self).tabs@.drop_last() == old(self).tabs@
                    &&& final(self).tabs@.len() == old(self).tabs@.len() + 1
                    &&& final(self).tabs@.last().id == tab
                    &&& final(self).tabs@.last().content == TabContent::Connection(conn)
                    &&& !final(self).tabs@.last().title_locked
                    &&& final(self).tabs@.last().title@ == match state::conn_pos(
                        old(self).connections@,
                        conn,
                    ) {
                        Some(c) => match state::host_label_spec(
                            old(self).hosts@,
                            old(self).connections@[c].host_id,
                        ) {
                            Some(l) => l,
                            None => "connection"@,
                        },
                        None => "connection"@,
                    }
                },
            },
            (*final(self)) == (AppState {
                tabs: final(self).tabs,
                selected_tab: final(self).selected_tab,
                sidebar: final(self).sidebar,
                ..*old(self)
            }),
    {
        let ghost p = |t: Tab| t.content == TabContent::Connection(conn);
        let mut i: usize = 0;
        while i < self.tabs.len()
            invariant
                i <= self.tabs.len(),
                *self == *old(self),
                p == (|t: Tab| t.content == TabContent::Connection(conn)),
                forall|j: int| 0 <= j < i ==> !p(#[trigger] self.tabs@[j]),
            decreases self.tabs.len() - i,
        {
            if self.tabs[i].content == TabContent::Connection(conn) {
                proof {
                    seqs::lemma_first_match(self.tabs@, p, i as int);
                }
                let id = self.tabs[i].id;
                self.selected_tab = Some(id);
                self.sidebar = SidebarTab::Terminal;
                return id;
            }
            i += 1;
        }
        proof {
            seqs::lemma_first_match(self.tabs@, p, i as int);
        }
        let title = match self.connection(conn) {
            Some(c) => match self.host_label(c.host_id) {
                Some(l) => l,
                None => "connection".to_owned(),
            },
            None => "connection".to_owned(),
        };
        let tab = TabId(random_uuid_value());
        let ghost tabs0 = self.tabs@;
        self.tabs.push(Tab { id: tab, content: TabContent::Connection(conn), title, title_locked: false });
        assert(self.tabs@.drop_last() == tabs0);
        self.selected_tab = Some(tab);
        self.sidebar = SidebarTab::Terminal;
        tab
    }

    /// Closes the tab `id`; when it shows a connection, that connection is
    /// removed first (as `remove_connection` does). Returns the connection
    /// whose SSH task must be told to disconnect: the one shown, when its
    /// task was running.
    pub fn close_tab_and_connection(&mut self, id: TabId) -> (stop: Option<ConnectionId>)
        requires
            old(self).wf(),
        ensures
            final(self).wf(),
            close_tab_conn_spec(*old(self), *final(self), id, stop),
    {
        let content = match self.find_tab(id) {
            Some(i) => self.tabs[i].content,
            None => return None,
        };
        let stop = match content {
            TabContent::Connection(c) => {
                let active = self.is_session_active(c);
                self.remove_connection(c);
                proof {
                    let mid = *self;
                    assert(state::removed_connection(*old(self), mid, c));
                }
                if active {
                    Some(c)
                } else {
                    None
                }
            },
            TabContent::Default => None,
        };
        self.close_tab(id);
        stop
    }

    /// Folds the tab `id` away without ending its connection: the tab
    /// closes, and when it showed a connection the home page comes up, where
    /// the connection is still listed.
    pub fn detach_tab(&mut self, id: TabId)
        ensures
            (final(self).tabs@, final(self).selected_tab) == state::close_tab_spec(
                old(self).tabs@,
                old(self).selected_tab,
                id,
            ),
            final(self).sidebar == if state::tab_pos(old(self).tabs@, id) matches Some(i) && old(
                self,
            ).tabs@[i].content is Connection {
                SidebarTab::Home
            } else {
                old(self).sidebar
            },
            (*final(self)) == (AppState {
                tabs: final(self).tabs,
                selected_tab: final(self).selected_tab,
                sidebar: final(self).sidebar,
                ..*old(self)
            }),
    {
        let is_conn = match self.find_tab(id) {
            Some(i) => match self.tabs[i].content {
                TabContent::Connection(_) => true,
                TabContent::Default => false,
            },
            None => false,
        };
        self.close_tab(id);
        if is_conn {
            self.sidebar = SidebarTab::Home;
        }
    }

    /// The ids of all tabs but `keep`, in order: those "close others" closes.
    pub fn other_tab_ids(&self, keep: TabId) -> (r: Vec<TabId>)
        ensures
            r@ == self.tabs@.filter(|t: Tab| t.id != keep).map_values(|t: Tab| t.id),
    {
        let mut r: Vec<TabId> = Vec::new();
        let mut i: usize = 0;
        while i < self.tabs.len()
            invariant
                i <= self.tabs.len(),
                r@ == self.tabs@.take(i as int).filter(|t: Tab| t.id != keep).map_values(|t: Tab| t.id),
            decreases self.tabs.len() - i,
        {
            proof {
                let pre = self.tabs@.take(i as int);
                assert(self.tabs@.take(i + 1) == pre.push(self.tabs@[i as int]));
                pre.lemma_filter_push(self.tabs@[i as int], |t: Tab| t.id != keep);
            }
            if self.tabs[i].id != keep {
                r.push(self.tabs[i].id);
            }
            i += 1;
        }
        assert(self.tabs@.take(i as int) == self.tabs@);
        r
    }

    /// Commits the rename of the tab `id` with the text typed: the trimmed
    /// text, or "新连接" when it is blank, locked against the remote shell.
    pub fn commit_tab_rename(&mut self, id: TabId, typed: &str)
        ensures
            state::same_outside_tabs(*final(self), *old(self)),
            final(self).selected_tab == old(self).selected_tab,
            match state::tab_pos(old(self).tabs@, id) {
                None => final(self).tabs@ == old(self).tabs@,
                Some(j) => {
                    &&& final(self).tabs@ == old(self).tabs@.update(j, final(self).tabs@[j])
                    &&& final(self).tabs@[j].id == id
                    &&& final(self).tabs@[j].content == old(self).tabs@[j].content
                    &&& final(self).tabs@[j].title@ == rename_title_spec(typed@)
                    &&& final(self).tabs@[j].title_locked
                },
            },
    {
        let title = text::trim(typed);
        let title = if chars_of(title.as_str()).len() == 0 {
            "新连接".to_owned()
        } else {
            title
        };
        self.rename_tab_locked(id, title);
    }

    /// The connection whose session picker is shown: the one waiting for a
    /// choice, while the terminal page shows it in the selected tab.
    pub fn session_picker_target(&self) -> (r: Option<ConnectionId>)
        ensures
            r == match self.pending_session_picker {
                Some(c) => if self.sidebar == SidebarTab::Terminal && self.current_connection_spec()
                    == Some(c) {
                    Some(c)
                } else {
                    None
                },
                None => None,
            },
    {
        match self.pending_session_picker {
            Some(c) => {
                if self.sidebar == SidebarTab::Terminal && self.current_connection() == Some(c) {
                    Some(c)
                } else {
                    None
                }
            },
            None => None,
        }
    }

    /// The tabs of the tab bar, in order, as drawn.
    pub fn tab_items(&self) -> (r: Vec<TabItem>)
        ensures
            r@.len() == self.tabs@.len(),
            forall|i: int|
                0 <= i < r@.len() ==> tab_item_of(
                    self.tabs@[i],
                    self.selected_tab,
                    self.sessions@,
                    #[trigger] r@[i],
                ),
    {
        let mut r: Vec<TabItem> = Vec::new();
        let mut i: usize = 0;
        while i < self.tabs.len()
            invariant
                i <= self.tabs.len(),
                r@.len() == i,
                forall|j: int|
                    0 <= j < i ==> tab_item_of(
                        self.tabs@[j],
                        self.selected_tab,
                        self.sessions@,
                        #[trigger] r@[j],
                    ),
            decreases self.tabs.len() - i,
        {
            let t = &self.tabs[i];
            let (is_connection, alive) = match t.content {
                TabContent::Connection(c) => (true, self.is_session_active(c)),
                TabContent::Default => (false, false),
            };
            let selected = match self.selected_tab {
                Some(s) => s == t.id,
                None => false,
            };
            r.push(TabItem { id: t.id, title: t.title.clone(), selected, is_connection, alive });
            i += 1;
        }
        r
    }

    /// What the main area shows: the page chosen in the sidebar; on the
    /// terminal page, the guide when there is no tab, else the selected tab
    /// with its session picker (see `session_picker_target`) and the input
    /// bar of its connection.
    pub fn main_page(&self) -> (r: MainPage)
        ensures
            r == match self.sidebar {
                SidebarTab::Home => MainPage::Home,
                SidebarTab::Settings => MainPage::Settings,
                SidebarTab::Terminal => if self.tabs@.len() == 0 {
                    MainPage::EmptyTerminal
                } else {
                    MainPage::Terminal {
                        picker: match self.pending_session_picker {
                            Some(c) => if self.current_connection_spec() == Some(c) {
                                Some(c)
                            } else {
                                None
                            },
                            None => None,
                        },
                        input_bar: self.current_connection_spec(),
                    }
                },
            },
    {
        match self.sidebar {
            SidebarTab::Home => MainPage::Home,
            SidebarTab::Settings => MainPage::Settings,
            SidebarTab::Terminal => if self.tabs.len() == 0 {
                MainPage::EmptyTerminal
            } else {
                MainPage::Terminal {
                    picker: self.session_picker_target(),
                    input_bar: self.current_connection(),
                }
            },
        }
    }

    /// What covers the terminal of the selected connection: while it
    /// connects, "正在连接 <label> …"; once it ended, the reason; nothing
    /// when it is up, or without a connection or a phase.
    pub fn terminal_overlay(&self) -> (r: PhaseOverlay)
        ensures
            match self.current_connection_spec() {
                Some(c) if self.connection_phases@.contains_key(c.0) => match self.connection_phases@[c.0] {
                    state::ConnectionPhase::Connecting => r matches PhaseOverlay::Connecting(t)
                        && t@ == "正在连接 "@ + conn_label_or_empty(self.connections@, c) + " …"@,
                    state::ConnectionPhase::Disconnected { reason } => r matches PhaseOverlay::Disconnected(t)
                        && t@ == reason@,
                    state::ConnectionPhase::Connected => r == PhaseOverlay::Clear,
                },
                _ => r == PhaseOverlay::Clear,
            },
    {
        let c = match self.current_connection() {
            Some(c) => c,
            None => return PhaseOverlay::Clear,
        };
        match self.connection_phases.get(&c.0) {
            Some(state::ConnectionPhase::Connecting) => {
                let mut t = "正在连接 ".to_owned();
                match self.connection(c) {
                    Some(conn) => t.append(conn.label.as_str()),
                    None => {
                        assert(t@ == "正在连接 "@ + Seq::<char>::empty());
                    },
                }
                t.append(" …");
                PhaseOverlay::Connecting(t)
            },
            Some(state::ConnectionPhase::Disconnected { reason }) => PhaseOverlay::Disconnected(
                reason.clone(),
            ),
            _ => PhaseOverlay::Clear,
        }
    }

    /// What a click on the card of `conn` does: a disconnected connection is
    /// reconnected, any other one is shown.
    pub fn card_click(&self, conn: ConnectionId) -> (r: CardClick)
        ensures
            r == (if self.connection_phases@.contains_key(conn.0)
                && self.connection_phases@[conn.0] is Disconnected {
                CardClick::Reconnect
            } else {
                CardClick::Open
            }),
    {
        match self.connection_phases.get(&conn.0) {
            Some(state::ConnectionPhase::Disconnected { .. }) => CardClick::Reconnect,
            _ => CardClick::Open,
        }
    }

    /// What a key does in the session picker of `conn`, whose row `idx` is
    /// highlighted: the arrows move the highlight, wrapping at both ends, and
    /// Enter picks the highlighted session. Nothing happens while no session
    /// list is known.
    pub fn session_picker_key(&self, conn: ConnectionId, idx: usize, key: PickerKey) -> (r:
        PickerStep)
        requires
            idx < usize::MAX,
        ensures
            ({
                let ss = picker_sessions(self.tmux_state@, conn);
                if ss.len() == 0 {
                    r is Ignore
                } else {
                    match key {
                        PickerKey::Up => r == PickerStep::Select(
                            if idx == 0 {
                                (ss.len() - 1) as usize
                            } else {
                                (idx - 1) as usize
                            },
                        ),
                        PickerKey::Down => r == PickerStep::Select(((idx + 1) % (ss.len() as int)) as usize),
                        PickerKey::Enter => if idx < ss.len() {
                            r matches PickerStep::Pick(sid) && sid@ == ss[idx as int].id@
                        } else {
                            r is Ignore
                        },
                    }
                }
            }),
    {
        match self.tmux_state.get(&conn.0) {
            Some(TmuxState::Detected { sessions, .. }) => {
                let n = sessions.len();
                if n == 0 {
                    return PickerStep::Ignore;
                }
                match key {
                    PickerKey::Up => PickerStep::Select(menu_step(idx, MenuKey::Up, n)),
                    PickerKey::Down => PickerStep::Select(menu_step(idx, MenuKey::Down, n)),
                    PickerKey::Enter => if idx < n {
                        PickerStep::Pick(sessions[idx].id.duplicate())
                    } else {
                        PickerStep::Ignore
                    },
                }
            },
            _ => PickerStep::Ignore,
        }
    }

    /// A session was picked (or the picker skipped) for `conn`: the picker
    /// closes. Returns whether the attach command can be sent, that is
    /// whether the SSH task of `conn` runs.
    pub fn close_session_picker(&mut self, conn: ConnectionId) -> (send: bool)
        ensures
            send == old(self).sessions@.contains(conn.0),
            (*final(self)) == (AppState { pending_session_picker: None, ..*old(self) }),
    {
        let send = self.is_session_active(conn);
        self.pending_session_picker = None;
        send
    }

    /// Closes the selected tab as `close_tab_and_connection` does (Ctrl+W);
    /// nothing happens without a selection.
    pub fn close_selected_tab(&mut self) -> (stop: Option<ConnectionId>)
        requires
            old(self).wf(),
        ensures
            final(self).wf(),
            match old(self).selected_tab {
                Some(id) => close_tab_conn_spec(*old(self), *final(self), id, stop),
                None => stop is None && *final(self) == *old(self),
            },
    {
        match self.selected_tab {
            Some(id) => self.close_tab_and_connection(id),
            None => None,
        }
    }
}

} // verus!
