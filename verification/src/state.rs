//! The application state: saved hosts, live connections and their per-
//! connection state, and the tab bar.
//!
//! Hosts are keyed by `HostId`, connections by `ConnectionId`; one host may
//! have several live connections. The terminal emulators and the command
//! channels of the connections live beside this state, keyed the same way.
use vstd::prelude::*;
use std::collections::{HashMap, HashSet};
use crate::clock::{secs_between, spec_secs_between, system_now};
use crate::humanize::{self, humanize_secs};
use crate::host_form::HostFormDraft;
use crate::ids::{random_uuid_value, ConnectionId, HostId, SessionId, TabId};
use crate::model::{HostConfig, RemoteSession};
use crate::seqs::{self, first_match};
use crate::text::{self, chars_eq, chars_of, string_of_range, trim_bounds};

verus! {

broadcast use vstd::std_specs::hash::group_hash_axioms;

/// Why a connection ended.
#[derive(Debug, Clone)]
pub enum DisconnectReason {
    UserRequested,
    RemoteExited,
    NetworkError(String),
}

/// Coarse class of an SSH failure.
#[derive(Debug, Clone, Copy, PartialEq, Eq, Structural)]
pub enum SshErrorKind {
    ConnectFailed,
    AuthFailed,
    Io,
    Protocol,
}

/// Life cycle of one connection: connecting until the shell is up, then
/// connected, then disconnected with a reason (kept so that the terminal can
/// offer to reconnect).
#[derive(Debug, Clone, PartialEq, Eq)]
pub enum ConnectionPhase {
    Connecting,
    Connected,
    Disconnected { reason: String },
}

/// What is known of the tmux of one connection.
#[derive(Debug)]
pub enum TmuxState {
    /// Connected, `list-sessions` not run yet.
    NotChecked,
    /// No tmux on the remote.
    NoTmux,
    /// `list-sessions` worked; `attached` is the session last attached from
    /// the sidebar, for highlighting.
    Detected { sessions: Vec<RemoteSession>, attached: Option<SessionId> },
    /// tmux is there but `list-sessions` failed.
    QueryFailed { msg: String },
}

/// The host dialog: adding, editing, or confirming a delete.
#[derive(Debug)]
pub enum HostFormState {
    Adding(HostFormDraft),
    Editing { id: HostId, draft: HostFormDraft },
    DeleteConfirm { id: HostId, label: String },
}

/// A live connection: its host, its display label `"<host label> #N"` and
/// when it was opened.
#[derive(Debug)]
pub struct Connection {
    pub id: ConnectionId,
    pub host_id: HostId,
    pub label: String,
    pub opened_at: std::time::SystemTime,
}

impl Connection {
    /// How long ago the connection was opened, read against the current clock.
    pub fn humanize_opened_at(&self) -> (r: String)
        ensures
            exists|now: std::time::SystemTime| r@ == humanize::humanize_secs_spec(
                spec_secs_between(self.opened_at, now) as nat,
            ),
    {
        let now = system_now();
        humanize_secs(secs_between(self.opened_at, now))
    }
}

/// The page chosen in the sidebar.
#[derive(Debug, Clone, Copy, PartialEq, Eq, Structural)]
pub enum SidebarTab {
    Home,
    Terminal,
    Settings,
}

impl Default for SidebarTab {
    fn default() -> (r: Self)
        ensures
            r == SidebarTab::Home,
    {
        SidebarTab::Home
    }
}

/// What a tab shows: the host picker or one connection's terminal.
#[derive(Debug, Clone, Copy, PartialEq, Eq, Structural)]
pub enum TabContent {
    Default,
    Connection(ConnectionId),
}

/// A tab of the tab bar. While `title_locked` is false the remote shell may
/// set the title; renaming by hand locks it.
#[derive(Debug)]
pub struct Tab {
    pub id: TabId,
    pub content: TabContent,
    pub title: String,
    pub title_locked: bool,
}

/// Default PTY size before the first resize.
pub const DEFAULT_COLS: u16 = 120;
pub const DEFAULT_ROWS: u16 = 40;

/// The shared state of the user interface.
pub struct AppState {
    /// Saved hosts.
    pub hosts: Vec<HostConfig>,
    /// Live connections, each id once.
    pub connections: Vec<Connection>,
    /// The tab bar, in order.
    pub tabs: Vec<Tab>,
    /// The selected tab.
    pub selected_tab: Option<TabId>,
    /// A connection whose tmux sessions wait for the user to pick one.
    pub pending_session_picker: Option<ConnectionId>,
    /// Whether the command palette is open.
    pub pending_palette: bool,
    pub modal: Option<HostFormState>,
    /// When each host was last connected to, in nanoseconds since the Unix
    /// epoch (the wall-clock time of the connection).
    pub last_connected: HashMap<u128, u128>,
    pub sidebar: SidebarTab,
    /// Whether the sidebar shows labels and recent hosts.
    pub sidebar_expanded: bool,
    /// Connections whose SSH task is running.
    pub sessions: HashSet<u128>,
    /// PTY size (columns, rows) of each connection.
    pub host_pty_dimensions: HashMap<u128, (u16, u16)>,
    pub tmux_state: HashMap<u128, TmuxState>,
    /// Progress (done, total) of a running image batch upload.
    pub pending_uploads: HashMap<u128, (usize, usize)>,
    /// (succeeded, total) of the last aborted batch upload.
    pub last_aborted_batch: HashMap<u128, (usize, usize)>,
    pub connection_phases: HashMap<u128, ConnectionPhase>,
    /// Why loading the saved hosts failed, if it did.
    pub hosts_load_error: Option<String>,
}

/// Index of the tab with id `id`.
pub open spec fn tab_pos(tabs: Seq<Tab>, id: TabId) -> Option<int> {
    first_match(tabs, |t: Tab| t.id == id)
}

/// Index of the connection with id `id`.
pub open spec fn conn_pos(cs: Seq<Connection>, id: ConnectionId) -> Option<int> {
    first_match(cs, |c: Connection| c.id == id)
}

/// Index of the first host with id `id`.
pub open spec fn host_pos(hs: Seq<HostConfig>, id: HostId) -> Option<int> {
    first_match(hs, |h: HostConfig| h.id == id)
}

/// No two connections share an id.
pub open spec fn conn_ids_unique(cs: Seq<Connection>) -> bool {
    forall|i: int, j: int| 0 <= i < j < cs.len() ==> cs[i].id != cs[j].id
}

/// Whether `s1` is `s0` after `remove_connection(id)`: the connection and
/// everything kept for it are gone, the tabs that showed it are closed, a
/// session picker open for it is dismissed, and nothing else changes.
pub open spec fn removed_connection(s0: AppState, s1: AppState, id: ConnectionId) -> bool {
    &&& s1.connections@ == match conn_pos(s0.connections@, id) {
        Some(i) => s0.connections@.remove(i),
        None => s0.connections@,
    }
    &&& s1.sessions@ == s0.sessions@.remove(id.0)
    &&& s1.host_pty_dimensions@ == s0.host_pty_dimensions@.remove(id.0)
    &&& s1.tmux_state@ == s0.tmux_state@.remove(id.0)
    &&& s1.connection_phases@ == s0.connection_phases@.remove(id.0)
    &&& s1.pending_uploads@ == s0.pending_uploads@.remove(id.0)
    &&& s1.last_aborted_batch@ == s0.last_aborted_batch@.remove(id.0)
    &&& (s1.tabs@, s1.selected_tab) == close_tabs_spec(
        s0.tabs@,
        s0.selected_tab,
        tab_ids_showing(s0.tabs@, id),
    )
    &&& s1.pending_session_picker == if s0.pending_session_picker == Some(id) {
        None
    } else {
        s0.pending_session_picker
    }
    &&& s1 == (AppState {
        connections: s1.connections,
        tabs: s1.tabs,
        selected_tab: s1.selected_tab,
        pending_session_picker: s1.pending_session_picker,
        sessions: s1.sessions,
        host_pty_dimensions: s1.host_pty_dimensions,
        tmux_state: s1.tmux_state,
        pending_uploads: s1.pending_uploads,
        last_aborted_batch: s1.last_aborted_batch,
        connection_phases: s1.connection_phases,
        ..s0
    })
}

/// Everything but the tab bar and the selection is unchanged.
pub open spec fn same_outside_tabs(a: AppState, b: AppState) -> bool {
    a == (AppState { tabs: a.tabs, selected_tab: a.selected_tab, ..b })
}

/// What closing the tab `id` does to the tab bar and the selection: the
/// first tab with that id goes; if it was selected, the tab that takes its
/// place is selected, else the last tab, else none.
pub open spec fn close_tab_spec(tabs: Seq<Tab>, sel: Option<TabId>, id: TabId) -> (Seq<Tab>, Option<TabId>) {
    match tab_pos(tabs, id) {
        None => (tabs, sel),
        Some(i) => {
            let rest = tabs.remove(i);
            (rest, if sel == Some(id) {
                if i < rest.len() {
                    Some(rest[i].id)
                } else if rest.len() > 0 {
                    Some(rest.last().id)
                } else {
                    None
                }
            } else {
                sel
            })
        },
    }
}

/// Closing the tabs `ids` one after the other.
pub open spec fn close_tabs_spec(tabs: Seq<Tab>, sel: Option<TabId>, ids: Seq<TabId>) -> (Seq<Tab>, Option<TabId>)
    decreases ids.len(),
{
    if ids.len() == 0 {
        (tabs, sel)
    } else {
        let (t, s) = close_tabs_spec(tabs, sel, ids.drop_last());
        close_tab_spec(t, s, ids.last())
    }
}

/// The ids of the tabs that show the connection `c`, in tab order.
pub open spec fn tab_ids_showing(tabs: Seq<Tab>, c: ConnectionId) -> Seq<TabId>
    decreases tabs.len(),
{
    if tabs.len() == 0 {
        Seq::empty()
    } else {
        let r = tab_ids_showing(tabs.drop_last(), c);
        if tabs.last().content == TabContent::Connection(c) {
            r.push(tabs.last().id)
        } else {
            r
        }
    }
}

/// The label of the first saved host with id `id`.
pub open spec fn host_label_spec(hosts: Seq<HostConfig>, id: HostId) -> Option<Seq<char>> {
    match host_pos(hosts, id) {
        Some(i) => Some(hosts[i].label@),
        None => None,
    }
}

/// `"<label> #<n>"`.
pub open spec fn connection_label(base: Seq<char>, n: nat) -> Seq<char> {
    base + " #"@ + text::dec_seq(n)
}

/// The label of the next connection to `host_id`.
pub open spec fn next_label_spec(hosts: Seq<HostConfig>, cs: Seq<Connection>, host_id: HostId) -> Seq<char> {
    let base = match host_label_spec(hosts, host_id) {
        Some(l) => l,
        None => "host"@,
    };
    connection_label(base, seqs::count_matching(cs, |c: Connection| c.host_id == host_id) + 1)
}

/// `cs` with `c` in place of the connection with its id, or with `c` added
/// at the end when there is none.
pub open spec fn upsert_connection(cs: Seq<Connection>, c: Connection) -> Seq<Connection> {
    match conn_pos(cs, c.id) {
        Some(i) => cs.update(i, c),
        None => cs.push(c),
    }
}

/// Replacing or adding a connection keeps the ids distinct.
proof fn lemma_upsert_connection(cs: Seq<Connection>, c: Connection)
    requires
        conn_ids_unique(cs),
    ensures
        conn_ids_unique(upsert_connection(cs, c)),
        conn_pos(upsert_connection(cs, c), c.id) matches Some(i) && upsert_connection(cs, c)[i] == c,
{
    let p = |x: Connection| x.id == c.id;
    seqs::lemma_first_match_props(cs, p);
    let r = upsert_connection(cs, c);
    match conn_pos(cs, c.id) {
        Some(i) => {
            assert(forall|j: int| 0 <= j < i ==> !p(#[trigger] r[j]));
            seqs::lemma_first_match(r, p, i);
        },
        None => {
            assert(forall|j: int| 0 <= j < cs.len() ==> !p(#[trigger] r[j]));
            seqs::lemma_first_match(r, p, cs.len() as int);
        },
    }
}

/// The tmux states after `session` is marked attached on `conn`.
pub open spec fn tmux_attached_spec(m: Map<u128, TmuxState>, conn: ConnectionId, session: SessionId) -> Map<u128, TmuxState> {
    if m.contains_key(conn.0) && m[conn.0] is Detected {
        m.insert(conn.0, TmuxState::Detected { sessions: m[conn.0]->sessions, attached: Some(session) })
    } else {
        m
    }
}

/// The tmux states after `session` is reported detached on `conn`.
pub open spec fn tmux_detached_spec(m: Map<u128, TmuxState>, conn: ConnectionId, session: SessionId) -> Map<u128, TmuxState> {
    if m.contains_key(conn.0) && (m[conn.0] matches TmuxState::Detected { attached: Some(a), .. } && a@ == session@) {
        m.insert(conn.0, TmuxState::Detected { sessions: m[conn.0]->sessions, attached: None })
    } else {
        m
    }
}

/// What a title `title` sent by the remote shell of `conn` does to the tab
/// bar `old`, giving `new`, and whether it `changed` a title.
pub open spec fn tab_title_update(old: Seq<Tab>, new: Seq<Tab>, conn: ConnectionId, title: Seq<char>, changed: bool) -> bool {
    let t = text::trim_seq(title);
    let jo = seqs::first_match(old, |x: Tab| x.content == TabContent::Connection(conn) && !x.title_locked);
    let j = jo->0;
    if t.len() > 0 && jo is Some && old[j].title@ != t {
        &&& changed
        &&& new == old.update(j, new[j])
        &&& new[j].id == old[j].id
        &&& new[j].content == old[j].content
        &&& new[j].title@ == t
        &&& !new[j].title_locked
    } else {
        !changed && new == old
    }
}

/// No two tabs share an id.
pub open spec fn tab_ids_unique(tabs: Seq<Tab>) -> bool {
    forall|i: int, j: int| 0 <= i < j < tabs.len() ==> tabs[i].id != tabs[j].id
}

/// The Euclidean remainder of `p` by `len`, computed on magnitudes: what
/// `cycle_selected_tab` does to wrap an index.
proof fn lemma_wrap_index(p: int, len: int, r: int)
    requires
        len > 0,
        p >= 0 ==> r == p % len,
        p < 0 ==> if (-p) % len == 0 {
            r == 0
        } else {
            r == len - (-p) % len
        },
    ensures
        r == p % len,
{
    if p < 0 {
        let a = -p;
        let q = a / len;
        let k = a % len;
        vstd::arithmetic::div_mod::lemma_fundamental_div_mod(a, len);
        vstd::arithmetic::div_mod::lemma_mod_pos_bound(a, len);
        if k == 0 {
            assert(p == (-q) * len + 0) by (nonlinear_arith)
                requires
                    a == len * q + k,
                    k == 0,
                    p == -a,
            ;
            vstd::arithmetic::div_mod::lemma_fundamental_div_mod_converse(p, len, -q, 0);
        } else {
            assert(p == (-q - 1) * len + (len - k)) by (nonlinear_arith)
                requires
                    a == len * q + k,
                    p == -a,
            ;
            vstd::arithmetic::div_mod::lemma_fundamental_div_mod_converse(p, len, -q - 1, len - k);
        }
    }
}

impl AppState {
    /// The state invariant: connection ids are distinct.
    pub open spec fn wf(&self) -> bool {
        conn_ids_unique(self.connections@)
    }

    /// A fresh state with the given saved hosts: no connections, no tabs,
    /// the home page, the sidebar collapsed.
    pub fn with_hosts(hosts: Vec<HostConfig>) -> (s: Self)
        ensures
            s.wf(),
            s.hosts@ == hosts@,
            s.connections@.len() == 0,
            s.tabs@.len() == 0,
            s.selected_tab is None,
            s.pending_session_picker is None,
            !s.pending_palette,
            s.modal is None,
            s.last_connected@ == Map::<u128, u128>::empty(),
            s.sidebar == SidebarTab::Home,
            !s.sidebar_expanded,
            s.sessions@ == Set::<u128>::empty(),
            s.host_pty_dimensions@ == Map::<u128, (u16, u16)>::empty(),
            s.tmux_state@.len() == 0,
            s.pending_uploads@ == Map::<u128, (usize, usize)>::empty(),
            s.last_aborted_batch@ == Map::<u128, (usize, usize)>::empty(),
            s.connection_phases@.len() == 0,
            s.hosts_load_error is None,
    {
        AppState {
            hosts,
            connections: Vec::new(),
            tabs: Vec::new(),
            selected_tab: None,
            pending_session_picker: None,
            pending_palette: false,
            modal: None,
            last_connected: HashMap::new(),
            sidebar: SidebarTab::Home,
            sidebar_expanded: false,
            sessions: HashSet::new(),
            host_pty_dimensions: HashMap::new(),
            tmux_state: HashMap::new(),
            pending_uploads: HashMap::new(),
            last_aborted_batch: HashMap::new(),
            connection_phases: HashMap::new(),
            hosts_load_error: None,
        }
    }

    /// Position of the tab `id`.
    pub(crate) fn find_tab(&self, id: TabId) -> (r: Option<usize>)
        ensures
            r matches Some(i) ==> tab_pos(self.tabs@, id) == Some(i as int) && i < self.tabs@.len()
                && self.tabs@[i as int].id == id,
            r is None ==> tab_pos(self.tabs@, id) is None,
    {
        let ghost p = |t: Tab| t.id == id;
        let mut i: usize = 0;
        while i < self.tabs.len()
            invariant
                i <= self.tabs.len(),
                p == (|t: Tab| t.id == id),
                forall|j: int| 0 <= j < i ==> !p(#[trigger] self.tabs@[j]),
            decreases self.tabs.len() - i,
        {
            if self.tabs[i].id == id {
                proof {
                    seqs::lemma_first_match(self.tabs@, p, i as int);
                }
                return Some(i);
            }
            i += 1;
        }
        proof {
            seqs::lemma_first_match(self.tabs@, p, i as int);
        }
        None
    }

    /// The selected tab.
    pub fn current_tab(&self) -> (r: Option<&Tab>)
        ensures
            match self.selected_tab {
                None => r is None,
                Some(id) => match tab_pos(self.tabs@, id) {
                    None => r is None,
                    Some(i) => r == Some(&self.tabs@[i]),
                },
            },
    {
        let id = match self.selected_tab {
            Some(id) => id,
            None => return None,
        };
        match self.find_tab(id) {
            Some(i) => Some(&self.tabs[i]),
            None => None,
        }
    }

    /// The connection of the selected tab, when it shows one.
    pub fn current_connection(&self) -> (r: Option<ConnectionId>)
        ensures
            r == self.current_connection_spec(),
    {
        match self.current_tab() {
            Some(t) => match t.content {
                TabContent::Connection(c) => Some(c),
                TabContent::Default => None,
            },
            None => None,
        }
    }

    /// The connection of the selected tab, when it shows one.
    pub open spec fn current_connection_spec(&self) -> Option<ConnectionId> {
        match self.selected_tab {
            None => None,
            Some(id) => match tab_pos(self.tabs@, id) {
                None => None,
                Some(i) => match self.tabs@[i].content {
                    TabContent::Connection(c) => Some(c),
                    TabContent::Default => None,
                },
            },
        }
    }

    /// Selects the tab `id` when it exists; otherwise nothing changes.
    pub fn select_tab(&mut self, id: TabId)
        ensures
            final(self).tabs@ == old(self).tabs@,
            same_outside_tabs(*final(self), *old(self)),
            final(self).selected_tab == if tab_pos(old(self).tabs@, id) is Some {
                Some(id)
            } else {
                old(self).selected_tab
            },
    {
        if self.find_tab(id).is_some() {
            self.selected_tab = Some(id);
        }
    }

    /// Drag and drop: the tab `source` takes the place of the tab `target`
    /// (the tabs between shift by one). Returns false, changing nothing, when
    /// the two are the same or either is missing.
    pub fn move_tab(&mut self, source: TabId, target: TabId) -> (moved: bool)
        ensures
            same_outside_tabs(*final(self), *old(self)),
            final(self).selected_tab == old(self).selected_tab,
            moved == (source != target && tab_pos(old(self).tabs@, source) is Some && tab_pos(
                old(self).tabs@,
                target,
            ) is Some),
            !moved ==> final(self).tabs@ == old(self).tabs@,
            moved ==> ({
                let s = tab_pos(old(self).tabs@, source)->0;
                let t = tab_pos(old(self).tabs@, target)->0;
                final(self).tabs@ == old(self).tabs@.remove(s).insert(
                    if t < old(self).tabs@.len() - 1 {
                        t
                    } else {
                        old(self).tabs@.len() - 1
                    },
                    old(self).tabs@[s],
                )
            }),
    {
        if source == target {
            return false;
        }
        let src_pos = match self.find_tab(source) {
            Some(p) => p,
            None => return false,
        };
        let tgt_pos = match self.find_tab(target) {
            Some(p) => p,
            None => return false,
        };
        proof {
            seqs::lemma_first_match_props(self.tabs@, |t: Tab| t.id == source);
            seqs::lemma_first_match_props(self.tabs@, |t: Tab| t.id == target);
        }
        let tab = self.tabs.remove(src_pos);
        let insert_pos = if tgt_pos < self.tabs.len() {
            tgt_pos
        } else {
            self.tabs.len()
        };
        self.tabs.insert(insert_pos, tab);
        true
    }

    /// Cycles the selection by `delta` tabs, wrapping at both ends. Returns
    /// false, changing nothing, when `delta` is 0, there are fewer than two
    /// tabs, or no tab is selected.
    pub fn cycle_selected_tab(&mut self, delta: i32) -> (changed: bool)
        requires
            old(self).tabs@.len() <= i32::MAX,
            delta != 0 && old(self).tabs@.len() >= 2 && (old(self).selected_tab matches Some(id)
                && tab_pos(old(self).tabs@, id) matches Some(p)) ==> tab_pos(
                old(self).tabs@,
                old(self).selected_tab->0,
            )->0 + delta <= i32::MAX,
        ensures
            final(self).tabs@ == old(self).tabs@,
            same_outside_tabs(*final(self), *old(self)),
            changed == (delta != 0 && old(self).tabs@.len() >= 2 && (old(self).selected_tab matches Some(
                id,
            ) && tab_pos(old(self).tabs@, id) is Some)),
            !changed ==> final(self).selected_tab == old(self).selected_tab,
            changed ==> ({
                let pos = tab_pos(old(self).tabs@, old(self).selected_tab->0)->0;
                final(self).selected_tab == Some(
                    old(self).tabs@[(pos + delta) % (old(self).tabs@.len() as int)].id,
                )
            }),
    {
        if delta == 0 || self.tabs.len() < 2 {
            return false;
        }
        let id = match self.selected_tab {
            Some(id) => id,
            None => return false,
        };
        let pos = match self.find_tab(id) {
            Some(p) => p,
            None => return false,
        };
        proof {
            seqs::lemma_first_match_props(self.tabs@, |t: Tab| t.id == id);
        }
        let len = self.tabs.len() as u64;
        let sum = pos as i64 + delta as i64;
        let new_pos: u64 = if sum >= 0 {
            (sum as u64) % len
        } else {
            let k = ((-sum) as u64) % len;
            if k == 0 {
                0
            } else {
                len - k
            }
        };
        proof {
            lemma_wrap_index(sum as int, len as int, new_pos as int);
        }
        self.selected_tab = Some(self.tabs[new_pos as usize].id);
        true
    }

    /// Appends a host-picker tab, selects it and returns its new random id.
    pub fn append_default_tab(&mut self) -> (id: TabId)
        ensures
            same_outside_tabs(*final(self), *old(self)),
            final(self).tabs@.len() == old(self).tabs@.len() + 1,
            final(self).tabs@.drop_last() == old(self).tabs@,
            final(self).tabs@.last().id == id,
            final(self).tabs@.last().content == TabContent::Default,
            final(self).tabs@.last().title@ == "新连接"@,
            !final(self).tabs@.last().title_locked,
            final(self).selected_tab == Some(id),
    {
        let id = TabId(random_uuid_value());
        self.tabs.push(
            Tab { id, content: TabContent::Default, title: "新连接".to_owned(), title_locked: false },
        );
        self.selected_tab = Some(id);
        assert(self.tabs@.drop_last() =~= old(self).tabs@);
        id
    }

    /// Moves the selected tab one place left (`-1`) or right (`+1`), swapping
    /// it with its neighbour. Returns false, changing nothing, for any other
    /// delta, without a selection, or at the edge.
    pub fn move_selected_tab(&mut self, delta: i32) -> (moved: bool)
        ensures
            same_outside_tabs(*final(self), *old(self)),
            final(self).selected_tab == old(self).selected_tab,
            moved == ((delta == -1 || delta == 1) && (old(self).selected_tab matches Some(id) && (
            tab_pos(old(self).tabs@, id) matches Some(p) && 0 <= p + delta < old(
                self,
            ).tabs@.len()))),
            !moved ==> final(self).tabs@ == old(self).tabs@,
            moved ==> ({
                let p = tab_pos(old(self).tabs@, old(self).selected_tab->0)->0;
                let q = p + delta;
                final(self).tabs@ == old(self).tabs@.update(p, old(self).tabs@[q]).update(
                    q,
                    old(self).tabs@[p],
                )
            }),
    {
        if delta != -1 && delta != 1 {
            return false;
        }
        let id = match self.selected_tab {
            Some(id) => id,
            None => return false,
        };
        let pos = match self.find_tab(id) {
            Some(p) => p,
            None => return false,
        };
        proof {
            seqs::lemma_first_match_props(self.tabs@, |t: Tab| t.id == id);
        }
        if delta == -1 {
            if pos == 0 {
                return false;
            }
            let ghost old_tabs = self.tabs@;
            let t = self.tabs.remove(pos);
            self.tabs.insert(pos - 1, t);
            assert(self.tabs@ =~= old_tabs.update(pos as int, old_tabs[pos - 1]).update(
                pos - 1,
                old_tabs[pos as int],
            ));
        } else {
            if pos >= self.tabs.len() - 1 {
                return false;
            }
            let ghost old_tabs = self.tabs@;
            let t = self.tabs.remove(pos);
            self.tabs.insert(pos + 1, t);
            assert(self.tabs@ =~= old_tabs.update(pos as int, old_tabs[pos + 1]).update(
                pos + 1,
                old_tabs[pos as int],
            ));
        }
        true
    }

    /// Closes the tab `id` and returns what it showed (`None`, changing
    /// nothing, when there is no such tab). Closing the selected tab selects
    /// the tab that takes its place, else the last tab, else nothing.
    pub fn close_tab(&mut self, id: TabId) -> (r: Option<TabContent>)
        ensures
            same_outside_tabs(*final(self), *old(self)),
            (final(self).tabs@, final(self).selected_tab) == close_tab_spec(
                old(self).tabs@,
                old(self).selected_tab,
                id,
            ),
            r == match tab_pos(old(self).tabs@, id) {
                None => None,
                Some(i) => Some(old(self).tabs@[i].content),
            },
    {
        let idx = match self.find_tab(id) {
            Some(i) => i,
            None => return None,
        };
        let removed = self.tabs.remove(idx);
        if self.selected_tab == Some(id) {
            self.selected_tab = if idx < self.tabs.len() {
                Some(self.tabs[idx].id)
            } else if self.tabs.len() > 0 {
                Some(self.tabs[self.tabs.len() - 1].id)
            } else {
                None
            };
        }
        Some(removed.content)
    }

    /// Position of the connection `id`.
    fn find_connection(&self, id: ConnectionId) -> (r: Option<usize>)
        ensures
            r matches Some(i) ==> conn_pos(self.connections@, id) == Some(i as int) && i
                < self.connections@.len() && self.connections@[i as int].id == id,
            r is None ==> conn_pos(self.connections@, id) is None,
    {
        let ghost p = |c: Connection| c.id == id;
        let mut i: usize = 0;
        while i < self.connections.len()
            invariant
                i <= self.connections.len(),
                p == (|c: Connection| c.id == id),
                forall|j: int| 0 <= j < i ==> !p(#[trigger] self.connections@[j]),
            decreases self.connections.len() - i,
        {
            if self.connections[i].id == id {
                proof {
                    seqs::lemma_first_match(self.connections@, p, i as int);
                }
                return Some(i);
            }
            i += 1;
        }
        proof {
            seqs::lemma_first_match(self.connections@, p, i as int);
        }
        None
    }

    /// Position of the first saved host with id `id`.
    pub(crate) fn find_host(&self, id: HostId) -> (r: Option<usize>)
        ensures
            r matches Some(i) ==> host_pos(self.hosts@, id) == Some(i as int) && i
                < self.hosts@.len() && self.hosts@[i as int].id == id,
            r is None ==> host_pos(self.hosts@, id) is None,
    {
        let ghost p = |h: HostConfig| h.id == id;
        let mut i: usize = 0;
        while i < self.hosts.len()
            invariant
                i <= self.hosts.len(),
                p == (|h: HostConfig| h.id == id),
                forall|j: int| 0 <= j < i ==> !p(#[trigger] self.hosts@[j]),
            decreases self.hosts.len() - i,
        {
            if self.hosts[i].id == id {
                proof {
                    seqs::lemma_first_match(self.hosts@, p, i as int);
                }
                return Some(i);
            }
            i += 1;
        }
        proof {
            seqs::lemma_first_match(self.hosts@, p, i as int);
        }
        None
    }

    /// The live connection `id`, if any.
    pub fn connection(&self, id: ConnectionId) -> (r: Option<&Connection>)
        ensures
            r == match conn_pos(self.connections@, id) {
                None => None,
                Some(i) => Some(&self.connections@[i]),
            },
    {
        match self.find_connection(id) {
            Some(i) => Some(&self.connections[i]),
            None => None,
        }
    }

    /// The label of the saved host `id`, if there is one.
    pub fn host_label(&self, id: HostId) -> (r: Option<String>)
        ensures
            r matches Some(l) ==> host_label_spec(self.hosts@, id) == Some(l@),
            r is None ==> host_label_spec(self.hosts@, id) is None,
    {
        match self.find_host(id) {
            Some(i) => Some(self.hosts[i].label.clone()),
            None => None,
        }
    }

    /// Number of live connections of the host `host_id` (shown on its card).
    pub fn connections_of(&self, host_id: HostId) -> (n: usize)
        ensures
            n == seqs::count_matching(self.connections@, |c: Connection| c.host_id == host_id),
    {
        let ghost p = |c: Connection| c.host_id == host_id;
        let mut n: usize = 0;
        let mut i: usize = 0;
        while i < self.connections.len()
            invariant
                i <= self.connections.len(),
                p == (|c: Connection| c.host_id == host_id),
                n == seqs::count_matching(self.connections@.take(i as int), p),
            decreases self.connections.len() - i,
        {
            proof {
                assert(self.connections@.take(i + 1).drop_last() == self.connections@.take(
                    i as int,
                ));
                seqs::lemma_count_le_len(self.connections@.take(i as int), p);
            }
            if self.connections[i].host_id == host_id {
                n += 1;
            }
            i += 1;
        }
        assert(self.connections@.take(i as int) == self.connections@);
        n
    }

    /// The label of the next connection to `host_id`: the host's label (or
    /// "host" when it is gone) and the number of its connections plus one.
    fn next_label_for(&self, host_id: HostId) -> (r: String)
        ensures
            r@ == next_label_spec(self.hosts@, self.connections@, host_id),
    {
        proof {
            reveal_strlit("host");
            reveal_strlit(" #");
            seqs::lemma_count_le_len(self.connections@, |c: Connection| c.host_id == host_id);
        }
        let mut r = match self.host_label(host_id) {
            Some(l) => l,
            None => "host".to_owned(),
        };
        let n = self.connections_of(host_id);
        r.append(" #");
        let d = text::dec_string_u128(n as u128 + 1);
        r.append(d.as_str());
        r
    }

    /// Opens a connection to the host `host_id` under a new random id, labelled
    /// by `next_label_for` and stamped with the current time, and returns the
    /// id. A connection that already had that id is replaced.
    pub fn open_connection(&mut self, host_id: HostId) -> (id: ConnectionId)
        requires
            old(self).wf(),
        ensures
            final(self).wf(),
            (*final(self)) == (AppState { connections: final(self).connections, ..*old(self) }),
            conn_pos(final(self).connections@, id) matches Some(i) && {
                let c = final(self).connections@[i];
                &&& c.id == id
                &&& c.host_id == host_id
                &&& c.label@ == next_label_spec(old(self).hosts@, old(self).connections@, host_id)
                &&& final(self).connections@ == upsert_connection(old(self).connections@, c)
            },
    {
        let id = ConnectionId::new();
        let label = self.next_label_for(host_id);
        let c = Connection { id, host_id, label, opened_at: system_now() };
        let ghost gc = c;
        let ghost before = self.connections@;
        proof {
            seqs::lemma_first_match_props(before, |x: Connection| x.id == id);
        }
        match self.find_connection(id) {
            Some(i) => {
                self.connections.set(i, c);
            },
            None => {
                self.connections.push(c);
            },
        }
        proof {
            let after = self.connections@;
            assert(after == upsert_connection(before, gc));
            lemma_upsert_connection(before, gc);
        }
        id
    }

    /// Whether the SSH task of the connection `id` is running.
    pub fn is_session_active(&self, id: ConnectionId) -> (b: bool)
        ensures
            b == self.sessions@.contains(id.0),
    {
        self.sessions.contains(&id.0)
    }

    /// Records that the SSH task of `id` started: its PTY gets the default
    /// size and its phase becomes connecting.
    pub fn register_session(&mut self, id: ConnectionId)
        ensures
            final(self).sessions@ == old(self).sessions@.insert(id.0),
            final(self).host_pty_dimensions@ == old(self).host_pty_dimensions@.insert(
                id.0,
                (DEFAULT_COLS, DEFAULT_ROWS),
            ),
            final(self).connection_phases@ == old(self).connection_phases@.insert(
                id.0,
                ConnectionPhase::Connecting,
            ),
            (*final(self)) == (AppState {
                sessions: final(self).sessions,
                host_pty_dimensions: final(self).host_pty_dimensions,
                connection_phases: final(self).connection_phases,
                ..*old(self)
            }),
    {
        self.sessions.insert(id.0);
        self.host_pty_dimensions.insert(id.0, (DEFAULT_COLS, DEFAULT_ROWS));
        self.connection_phases.insert(id.0, ConnectionPhase::Connecting);
    }

    /// Records that the SSH task of `id` ended for `reason`: its tmux state
    /// is dropped and its phase becomes disconnected. The connection and its
    /// terminal stay, so that it can be reopened.
    pub fn drop_session(&mut self, id: ConnectionId, reason: &str)
        ensures
            final(self).sessions@ == old(self).sessions@.remove(id.0),
            final(self).tmux_state@ == old(self).tmux_state@.remove(id.0),
            final(self).connection_phases@ == old(self).connection_phases@.insert(
                id.0,
                ConnectionPhase::Disconnected { reason: final(self).connection_phases@[id.0]->reason },
            ),
            final(self).connection_phases@[id.0]->reason@ == reason@,
            (*final(self)) == (AppState {
                sessions: final(self).sessions,
                tmux_state: final(self).tmux_state,
                connection_phases: final(self).connection_phases,
                ..*old(self)
            }),
    {
        self.sessions.remove(&id.0);
        self.tmux_state.remove(&id.0);
        self.connection_phases.insert(
            id.0,
            ConnectionPhase::Disconnected { reason: reason.to_owned() },
        );
    }

    /// Records that the connection `id` is up.
    pub fn mark_connected(&mut self, id: ConnectionId)
        ensures
            final(self).connection_phases@ == old(self).connection_phases@.insert(
                id.0,
                ConnectionPhase::Connected,
            ),
            (*final(self)) == (AppState {
                connection_phases: final(self).connection_phases,
                ..*old(self)
            }),
    {
        self.connection_phases.insert(id.0, ConnectionPhase::Connected);
    }

    /// Reconnects `id` under the same id: its SSH task is running again, its
    /// tmux state is dropped and its phase is connecting. Returns its host,
    /// or `None`, changing nothing, when there is no such connection.
    pub fn reopen_connection(&mut self, id: ConnectionId) -> (r: Option<HostId>)
        ensures
            match conn_pos(old(self).connections@, id) {
                None => r is None && *final(self) == *old(self),
                Some(i) => {
                    &&& r == Some(old(self).connections@[i].host_id)
                    &&& final(self).sessions@ == old(self).sessions@.insert(id.0)
                    &&& final(self).tmux_state@ == old(self).tmux_state@.remove(id.0)
                    &&& final(self).connection_phases@ == old(
                        self,
                    ).connection_phases@.insert(id.0, ConnectionPhase::Connecting)
                    &&& (*final(self)) == (AppState {
                        sessions: final(self).sessions,
                        tmux_state: final(self).tmux_state,
                        connection_phases: final(self).connection_phases,
                        ..*old(self)
                    })
                },
            },
    {
        let host_id = match self.find_connection(id) {
            Some(i) => self.connections[i].host_id,
            None => return None,
        };
        self.sessions.insert(id.0);
        self.tmux_state.remove(&id.0);
        self.connection_phases.insert(id.0, ConnectionPhase::Connecting);
        Some(host_id)
    }

    /// Removes the connection `id` and everything kept for it: its SSH task,
    /// PTY size, tmux state, phase and uploads. The tabs that show it are
    /// closed one after the other, as `close_tab` does, and a session picker
    /// open for it is dismissed.
    pub fn remove_connection(&mut self, id: ConnectionId)
        requires
            old(self).wf(),
        ensures
            final(self).wf(),
            final(self).connections@ == match conn_pos(old(self).connections@, id) {
                Some(i) => old(self).connections@.remove(i),
                None => old(self).connections@,
            },
            conn_pos(final(self).connections@, id) is None,
            !final(self).sessions@.contains(id.0),
            !final(self).host_pty_dimensions@.contains_key(id.0),
            !final(self).tmux_state@.contains_key(id.0),
            !final(self).connection_phases@.contains_key(id.0),
            !final(self).pending_uploads@.contains_key(id.0),
            !final(self).last_aborted_batch@.contains_key(id.0),
            final(self).pending_session_picker != Some(id),
            final(self).sessions@ == old(self).sessions@.remove(id.0),
            final(self).host_pty_dimensions@ == old(self).host_pty_dimensions@.remove(id.0),
            final(self).tmux_state@ == old(self).tmux_state@.remove(id.0),
            final(self).connection_phases@ == old(self).connection_phases@.remove(id.0),
            final(self).pending_uploads@ == old(self).pending_uploads@.remove(id.0),
            final(self).last_aborted_batch@ == old(self).last_aborted_batch@.remove(id.0),
            (final(self).tabs@, final(self).selected_tab) == close_tabs_spec(
                old(self).tabs@,
                old(self).selected_tab,
                tab_ids_showing(old(self).tabs@, id),
            ),
            final(self).pending_session_picker == if old(self).pending_session_picker == Some(id) {
                None
            } else {
                old(self).pending_session_picker
            },
            (*final(self)) == (AppState {
                connections: final(self).connections,
                tabs: final(self).tabs,
                selected_tab: final(self).selected_tab,
                pending_session_picker: final(self).pending_session_picker,
                sessions: final(self).sessions,
                host_pty_dimensions: final(self).host_pty_dimensions,
                tmux_state: final(self).tmux_state,
                pending_uploads: final(self).pending_uploads,
                last_aborted_batch: final(self).last_aborted_batch,
                connection_phases: final(self).connection_phases,
                ..*old(self)
            }),
    {
        let ghost cs0 = self.connections@;
        match self.find_connection(id) {
            Some(i) => {
                self.connections.remove(i);
            },
            None => {},
        }
        proof {
            let p = |c: Connection| c.id == id;
            seqs::lemma_first_match_props(cs0, p);
            let cs1 = self.connections@;
            assert(conn_ids_unique(cs1));
            assert(forall|j: int| 0 <= j < cs1.len() ==> !p(#[trigger] cs1[j]));
            seqs::lemma_first_match(cs1, p, cs1.len() as int);
        }
        self.sessions.remove(&id.0);
        self.host_pty_dimensions.remove(&id.0);
        self.tmux_state.remove(&id.0);
        self.connection_phases.remove(&id.0);
        self.pending_uploads.remove(&id.0);
        self.last_aborted_batch.remove(&id.0);
        let ids = self.tab_ids_showing(id);
        self.close_tabs(&ids);
        if self.pending_session_picker == Some(id) {
            self.pending_session_picker = None;
        }
    }


    /// Closes the tabs `ids` one after the other.
    #[verifier::spinoff_prover]
    #[verifier::rlimit(40)]
    fn close_tabs(&mut self, ids: &Vec<TabId>)
        ensures
            (final(self).tabs@, final(self).selected_tab) == close_tabs_spec(
                old(self).tabs@,
                old(self).selected_tab,
                ids@,
            ),
            same_outside_tabs(*final(self), *old(self)),
    {
        let mut k: usize = 0;
        while k < ids.len()
            invariant
                k <= ids.len(),
                (self.tabs@, self.selected_tab) == close_tabs_spec(
                    old(self).tabs@,
                    old(self).selected_tab,
                    ids@.take(k as int),
                ),
                same_outside_tabs(*self, *old(self)),
            decreases ids.len() - k,
        {
            self.close_tab(ids[k]);
            proof {
                assert(ids@.take(k + 1).drop_last() == ids@.take(k as int));
            }
            k += 1;
        }
        assert(ids@.take(k as int) == ids@);
    }

    /// The ids of the tabs that show the connection `c`, in tab order.
    fn tab_ids_showing(&self, c: ConnectionId) -> (ids: Vec<TabId>)
        ensures
            ids@ == tab_ids_showing(self.tabs@, c),
    {
        let mut ids: Vec<TabId> = Vec::new();
        let mut i: usize = 0;
        while i < self.tabs.len()
            invariant
                i <= self.tabs.len(),
                ids@ == tab_ids_showing(self.tabs@.take(i as int), c),
            decreases self.tabs.len() - i,
        {
            proof {
                assert(self.tabs@.take(i + 1).drop_last() == self.tabs@.take(i as int));
            }
            if self.tabs[i].content == TabContent::Connection(c) {
                ids.push(self.tabs[i].id);
            }
            i += 1;
        }
        assert(self.tabs@.take(i as int) == self.tabs@);
        ids
    }

    /// Marks `session` as the tmux session last attached on `conn`, for
    /// highlighting. Nothing changes unless the tmux of `conn` was listed.
    pub fn mark_tmux_attached(&mut self, conn: ConnectionId, session: SessionId)
        ensures
            final(self).tmux_state@ == tmux_attached_spec(old(self).tmux_state@, conn, session),
            (*final(self)) == (AppState { tmux_state: final(self).tmux_state, ..*old(self) }),
    {
        let ghost m0 = self.tmux_state@;
        match self.tmux_state.remove(&conn.0) {
            Some(TmuxState::Detected { sessions, attached: _ }) => {
                self.tmux_state.insert(
                    conn.0,
                    TmuxState::Detected { sessions, attached: Some(session) },
                );
            },
            Some(other) => {
                self.tmux_state.insert(conn.0, other);
                assert(self.tmux_state@ =~= m0);
            },
            None => {
                assert(self.tmux_state@ =~= m0);
            },
        }
    }

    /// Clears the attached mark of `conn` when it is `session`: its tmux
    /// client went away. Nothing changes otherwise.
    pub fn mark_tmux_detached(&mut self, conn: ConnectionId, session: SessionId)
        ensures
            final(self).tmux_state@ == tmux_detached_spec(old(self).tmux_state@, conn, session),
            (*final(self)) == (AppState { tmux_state: final(self).tmux_state, ..*old(self) }),
    {
        let ghost m0 = self.tmux_state@;
        match self.tmux_state.remove(&conn.0) {
            Some(TmuxState::Detected { sessions, attached }) => {
                let clear = match &attached {
                    Some(a) => a.same_as(&session),
                    None => false,
                };
                if clear {
                    self.tmux_state.insert(conn.0, TmuxState::Detected { sessions, attached: None });
                } else {
                    self.tmux_state.insert(conn.0, TmuxState::Detected { sessions, attached });
                    assert(self.tmux_state@ =~= m0);
                }
            },
            Some(other) => {
                self.tmux_state.insert(conn.0, other);
                assert(self.tmux_state@ =~= m0);
            },
            None => {
                assert(self.tmux_state@ =~= m0);
            },
        }
    }

    /// A title sent by the remote shell of `conn`: trimmed, it replaces the
    /// title of the first unlocked tab that shows `conn`. Returns whether a
    /// title changed; a blank title changes nothing.
    pub fn set_tab_title_for_conn(&mut self, conn: ConnectionId, title: String) -> (changed: bool)
        ensures
            tab_title_update(old(self).tabs@, final(self).tabs@, conn, title@, changed),
            same_outside_tabs(*final(self), *old(self)),
            final(self).selected_tab == old(self).selected_tab,
            final(self).tabs@.len() == old(self).tabs@.len(),
            forall|k: int|
                0 <= k < old(self).tabs@.len() && old(self).tabs@[k].title_locked
                    ==> final(self).tabs@[k] == old(self).tabs@[k],
    {
        let v = chars_of(title.as_str());
        let (lo, hi) = trim_bounds(&v);
        if lo >= hi {
            return false;
        }
        let trimmed = string_of_range(&v, lo, hi);
        assert(trimmed@ == text::trim_seq(title@) && trimmed@.len() > 0);
        let ghost p = |x: Tab| x.content == TabContent::Connection(conn) && !x.title_locked;
        let mut i: usize = 0;
        while i < self.tabs.len()
            invariant
                i <= self.tabs.len(),
                *self == *old(self),
                trimmed@.len() > 0,
                trimmed@ == text::trim_seq(title@),
                p == (|x: Tab| x.content == TabContent::Connection(conn) && !x.title_locked),
                forall|j: int| 0 <= j < i ==> !p(#[trigger] self.tabs@[j]),
            decreases self.tabs.len() - i,
        {
            if self.tabs[i].content == TabContent::Connection(conn) && !self.tabs[i].title_locked {
                proof {
                    seqs::lemma_first_match(self.tabs@, p, i as int);
                }
                let same = chars_eq(&chars_of(self.tabs[i].title.as_str()), trimmed.as_str());
                if same {
                    return false;
                }
                let ghost tabs0 = self.tabs@;
                let old_tab = self.tabs.remove(i);
                self.tabs.insert(
                    i,
                    Tab {
                        id: old_tab.id,
                        content: old_tab.content,
                        title: trimmed,
                        title_locked: false,
                    },
                );
                assert(self.tabs@ =~= tabs0.update(i as int, self.tabs@[i as int]));
                return true;
            }
            i += 1;
        }
        proof {
            seqs::lemma_first_match(self.tabs@, p, i as int);
        }
        false
    }

    /// Renames the tab `tab_id` by hand and locks its title against the
    /// remote shell. Nothing changes when there is no such tab.
    #[verifier::rlimit(40)]
    pub fn rename_tab_locked(&mut self, tab_id: TabId, new_title: String)
        ensures
            same_outside_tabs(*final(self), *old(self)),
            final(self).selected_tab == old(self).selected_tab,
            match tab_pos(old(self).tabs@, tab_id) {
                None => final(self).tabs@ == old(self).tabs@,
                Some(j) => {
                    &&& j < old(self).tabs@.len()
                    &&& final(self).tabs@ == old(self).tabs@.update(j, final(self).tabs@[j])
                    &&& final(self).tabs@[j].id == tab_id
                    &&& final(self).tabs@[j].content == old(self).tabs@[j].content
                    &&& final(self).tabs@[j].title@ == new_title@
                    &&& final(self).tabs@[j].title_locked
                },
            },
    {
        match self.find_tab(tab_id) {
            Some(i) => {
                let ghost tabs0 = self.tabs@;
                let old_tab = self.tabs.remove(i);
                self.tabs.insert(
                    i,
                    Tab { id: old_tab.id, content: old_tab.content, title: new_title, title_locked: true },
                );
                assert(self.tabs@ =~= tabs0.update(i as int, self.tabs@[i as int]));
            },
            None => {},
        }
    }

    /// Records the new PTY size of `conn`.
    pub fn resize_term(&mut self, conn: ConnectionId, cols: u16, rows: u16)
        ensures
            final(self).host_pty_dimensions@ == old(self).host_pty_dimensions@.insert(
                conn.0,
                (cols, rows),
            ),
            (*final(self)) == (AppState {
                host_pty_dimensions: final(self).host_pty_dimensions,
                ..*old(self)
            }),
    {
        self.host_pty_dimensions.insert(conn.0, (cols, rows));
    }

    /// The PTY size of `conn`: the one recorded, else the default.
    pub fn pty_dimensions(&self, conn: ConnectionId) -> (r: (u16, u16))
        ensures
            r == if self.host_pty_dimensions@.contains_key(conn.0) {
                self.host_pty_dimensions@[conn.0]
            } else {
                (DEFAULT_COLS, DEFAULT_ROWS)
            },
    {
        match self.host_pty_dimensions.get(&conn.0) {
            Some(d) => *d,
            None => (DEFAULT_COLS, DEFAULT_ROWS),
        }
    }

    /// Adds a saved host at the end.
    pub fn add_host(&mut self, cfg: HostConfig)
        ensures
            final(self).hosts@ == old(self).hosts@.push(cfg),
            (*final(self)) == (AppState { hosts: final(self).hosts, ..*old(self) }),
    {
        self.hosts.push(cfg);
    }

    /// Replaces the first saved host with id `id` by `cfg`; false, changing
    /// nothing, when there is none.
    pub fn update_host(&mut self, id: HostId, cfg: HostConfig) -> (found: bool)
        ensures
            found == host_pos(old(self).hosts@, id) is Some,
            final(self).hosts@ == match host_pos(old(self).hosts@, id) {
                Some(i) => old(self).hosts@.update(i, cfg),
                None => old(self).hosts@,
            },
            (*final(self)) == (AppState { hosts: final(self).hosts, ..*old(self) }),
    {
        match self.find_host(id) {
            Some(i) => {
                self.hosts.set(i, cfg);
                true
            },
            None => false,
        }
    }

    /// Deletes the first saved host with id `id`; its live connections go on.
    /// False, changing nothing, when there is none.
    pub fn remove_host(&mut self, id: HostId) -> (found: bool)
        ensures
            found == host_pos(old(self).hosts@, id) is Some,
            final(self).hosts@ == match host_pos(old(self).hosts@, id) {
                Some(i) => old(self).hosts@.remove(i),
                None => old(self).hosts@,
            },
            (*final(self)) == (AppState { hosts: final(self).hosts, ..*old(self) }),
    {
        match self.find_host(id) {
            Some(i) => {
                self.hosts.remove(i);
                true
            },
            None => false,
        }
    }
}


/// With distinct tab ids, cycling the selection one tab forward and then one
/// tab back selects the tab selected first.
pub proof fn law_cycle_forward_then_back(tabs: Seq<Tab>, sel: TabId)
    requires
        tab_ids_unique(tabs),
        tabs.len() >= 2,
        tab_pos(tabs, sel) is Some,
    ensures
        ({
            let len = tabs.len() as int;
            let p = tab_pos(tabs, sel)->0;
            let next = tabs[(p + 1) % len].id;
            tab_pos(tabs, next) is Some && tabs[(tab_pos(tabs, next)->0 + -1) % len].id == sel
        }),
{
    let len = tabs.len() as int;
    seqs::lemma_first_match_props(tabs, |t: Tab| t.id == sel);
    let p = tab_pos(tabs, sel)->0;
    let q: int = if p + 1 < len { p + 1 } else { 0 };
    if p + 1 < len {
        vstd::arithmetic::div_mod::lemma_fundamental_div_mod_converse(p + 1, len, 0, p + 1);
    } else {
        vstd::arithmetic::div_mod::lemma_fundamental_div_mod_converse(p + 1, len, 1, 0);
    }
    assert((p + 1) % len == q);
    let next = tabs[q].id;
    assert forall|j: int| 0 <= j < q implies !((|t: Tab| t.id == next)(#[trigger] tabs[j])) by {
        assert(tabs[j].id != tabs[q].id);
    }
    seqs::lemma_first_match(tabs, |t: Tab| t.id == next, q);
    if q > 0 {
        vstd::arithmetic::div_mod::lemma_fundamental_div_mod_converse(q - 1, len, 0, p);
    } else {
        vstd::arithmetic::div_mod::lemma_fundamental_div_mod_converse(-1, len, -1, p);
    }
}

/// With distinct tab ids, moving the selected tab one place right and then
/// one place left restores the tab bar.
pub proof fn law_move_right_then_left(tabs: Seq<Tab>, sel: TabId)
    requires
        tab_ids_unique(tabs),
        tab_pos(tabs, sel) matches Some(p) && p + 1 < tabs.len(),
    ensures
        ({
            let p = tab_pos(tabs, sel)->0;
            let moved = tabs.update(p, tabs[p + 1]).update(p + 1, tabs[p]);
            let q = tab_pos(moved, sel)->0;
            &&& tab_pos(moved, sel) == Some(p + 1)
            &&& moved.update(q, moved[q - 1]).update(q - 1, moved[q]) == tabs
        }),
{
    seqs::lemma_first_match_props(tabs, |t: Tab| t.id == sel);
    let p = tab_pos(tabs, sel)->0;
    let moved = tabs.update(p, tabs[p + 1]).update(p + 1, tabs[p]);
    assert forall|j: int| 0 <= j < p + 1 implies !((|t: Tab| t.id == sel)(#[trigger] moved[j])) by {
        if j < p {
            assert(tabs[j].id != tabs[p].id);
        } else {
            assert(tabs[p + 1].id != tabs[p].id);
        }
    }
    seqs::lemma_first_match(moved, |t: Tab| t.id == sel, p + 1);
    assert(moved.update(p + 1, moved[p]).update(p, moved[p + 1]) =~= tabs);
}

/// Marking a session attached and then reporting the same session detached
/// leaves the tmux state of the connection listed with nothing attached.
pub proof fn law_detach_undoes_attach(m: Map<u128, TmuxState>, conn: ConnectionId, session: SessionId)
    requires
        m.contains_key(conn.0),
        m[conn.0] is Detected,
    ensures
        tmux_detached_spec(tmux_attached_spec(m, conn, session), conn, session) == m.insert(
            conn.0,
            TmuxState::Detected { sessions: m[conn.0]->sessions, attached: None },
        ),
{
    let m1 = tmux_attached_spec(m, conn, session);
    assert(m1[conn.0] == TmuxState::Detected { sessions: m[conn.0]->sessions, attached: Some(session) });
    assert(m1.insert(conn.0, TmuxState::Detected { sessions: m[conn.0]->sessions, attached: None }) =~= m.insert(
        conn.0,
        TmuxState::Detected { sessions: m[conn.0]->sessions, attached: None },
    ));
}


} // verus!
