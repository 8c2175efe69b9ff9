//! Events from the SSH tasks, commands to them, and how the user interface
//! reacts to an event: what changes in the state and what it must do (toast,
//! write to a shell, save the hosts).
use vstd::prelude::*;
use crate::ids::{ConnectionId, HostId, SessionId};
use crate::model::{HostConfig, RemoteSession};
use crate::state::{
    self, AppState, Connection, ConnectionPhase, DisconnectReason, SshErrorKind, TmuxState,
};
use crate::text::{self, chars_of, contains_lit, dec_string_u128, string_into_bytes};

verus! {

broadcast use vstd::std_specs::hash::group_hash_axioms;

/// What an SSH task reports to the user interface; each names its connection.
#[derive(Debug)]
pub enum SshEvent {
    /// The shell is up.
    Connected { conn: ConnectionId },
    /// Output of the remote shell.
    PaneOutput { conn: ConnectionId, bytes: Vec<u8> },
    /// The task ended.
    Disconnected { conn: ConnectionId, reason: DisconnectReason },
    /// The task failed.
    Error { conn: ConnectionId, kind: SshErrorKind, msg: String },
    /// `tmux list-sessions` started.
    TmuxQueryStarted { conn: ConnectionId },
    /// `tmux list-sessions` worked (possibly with no session).
    TmuxSessionsListed { conn: ConnectionId, sessions: Vec<RemoteSession> },
    /// tmux is there but `list-sessions` failed.
    TmuxQueryFailed { conn: ConnectionId, msg: String },
    /// No tmux on the remote.
    TmuxNoTmux { conn: ConnectionId },
    /// tmux runs with its mouse support off.
    TmuxMouseDisabled { conn: ConnectionId },
    /// `tmux attach` was typed into the shell.
    TmuxAttached { conn: ConnectionId, session: SessionId },
    /// The tmux client went away.
    TmuxSessionDetached { conn: ConnectionId, session: SessionId },
    /// An image was uploaded to the remote `path`.
    ImageUploaded { conn: ConnectionId, path: String },
    /// An image upload failed.
    ImageUploadFailed { conn: ConnectionId, msg: String },
    /// The `/etc/os-release` id of a host, `None` when it could not be read.
    OsDetected { host_id: HostId, os_kind: Option<String> },
    /// `done` of the `total` images of a batch are through.
    BatchProgress { conn: ConnectionId, done: usize, total: usize },
    /// A batch is through; `text` follows the image paths.
    BatchDone { conn: ConnectionId, text: String },
    /// A batch stopped after `succeeded` of `total` images.
    BatchAborted { conn: ConnectionId, succeeded: usize, total: usize, reason: String },
    /// The remote shell set the terminal title.
    TitleChanged { conn: ConnectionId, title: String },
    /// The remote asked to put `text` on the local clipboard.
    ClipboardWrite { text: String },
}

/// What the user interface asks of an SSH task.
#[derive(Debug)]
pub enum SessionCommand {
    /// Bytes typed into the shell.
    SendBytes(Vec<u8>),
    /// A new PTY size.
    Resize { cols: u16, rows: u16 },
    /// End the connection.
    Disconnect,
    /// Run `tmux list-sessions` again.
    QueryTmuxSessions,
    /// Attach the tmux session `session` in the shell.
    AttachTmux { session: SessionId },
    /// Upload one pasted PNG image.
    UploadImage { data: Vec<u8> },
    /// Upload images (bytes, extension without the dot), then type `text`.
    UploadBatch { images: Vec<(Vec<u8>, String)>, text: String },
}

/// Something the user interface does besides changing its state.
#[derive(Debug)]
pub enum UiAction {
    /// Feed output to the terminal emulator of `conn`.
    FeedTerminal { conn: ConnectionId, bytes: Vec<u8> },
    /// Type `bytes` into the shell of `conn`, whose task is running.
    SendBytes { conn: ConnectionId, bytes: Vec<u8> },
    /// Show a success toast.
    ToastSuccess(String),
    /// Show an error toast.
    ToastError(String),
    /// Show a warning toast.
    ToastWarning(String),
    /// Write the saved hosts to disk.
    SaveHosts,
    /// Put text on the clipboard.
    WriteClipboard(String),
}

/// The reaction to one event.
pub struct Reaction {
    pub actions: Vec<UiAction>,
    /// Whether the views must be drawn again.
    pub redraw: bool,
}

/// The label of the connection `conn`, or "未知连接" when it is gone.
pub open spec fn label_or_unknown(cs: Seq<Connection>, conn: ConnectionId) -> Seq<char> {
    match state::conn_pos(cs, conn) {
        Some(i) => cs[i].label@,
        None => "未知连接"@,
    }
}

/// The phase text kept for a disconnection.
pub open spec fn reason_text(r: DisconnectReason) -> Seq<char> {
    match r {
        DisconnectReason::UserRequested => "用户主动断开"@,
        DisconnectReason::RemoteExited => "远端 shell 退出"@,
        DisconnectReason::NetworkError(e) => "网络错误: "@ + e@,
    }
}

/// The words for a kind of failure.
pub open spec fn kind_text(k: SshErrorKind) -> Seq<char> {
    match k {
        SshErrorKind::ConnectFailed => "连接失败"@,
        SshErrorKind::AuthFailed => "登录失败"@,
        SshErrorKind::Io => "网络中断"@,
        SshErrorKind::Protocol => "会话异常"@,
    }
}

/// The toast for a failed connection labelled `label`: a lost session gets a
/// hint to reconnect, anything else its kind and message.
pub open spec fn error_toast_text(label: Seq<char>, kind: SshErrorKind, msg: Seq<char>) -> Seq<char> {
    if text::contains_seq(msg, "Disconnect"@) {
        label + ": 连接已断开 — 双击 tab 可重连"@
    } else {
        label + ": "@ + kind_text(kind) + " — "@ + msg
    }
}

/// The hint shown when the remote tmux has its mouse support off.
pub open spec fn mouse_hint_text(label: Seq<char>) -> Seq<char> {
    label + ": 远端 tmux 鼠标未开启 — 在 ~/.tmux.conf 加 `set -g mouse on` 后 tmux source-file 一次"@
}

/// The toast for an aborted batch.
pub open spec fn batch_aborted_text(label: Seq<char>, succeeded: nat, total: nat, reason: Seq<char>) -> Seq<char> {
    label + ": 上传失败（"@ + text::dec_seq(succeeded) + "/"@ + text::dec_seq(total) + "）— "@ + reason
        + "，请重试"@
}

/// An optional string by its characters.
pub open spec fn opt_text(o: Option<String>) -> Option<Seq<char>> {
    match o {
        Some(s) => Some(s@),
        None => None,
    }
}

/// The action list is exactly one error toast with the text `t`.
pub open spec fn one_toast_error(r: Reaction, t: Seq<char>) -> bool {
    r.actions@.len() == 1 && (r.actions@[0] matches UiAction::ToastError(m) && m@ == t)
}

/// The action list is exactly one write of the UTF-8 of `t` to the shell of
/// `conn`.
pub open spec fn one_send(r: Reaction, conn: ConnectionId, t: Seq<char>) -> bool {
    r.actions@.len() == 1 && (r.actions@[0] matches UiAction::SendBytes { conn: c, bytes } && c
        == conn && bytes@ == vstd::utf8::encode_utf8(t))
}

/// How the state `s0` becomes `s1`, and what `r` holds, when the event `ev`
/// comes in.
pub open spec fn reaction_spec(s0: AppState, s1: AppState, ev: SshEvent, r: Reaction) -> bool {
    match ev {
        SshEvent::Connected { conn } => {
            &&& s1 == (AppState { connection_phases: s1.connection_phases, ..s0 })
            &&& s1.connection_phases@ == s0.connection_phases@.insert(conn.0, ConnectionPhase::Connected)
            &&& r.actions@.len() == 0 && r.redraw
        },
        SshEvent::PaneOutput { conn, bytes } => {
            &&& s1 == s0
            &&& r.actions@ == seq![UiAction::FeedTerminal { conn, bytes }]
            &&& r.redraw
        },
        SshEvent::Disconnected { conn, reason } => {
            &&& s1 == (AppState {
                sessions: s1.sessions,
                tmux_state: s1.tmux_state,
                connection_phases: s1.connection_phases,
                ..s0
            })
            &&& s1.sessions@ == s0.sessions@.remove(conn.0)
            &&& s1.tmux_state@ == s0.tmux_state@.remove(conn.0)
            &&& s1.connection_phases@.dom() == s0.connection_phases@.dom().insert(conn.0)
            &&& s1.connection_phases@.remove(conn.0) == s0.connection_phases@.remove(conn.0)
            &&& (s1.connection_phases@[conn.0] matches ConnectionPhase::Disconnected { reason: t }
                && t@ == reason_text(reason))
            &&& match reason {
                DisconnectReason::NetworkError(e) => one_toast_error(
                    r,
                    label_or_unknown(s0.connections@, conn) + ": 连接中断 — "@ + e@,
                ),
                _ => r.actions@.len() == 0,
            }
            &&& r.redraw
        },
        SshEvent::Error { conn, kind, msg } => {
            &&& s1 == (AppState {
                sessions: s1.sessions,
                tmux_state: s1.tmux_state,
                connection_phases: s1.connection_phases,
                ..s0
            })
            &&& s1.sessions@ == s0.sessions@.remove(conn.0)
            &&& s1.tmux_state@ == s0.tmux_state@.remove(conn.0)
            &&& s1.connection_phases@.dom() == s0.connection_phases@.dom().insert(conn.0)
            &&& s1.connection_phases@.remove(conn.0) == s0.connection_phases@.remove(conn.0)
            &&& (s1.connection_phases@[conn.0] matches ConnectionPhase::Disconnected { reason: t }
                && t@ == kind_text(kind) + ": "@ + msg@)
            &&& one_toast_error(r, error_toast_text(label_or_unknown(s0.connections@, conn), kind, msg@))
            &&& r.redraw
        },
        SshEvent::OsDetected { host_id, os_kind } => {
            let jo = state::host_pos(s0.hosts@, host_id);
            let j = jo->0;
            if jo is Some && opt_text(s0.hosts@[j].os_kind) != opt_text(os_kind) {
                &&& s1 == (AppState { hosts: s1.hosts, ..s0 })
                &&& s1.hosts@ == s0.hosts@.update(j, HostConfig { os_kind, ..s0.hosts@[j] })
                &&& r.actions@ == seq![UiAction::SaveHosts]
                &&& r.redraw
            } else {
                s1 == s0 && r.actions@.len() == 0 && !r.redraw
            }
        },
        SshEvent::TmuxQueryStarted { conn } => {
            &&& s1 == (AppState { tmux_state: s1.tmux_state, ..s0 })
            &&& s1.tmux_state@ == s0.tmux_state@.insert(conn.0, TmuxState::NotChecked)
            &&& r.actions@.len() == 0 && r.redraw
        },
        SshEvent::TmuxSessionsListed { conn, sessions } => {
            &&& s1 == (AppState {
                tmux_state: s1.tmux_state,
                pending_session_picker: s1.pending_session_picker,
                ..s0
            })
            &&& s1.tmux_state@ == s0.tmux_state@.insert(
                conn.0,
                TmuxState::Detected { sessions, attached: None },
            )
            &&& s1.pending_session_picker == if sessions@.len() > 0 && s0.current_connection_spec()
                == Some(conn) {
                Some(conn)
            } else {
                s0.pending_session_picker
            }
            &&& r.actions@.len() == 0 && r.redraw
        },
        SshEvent::TmuxQueryFailed { conn, msg } => {
            &&& s1 == (AppState { tmux_state: s1.tmux_state, ..s0 })
            &&& s1.tmux_state@ == s0.tmux_state@.insert(conn.0, TmuxState::QueryFailed { msg })
            &&& r.actions@.len() == 0 && r.redraw
        },
        SshEvent::TmuxNoTmux { conn } => {
            &&& s1 == (AppState { tmux_state: s1.tmux_state, ..s0 })
            &&& s1.tmux_state@ == s0.tmux_state@.insert(conn.0, TmuxState::NoTmux)
            &&& r.actions@.len() == 0 && r.redraw
        },
        SshEvent::TmuxMouseDisabled { conn } => {
            &&& s1 == s0
            &&& r.actions@.len() == 1
            &&& (r.actions@[0] matches UiAction::ToastWarning(m) && m@ == mouse_hint_text(
                label_or_unknown(s0.connections@, conn),
            ))
            &&& !r.redraw
        },
        SshEvent::TmuxAttached { conn, session } => {
            &&& s1 == (AppState { tmux_state: s1.tmux_state, ..s0 })
            &&& s1.tmux_state@ == state::tmux_attached_spec(s0.tmux_state@, conn, session)
            &&& r.actions@.len() == 0 && r.redraw
        },
        SshEvent::TmuxSessionDetached { conn, session } => {
            &&& s1 == (AppState { tmux_state: s1.tmux_state, ..s0 })
            &&& s1.tmux_state@ == state::tmux_detached_spec(s0.tmux_state@, conn, session)
            &&& r.actions@.len() == 0 && r.redraw
        },
        SshEvent::ImageUploaded { conn, path } => {
            &&& s1 == s0
            &&& if s0.sessions@.contains(conn.0) {
                one_send(r, conn, " "@ + path@)
            } else {
                r.actions@.len() == 0
            }
            &&& !r.redraw
        },
        SshEvent::ImageUploadFailed { conn, msg } => {
            &&& s1 == s0
            &&& one_toast_error(
                r,
                label_or_unknown(s0.connections@, conn) + ": 图片上传失败 — "@ + msg@,
            )
            &&& !r.redraw
        },
        SshEvent::BatchProgress { conn, done, total } => {
            &&& s1 == (AppState { pending_uploads: s1.pending_uploads, ..s0 })
            &&& s1.pending_uploads@ == s0.pending_uploads@.insert(conn.0, (done, total))
            &&& r.actions@.len() == 0 && r.redraw
        },
        SshEvent::BatchDone { conn, text } => {
            &&& s1 == (AppState { pending_uploads: s1.pending_uploads, ..s0 })
            &&& s1.pending_uploads@ == s0.pending_uploads@.remove(conn.0)
            &&& if text@.len() > 0 && s0.sessions@.contains(conn.0) {
                one_send(r, conn, " "@ + text@)
            } else {
                r.actions@.len() == 0
            }
            &&& r.redraw
        },
        SshEvent::BatchAborted { conn, succeeded, total, reason } => {
            &&& s1 == (AppState {
                pending_uploads: s1.pending_uploads,
                last_aborted_batch: s1.last_aborted_batch,
                ..s0
            })
            &&& s1.pending_uploads@ == s0.pending_uploads@.remove(conn.0)
            &&& s1.last_aborted_batch@ == s0.last_aborted_batch@.insert(conn.0, (succeeded, total))
            &&& one_toast_error(
                r,
                batch_aborted_text(
                    label_or_unknown(s0.connections@, conn),
                    succeeded as nat,
                    total as nat,
                    reason@,
                ),
            )
            &&& r.redraw
        },
        SshEvent::TitleChanged { conn, title } => {
            &&& s1 == (AppState { tabs: s1.tabs, ..s0 })
            &&& state::tab_title_update(s0.tabs@, s1.tabs@, conn, title@, r.redraw)
            &&& r.actions@.len() == 0
        },
        SshEvent::ClipboardWrite { text } => {
            &&& s1 == s0
            &&& r.actions@.len() == 1
            &&& (r.actions@[0] matches UiAction::WriteClipboard(t) && t@ == text@)
            &&& !r.redraw
        },
    }
}

impl AppState {
    /// The label of the connection `conn`, or "未知连接" when it is gone.
    pub fn label_or_unknown(&self, conn: ConnectionId) -> (r: String)
        ensures
            r@ == label_or_unknown(self.connections@, conn),
    {
        match self.connection(conn) {
            Some(c) => c.label.clone(),
            None => "未知连接".to_owned(),
        }
    }
}

/// `a` followed by `b`.
fn cat(a: String, b: &str) -> (r: String)
    ensures
        r@ == a@ + b@,
{
    let mut a = a;
    a.append(b);
    a
}

/// A reaction without actions.
fn quiet(redraw: bool) -> (r: Reaction)
    ensures
        r.actions@.len() == 0,
        r.redraw == redraw,
{
    Reaction { actions: Vec::new(), redraw }
}

/// A reaction with one action.
fn one(a: UiAction, redraw: bool) -> (r: Reaction)
    ensures
        r.actions@ == seq![a],
        r.redraw == redraw,
{
    let mut actions = Vec::new();
    actions.push(a);
    Reaction { actions, redraw }
}

/// Sends `" " + t` to the shell of `conn` when its task runs.
fn send_spaced(state: &AppState, conn: ConnectionId, t: &str) -> (r: Vec<UiAction>)
    ensures
        if state.sessions@.contains(conn.0) {
            r@.len() == 1 && (r@[0] matches UiAction::SendBytes { conn: c, bytes } && c == conn
                && bytes@ == vstd::utf8::encode_utf8(" "@ + t@))
        } else {
            r@.len() == 0
        },
{
    let mut actions = Vec::new();
    if state.is_session_active(conn) {
        let msg = cat(" ".to_owned(), t);
        actions.push(UiAction::SendBytes { conn, bytes: string_into_bytes(msg) });
    }
    actions
}

/// The phase text kept for a disconnection.
pub fn reason_text_string(reason: &DisconnectReason) -> (r: String)
    ensures
        r@ == reason_text(*reason),
{
    match reason {
        DisconnectReason::UserRequested => "用户主动断开".to_owned(),
        DisconnectReason::RemoteExited => "远端 shell 退出".to_owned(),
        DisconnectReason::NetworkError(e) => cat("网络错误: ".to_owned(), e.as_str()),
    }
}

/// The words for a kind of failure.
pub fn kind_text_str(kind: SshErrorKind) -> (r: &'static str)
    ensures
        r@ == kind_text(kind),
{
    match kind {
        SshErrorKind::ConnectFailed => "连接失败",
        SshErrorKind::AuthFailed => "登录失败",
        SshErrorKind::Io => "网络中断",
        SshErrorKind::Protocol => "会话异常",
    }
}

/// The toast for a failed connection.
pub fn error_toast(label: String, kind: SshErrorKind, msg: &str) -> (r: String)
    ensures
        r@ == error_toast_text(label@, kind, msg@),
{
    if contains_lit(&chars_of(msg), "Disconnect") {
        cat(label, ": 连接已断开 — 双击 tab 可重连")
    } else {
        cat(cat(cat(cat(label, ": "), kind_text_str(kind)), " — "), msg)
    }
}

/// The toast for an aborted batch.
pub fn batch_aborted_toast(label: String, succeeded: usize, total: usize, reason: &str) -> (r: String)
    ensures
        r@ == batch_aborted_text(label@, succeeded as nat, total as nat, reason@),
{
    let s = dec_string_u128(succeeded as u128);
    let t = dec_string_u128(total as u128);
    let r = cat(label, ": 上传失败（");
    let r = cat(r, s.as_str());
    let r = cat(r, "/");
    let r = cat(r, t.as_str());
    let r = cat(r, "）— ");
    let r = cat(r, reason);
    cat(r, "，请重试")
}

/// Whether two optional strings hold the same text.
fn same_opt_text(a: &Option<String>, b: &Option<String>) -> (r: bool)
    ensures
        r == (opt_text(*a) == opt_text(*b)),
{
    match (a, b) {
        (Some(x), Some(y)) => *x == *y,
        (None, None) => true,
        _ => false,
    }
}

/// Reacts to `ev`: updates the state and says what else to do, as
/// `reaction_spec` states for each kind of event.
pub fn apply_event(state: &mut AppState, ev: SshEvent) -> (r: Reaction)
    ensures
        reaction_spec(*old(state), *final(state), ev, r),
        ev matches SshEvent::Connected { conn } ==> final(state).connection_phases@.contains_key(conn.0)
            && final(state).connection_phases@[conn.0] == ConnectionPhase::Connected,
{
    let ghost ev0 = ev;
    let r = apply_event_step(state, ev);
    proof {
        law_event_effects(*old(state), *state, ev0, r);
    }
    r
}

/// One event applied to the state.
fn apply_event_step(state: &mut AppState, ev: SshEvent) -> (r: Reaction)
    ensures
        reaction_spec(*old(state), *final(state), ev, r),
{
    match ev {
        SshEvent::Connected { conn } => {
            state.mark_connected(conn);
            quiet(true)
        },
        SshEvent::PaneOutput { conn, bytes } => {
            one(UiAction::FeedTerminal { conn, bytes }, true)
        },
        SshEvent::Disconnected { conn, reason } => on_disconnected(state, conn, reason),
        SshEvent::Error { conn, kind, msg } => on_error(state, conn, kind, msg),
        SshEvent::OsDetected { host_id, os_kind } => on_os_detected(state, host_id, os_kind),
        SshEvent::TmuxQueryStarted { conn } => {
            state.tmux_state.insert(conn.0, TmuxState::NotChecked);
            quiet(true)
        },
        SshEvent::TmuxSessionsListed { conn, sessions } => {
            let has_sessions = sessions.len() > 0;
            state.tmux_state.insert(conn.0, TmuxState::Detected { sessions, attached: None });
            if has_sessions && state.current_connection() == Some(conn) {
                state.pending_session_picker = Some(conn);
            }
            quiet(true)
        },
        SshEvent::TmuxQueryFailed { conn, msg } => {
            state.tmux_state.insert(conn.0, TmuxState::QueryFailed { msg });
            quiet(true)
        },
        SshEvent::TmuxNoTmux { conn } => {
            state.tmux_state.insert(conn.0, TmuxState::NoTmux);
            quiet(true)
        },
        SshEvent::TmuxMouseDisabled { conn } => {
            let label = state.label_or_unknown(conn);
            let msg = cat(
                label,
                ": 远端 tmux 鼠标未开启 — 在 ~/.tmux.conf 加 `set -g mouse on` 后 tmux source-file 一次",
            );
            one(UiAction::ToastWarning(msg), false)
        },
        SshEvent::TmuxAttached { conn, session } => {
            state.mark_tmux_attached(conn, session);
            quiet(true)
        },
        SshEvent::TmuxSessionDetached { conn, session } => {
            state.mark_tmux_detached(conn, session);
            quiet(true)
        },
        SshEvent::ImageUploaded { conn, path } => {
            let actions = send_spaced(state, conn, path.as_str());
            Reaction { actions, redraw: false }
        },
        SshEvent::ImageUploadFailed { conn, msg } => {
            let label = state.label_or_unknown(conn);
            let t = cat(cat(label, ": 图片上传失败 — "), msg.as_str());
            one(UiAction::ToastError(t), false)
        },
        SshEvent::BatchProgress { conn, done, total } => {
            state.pending_uploads.insert(conn.0, (done, total));
            quiet(true)
        },
        SshEvent::BatchDone { conn, text } => {
            state.pending_uploads.remove(&conn.0);
            let actions = if chars_of(text.as_str()).len() > 0 {
                send_spaced(state, conn, text.as_str())
            } else {
                Vec::new()
            };
            Reaction { actions, redraw: true }
        },
        SshEvent::BatchAborted { conn, succeeded, total, reason } => {
            state.pending_uploads.remove(&conn.0);
            state.last_aborted_batch.insert(conn.0, (succeeded, total));
            let label = state.label_or_unknown(conn);
            let t = batch_aborted_toast(label, succeeded, total, reason.as_str());
            one(UiAction::ToastError(t), true)
        },
        SshEvent::TitleChanged { conn, title } => {
            let changed = state.set_tab_title_for_conn(conn, title);
            quiet(changed)
        },
        SshEvent::ClipboardWrite { text } => one(UiAction::WriteClipboard(text), false),
    }
}

/// The task of `conn` ended for `reason`.
fn on_disconnected(state: &mut AppState, conn: ConnectionId, reason: DisconnectReason) -> (r:
    Reaction)
    ensures
        reaction_spec(*old(state), *final(state), SshEvent::Disconnected { conn, reason }, r),
{
    let reason_str = reason_text_string(&reason);
    let r = match &reason {
        DisconnectReason::NetworkError(e) => {
            let label = state.label_or_unknown(conn);
            let t = cat(cat(label, ": 连接中断 — "), e.as_str());
            one(UiAction::ToastError(t), true)
        },
        _ => quiet(true),
    };
    state.drop_session(conn, reason_str.as_str());
    proof {
        assert(final(state).connection_phases@.remove(conn.0) =~= old(
            state,
        ).connection_phases@.remove(conn.0));
        assert(final(state).connection_phases@.dom() =~= old(state).connection_phases@.dom().insert(
            conn.0,
        ));
    }
    r
}

/// The task of `conn` failed.
fn on_error(state: &mut AppState, conn: ConnectionId, kind: SshErrorKind, msg: String) -> (r:
    Reaction)
    ensures
        reaction_spec(*old(state), *final(state), SshEvent::Error { conn, kind, msg }, r),
{
    let label = state.label_or_unknown(conn);
    let t = error_toast(label, kind, msg.as_str());
    let phase_text = cat(cat(kind_text_str(kind).to_owned(), ": "), msg.as_str());
    state.drop_session(conn, phase_text.as_str());
    proof {
        assert(final(state).connection_phases@.remove(conn.0) =~= old(
            state,
        ).connection_phases@.remove(conn.0));
        assert(final(state).connection_phases@.dom() =~= old(state).connection_phases@.dom().insert(
            conn.0,
        ));
    }
    one(UiAction::ToastError(t), true)
}

/// The os-release id of `host_id` was read: a new value is saved.
fn on_os_detected(state: &mut AppState, host_id: HostId, os_kind: Option<String>) -> (r: Reaction)
    ensures
        reaction_spec(*old(state), *final(state), SshEvent::OsDetected { host_id, os_kind }, r),
{
    let j = match state.find_host(host_id) {
        Some(j) => j,
        None => return quiet(false),
    };
    if same_opt_text(&state.hosts[j].os_kind, &os_kind) {
        return quiet(false);
    }
    let ghost hosts0 = state.hosts@;
    let h = state.hosts.remove(j);
    let updated = HostConfig { os_kind, ..h };
    state.hosts.insert(j, updated);
    assert(state.hosts@ =~= hosts0.update(j as int, HostConfig { os_kind, ..hosts0[j as int] }));
    one(UiAction::SaveHosts, true)
}


/// What the terminal emulator of a connection reports.
#[derive(Debug)]
pub enum TermEvent {
    /// The remote set the window title.
    Title(String),
    /// The remote reset the window title.
    ResetTitle,
    /// The remote stored text on the clipboard.
    ClipboardStore(String),
    /// Anything else (bell, cursor blinking, ...).
    Other,
}

/// The event a terminal report of `conn` becomes: titles become
/// `TitleChanged` (a reset as an empty title), clipboard stores
/// `ClipboardWrite`; anything else is dropped.
pub fn term_event(conn: ConnectionId, ev: TermEvent) -> (r: Option<SshEvent>)
    ensures
        match ev {
            TermEvent::Title(t) => r == Some(SshEvent::TitleChanged { conn, title: t }),
            TermEvent::ResetTitle => r matches Some(SshEvent::TitleChanged { conn: c, title }) && c
                == conn && title@.len() == 0,
            TermEvent::ClipboardStore(text) => r == Some(SshEvent::ClipboardWrite { text }),
            TermEvent::Other => r is None,
        },
{
    match ev {
        TermEvent::Title(t) => Some(SshEvent::TitleChanged { conn, title: t }),
        TermEvent::ResetTitle => Some(SshEvent::TitleChanged { conn, title: String::new() }),
        TermEvent::ClipboardStore(text) => Some(SshEvent::ClipboardWrite { text }),
        TermEvent::Other => None,
    }
}

/// What each event does to the state, in plain terms: once the shell is
/// up the connection's phase is `Connected` and no other phase changes; an
/// end or an error leaves it `Disconnected` and its task no longer running;
/// a listed tmux answer is recorded as detected with those sessions and
/// nothing attached; a remote without tmux is recorded as such; a finished
/// batch leaves no upload pending; terminal output changes no state.
pub proof fn law_event_effects(s0: AppState, s1: AppState, ev: SshEvent, r: Reaction)
    requires
        reaction_spec(s0, s1, ev, r),
    ensures
        ev matches SshEvent::Connected { conn } ==> {
            &&& s1.connection_phases@.contains_key(conn.0)
            &&& s1.connection_phases@[conn.0] == ConnectionPhase::Connected
            &&& forall|k: u128|
                k != conn.0 ==> (s1.connection_phases@.contains_key(k) == s0.connection_phases@.contains_key(k)
                    && s1.connection_phases@[k] == s0.connection_phases@[k])
            &&& s1.sessions@ == s0.sessions@
        },
        ev matches SshEvent::Disconnected { conn, .. } ==> s1.connection_phases@.contains_key(conn.0)
            && s1.connection_phases@[conn.0] is Disconnected && !s1.sessions@.contains(conn.0),
        ev matches SshEvent::Error { conn, .. } ==> s1.connection_phases@.contains_key(conn.0)
            && s1.connection_phases@[conn.0] is Disconnected && !s1.sessions@.contains(conn.0),
        ev matches SshEvent::TmuxSessionsListed { conn, sessions } ==> s1.tmux_state@.contains_key(conn.0)
            && s1.tmux_state@[conn.0] == (TmuxState::Detected { sessions, attached: None }),
        ev matches SshEvent::TmuxNoTmux { conn } ==> s1.tmux_state@.contains_key(conn.0)
            && s1.tmux_state@[conn.0] == TmuxState::NoTmux,
        ev matches SshEvent::BatchDone { conn, .. } ==> !s1.pending_uploads@.contains_key(conn.0),
        ev matches SshEvent::PaneOutput { .. } ==> s1 == s0,
{
    match ev {
        SshEvent::Disconnected { conn, .. } => {
            assert(s1.connection_phases@.dom().contains(conn.0));
        },
        SshEvent::Error { conn, .. } => {
            assert(s1.connection_phases@.dom().contains(conn.0));
        },
        _ => {},
    }
}

} // verus!
