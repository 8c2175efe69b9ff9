//! The decisions of the task that runs one SSH connection.
//!
//! The task logs in, opens a shell, and then waits on two sources at once:
//! the shell channel and the commands of the user interface. What it does
//! with each message is decided here; the task performs the step (network
//! and file work) and reports back the result where one is needed.
use vstd::prelude::*;
use crate::actor::{self, attach_command_bytes, ExecResult, TmuxListOutcome};
use crate::events::{SessionCommand, SshEvent};
use crate::ids::{ConnectionId, HostId, SessionId};
use crate::model::{HostConfig, SshAuth};
use crate::secrets::{self, SecretError};
use crate::ssh_error::{self, SshError};
use crate::state::{DisconnectReason, SshErrorKind};
use crate::text::chars_of;

verus! {

/// A message read from the shell channel.
#[derive(Debug)]
pub enum ChannelMessage {
    /// Output of the shell.
    Data(Vec<u8>),
    /// Output on another stream (stderr).
    ExtendedData { ext: u32, data: Vec<u8> },
    /// The shell exited with a status.
    ExitStatus(u32),
    /// The shell was killed by a signal.
    ExitSignal,
    /// The remote end closed the channel.
    Eof,
    /// Anything else (window adjustments, acknowledgements).
    Other,
}

/// What the task does next.
#[derive(Debug)]
pub enum ActorStep {
    /// Nothing but logging; wait for the next message.
    Continue,
    /// Report an event and go on.
    Emit(SshEvent),
    /// Write bytes to the shell; if that fails, report `write_failed` and stop.
    Write(Vec<u8>),
    /// Change the PTY size.
    Resize { cols: u32, rows: u32 },
    /// Run `tmux list-sessions` on a channel of its own and report the
    /// events of `tmux_query_events`.
    QueryTmux,
    /// Type `bytes` into the shell, then report what `after_attach_write`
    /// gives for the write.
    Attach { bytes: Vec<u8>, session: SessionId },
    /// Upload a pasted PNG to `clip_upload_path` of the current time.
    UploadImage { data: Vec<u8> },
    /// Upload the images one by one to the paths of `batch_paths`, then
    /// report the events of `batch_events` for the results.
    UploadBatch { images: Vec<(Vec<u8>, String)>, text: String },
    /// Report the event and end the task.
    Finish(SshEvent),
}

/// What the task does with a channel message (`None`: the channel is gone).
pub open spec fn channel_step_spec(conn: ConnectionId, msg: Option<ChannelMessage>, s: ActorStep) -> bool {
    match msg {
        Some(ChannelMessage::Data(d)) => s == ActorStep::Emit(SshEvent::PaneOutput { conn, bytes: d }),
        Some(ChannelMessage::Eof) | None => s == ActorStep::Finish(
            SshEvent::Disconnected { conn, reason: DisconnectReason::RemoteExited },
        ),
        _ => s == ActorStep::Continue,
    }
}

/// The step for a message of the shell channel: output is reported, the
/// end of the channel ends the task, anything else is only logged.
pub fn on_channel_message(conn: ConnectionId, msg: Option<ChannelMessage>) -> (s: ActorStep)
    ensures
        channel_step_spec(conn, msg, s),
{
    match msg {
        Some(ChannelMessage::Data(d)) => ActorStep::Emit(SshEvent::PaneOutput { conn, bytes: d }),
        Some(ChannelMessage::Eof) | None => ActorStep::Finish(
            SshEvent::Disconnected { conn, reason: DisconnectReason::RemoteExited },
        ),
        Some(_) => ActorStep::Continue,
    }
}

/// What the task does with a command (`None`: the user interface is gone).
pub open spec fn command_step_spec(conn: ConnectionId, cmd: Option<SessionCommand>, s: ActorStep) -> bool {
    match cmd {
        Some(SessionCommand::SendBytes(b)) => s == ActorStep::Write(b),
        Some(SessionCommand::Resize { cols, rows }) => s == ActorStep::Resize {
            cols: cols as u32,
            rows: rows as u32,
        },
        Some(SessionCommand::QueryTmuxSessions) => s == ActorStep::QueryTmux,
        Some(SessionCommand::AttachTmux { session }) => s matches ActorStep::Attach {
            bytes,
            session: sid,
        } && sid == session && bytes@ == vstd::utf8::encode_utf8(
            actor::attach_command_spec(session@),
        ),
        Some(SessionCommand::UploadImage { data }) => s == ActorStep::UploadImage { data },
        Some(SessionCommand::UploadBatch { images, text }) => s == ActorStep::UploadBatch {
            images,
            text,
        },
        Some(SessionCommand::Disconnect) | None => s == ActorStep::Finish(
            SshEvent::Disconnected { conn, reason: DisconnectReason::UserRequested },
        ),
    }
}

/// The step for a command of the user interface.
pub fn on_command(conn: ConnectionId, cmd: Option<SessionCommand>) -> (s: ActorStep)
    ensures
        command_step_spec(conn, cmd, s),
{
    match cmd {
        Some(SessionCommand::SendBytes(b)) => ActorStep::Write(b),
        Some(SessionCommand::Resize { cols, rows }) => ActorStep::Resize {
            cols: cols as u32,
            rows: rows as u32,
        },
        Some(SessionCommand::QueryTmuxSessions) => ActorStep::QueryTmux,
        Some(SessionCommand::AttachTmux { session }) => {
            let bytes = attach_command_bytes(&session);
            ActorStep::Attach { bytes, session }
        },
        Some(SessionCommand::UploadImage { data }) => ActorStep::UploadImage { data },
        Some(SessionCommand::UploadBatch { images, text }) => ActorStep::UploadBatch { images, text },
        Some(SessionCommand::Disconnect) | None => ActorStep::Finish(
            SshEvent::Disconnected { conn, reason: DisconnectReason::UserRequested },
        ),
    }
}

/// The event when writing to the shell failed with `err`: the connection is
/// lost.
pub fn write_failed(conn: ConnectionId, err: String) -> (e: SshEvent)
    ensures
        e == (SshEvent::Disconnected { conn, reason: DisconnectReason::NetworkError(err) }),
{
    SshEvent::Disconnected { conn, reason: DisconnectReason::NetworkError(err) }
}

/// The event for one uploaded image: its remote path, or the upload's error.
pub fn upload_event(conn: ConnectionId, path: String, result: Result<(), String>) -> (e: SshEvent)
    ensures
        match result {
            Ok(()) => e == (SshEvent::ImageUploaded { conn, path }),
            Err(msg) => e == (SshEvent::ImageUploadFailed { conn, msg }),
        },
{
    match result {
        Ok(()) => SshEvent::ImageUploaded { conn, path },
        Err(msg) => SshEvent::ImageUploadFailed { conn, msg },
    }
}

/// The events after image `i` (from 0) of a batch of `total`: the image's
/// own event, then the progress `i + 1` of `total`.
pub fn batch_item_events(
    conn: ConnectionId,
    i: usize,
    total: usize,
    path: String,
    result: Result<(), String>,
) -> (r: (SshEvent, SshEvent))
    requires
        i < total,
    ensures
        match result {
            Ok(()) => r.0 == (SshEvent::ImageUploaded { conn, path }),
            Err(msg) => r.0 == (SshEvent::ImageUploadFailed { conn, msg }),
        },
        r.1 == (SshEvent::BatchProgress { conn, done: (i + 1) as usize, total }),
{
    (upload_event(conn, path, result), SshEvent::BatchProgress { conn, done: i + 1, total })
}

/// A step of opening the shell.
#[derive(Debug, Clone, Copy, PartialEq, Eq, Structural)]
pub enum ShellStage {
    OpenChannel,
    RequestPty,
    Shell,
}

/// The name of a step of opening the shell, as error messages start.
pub open spec fn stage_text(s: ShellStage) -> Seq<char> {
    match s {
        ShellStage::OpenChannel => "open_channel: "@,
        ShellStage::RequestPty => "request_pty: "@,
        ShellStage::Shell => "shell: "@,
    }
}

/// The event when a step of opening the shell failed with the message
/// `err`: a protocol error naming the step.
pub fn shell_failed(conn: ConnectionId, stage: ShellStage, err: &str) -> (e: SshEvent)
    ensures
        e matches SshEvent::Error { conn: c, kind, msg } && c == conn && kind == SshErrorKind::Protocol
            && msg@ == stage_text(stage) + err@,
{
    let mut msg = match stage {
        ShellStage::OpenChannel => "open_channel: ".to_owned(),
        ShellStage::RequestPty => "request_pty: ".to_owned(),
        ShellStage::Shell => "shell: ".to_owned(),
    };
    msg.append(err);
    SshEvent::Error { conn, kind: SshErrorKind::Protocol, msg }
}

/// The event when connecting or logging in failed: the error's kind and
/// message.
pub fn connect_failed(conn: ConnectionId, err: &SshError) -> (e: SshEvent)
    ensures
        e matches SshEvent::Error { conn: c, kind, msg } && c == conn && kind
            == ssh_error::ssh_error_kind(*err) && msg@ == ssh_error::ssh_error_text(*err),
{
    SshEvent::Error { conn, kind: err.kind(), msg: err.message() }
}

/// The address the connection goes to: `host:port`.
pub fn connect_address(cfg: &HostConfig) -> (r: String)
    ensures
        r@ == cfg.host@ + ":"@ + crate::text::dec_seq(cfg.port as nat),
{
    let mut r = cfg.host.clone();
    r.append(":");
    let p = crate::text::dec_string(cfg.port as u64);
    r.append(p.as_str());
    r
}

/// How the task logs in once the connection is up.
#[derive(Debug, PartialEq, Eq)]
pub enum LoginPlan {
    /// Offer the private key read from this file (no passphrase).
    PublicKey { path: String },
    /// Send this password.
    Password { password: String },
}

/// The login of `cfg`, decided once the connection is up: the key file, the
/// password, or the authentication error when the password is empty or the
/// method is the SSH agent (not supported).
pub fn login_plan(cfg: &HostConfig) -> (r: Result<LoginPlan, SshError>)
    ensures
        match cfg.auth {
            SshAuth::KeyFile { path, .. } => r matches Ok(LoginPlan::PublicKey { path: p }) && p@ == path@,
            SshAuth::Password { password } => if password@.len() == 0 {
                r matches Err(SshError::Auth(m)) && m@ == "密码为空（keyring 未取到值或未设置）"@
            } else {
                r matches Ok(LoginPlan::Password { password: p }) && p@ == password@
            },
            SshAuth::Agent => r matches Err(SshError::Auth(m)) && m@ == "Agent auth not supported (M5+)"@,
        },
{
    match &cfg.auth {
        SshAuth::KeyFile { path, .. } => Ok(LoginPlan::PublicKey { path: path.clone() }),
        SshAuth::Password { password } => {
            if chars_of(password.as_str()).len() == 0 {
                Err(SshError::Auth("密码为空（keyring 未取到值或未设置）".to_owned()))
            } else {
                Ok(LoginPlan::Password { password: password.clone() })
            }
        },
        SshAuth::Agent => Err(SshError::Auth("Agent auth not supported (M5+)".to_owned())),
    }
}

/// The error when the server refused the login of `user`: with the public
/// key (`public_key`) or with the password.
pub fn login_rejected(public_key: bool, user: &str) -> (e: SshError)
    ensures
        e matches SshError::Auth(m) && m@ == (if public_key {
            "server rejected publickey for user "@
        } else {
            "server rejected password for user "@
        }) + user@,
{
    let mut m = if public_key {
        "server rejected publickey for user ".to_owned()
    } else {
        "server rejected password for user ".to_owned()
    };
    m.append(user);
    SshError::Auth(m)
}

/// Whether the password must come from the keyring: password login with no
/// password in the saved configuration.
pub open spec fn needs_keyring_password_spec(cfg: HostConfig) -> bool {
    cfg.auth matches SshAuth::Password { password } && password@.len() == 0
}

/// Whether the password must come from the keyring.
pub fn needs_keyring_password(cfg: &HostConfig) -> (b: bool)
    ensures
        b == needs_keyring_password_spec(*cfg),
{
    match &cfg.auth {
        SshAuth::Password { password } => chars_of(password.as_str()).len() == 0,
        _ => false,
    }
}

/// The message when the keyring holds no password for the host.
pub open spec fn no_password_text() -> Seq<char> {
    "keyring 中没有该 host 的密码（请重新在 GUI 中输入并保存）"@
}

/// The configuration to connect with, given what the keyring gave for a
/// host whose password is kept there: the password put in place, or the
/// login error to report.
pub fn with_keyring_password(conn: ConnectionId, cfg: HostConfig, got: Result<String, SecretError>) -> (r:
    Result<HostConfig, SshEvent>)
    ensures
        match got {
            Ok(p) => r matches Ok(c) && c == (HostConfig {
                auth: SshAuth::Password { password: p },
                ..cfg
            }),
            Err(SecretError::NoEntry) => r matches Err(SshEvent::Error { conn: c, kind, msg })
                && c == conn && kind == SshErrorKind::AuthFailed && msg@ == no_password_text(),
            Err(e) => r matches Err(SshEvent::Error { conn: c, kind, msg }) && c == conn && kind
                == SshErrorKind::AuthFailed && msg@ == "从 keyring 读取密码失败: "@
                + secrets::secret_error_text(e),
        },
{
    match got {
        Ok(p) => Ok(HostConfig { auth: SshAuth::Password { password: p }, ..cfg }),
        Err(SecretError::NoEntry) => Err(
            SshEvent::Error {
                conn,
                kind: SshErrorKind::AuthFailed,
                msg: "keyring 中没有该 host 的密码（请重新在 GUI 中输入并保存）".to_owned(),
            },
        ),
        Err(e) => {
            let mut msg = "从 keyring 读取密码失败: ".to_owned();
            let m = e.message();
            msg.append(m.as_str());
            Err(SshEvent::Error { conn, kind: SshErrorKind::AuthFailed, msg })
        },
    }
}


/// The command that reads the remote OS id.
pub const OS_PROBE_COMMAND: &'static str = "cat /etc/os-release 2>/dev/null";

/// The command that lists the remote tmux sessions: id, name, windows and
/// last activity, separated by `|`.
pub const TMUX_LIST_COMMAND: &'static str = "tmux list-sessions -F '#{session_id}|#{session_name}|#{session_windows}|#{session_activity}'";

/// The command that reads the global tmux mouse option.
pub const TMUX_MOUSE_COMMAND: &'static str = "tmux show-options -gv mouse 2>/dev/null";

/// The event for the OS probe of `host_id`: the id read from a successful
/// run, else none.
pub fn os_detected_event(host_id: HostId, res: &Result<ExecResult, String>) -> (e: SshEvent)
    ensures
        e matches SshEvent::OsDetected { host_id: h, os_kind } && h == host_id && crate::events::opt_text(
            os_kind,
        ) == actor::os_kind_spec(*res),
{
    let os_kind = actor::os_kind_from_probe(res);
    SshEvent::OsDetected { host_id, os_kind }
}

/// The event reporting a `list-sessions` outcome, and whether the mouse
/// option is checked next (only when tmux is there).
pub open spec fn list_event_spec(conn: ConnectionId, o: TmuxListOutcome) -> (SshEvent, bool) {
    match o {
        TmuxListOutcome::Listed { sessions } => (SshEvent::TmuxSessionsListed { conn, sessions }, true),
        TmuxListOutcome::NoTmux => (SshEvent::TmuxNoTmux { conn }, false),
        TmuxListOutcome::Failed { msg } => (SshEvent::TmuxQueryFailed { conn, msg }, false),
    }
}

/// The event reporting a `list-sessions` outcome, and whether the mouse
/// option is checked next (only when tmux is there).
pub fn tmux_list_event(conn: ConnectionId, o: TmuxListOutcome) -> (r: (SshEvent, bool))
    ensures
        r == list_event_spec(conn, o),
{
    match o {
        TmuxListOutcome::Listed { sessions } => (SshEvent::TmuxSessionsListed { conn, sessions }, true),
        TmuxListOutcome::NoTmux => (SshEvent::TmuxNoTmux { conn }, false),
        TmuxListOutcome::Failed { msg } => (SshEvent::TmuxQueryFailed { conn, msg }, false),
    }
}

/// The events of a tmux query, in order: `TmuxQueryStarted` when the
/// query begins, then the event of its outcome; and whether the mouse
/// option is checked next.
pub fn tmux_query_events(conn: ConnectionId, o: TmuxListOutcome) -> (r: (Vec<SshEvent>, bool))
    ensures
        r.0@ == seq![SshEvent::TmuxQueryStarted { conn }, list_event_spec(conn, o).0],
        r.1 == list_event_spec(conn, o).1,
{
    let (e, check_mouse) = tmux_list_event(conn, o);
    let mut evs: Vec<SshEvent> = Vec::new();
    evs.push(SshEvent::TmuxQueryStarted { conn });
    evs.push(e);
    (evs, check_mouse)
}

/// What follows the write of a tmux attach command into the shell:
/// `TmuxAttached` once it was written; when the write failed, no event,
/// and the task goes on reading.
pub fn after_attach_write(conn: ConnectionId, session: SessionId, written: Result<(), String>) -> (r:
    Option<SshEvent>)
    ensures
        match written {
            Ok(()) => r == Some(SshEvent::TmuxAttached { conn, session }),
            Err(_) => r is None,
        },
{
    match written {
        Ok(()) => Some(SshEvent::TmuxAttached { conn, session }),
        Err(_) => None,
    }
}

/// The remote path of image `i` of a batch uploaded at `ts_millis` with
/// extension `ext`.
pub open spec fn batch_path_spec(ts_millis: u128, i: int, ext: Seq<char>) -> Seq<char> {
    "/tmp/aish-clip-"@ + crate::text::dec_seq(ts_millis as nat) + "-"@ + crate::text::dec_seq(i as nat)
        + "."@ + ext
}

/// The remote paths of the images of a batch uploaded at `ts_millis`, one
/// per extension, in order.
pub fn batch_paths(ts_millis: u128, exts: &Vec<String>) -> (r: Vec<String>)
    ensures
        r@.len() == exts@.len(),
        forall|i: int| 0 <= i < r@.len() ==> #[trigger] r@[i]@ == batch_path_spec(ts_millis, i, exts@[i]@),
{
    let mut r: Vec<String> = Vec::new();
    let mut i: usize = 0;
    while i < exts.len()
        invariant
            i <= exts.len(),
            r@.len() == i,
            forall|j: int| 0 <= j < i ==> #[trigger] r@[j]@ == batch_path_spec(ts_millis, j, exts@[j]@),
        decreases exts.len() - i,
    {
        let p = actor::batch_upload_path(ts_millis, i, exts[i].as_str());
        r.push(p);
        i += 1;
    }
    r
}

/// The event of image `i` of a batch: uploaded to its path, or failed
/// with the upload's message.
pub open spec fn batch_item_spec(conn: ConnectionId, path: String, result: Result<(), String>) -> SshEvent {
    match result {
        Ok(()) => SshEvent::ImageUploaded { conn, path },
        Err(msg) => SshEvent::ImageUploadFailed { conn, msg },
    }
}

/// The whole event sequence of a batch whose images went to `paths` with
/// the upload results `results`: for each image in order, its own event and
/// then the progress `i + 1` of `n`, a failure stopping nothing; after the
/// last, exactly one `BatchDone` with `text`.
pub open spec fn batch_events_spec(
    conn: ConnectionId,
    paths: Seq<String>,
    results: Seq<Result<(), String>>,
    text: String,
    evs: Seq<SshEvent>,
) -> bool {
    let n = results.len() as int;
    &&& evs.len() == 2 * n + 1
    &&& forall|i: int|
        0 <= i < n ==> #[trigger] evs[2 * i] == batch_item_spec(conn, paths[i], results[i]) && evs[2
            * i + 1] == (SshEvent::BatchProgress { conn, done: (i + 1) as usize, total: n as usize })
    &&& evs[2 * n] == (SshEvent::BatchDone { conn, text })
}

/// The events of a batch upload, given where each image went and how its
/// upload ended.
pub fn batch_events(
    conn: ConnectionId,
    paths: &Vec<String>,
    results: &Vec<Result<(), String>>,
    text: String,
) -> (r: Vec<SshEvent>)
    requires
        paths.len() == results.len(),
    ensures
        batch_events_spec(conn, paths@, results@, text, r@),
{
    let n = results.len();
    let mut r: Vec<SshEvent> = Vec::new();
    let mut i: usize = 0;
    while i < n
        invariant
            n == results.len(),
            paths.len() == n,
            i <= n,
            r@.len() == 2 * i,
            forall|j: int|
                0 <= j < i ==> #[trigger] r@[2 * j] == batch_item_spec(conn, paths@[j], results@[j])
                    && r@[2 * j + 1] == (SshEvent::BatchProgress {
                    conn,
                    done: (j + 1) as usize,
                    total: n,
                }),
        decreases n - i,
    {
        let e = match &results[i] {
            Ok(()) => SshEvent::ImageUploaded { conn, path: paths[i].clone() },
            Err(m) => SshEvent::ImageUploadFailed { conn, msg: m.clone() },
        };
        let ghost before = r@;
        r.push(e);
        r.push(SshEvent::BatchProgress { conn, done: i + 1, total: n });
        proof {
            assert forall|j: int| 0 <= j < i + 1 implies #[trigger] r@[2 * j] == batch_item_spec(
                conn,
                paths@[j],
                results@[j],
            ) && r@[2 * j + 1] == (SshEvent::BatchProgress { conn, done: (j + 1) as usize, total: n }) by {
                if j < i {
                    assert(r@[2 * j] == before[2 * j]);
                    assert(r@[2 * j + 1] == before[2 * j + 1]);
                }
            }
        }
        i += 1;
    }
    r.push(SshEvent::BatchDone { conn, text });
    r
}

/// The event after the mouse check: a hint when the mouse is not on.
pub fn mouse_check_event(conn: ConnectionId, res: &Result<ExecResult, String>) -> (r: Option<SshEvent>)
    ensures
        r is None <==> actor::mouse_on_spec(*res),
        r matches Some(e) ==> e == (SshEvent::TmuxMouseDisabled { conn }),
{
    if actor::tmux_mouse_on(res) {
        None
    } else {
        Some(SshEvent::TmuxMouseDisabled { conn })
    }
}

} // verus!
