//! Data behind the live-session cards of the home page: the last rows of
//! the terminal, which of four looks the card takes, and how long the
//! session has lasted.
use vstd::prelude::*;
use crate::clock::{secs_between, spec_secs_between};
use crate::humanize::join_number;
use crate::text::{self, trim_end_chars};

verus! {

/// What the home page shows of one live session, read out while the state is
/// borrowed: the phase as three flags, the last rows of the terminal, the
/// cursor when it lies within them, and when the connection was opened.
pub struct PreviewSnapshot {
    pub phase_is_connected: bool,
    pub phase_is_connecting: bool,
    pub phase_is_disconnected: bool,
    pub disconnect_reason: Option<String>,
    pub preview: Vec<String>,
    pub cursor_in_window: Option<(usize, usize)>,
    pub opened_at: std::time::SystemTime,
}

/// The four looks of a session card.
#[derive(Debug, Clone, Copy, PartialEq, Eq, Structural)]
pub enum PreviewBranch {
    /// Connected and the terminal shows something: draw the cells.
    ShowCells,
    /// Connected but nothing shown yet: "waiting for output".
    WaitingForOutput,
    /// Still connecting: a spinner.
    Loading,
    /// Disconnected: a warning and "click to reconnect".
    DisconnectedHint,
}

/// The look of a card: disconnected wins over connecting, which wins over
/// connected; connected splits on whether the preview is empty.
pub open spec fn preview_branch_spec(
    connected: bool,
    connecting: bool,
    disconnected: bool,
    preview_empty: bool,
) -> PreviewBranch {
    if disconnected {
        PreviewBranch::DisconnectedHint
    } else if connecting {
        PreviewBranch::Loading
    } else if connected {
        if preview_empty {
            PreviewBranch::WaitingForOutput
        } else {
            PreviewBranch::ShowCells
        }
    } else {
        PreviewBranch::Loading
    }
}

/// Chooses the look of a card from the phase flags and whether the preview
/// is empty (only consulted when connected).
pub fn preview_branch_for_phase(
    phase_is_connected: bool,
    phase_is_connecting: bool,
    phase_is_disconnected: bool,
    preview_empty: bool,
) -> (r: PreviewBranch)
    ensures
        r == preview_branch_spec(
            phase_is_connected,
            phase_is_connecting,
            phase_is_disconnected,
            preview_empty,
        ),
{
    if phase_is_disconnected {
        PreviewBranch::DisconnectedHint
    } else if phase_is_connecting {
        PreviewBranch::Loading
    } else if phase_is_connected {
        if preview_empty {
            PreviewBranch::WaitingForOutput
        } else {
            PreviewBranch::ShowCells
        }
    } else {
        PreviewBranch::Loading
    }
}

/// How many leading rows are skipped to keep the last `n` of `total`.
pub open spec fn rows_skipped(total: nat, n: nat) -> nat {
    if total > n {
        (total - n) as nat
    } else {
        0
    }
}

/// The last `n` rows of a character grid, each as a string without trailing
/// white space; all rows when there are fewer than `n`.
pub fn last_n_rows_from_chars(grid_chars: Vec<Vec<char>>, n: usize) -> (r: Vec<String>)
    ensures
        r.len() == grid_chars.len() - rows_skipped(grid_chars.len() as nat, n as nat),
        forall|i: int|
            0 <= i < r.len() ==> #[trigger] r[i]@ == text::trim_end_seq(
                grid_chars[i + rows_skipped(grid_chars.len() as nat, n as nat)]@,
            ),
{
    let total = grid_chars.len();
    let skip = total.saturating_sub(n);
    let mut r: Vec<String> = Vec::new();
    let mut i = skip;
    while i < total
        invariant
            skip == rows_skipped(total as nat, n as nat),
            total == grid_chars.len(),
            skip <= i <= total,
            r.len() == i - skip,
            forall|k: int| 0 <= k < r.len() ==> #[trigger] r[k]@ == text::trim_end_seq(
                grid_chars[k + skip]@,
            ),
        decreases total - i,
    {
        r.push(trim_end_chars(&grid_chars[i]));
        i += 1;
    }
    r
}

/// How long a live connection has lasted, given the seconds since it was
/// opened: "刚刚连接" under a minute, then minutes, hours, days.
pub open spec fn active_duration_spec(secs: nat) -> Seq<char> {
    if secs < 60 {
        "刚刚连接"@
    } else if secs < 3600 {
        "已连接 "@ + text::dec_seq(secs / 60) + " 分钟"@
    } else if secs < 86400 {
        "已连接 "@ + text::dec_seq(secs / 3600) + " 小时"@
    } else {
        "已连接 "@ + text::dec_seq(secs / 86400) + " 天"@
    }
}

/// The "已连接 …" text for `secs` seconds.
pub fn active_duration_text(secs: u64) -> (r: String)
    ensures
        r@ == active_duration_spec(secs as nat),
{
    if secs < 60 {
        "刚刚连接".to_owned()
    } else if secs < 3600 {
        join_number("已连接 ", secs / 60, " 分钟")
    } else if secs < 86400 {
        join_number("已连接 ", secs / 3600, " 小时")
    } else {
        join_number("已连接 ", secs / 86400, " 天")
    }
}

/// How long a connection opened at `connected_at` has lasted at `now`; a
/// `connected_at` after `now` counts as zero seconds.
pub fn format_active_duration(connected_at: std::time::SystemTime, now: std::time::SystemTime) -> (r:
    String)
    ensures
        r@ == active_duration_spec(spec_secs_between(connected_at, now) as nat),
{
    let secs = secs_between(connected_at, now);
    active_duration_text(secs)
}


/// The number of terminal rows a card shows.
pub const PREVIEW_ROWS: usize = 6;

/// Where the cursor lies within the last `PREVIEW_ROWS` rows of a screen of
/// `total_rows`: its row within them and its column, or `None` when it lies
/// above them (or below the screen).
pub open spec fn cursor_in_window_spec(total_rows: nat, line: nat, col: nat) -> Option<(nat, nat)> {
    let start = rows_skipped(total_rows, PREVIEW_ROWS as nat);
    if start <= line < total_rows {
        Some(((line - start) as nat, col))
    } else {
        None
    }
}

/// Where the cursor lies within the rows a card shows.
pub fn cursor_in_window(total_rows: usize, line: usize, col: usize) -> (r: Option<(usize, usize)>)
    ensures
        match cursor_in_window_spec(total_rows as nat, line as nat, col as nat) {
            Some((a, b)) => r == Some((a as usize, b as usize)),
            None => r is None,
        },
{
    let start = total_rows.saturating_sub(PREVIEW_ROWS);
    if line >= start && line < total_rows {
        Some((line - start, col))
    } else {
        None
    }
}

impl PreviewSnapshot {
    /// The snapshot of a session in `phase` whose terminal shows
    /// `screen` (rows of characters, top first) with the cursor at
    /// (`cursor_line`, `cursor_col`); without a terminal the preview is empty.
    pub fn build(
        phase: &crate::state::ConnectionPhase,
        screen: Option<(Vec<Vec<char>>, usize, usize)>,
        opened_at: std::time::SystemTime,
    ) -> (r: Self)
        ensures
            r.phase_is_connected == (*phase is Connected),
            r.phase_is_connecting == (*phase is Connecting),
            r.phase_is_disconnected == (*phase is Disconnected),
            match *phase {
                crate::state::ConnectionPhase::Disconnected { reason } => r.disconnect_reason matches Some(
                    t,
                ) && t@ == reason@,
                _ => r.disconnect_reason is None,
            },
            match screen {
                None => r.preview@.len() == 0 && r.cursor_in_window is None,
                Some((rows, line, col)) => {
                    let skip = rows_skipped(rows.len() as nat, PREVIEW_ROWS as nat);
                    &&& r.preview@.len() == rows.len() - skip
                    &&& forall|i: int|
                        0 <= i < r.preview@.len() ==> #[trigger] r.preview@[i]@ == text::trim_end_seq(
                            rows@[i + skip]@,
                        )
                    &&& match cursor_in_window_spec(rows.len() as nat, line as nat, col as nat) {
                        Some((a, b)) => r.cursor_in_window == Some((a as usize, b as usize)),
                        None => r.cursor_in_window is None,
                    }
                },
            },
            r.opened_at == opened_at,
    {
        let (connected, connecting, disconnected, reason) = match phase {
            crate::state::ConnectionPhase::Connected => (true, false, false, None),
            crate::state::ConnectionPhase::Connecting => (false, true, false, None),
            crate::state::ConnectionPhase::Disconnected { reason } => (false, false, true, Some(reason.clone())),
        };
        let (preview, cursor) = match screen {
            Some((rows, line, col)) => {
                let total = rows.len();
                let cursor = cursor_in_window(total, line, col);
                (last_n_rows_from_chars(rows, PREVIEW_ROWS), cursor)
            },
            None => (Vec::new(), None),
        };
        PreviewSnapshot {
            phase_is_connected: connected,
            phase_is_connecting: connecting,
            phase_is_disconnected: disconnected,
            disconnect_reason: reason,
            preview,
            cursor_in_window: cursor,
            opened_at,
        }
    }
}

} // verus!
