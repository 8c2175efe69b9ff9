//! Cursor blinking: shown for the first half of each 600 ms period.
use vstd::prelude::*;
use crate::clock::{instant_now, millis_between, spec_millis_between};

verus! {

/// Blink period in milliseconds; the cursor shows for the first half.
pub const BLINK_PERIOD_MS: u64 = 600;

/// Whether the cursor shows `elapsed_ms` milliseconds after blinking started.
pub open spec fn blink_visible_spec(elapsed_ms: nat) -> bool {
    elapsed_ms % (BLINK_PERIOD_MS as nat) < (BLINK_PERIOD_MS as nat) / 2
}

/// Whether the cursor shows `elapsed_ms` milliseconds after blinking started.
pub fn blink_visible(elapsed_ms: u64) -> (b: bool)
    ensures
        b == blink_visible_spec(elapsed_ms as nat),
{
    let phase = elapsed_ms % BLINK_PERIOD_MS;
    phase < (BLINK_PERIOD_MS / 2)
}

/// Cursor drawing state: when blinking started, and whether the terminal has
/// focus (a filled block) or not (an outline).
#[derive(Clone, Copy)]
pub struct CursorState {
    pub epoch: std::time::Instant,
    pub focused: bool,
}

impl CursorState {
    /// Blinking starts now.
    pub fn new(focused: bool) -> (r: Self)
        ensures
            r.focused == focused,
    {
        CursorState { epoch: instant_now(), focused }
    }

    /// Whether the cursor shows at this moment of the blink period.
    pub fn is_visible_now(&self) -> (b: bool)
        ensures
            exists|now: std::time::Instant| b == blink_visible_spec(
                spec_millis_between(self.epoch, now) as nat,
            ),
    {
        let now = instant_now();
        let ms = millis_between(self.epoch, now);
        blink_visible(ms)
    }
}

} // verus!
