//! Human-readable ages: "5m ago" for a past connection, "已连接 5 分钟" for a
//! live one.
use vstd::prelude::*;
use crate::clock::{secs_between, spec_secs_between, system_now};
use crate::text::{self, dec_string};

verus! {

/// `a` followed by the decimal form of `n` and then `b`.
pub fn join_number(a: &str, n: u64, b: &str) -> (r: String)
    ensures
        r@ == a@ + text::dec_seq(n as nat) + b@,
{
    let mut r = a.to_owned();
    let d = dec_string(n);
    r.append(d.as_str());
    r.append(b);
    r
}

/// How long ago, given the seconds elapsed: under a minute "just now", then
/// minutes, hours, "yesterday" for the second day, then days.
pub open spec fn humanize_secs_spec(secs: nat) -> Seq<char> {
    if secs < 60 {
        "just now"@
    } else if secs < 3600 {
        text::dec_seq(secs / 60) + "m ago"@
    } else if secs < 86400 {
        text::dec_seq(secs / 3600) + "h ago"@
    } else if secs < 172800 {
        "yesterday"@
    } else {
        text::dec_seq(secs / 86400) + "d ago"@
    }
}

/// The "… ago" text for `secs` seconds.
pub fn humanize_secs(secs: u64) -> (r: String)
    ensures
        r@ == humanize_secs_spec(secs as nat),
{
    proof {
        reveal_strlit("");
    }
    if secs < 60 {
        "just now".to_owned()
    } else if secs < 3600 {
        join_number("", secs / 60, "m ago")
    } else if secs < 86400 {
        join_number("", secs / 3600, "h ago")
    } else if secs < 172800 {
        "yesterday".to_owned()
    } else {
        join_number("", secs / 86400, "d ago")
    }
}

/// How long ago `last` was, read against the current clock.
pub fn humanize_last_connected(last: std::time::SystemTime) -> (r: String)
    ensures
        exists|now: std::time::SystemTime| r@ == humanize_secs_spec(spec_secs_between(last, now) as nat),
{
    let now = system_now();
    let secs = secs_between(last, now);
    humanize_secs(secs)
}

/// Nanoseconds in a second.
pub const NANOS_PER_SEC: u128 = 1_000_000_000;

/// How long ago `last` was, given `now`, both in nanoseconds since the Unix
/// epoch: the whole seconds between them; a time in the future counts as
/// now.
pub fn humanize_nanos_since(last: u128, now: u128) -> (r: String)
    requires
        now >= last ==> (now - last) / (NANOS_PER_SEC as int) <= u64::MAX,
    ensures
        r@ == humanize_secs_spec(
            if now >= last {
                ((now - last) / (NANOS_PER_SEC as int)) as nat
            } else {
                0
            },
        ),
{
    let secs: u64 = if now >= last {
        ((now - last) / NANOS_PER_SEC) as u64
    } else {
        0
    };
    humanize_secs(secs)
}

} // verus!
