//! The "recent connections" list of the sidebar: saved hosts by the time of
//! their last connection, most recent first.
use vstd::prelude::*;
use crate::ids::HostId;
use crate::state::{self, AppState};

verus! {

broadcast use vstd::std_specs::hash::group_hash_axioms;

/// How many recent hosts the sidebar lists.
pub const RECENT_LIST_MAX: usize = 5;

/// A line of the list: the host, when it was last connected to
/// (nanoseconds since the Unix epoch) and its label.
#[derive(Debug)]
pub struct RecentHost {
    pub host_id: HostId,
    pub last: u128,
    pub label: String,
}

/// The host `k` has a last connection and is still saved.
pub open spec fn is_recent(s: AppState, k: u128) -> bool {
    s.last_connected@.contains_key(k) && state::host_pos(s.hosts@, HostId(k)) is Some
}

/// `e` tells the truth about its host: time of the last connection and the
/// label of the first saved host with that id.
pub open spec fn recent_entry_ok(s: AppState, e: RecentHost) -> bool {
    &&& is_recent(s, e.host_id.0)
    &&& e.last == s.last_connected@[e.host_id.0]
    &&& e.label@ == s.hosts@[state::host_pos(s.hosts@, e.host_id)->0].label@
}

/// The host `k` is listed in `r`.
pub open spec fn listed(r: Seq<RecentHost>, k: u128) -> bool {
    exists|p: int| 0 <= p < r.len() && #[trigger] r[p].host_id.0 == k
}

/// `r` is sorted by time, most recent first, and names each host once.
pub open spec fn sorted_unique(r: Seq<RecentHost>) -> bool {
    &&& forall|i: int, j: int| 0 <= i < j < r.len() ==> r[i].last >= r[j].last
    &&& forall|i: int, j: int| 0 <= i < j < r.len() ==> r[i].host_id != r[j].host_id
}

/// Index at which `t` goes into `out`, sorted most recent first: after
/// every entry at least as recent.
fn insert_pos(out: &Vec<RecentHost>, t: u128) -> (q: usize)
    requires
        sorted_unique(out@),
    ensures
        q <= out.len(),
        forall|i: int| 0 <= i < q ==> out@[i].last >= t,
        forall|i: int| q <= i < out.len() ==> out@[i].last < t,
{
    let mut q: usize = 0;
    while q < out.len() && out[q].last >= t
        invariant
            q <= out.len(),
            forall|i: int| 0 <= i < q ==> out@[i].last >= t,
        decreases out.len() - q,
    {
        q += 1;
    }
    q
}

/// Inserts `e` into `out`, keeping it sorted most recent first; returns
/// where it went.
fn insert_sorted(out: &mut Vec<RecentHost>, e: RecentHost) -> (q: usize)
    requires
        sorted_unique(old(out)@),
        forall|p: int| 0 <= p < old(out)@.len() ==> old(out)@[p].host_id != e.host_id,
    ensures
        q <= old(out)@.len(),
        final(out)@ == old(out)@.insert(q as int, e),
        sorted_unique(final(out)@),
{
    let q = insert_pos(out, e.last);
    let ghost before = out@;
    let ghost ge = e;
    out.insert(q, e);
    proof {
        before.insert_ensures(q as int, ge);
        assert(out@ == before.insert(q as int, ge));
        assert forall|a: int, b: int| 0 <= a < b < out@.len() implies out@[a].last >= out@[b].last
            && out@[a].host_id != out@[b].host_id by {
            if b < q {
                assert(out@[a] == before[a] && out@[b] == before[b]);
            } else if b == q {
                assert(out@[a] == before[a]);
            } else if a == q {
                assert(out@[b] == before[b - 1]);
            } else if a < q {
                assert(out@[a] == before[a] && out@[b] == before[b - 1]);
            } else {
                assert(out@[a] == before[a - 1] && out@[b] == before[b - 1]);
            }
        }
    }
    q
}

/// What the scan of the first `i` saved hosts has gathered: sorted, true
/// entries of hosts among them, and every recent host among them.
pub open spec fn collected(s: AppState, out: Seq<RecentHost>, i: int) -> bool {
    &&& forall|k: u128| is_recent(s, k) ==> state::host_pos(s.hosts@, HostId(k))->0 >= 0
    &&& sorted_unique(out)
    &&& forall|p: int| 0 <= p < out.len() ==> #[trigger] recent_entry_ok(s, out[p])
    &&& forall|p: int| 0 <= p < out.len() ==> state::host_pos(s.hosts@, #[trigger] out[p].host_id)->0 < i
    &&& forall|k: u128| is_recent(s, k) && state::host_pos(s.hosts@, HostId(k))->0 < i ==> listed(out, k)
}

/// Passing over a saved host that adds no line keeps what was gathered.
proof fn lemma_skip(s: AppState, out: Seq<RecentHost>, i: int)
    requires
        0 <= i < s.hosts@.len(),
        collected(s, out, i),
        !(state::host_pos(s.hosts@, s.hosts@[i].id) == Some(i) && s.last_connected@.contains_key(
            s.hosts@[i].id.0,
        )),
    ensures
        collected(s, out, i + 1),
{
    assert forall|k: u128| is_recent(s, k) && state::host_pos(s.hosts@, HostId(k))->0 < i + 1 implies listed(
        out,
        k,
    ) by {
        if state::host_pos(s.hosts@, HostId(k))->0 == i {
            crate::seqs::lemma_first_match_props(s.hosts@, |h: crate::model::HostConfig| h.id == HostId(k));
            assert(s.hosts@[i].id == HostId(k));
        }
    }
}

/// The line of the saved host `i`, the first with its id, is true and names
/// a host not listed yet.
proof fn lemma_fresh(s: AppState, out: Seq<RecentHost>, i: int, e: RecentHost)
    requires
        0 <= i < s.hosts@.len(),
        collected(s, out, i),
        state::host_pos(s.hosts@, s.hosts@[i].id) == Some(i),
        s.last_connected@.contains_key(s.hosts@[i].id.0),
        e.host_id == s.hosts@[i].id,
        e.last == s.last_connected@[e.host_id.0],
        e.label@ == s.hosts@[i].label@,
    ensures
        recent_entry_ok(s, e),
        forall|p: int| 0 <= p < out.len() ==> out[p].host_id != e.host_id,
{
    assert forall|p: int| 0 <= p < out.len() implies out[p].host_id != e.host_id by {
        assert(state::host_pos(s.hosts@, out[p].host_id)->0 < i);
    }
}

/// Inserting the line of the saved host `i` gathers it.
#[verifier::spinoff_prover]
#[verifier::rlimit(40)]
proof fn lemma_added(s: AppState, before: Seq<RecentHost>, q: int, e: RecentHost, i: int)
    requires
        0 <= i < s.hosts@.len(),
        0 <= q <= before.len(),
        collected(s, before, i),
        recent_entry_ok(s, e),
        state::host_pos(s.hosts@, e.host_id) == Some(i),
        sorted_unique(before.insert(q, e)),
    ensures
        collected(s, before.insert(q, e), i + 1),
{
    let after = before.insert(q, e);
    before.insert_ensures(q, e);
    assert forall|p: int| 0 <= p < after.len() implies #[trigger] recent_entry_ok(s, after[p])
        && state::host_pos(s.hosts@, after[p].host_id)->0 < i + 1 by {
        if p < q {
            assert(after[p] == before[p]);
        } else if p > q {
            assert(after[p] == before[p - 1]);
        }
    }
    assert forall|k: u128| is_recent(s, k) && state::host_pos(s.hosts@, HostId(k))->0 < i + 1 implies listed(
        after,
        k,
    ) by {
        if state::host_pos(s.hosts@, HostId(k))->0 < i {
            let p = choose|p: int| 0 <= p < before.len() && #[trigger] before[p].host_id.0 == k;
            if p < q {
                assert(after[p] == before[p]);
            } else {
                assert(after[p + 1] == before[p]);
            }
        } else {
            crate::seqs::lemma_first_match_props(s.hosts@, |h: crate::model::HostConfig| h.id == HostId(k));
            crate::seqs::lemma_first_match_props(s.hosts@, |h: crate::model::HostConfig| h.id == e.host_id);
            assert(after[q].host_id.0 == k);
        }
    }
}

/// Adds the saved host `i` when it is the first with its id and has a last
/// connection.
fn add_line(s: &AppState, out: &mut Vec<RecentHost>, i: usize)
    requires
        i < s.hosts.len(),
        collected(*s, old(out)@, i as int),
    ensures
        collected(*s, final(out)@, i + 1),
{
    let id = s.hosts[i].id;
    let is_first = match s.find_host(id) {
        Some(j) => j == i,
        None => false,
    };
    let last = if is_first {
        match s.last_connected.get(&id.0) {
            Some(t) => Some(*t),
            None => None,
        }
    } else {
        None
    };
    match last {
        None => {
            proof {
                lemma_skip(*s, out@, i as int);
            }
        },
        Some(t) => {
            let e = RecentHost { host_id: id, last: t, label: s.hosts[i].label.clone() };
            proof {
                lemma_fresh(*s, out@, i as int, e);
            }
            let ghost before = out@;
            let ghost ge = e;
            let q = insert_sorted(out, e);
            proof {
                lemma_added(*s, before, q as int, ge, i as int);
            }
        },
    }
}

/// The recent hosts, most recent first, at most `max` of them: when fewer
/// are listed every recent host is; otherwise those left out are no more
/// recent than the last listed.
pub fn recent_hosts(s: &AppState, max: usize) -> (r: Vec<RecentHost>)
    ensures
        r.len() <= max,
        sorted_unique(r@),
        forall|i: int| 0 <= i < r.len() ==> #[trigger] recent_entry_ok(*s, r@[i]),
        r.len() < max ==> forall|k: u128| is_recent(*s, k) ==> listed(r@, k),
        r.len() == max && max > 0 ==> forall|k: u128|
            is_recent(*s, k) && !listed(r@, k) ==> s.last_connected@[k] <= r@[max - 1].last,
{
    let mut out: Vec<RecentHost> = Vec::new();
    let mut i: usize = 0;
    proof {
        assert forall|k: u128| is_recent(*s, k) implies state::host_pos(s.hosts@, HostId(k))->0 >= 0 by {
            crate::seqs::lemma_first_match_props(s.hosts@, |h: crate::model::HostConfig| h.id == HostId(k));
        }
    }
    while i < s.hosts.len()
        invariant
            i <= s.hosts.len(),
            collected(*s, out@, i as int),
        decreases s.hosts.len() - i,
    {
        add_line(s, &mut out, i);
        i += 1;
    }
    proof {
        assert forall|k: u128| is_recent(*s, k) implies listed(out@, k) by {
            crate::seqs::lemma_first_match_props(s.hosts@, |h: crate::model::HostConfig| h.id == HostId(k));
        }
    }
    let ghost full = out@;
    out.truncate(max);
    proof {
        if out.len() == max && max > 0 {
            assert forall|k: u128| is_recent(*s, k) && !listed(out@, k) implies s.last_connected@[k]
                <= out@[max - 1].last by {
                let p = choose|p: int| 0 <= p < full.len() && #[trigger] full[p].host_id.0 == k;
                assert(recent_entry_ok(*s, full[p]));
                if p < max {
                    assert(out@[p] == full[p]);
                    assert(out@[p].host_id.0 == k);
                }
                assert(full[p].last <= full[max - 1].last);
            }
        }
        if out.len() < max {
            assert(out@ == full);
        }
    }
    out
}

} // verus!
