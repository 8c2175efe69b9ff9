//! The live-session cards of the home page: one per connection with a
//! phase, in a stable order (by connection id), with the host's label, its
//! `user@host:port` and the name of the tmux session attached.
use vstd::prelude::*;
use crate::ids::ConnectionId;
use crate::model::RemoteSession;
use crate::state::{self, AppState, TmuxState};
use crate::text::{self, dec_string};

verus! {

broadcast use vstd::std_specs::hash::group_hash_axioms;

/// The text of one card, besides its preview.
#[derive(Debug)]
pub struct ActiveCard {
    pub conn: ConnectionId,
    /// The host's label, or "unknown" when the host is gone.
    pub host_label: String,
    /// `user@host:port` of the host, or empty when it is gone.
    pub user_at_host: String,
    /// The name of the tmux session attached, when it is known.
    pub tmux_label: Option<String>,
}

/// The name of the tmux session marked attached on `conn`: the first listed
/// session with that id.
pub open spec fn tmux_label_spec(m: Map<u128, TmuxState>, conn: ConnectionId) -> Option<Seq<char>> {
    if m.contains_key(conn.0) {
        match m[conn.0] {
            TmuxState::Detected { sessions, attached: Some(sid) } => match crate::seqs::first_match(
                sessions@,
                |x: RemoteSession| x.id@ == sid@,
            ) {
                Some(i) => Some(sessions@[i].name@),
                None => None,
            },
            _ => None,
        }
    } else {
        None
    }
}

/// The card of the connection `c` tells the truth about it.
pub open spec fn card_ok(s: AppState, card: ActiveCard) -> bool {
    &&& state::conn_pos(s.connections@, card.conn) is Some
    &&& s.connection_phases@.contains_key(card.conn.0)
    &&& {
        let c = s.connections@[state::conn_pos(s.connections@, card.conn)->0];
        &&& card.host_label@ == match state::host_label_spec(s.hosts@, c.host_id) {
            Some(l) => l,
            None => "unknown"@,
        }
        &&& card.user_at_host@ == match state::host_pos(s.hosts@, c.host_id) {
            Some(j) => {
                let h = s.hosts@[j];
                h.user@ + "@"@ + h.host@ + ":"@ + text::dec_seq(h.port as nat)
            },
            None => ""@,
        }
    }
    &&& crate::events::opt_text(card.tmux_label) == tmux_label_spec(s.tmux_state@, card.conn)
}

/// The card list is sorted by connection id, each id once.
pub open spec fn sorted_by_conn(r: Seq<ActiveCard>) -> bool {
    forall|i: int, j: int| 0 <= i < j < r.len() ==> r[i].conn.0 < r[j].conn.0
}

/// The connection `k` has a card in `r`.
pub open spec fn has_card(r: Seq<ActiveCard>, k: u128) -> bool {
    exists|p: int| 0 <= p < r.len() && #[trigger] r[p].conn.0 == k
}

/// The connection with id `k` has a phase.
pub open spec fn is_active(s: AppState, k: u128) -> bool {
    state::conn_pos(s.connections@, ConnectionId(k)) is Some && s.connection_phases@.contains_key(k)
}

/// The name of the tmux session marked attached on `conn`.
#[verifier::loop_isolation(false)]
fn tmux_label(s: &AppState, conn: ConnectionId) -> (r: Option<String>)
    ensures
        crate::events::opt_text(r) == tmux_label_spec(s.tmux_state@, conn),
{
    match s.tmux_state.get(&conn.0) {
        Some(TmuxState::Detected { sessions, attached: Some(sid) }) => {
            let ghost p = |x: RemoteSession| x.id@ == sid@;
            let mut i: usize = 0;
            while i < sessions.len()
                invariant
                    i <= sessions.len(),
                    p == (|x: RemoteSession| x.id@ == sid@),
                    forall|j: int| 0 <= j < i ==> !p(#[trigger] sessions@[j]),
                decreases sessions.len() - i,
            {
                if sessions[i].id.same_as(sid) {
                    proof {
                        crate::seqs::lemma_first_match(sessions@, p, i as int);
                    }
                    return Some(sessions[i].name.clone());
                }
                i += 1;
            }
            proof {
                crate::seqs::lemma_first_match(sessions@, p, i as int);
            }
            None
        },
        _ => None,
    }
}

/// The card of the connection at position `i`.
fn card_at(s: &AppState, i: usize) -> (card: ActiveCard)
    requires
        i < s.connections.len(),
        s.wf(),
        s.connection_phases@.contains_key(s.connections@[i as int].id.0),
    ensures
        card.conn == s.connections@[i as int].id,
        card_ok(*s, card),
{
    let c = &s.connections[i];
    proof {
        let p = |x: state::Connection| x.id == c.id;
        assert forall|j: int| 0 <= j < i implies !p(#[trigger] s.connections@[j]) by {
            assert(s.connections@[j].id != s.connections@[i as int].id);
        }
        crate::seqs::lemma_first_match(s.connections@, p, i as int);
    }
    let (host_label, user_at_host) = match s.find_host(c.host_id) {
        Some(j) => {
            let h = &s.hosts[j];
            let mut u = h.user.clone();
            u.append("@");
            u.append(h.host.as_str());
            u.append(":");
            let port = dec_string(h.port as u64);
            u.append(port.as_str());
            (h.label.clone(), u)
        },
        None => ("unknown".to_owned(), String::new()),
    };
    proof {
        reveal_strlit("");
    }
    let card = ActiveCard { conn: c.id, host_label, user_at_host, tmux_label: tmux_label(s, c.id) };
    assert(state::conn_pos(s.connections@, card.conn) == Some(i as int));
    assert(s.connection_phases@.contains_key(card.conn.0));
    assert(card.host_label@ == match state::host_label_spec(s.hosts@, c.host_id) {
            Some(l) => l,
            None => "unknown"@,
        });
    assert(crate::events::opt_text(card.tmux_label) == tmux_label_spec(s.tmux_state@, card.conn));
    assert(card.user_at_host@ == match state::host_pos(s.hosts@, c.host_id) {
            Some(j) => {
                let h = s.hosts@[j];
                h.user@ + "@"@ + h.host@ + ":"@ + text::dec_seq(h.port as nat)
            },
            None => ""@,
        });
    card
}

/// Inserts `card` keeping the list sorted by connection id.
fn insert_card(out: &mut Vec<ActiveCard>, card: ActiveCard) -> (q: usize)
    requires
        sorted_by_conn(old(out)@),
        forall|p: int| 0 <= p < old(out)@.len() ==> old(out)@[p].conn.0 != card.conn.0,
    ensures
        q <= old(out)@.len(),
        final(out)@ == old(out)@.insert(q as int, card),
        sorted_by_conn(final(out)@),
{
    let mut q: usize = 0;
    while q < out.len() && out[q].conn.0 < card.conn.0
        invariant
            q <= out.len(),
            forall|i: int| 0 <= i < q ==> out@[i].conn.0 < card.conn.0,
        decreases out.len() - q,
    {
        q += 1;
    }
    let ghost before = out@;
    let ghost gc = card;
    assert(forall|i: int| q <= i < before.len() ==> before[i].conn.0 > gc.conn.0);
    out.insert(q, card);
    proof {
        before.insert_ensures(q as int, gc);
        assert forall|a: int, b: int| 0 <= a < b < out@.len() implies out@[a].conn.0
            < out@[b].conn.0 by {
            if b < q {
                assert(out@[a] == before[a] && out@[b] == before[b]);
            } else if b == q {
                assert(out@[a] == before[a]);
            } else if a == q {
                assert(out@[b] == before[b - 1]);
            } else if a < q {
                assert(out@[a] == before[a] && out@[b] == before[b - 1]);
            } else {
                assert(out@[a] == before[a - 1] && out@[b] == before[b - 1]);
            }
        }
    }
    q
}

/// Where `conn_pos` finds a connection, it has that id.
proof fn lemma_conn_pos(cs: Seq<state::Connection>, id: ConnectionId)
    ensures
        state::conn_pos(cs, id) matches Some(j) ==> 0 <= j < cs.len() && cs[j].id == id,
{
    crate::seqs::lemma_first_match_props(cs, |c: state::Connection| c.id == id);
}

/// What the scan of the first `i` connections has gathered.
pub open spec fn gathered(s: AppState, out: Seq<ActiveCard>, i: int) -> bool {
    &&& sorted_by_conn(out)
    &&& forall|p: int| 0 <= p < out.len() ==> #[trigger] card_ok(s, out[p])
    &&& forall|p: int|
        0 <= p < out.len() ==> state::conn_pos(s.connections@, #[trigger] out[p].conn)->0 < i
    &&& forall|k: int|
        0 <= k < i && s.connection_phases@.contains_key(s.connections@[k].id.0) ==> has_card(
            out,
            #[trigger] s.connections@[k].id.0,
        )
}

/// Adding the card of connection `i` keeps what was gathered.
proof fn lemma_gathered_insert(s: AppState, before: Seq<ActiveCard>, q: int, card: ActiveCard, i: int)
    requires
        s.wf(),
        0 <= i < s.connections@.len(),
        0 <= q <= before.len(),
        gathered(s, before, i),
        card.conn == s.connections@[i].id,
        card_ok(s, card),
        state::conn_pos(s.connections@, card.conn) == Some(i),
        sorted_by_conn(before.insert(q, card)),
    ensures
        gathered(s, before.insert(q, card), i + 1),
{
    let after = before.insert(q, card);
    before.insert_ensures(q, card);
    assert forall|p: int| 0 <= p < after.len() implies #[trigger] card_ok(s, after[p])
        && state::conn_pos(s.connections@, after[p].conn)->0 < i + 1 by {
        if p < q {
            assert(after[p] == before[p]);
        } else if p > q {
            assert(after[p] == before[p - 1]);
        }
    }
    assert forall|k: int|
        0 <= k < i + 1 && s.connection_phases@.contains_key(s.connections@[k].id.0) implies has_card(
        after,
        #[trigger] s.connections@[k].id.0,
    ) by {
        if k < i {
            let p = choose|p: int| 0 <= p < before.len() && #[trigger] before[p].conn.0
                == s.connections@[k].id.0;
            if p < q {
                assert(after[p] == before[p]);
            } else {
                assert(after[p + 1] == before[p]);
            }
        } else {
            assert(after[q].conn.0 == s.connections@[k].id.0);
        }
    }
}

/// The cards of the home page: one per connection with a phase, sorted by
/// connection id so that they keep their places between frames.
pub fn active_cards(s: &AppState) -> (r: Vec<ActiveCard>)
    requires
        s.wf(),
    ensures
        sorted_by_conn(r@),
        forall|p: int| 0 <= p < r.len() ==> #[trigger] card_ok(*s, r@[p]),
        forall|k: u128| is_active(*s, k) ==> has_card(r@, k),
{
    let mut out: Vec<ActiveCard> = Vec::new();
    let mut i: usize = 0;
    while i < s.connections.len()
        invariant
            i <= s.connections.len(),
            s.wf(),
            gathered(*s, out@, i as int),
        decreases s.connections.len() - i,
    {
        if s.connection_phases.contains_key(&s.connections[i].id.0) {
            let card = card_at(s, i);
            let ghost before = out@;
            let ghost gc = card;
            proof {
                assert forall|p: int| 0 <= p < before.len() implies before[p].conn.0 != gc.conn.0 by {
                    lemma_conn_pos(s.connections@, before[p].conn);
                }
            }
            let q = insert_card(&mut out, card);
            proof {
                lemma_gathered_insert(*s, before, q as int, gc, i as int);
            }
        } else {
            proof {
                assert forall|k: int|
                    0 <= k < i + 1 && s.connection_phases@.contains_key(
                        s.connections@[k].id.0,
                    ) implies has_card(out@, #[trigger] s.connections@[k].id.0) by {}
            }
        }
        i += 1;
    }
    proof {
        assert forall|k: u128| is_active(*s, k) implies has_card(out@, k) by {
            lemma_conn_pos(s.connections@, ConnectionId(k));
            let j = state::conn_pos(s.connections@, ConnectionId(k))->0;
            assert(s.connections@[j].id.0 == k);
        }
    }
    out
}

} // verus!
