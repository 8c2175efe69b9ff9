//! What removing a connection does to the tab bar, proved over the
//! sequence of single closes that it performs.
use vstd::prelude::*;
use crate::ids::{ConnectionId, TabId};
use crate::seqs;
use crate::state::{close_tabs_spec, tab_ids_showing, tab_ids_unique, tab_pos, Tab, TabContent};

verus! {

/// The first match in `a + b` is the first match in `a` when nothing in `b`
/// matches.
proof fn lemma_first_match_prefix<A>(a: Seq<A>, b: Seq<A>, p: spec_fn(A) -> bool)
    requires
        forall|j: int| 0 <= j < b.len() ==> !p(#[trigger] b[j]),
    ensures
        seqs::first_match(a + b, p) == seqs::first_match(a, p),
{
    let ab = a + b;
    seqs::lemma_first_match_props(a, p);
    match seqs::first_match(a, p) {
        Some(i) => {
            assert(forall|j: int| 0 <= j < i ==> ab[j] == a[j]);
            assert(ab[i] == a[i]);
            seqs::lemma_first_match(ab, p, i);
        },
        None => {
            assert forall|j: int| 0 <= j < ab.len() implies !p(#[trigger] ab[j]) by {
                if j < a.len() {
                    assert(ab[j] == a[j]);
                } else {
                    assert(ab[j] == b[j - a.len()]);
                }
            }
            seqs::lemma_first_match(ab, p, ab.len() as int);
        },
    }
}

/// Closing tabs by ids that no tab of `s` has leaves `s` as it is, after
/// what is left of `x`.
proof fn lemma_close_tabs_suffix(x: Seq<Tab>, s: Seq<Tab>, sel: Option<TabId>, ids: Seq<TabId>)
    requires
        forall|j: int, k: int| 0 <= j < ids.len() && 0 <= k < s.len() ==> ids[j] != s[k].id,
    ensures
        close_tabs_spec(x + s, sel, ids).0 == close_tabs_spec(x, sel, ids).0 + s,
    decreases ids.len(),
{
    if ids.len() > 0 {
        let rest = ids.drop_last();
        lemma_close_tabs_suffix(x, s, sel, rest);
        let (a, sa) = close_tabs_spec(x + s, sel, rest);
        let (b, sb) = close_tabs_spec(x, sel, rest);
        let id = ids.last();
        assert(a == b + s);
        assert forall|k: int| 0 <= k < s.len() implies !((|t: Tab| t.id == id)(#[trigger] s[k])) by {
            assert(ids[ids.len() - 1] != s[k].id);
        }
        lemma_first_match_prefix(b, s, |t: Tab| t.id == id);
        seqs::lemma_first_match_props(b, |t: Tab| t.id == id);
        match tab_pos(b, id) {
            Some(i) => {
                assert((b + s).remove(i) =~= b.remove(i) + s);
            },
            None => {},
        }
    }
}

/// Every id of `tab_ids_showing(tabs, c)` is the id of a tab of `tabs`.
proof fn lemma_showing_ids_in(tabs: Seq<Tab>, c: ConnectionId)
    ensures
        forall|j: int|
            0 <= j < tab_ids_showing(tabs, c).len() ==> exists|k: int|
                0 <= k < tabs.len() && tabs[k].id == #[trigger] tab_ids_showing(tabs, c)[j],
    decreases tabs.len(),
{
    if tabs.len() > 0 {
        let p = tabs.drop_last();
        lemma_showing_ids_in(p, c);
        let ids = tab_ids_showing(tabs, c);
        assert forall|j: int| 0 <= j < ids.len() implies exists|k: int|
            0 <= k < tabs.len() && tabs[k].id == #[trigger] ids[j] by {
            if j < tab_ids_showing(p, c).len() {
                let k = choose|k: int| 0 <= k < p.len() && p[k].id == tab_ids_showing(p, c)[j];
                assert(tabs[k] == p[k]);
            } else {
                assert(tabs[tabs.len() - 1].id == ids[j]);
            }
        }
    }
}

/// The tabs of `tabs` that do not show `c`, in order.
pub open spec fn tabs_not_showing(tabs: Seq<Tab>, c: ConnectionId) -> Seq<Tab> {
    tabs.filter(|t: Tab| t.content != TabContent::Connection(c))
}

/// With distinct ids, the ids of the tabs of `p` showing `c` are not the id
/// of a tab `l` after them.
proof fn lemma_ids_before_last(p: Seq<Tab>, l: Tab, c: ConnectionId)
    requires
        tab_ids_unique(p.push(l)),
    ensures
        forall|j: int, k: int|
            0 <= j < tab_ids_showing(p, c).len() && 0 <= k < seq![l].len() ==> tab_ids_showing(p, c)[j]
                != seq![l][k].id,
{
    let pids = tab_ids_showing(p, c);
    lemma_showing_ids_in(p, c);
    assert forall|j: int, k: int| 0 <= j < pids.len() && 0 <= k < seq![l].len() implies pids[j]
        != seq![l][k].id by {
        let m = choose|m: int| 0 <= m < p.len() && p[m].id == pids[j];
        assert(p.push(l)[m] == p[m]);
        assert(p.push(l)[p.len() as int] == l);
    }
}

/// With distinct ids, no tab of `p` that is kept has the id of a tab `l`
/// after them.
proof fn lemma_kept_ids_before_last(p: Seq<Tab>, l: Tab, c: ConnectionId)
    requires
        tab_ids_unique(p.push(l)),
    ensures
        forall|k: int|
            0 <= k < tabs_not_showing(p, c).len() ==> (#[trigger] tabs_not_showing(p, c)[k]).id != l.id,
{
    let keep = |t: Tab| t.content != TabContent::Connection(c);
    let fp = p.filter(keep);
    assert forall|k: int| 0 <= k < fp.len() implies (#[trigger] fp[k]).id != l.id by {
        assert(fp.contains(fp[k]));
        p.lemma_filter_contains_rev(keep, fp[k]);
        let m = choose|m: int| 0 <= m < p.len() && p[m] == fp[k];
        assert(p.push(l)[m] == p[m]);
        assert(p.push(l)[p.len() as int] == l);
    }
}

/// Closing the tab `l`, put after tabs with other ids, leaves those tabs.
proof fn lemma_close_appended(a: Seq<Tab>, l: Tab, sel: Option<TabId>)
    requires
        forall|k: int| 0 <= k < a.len() ==> (#[trigger] a[k]).id != l.id,
    ensures
        crate::state::close_tab_spec(a.push(l), sel, l.id).0 == a,
{
    let al = a.push(l);
    assert forall|k: int| 0 <= k < a.len() implies !((|t: Tab| t.id == l.id)(#[trigger] al[k])) by {
        assert(al[k] == a[k]);
    }
    seqs::lemma_first_match(al, |t: Tab| t.id == l.id, a.len() as int);
    assert(al.remove(a.len() as int) =~= a);
}

/// With distinct tab ids, removing a connection closes exactly the tabs that
/// show it: the tab bar keeps every other tab, in order.
pub proof fn law_remove_connection_closes_its_tabs(tabs: Seq<Tab>, sel: Option<TabId>, c: ConnectionId)
    requires
        tab_ids_unique(tabs),
    ensures
        close_tabs_spec(tabs, sel, tab_ids_showing(tabs, c)).0 == tabs_not_showing(tabs, c),
    decreases tabs.len(),
{
    let keep = |t: Tab| t.content != TabContent::Connection(c);
    if tabs.len() == 0 {
        assert(tabs.filter(keep) =~= tabs);
    } else {
        let p = tabs.drop_last();
        let l = tabs.last();
        assert(tabs =~= p.push(l));
        assert(tab_ids_unique(p));
        law_remove_connection_closes_its_tabs(p, sel, c);
        p.lemma_filter_push(l, keep);
        let pids = tab_ids_showing(p, c);
        lemma_ids_before_last(p, l, c);
        lemma_close_tabs_suffix(p, seq![l], sel, pids);
        assert(p + seq![l] =~= tabs);
        if l.content == TabContent::Connection(c) {
            let ids = tab_ids_showing(tabs, c);
            assert(ids.drop_last() =~= pids);
            lemma_kept_ids_before_last(p, l, c);
            lemma_close_appended(tabs_not_showing(p, c), l, close_tabs_spec(tabs, sel, pids).1);
        }
    }
}

/// With distinct tab ids, after a connection is removed no tab shows it.
pub proof fn law_removed_connection_shows_nowhere(tabs: Seq<Tab>, sel: Option<TabId>, c: ConnectionId)
    requires
        tab_ids_unique(tabs),
    ensures
        forall|j: int|
            0 <= j < close_tabs_spec(tabs, sel, tab_ids_showing(tabs, c)).0.len() ==> (#[trigger] close_tabs_spec(
                tabs,
                sel,
                tab_ids_showing(tabs, c),
            ).0[j]).content != TabContent::Connection(c),
{
    law_remove_connection_closes_its_tabs(tabs, sel, c);
    broadcast use vstd::seq_lib::group_filter_ensures;
    let keep = |t: Tab| t.content != TabContent::Connection(c);
    assert forall|j: int| 0 <= j < tabs.filter(keep).len() implies keep(#[trigger] tabs.filter(keep)[j]) by {}
}

} // verus!
