//! The preferences kept between runs (`app_state.toml`): when each host was
//! last connected to, the theme, reduced motion and the sidebar width.
//!
//! In the file a host is named by the text of its id and a time by its Unix
//! seconds; in memory the last connections are keyed by the id's value.
use vstd::prelude::*;
use std::collections::HashMap;
use crate::ids::{self, parse_uuid, uuid_text};
use crate::humanize::NANOS_PER_SEC;

verus! {

broadcast use vstd::std_specs::hash::group_hash_axioms;

/// The contents of `app_state.toml`.
#[derive(Debug)]
pub struct AppStateFile {
    /// Last connection of each host: the host id's text and Unix seconds.
    pub recent: Vec<(String, u64)>,
    /// "dark" or "light"; `None` means dark.
    pub theme: Option<String>,
    /// Whether to reduce animations; `None` means no.
    pub reduced_motion: Option<bool>,
    /// Whether the sidebar is expanded; `None` means collapsed.
    pub sidebar_expanded: Option<bool>,
}

impl Default for AppStateFile {
    fn default() -> (r: Self)
        ensures
            r.recent@.len() == 0,
            r.theme is None,
            r.reduced_motion is None,
            r.sidebar_expanded is None,
    {
        AppStateFile { recent: Vec::new(), theme: None, reduced_motion: None, sidebar_expanded: None }
    }
}

/// `m` holds exactly the entries of `recent` whose key is a UUID, keyed by
/// its value, the file's Unix seconds turned into nanoseconds; where several
/// keys name one UUID, the time of one of them.
pub open spec fn recent_to_map(recent: Seq<(String, u64)>, m: Map<u128, u128>) -> bool {
    &&& forall|k: u128|
        m.contains_key(k) <==> exists|i: int|
            0 <= i < recent.len() && #[trigger] ids::spec_uuid_parse(recent[i].0@) == Some(k)
    &&& forall|k: u128|
        #[trigger] m.contains_key(k) ==> exists|i: int|
            0 <= i < recent.len() && ids::spec_uuid_parse(recent[i].0@) == Some(k) && m[k]
                == recent[i].1 * NANOS_PER_SEC
}

/// `e` is an entry of `m`: the hyphenated text of a key, which parses back
/// to it, and its time in whole seconds.
pub open spec fn entry_of_map(m: Map<u128, u128>, e: (String, u64)) -> bool {
    exists|k: u128|
        #[trigger] m.contains_key(k) && e.0@ == ids::uuid_text_spec(k) && ids::spec_uuid_parse(e.0@)
            == Some(k) && e.1 == m[k] / NANOS_PER_SEC
}

/// `recent` lists each entry of `m` once, keyed by the hyphenated text of
/// the id, which parses back to the id.
pub open spec fn map_to_recent(m: Map<u128, u128>, recent: Seq<(String, u64)>) -> bool {
    &&& recent.len() == m.len()
    &&& forall|i: int| 0 <= i < recent.len() ==> #[trigger] entry_of_map(m, recent[i])
    &&& forall|k: u128|
        #[trigger] m.contains_key(k) ==> exists|i: int|
            0 <= i < recent.len() && recent[i].0@ == ids::uuid_text_spec(k) && ids::spec_uuid_parse(
                recent[i].0@,
            ) == Some(k) && recent[i].1 == m[k] / NANOS_PER_SEC
}


/// Entries made from all pairs of a map's iteration list everything in it.
proof fn lemma_iter_covers(lc: &HashMap<u128, u128>, recent: Seq<(String, u64)>)
    requires
        recent.len() <= vstd::std_specs::iter::IteratorSpec::remaining(&vstd::std_specs::hash::spec_hash_map_iter(lc)).len(),
        forall|j: int|
            #![trigger recent[j]]
            0 <= j < recent.len() ==> {
                let (kk, vv) = vstd::std_specs::iter::IteratorSpec::remaining(&vstd::std_specs::hash::spec_hash_map_iter(lc))[j];
                &&& recent[j].0@ == ids::uuid_text_spec(*kk)
                &&& ids::spec_uuid_parse(recent[j].0@) == Some(*kk)
                &&& recent[j].1 == *vv / NANOS_PER_SEC
            },
    ensures
        recent.len() == vstd::std_specs::iter::IteratorSpec::remaining(&vstd::std_specs::hash::spec_hash_map_iter(lc)).len()
            ==> map_to_recent(lc@, recent),
{
    let sq = vstd::std_specs::iter::IteratorSpec::remaining(&vstd::std_specs::hash::spec_hash_map_iter(lc));
    assert(sq.len() == lc@.dom().len());
    assert forall|i: int| 0 <= i < recent.len() implies #[trigger] entry_of_map(lc@, recent[i]) by {
        let (kk, vv) = sq[i];
        assert(recent[i].0@ == ids::uuid_text_spec(*kk));
        assert(lc@.contains_key(*kk) && lc@[*kk] == *vv);
    }
    assert forall|k: u128| recent.len() == sq.len() && #[trigger] lc@.contains_key(k) implies exists|i: int|
        0 <= i < recent.len() && recent[i].0@ == ids::uuid_text_spec(k) && ids::spec_uuid_parse(
            recent[i].0@,
        ) == Some(k) && recent[i].1 == lc@[k] / NANOS_PER_SEC by {
        assert(sq.contains((&k, &lc@[k])));
        let i = choose|i: int| 0 <= i < sq.len() && sq[i] == (&k, &lc@[k]);
        assert(recent[i].0@ == ids::uuid_text_spec(k));
    }
}

impl AppStateFile {
    /// The last connections by host id: entries whose key is no UUID are
    /// dropped.
    pub fn into_last_connected(self) -> (m: HashMap<u128, u128>)
        ensures
            recent_to_map(self.recent@, m@),
    {
        let mut m: HashMap<u128, u128> = HashMap::new();
        let mut i: usize = 0;
        while i < self.recent.len()
            invariant
                i <= self.recent.len(),
                recent_to_map(self.recent@.take(i as int), m@),
            decreases self.recent.len() - i,
        {
            let ghost pre = self.recent@.take(i as int);
            let ghost post = self.recent@.take(i + 1);
            assert(forall|j: int| 0 <= j < i ==> post[j] == pre[j]);
            assert(post[i as int] == self.recent@[i as int]);
            let parsed = parse_uuid(self.recent[i].0.as_str());
            assert(parsed == ids::spec_uuid_parse(post[i as int].0@));
            match parsed {
                Some(k) => {
                    let ghost m0 = m@;
                    m.insert(k, (self.recent[i].1 as u128) * NANOS_PER_SEC);
                    proof {
                        assert forall|k2: u128|
                            (exists|j: int|
                                0 <= j < post.len() && #[trigger] ids::spec_uuid_parse(post[j].0@)
                                    == Some(k2)) implies #[trigger] m@.contains_key(k2) by {
                            if k2 != k {
                                let j = choose|j: int|
                                    0 <= j < post.len() && #[trigger] ids::spec_uuid_parse(
                                        post[j].0@,
                                    ) == Some(k2);
                                assert(j < i);
                                assert(ids::spec_uuid_parse(pre[j].0@) == Some(k2));
                            }
                        }
                        assert forall|k2: u128| #[trigger]
                            m@.contains_key(k2) implies exists|j: int|
                                0 <= j < post.len() && ids::spec_uuid_parse(post[j].0@) == Some(
                                    k2,
                                ) && m@[k2] == post[j].1 * NANOS_PER_SEC by {
                            if k2 == k {
                                assert(ids::spec_uuid_parse(post[i as int].0@) == Some(k2));
                            } else {
                                assert(m0.contains_key(k2));
                                let j = choose|j: int|
                                    0 <= j < pre.len() && ids::spec_uuid_parse(pre[j].0@) == Some(
                                        k2,
                                    ) && m0[k2] == pre[j].1 * NANOS_PER_SEC;
                                assert(post[j] == pre[j]);
                            }
                        }
                        assert forall|k2: u128|
                            m@.contains_key(k2) implies exists|j: int|
                                0 <= j < post.len() && #[trigger] ids::spec_uuid_parse(post[j].0@)
                                    == Some(k2) by {
                            if k2 == k {
                                assert(ids::spec_uuid_parse(post[i as int].0@) == Some(k2));
                            } else {
                                assert(m0.contains_key(k2));
                                let j = choose|j: int|
                                    0 <= j < pre.len() && #[trigger] ids::spec_uuid_parse(
                                        pre[j].0@,
                                    ) == Some(k2);
                                assert(post[j] == pre[j]);
                            }
                        }
                    }
                },
                None => {
                    proof {
                        assert forall|k2: u128|
                            (exists|j: int|
                                0 <= j < post.len() && #[trigger] ids::spec_uuid_parse(post[j].0@)
                                    == Some(k2)) implies #[trigger] m@.contains_key(k2) by {
                            let j = choose|j: int|
                                0 <= j < post.len() && #[trigger] ids::spec_uuid_parse(post[j].0@)
                                    == Some(k2);
                            assert(j < i);
                            assert(ids::spec_uuid_parse(pre[j].0@) == Some(k2));
                        }
                        assert forall|k2: u128| #[trigger]
                            m@.contains_key(k2) implies exists|j: int|
                                0 <= j < post.len() && ids::spec_uuid_parse(post[j].0@) == Some(
                                    k2,
                                ) && m@[k2] == post[j].1 * NANOS_PER_SEC by {
                            let j = choose|j: int|
                                0 <= j < pre.len() && ids::spec_uuid_parse(pre[j].0@) == Some(k2)
                                    && m@[k2] == pre[j].1 * NANOS_PER_SEC;
                            assert(post[j] == pre[j]);
                        }
                        assert forall|k2: u128|
                            m@.contains_key(k2) implies exists|j: int|
                                0 <= j < post.len() && #[trigger] ids::spec_uuid_parse(post[j].0@)
                                    == Some(k2) by {
                            let j = choose|j: int|
                                0 <= j < pre.len() && #[trigger] ids::spec_uuid_parse(pre[j].0@)
                                    == Some(k2);
                            assert(post[j] == pre[j]);
                        }
                    }
                },
            }
            i += 1;
        }
        assert(self.recent@.take(i as int) == self.recent@);
        m
    }

    /// The same preferences with the last connections replaced by `lc`,
    /// written in whole Unix seconds.
    pub fn merge_last_connected(self, lc: &HashMap<u128, u128>) -> (r: Self)
        requires
            forall|k: u128| #[trigger] lc@.contains_key(k) ==> lc@[k] / NANOS_PER_SEC <= u64::MAX,
        ensures
            map_to_recent(lc@, r.recent@),
            r.theme == self.theme,
            r.reduced_motion == self.reduced_motion,
            r.sidebar_expanded == self.sidebar_expanded,
    {
        let mut recent: Vec<(String, u64)> = Vec::new();
        for (k, v) in it: lc.iter()
            invariant
                it.seq() == vstd::std_specs::iter::IteratorSpec::remaining(&vstd::std_specs::hash::spec_hash_map_iter(lc)),
                recent@.len() == it.index(),
                forall|j: int|
                    #![trigger recent@[j]]
                    0 <= j < it.index() ==> {
                        let (kk, vv) = it.seq()[j];
                        &&& recent@[j].0@ == ids::uuid_text_spec(*kk)
                        &&& ids::spec_uuid_parse(recent@[j].0@) == Some(*kk)
                        &&& recent@[j].1 == *vv / NANOS_PER_SEC
                    },
                it.index() == it.seq().len() ==> map_to_recent(lc@, recent@),
                forall|k: u128| #[trigger] lc@.contains_key(k) ==> lc@[k] / NANOS_PER_SEC <= u64::MAX,
        {
            proof {
                assert(lc@.contains_key(*k) && lc@[*k] == *v);
            }
            recent.push((uuid_text(*k), (*v / NANOS_PER_SEC) as u64));
            proof {
                lemma_iter_covers(lc, recent@);
            }
        }
        AppStateFile {
            recent,
            theme: self.theme,
            reduced_motion: self.reduced_motion,
            sidebar_expanded: self.sidebar_expanded,
        }
    }
}


/// Writing the last connections into the file and reading them back gives
/// the same hosts, each time cut down to its whole second.
pub proof fn law_last_connected_roundtrip(lc: Map<u128, u128>, recent: Seq<(String, u64)>, back: Map<u128, u128>)
    requires
        map_to_recent(lc, recent),
        recent_to_map(recent, back),
    ensures
        back.dom() == lc.dom(),
        forall|k: u128| #[trigger] back.contains_key(k) ==> back[k] == (lc[k] / NANOS_PER_SEC) * NANOS_PER_SEC,
{
    assert forall|k: u128| #[trigger] back.contains_key(k) implies lc.contains_key(k) && back[k] == (lc[k]
        / NANOS_PER_SEC) * NANOS_PER_SEC by {
        let i = choose|i: int|
            0 <= i < recent.len() && ids::spec_uuid_parse(recent[i].0@) == Some(k) && back[k] == recent[i].1
                * NANOS_PER_SEC;
        assert(entry_of_map(lc, recent[i]));
    }
    assert forall|k: u128| #[trigger] lc.contains_key(k) implies back.contains_key(k) by {
        let i = choose|i: int|
            0 <= i < recent.len() && recent[i].0@ == ids::uuid_text_spec(k) && ids::spec_uuid_parse(
                recent[i].0@,
            ) == Some(k) && recent[i].1 == lc[k] / NANOS_PER_SEC;
        assert(ids::spec_uuid_parse(recent[i].0@) == Some(k));
    }
    assert(back.dom() =~= lc.dom());
}

} // verus!
