//! The keyword analyzer: filters a session list by a keyword set and
//! measures cardinality. A session matches when its keyword list
//! intersects the query set, or any query keyword occurs as a
//! (case-sensitive) substring of its title or abstract text.

use vstd::prelude::*;
use vstd::multiset::Multiset;
use crate::models::{Session, SessionView, session_views};
use crate::text::{contains_sub, str_contains, string_views, strings_contain};

verus! {

/// A session matches the query keywords `kws` when any of the three
/// rules holds: exact intersection with its keyword list, substring of
/// its title, or substring of its abstract text.
pub open spec fn session_matches(s: SessionView, kws: Seq<Seq<char>>) -> bool {
    ||| exists|i: int| 0 <= i < s.keywords.len() && kws.contains(#[trigger] s.keywords[i])
    ||| exists|i: int| 0 <= i < kws.len() && contains_sub(s.title, #[trigger] kws[i])
    ||| exists|i: int| 0 <= i < kws.len() && contains_sub(s.abstract_text, #[trigger] kws[i])
}

/// The subsequence of `ss` whose sessions match `kws`, in their
/// original relative order, each occurrence kept exactly once.
pub open spec fn filter_matching(ss: Seq<SessionView>, kws: Seq<Seq<char>>) -> Seq<SessionView> {
    ss.filter(|s: SessionView| session_matches(s, kws))
}

/// Decides whether one session matches the query keywords.
pub fn matches_session(s: &Session, keywords: &Vec<String>) -> (r: bool)
    ensures
        r == session_matches(s@, string_views(keywords@)),
{
    let mut i: usize = 0;
    while i < s.keywords.len()
        invariant
            i <= s.keywords@.len(),
            forall|k: int|
                0 <= k < i ==> !string_views(keywords@).contains(#[trigger] s@.keywords[k]),
        decreases s.keywords@.len() - i,
    {
        if strings_contain(keywords, &s.keywords[i]) {
            proof {
                assert(string_views(keywords@).contains(s@.keywords[i as int]));
            }
            return true;
        }
        i = i + 1;
    }
    let mut j: usize = 0;
    while j < keywords.len()
        invariant
            j <= keywords@.len(),
            forall|k: int|
                0 <= k < i ==> !string_views(keywords@).contains(#[trigger] s@.keywords[k]),
            i == s.keywords@.len(),
            forall|k: int|
                0 <= k < j ==> !contains_sub(s@.title, #[trigger] string_views(keywords@)[k]),
            forall|k: int|
                0 <= k < j ==> !contains_sub(
                    s@.abstract_text,
                    #[trigger] string_views(keywords@)[k],
                ),
        decreases keywords@.len() - j,
    {
        if str_contains(s.title.as_str(), keywords[j].as_str()) {
            proof {
                assert(contains_sub(s@.title, string_views(keywords@)[j as int]));
            }
            return true;
        }
        if str_contains(s.abstract_text.as_str(), keywords[j].as_str()) {
            proof {
                assert(contains_sub(s@.abstract_text, string_views(keywords@)[j as int]));
            }
            return true;
        }
        j = j + 1;
    }
    false
}

/// Returns the sessions of `sessions` that match `keywords`, in their
/// original relative order, each occurrence at most once even when a
/// session matches via several rules or keywords.
pub fn filter_by_keywords(sessions: &Vec<Session>, keywords: &Vec<String>) -> (r: Vec<Session>)
    ensures
        session_views(r@) == filter_matching(session_views(sessions@), string_views(keywords@)),
{
    let ghost kws = string_views(keywords@);
    let ghost all = session_views(sessions@);
    let ghost pred = |s: SessionView| session_matches(s, kws);
    let mut r: Vec<Session> = Vec::new();
    let mut i: usize = 0;
    proof {
        reveal(Seq::filter);
        assert(all.take(0) =~= Seq::<SessionView>::empty());
        assert(session_views(r@) =~= all.take(0).filter(pred));
    }
    while i < sessions.len()
        invariant
            i <= sessions@.len(),
            all == session_views(sessions@),
            kws == string_views(keywords@),
            pred == (|s: SessionView| session_matches(s, kws)),
            session_views(r@) == all.take(i as int).filter(pred),
        decreases sessions@.len() - i,
    {
        let ghost old_r = r@;
        if matches_session(&sessions[i], keywords) {
            r.push(sessions[i].clone());
            proof {
                assert(session_views(r@) =~= session_views(old_r).push(all[i as int]));
            }
        }
        proof {
            reveal(Seq::filter);
            assert(all.take(i + 1 as int).drop_last() =~= all.take(i as int));
            assert(all.take(i + 1 as int).last() == all[i as int]);
            assert(session_views(r@) =~= all.take(i + 1 as int).filter(pred));
        }
        i = i + 1;
    }
    proof {
        assert(all.take(sessions@.len() as int) =~= all);
    }
    r
}

/// The number of sessions of `sessions` that match `keywords`.
pub fn count_by_keywords(sessions: &Vec<Session>, keywords: &Vec<String>) -> (r: usize)
    ensures
        r == filter_matching(session_views(sessions@), string_views(keywords@)).len(),
{
    let filtered = filter_by_keywords(sessions, keywords);
    filtered.len()
}

proof fn lemma_filter_all_true(t: Seq<SessionView>, pred: spec_fn(SessionView) -> bool)
    requires
        forall|i: int| 0 <= i < t.len() ==> pred(#[trigger] t[i]),
    ensures
        t.filter(pred) == t,
    decreases t.len(),
{
    reveal(Seq::filter);
    if t.len() == 0 {
        assert(t.filter(pred) =~= t);
    } else {
        lemma_filter_all_true(t.drop_last(), pred);
        assert(t.filter(pred) =~= t);
    }
}

/// Filtering an already-filtered session list by the same keywords
/// yields the same list: the keyword filter is idempotent.
pub proof fn lemma_filter_by_keywords_idempotent(ss: Seq<SessionView>, kws: Seq<Seq<char>>)
    ensures
        filter_matching(filter_matching(ss, kws), kws) == filter_matching(ss, kws),
{
    broadcast use vstd::seq_lib::group_filter_ensures;

    let pred = |s: SessionView| session_matches(s, kws);
    lemma_filter_all_true(ss.filter(pred), pred);
}

/// A session occurs in the filtered output exactly as often as in the
/// input when it matches, and never when it does not: matching via
/// several rules or keywords introduces no duplicate.
pub proof fn lemma_filter_by_keywords_count(ss: Seq<SessionView>, kws: Seq<Seq<char>>, s: SessionView)
    ensures
        filter_matching(ss, kws).to_multiset().count(s) == (if session_matches(s, kws) {
            ss.to_multiset().count(s)
        } else {
            0
        }),
    decreases ss.len(),
{
    broadcast use vstd::seq_lib::group_to_multiset_ensures;

    let pred = |s: SessionView| session_matches(s, kws);
    reveal(Seq::filter);
    if ss.len() == 0 {
        assert(ss.filter(pred) =~= Seq::<SessionView>::empty());
        assert(Seq::<SessionView>::empty().to_multiset() =~= Multiset::<SessionView>::empty());
    } else {
        let dl = ss.drop_last();
        let last = ss.last();
        lemma_filter_by_keywords_count(dl, kws, s);
        assert(ss =~= dl.push(last));
        assert(ss.to_multiset() =~= dl.to_multiset().insert(last));
        if pred(last) {
            assert(ss.filter(pred) == dl.filter(pred).push(last));
            assert(ss.filter(pred).to_multiset() =~= dl.filter(pred).to_multiset().insert(last));
        } else {
            assert(ss.filter(pred) == dl.filter(pred));
        }
    }
}

} // verus!
