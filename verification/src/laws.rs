//! Laws of the two winner rules, stated over the election model.

use vstd::prelude::*;

use crate::election::Condorcet;
use crate::election::OneStage;
use crate::election::Vote;

verus! {

/// At most one candidate can beat every other: head-to-head victories are
/// asymmetric, so two distinct Condorcet winners would each have to beat
/// the other.
pub proof fn lemma_condorcet_winner_unique(v: Vote, w1: u64, w2: u64)
    requires
        v.is_condorcet_winner(w1),
        v.is_condorcet_winner(w2),
    ensures
        w1 == w2,
{
    if w1 != w2 {
        assert(v.beats(w1, w2));
        assert(v.beats(w2, w1));
    }
}

/// At most one candidate can strictly out-score every other on first
/// preferences.
pub proof fn lemma_plurality_winner_unique(v: Vote, w1: u64, w2: u64)
    requires
        v.is_plurality_winner(w1),
        v.is_plurality_winner(w2),
    ensures
        w1 == w2,
{
    if w1 != w2 {
        assert(v.first_pref_weight(w1) < v.first_pref_weight(w2));
        assert(v.first_pref_weight(w2) < v.first_pref_weight(w1));
    }
}

/// The Condorcet rule is deterministic: its contract admits exactly one
/// result for a given election, so repeated runs must agree.
pub proof fn lemma_condorcet_winner_deterministic(v: Vote, r1: Option<u64>, r2: Option<u64>)
    requires
        v.condorcet_post(r1),
        v.condorcet_post(r2),
    ensures
        r1 == r2,
{
    match (r1, r2) {
        (Some(w1), Some(w2)) => lemma_condorcet_winner_unique(v, w1, w2),
        (Some(w1), None) => assert(!v.is_condorcet_winner(w1)),
        (None, Some(w2)) => assert(!v.is_condorcet_winner(w2)),
        (None, None) => (),
    }
}

/// The plurality rule is deterministic: its contract admits exactly one
/// result for a given election, so repeated runs must agree.
pub proof fn lemma_one_stage_deterministic(v: Vote, r1: Option<u64>, r2: Option<u64>)
    requires
        v.one_stage_post(r1),
        v.one_stage_post(r2),
    ensures
        r1 == r2,
{
    match (r1, r2) {
        (Some(w1), Some(w2)) => lemma_plurality_winner_unique(v, w1, w2),
        (Some(w1), None) => assert(!v.is_plurality_winner(w1)),
        (None, Some(w2)) => assert(!v.is_plurality_winner(w2)),
        (None, None) => (),
    }
}

/// Winner membership: a non-absent Condorcet result is always a member of
/// the candidate set.
pub proof fn lemma_condorcet_winner_membership(v: Vote, w: u64)
    requires
        v.condorcet_post(Some(w)),
    ensures
        v.candidates@.contains(w),
{
}

/// Winner membership: a non-absent plurality result is always a member of
/// the candidate set.
pub proof fn lemma_plurality_winner_membership(v: Vote, w: u64)
    requires
        v.one_stage_post(Some(w)),
    ensures
        v.candidates@.contains(w),
{
}

/// The Condorcet majority property: against every other candidate, a
/// returned winner gathers strictly more ballot weight than the opponent
/// does against it.
pub proof fn lemma_condorcet_majority(v: Vote, w: u64, o: u64)
    requires
        v.condorcet_post(Some(w)),
        v.candidates@.contains(o),
        o != w,
    ensures
        crate::election::sum_pref(v.ballots@, w, o) > crate::election::sum_pref(v.ballots@, o, w),
{
    assert(v.beats(w, o));
}

/// The Condorcet paradox: when the pairwise majorities among three
/// candidates form a cycle and no further candidate exists, no candidate
/// beats every other, so the rule owes the absent result.
pub proof fn lemma_condorcet_paradox(v: Vote, a: u64, b: u64, c: u64)
    requires
        v.candidates@.contains(a),
        v.candidates@.contains(b),
        v.candidates@.contains(c),
        a != b,
        b != c,
        a != c,
        forall|x: u64| v.candidates@.contains(x) ==> x == a || x == b || x == c,
        v.beats(a, b),
        v.beats(b, c),
        v.beats(c, a),
    ensures
        v.condorcet_post(None::<u64>),
{
    assert(!v.beats(a, c));
    assert(!v.beats(b, a));
    assert(!v.beats(c, b));
    assert forall|x: u64| v.candidates@.contains(x) implies !v.is_condorcet_winner(x) by {
        if x == a {
            assert(!v.beats(a, c));
        } else if x == b {
            assert(!v.beats(b, a));
        } else {
            assert(!v.beats(c, b));
        }
    }
}

/// Plurality tie detection: two distinct candidates sharing the maximal
/// first-preference weight leave the rule without a winner, whatever the
/// other candidates score.
pub proof fn lemma_plurality_tie(v: Vote, c1: u64, c2: u64)
    requires
        v.candidates@.contains(c1),
        v.candidates@.contains(c2),
        c1 != c2,
        v.first_pref_weight(c1) == v.first_pref_weight(c2),
        forall|o: u64|
            v.candidates@.contains(o) ==> v.first_pref_weight(o) <= v.first_pref_weight(c1),
    ensures
        v.one_stage_post(None::<u64>),
{
    assert forall|w: u64| v.candidates@.contains(w) implies !v.is_plurality_winner(w) by {
        let o = if w == c1 {
            c2
        } else {
            c1
        };
        assert(v.candidates@.contains(o) && o != w);
        assert(v.first_pref_weight(o) == v.first_pref_weight(c1));
        assert(!(v.first_pref_weight(o) < v.first_pref_weight(w)));
    }
}

} // verus!
