//! The election aggregate and the two winner-determination interfaces.

use vstd::prelude::*;

use crate::ballot::prefers;
use crate::ballot::PreOrder;

verus! {

/// A block of identical ballots: the number of voters who cast this exact
/// ranking, paired with the ranking itself. Weight zero is legal and
/// contributes nothing.
pub type Ballot = (usize, PreOrder);

/// A whole election: the set of eligible candidates (no duplicates) and
/// the weighted ballots. Immutable once constructed; both winner rules
/// are pure reads of it.
#[derive(Clone, Debug, Eq, PartialEq)]
pub struct Vote {
    pub candidates: Vec<u64>,
    pub ballots: Vec<Ballot>,
}

/// The number of voters across all the ballot blocks of `bs`.
pub open spec fn total_weight(bs: Seq<Ballot>) -> int
    decreases bs.len(),
{
    if bs.len() == 0 {
        0
    } else {
        total_weight(bs.drop_last()) + bs.last().0 as int
    }
}

/// The summed weight of the ballots that rank `a` above `b`.
pub open spec fn sum_pref(bs: Seq<Ballot>, a: u64, b: u64) -> int
    decreases bs.len(),
{
    if bs.len() == 0 {
        0
    } else {
        sum_pref(bs.drop_last(), a, b) + if prefers(bs.last().1@, a, b) {
            bs.last().0 as int
        } else {
            0
        }
    }
}

/// The summed weight of the ballots whose most-preferred candidate is `c`.
pub open spec fn sum_first(bs: Seq<Ballot>, c: u64) -> int
    decreases bs.len(),
{
    if bs.len() == 0 {
        0
    } else {
        sum_first(bs.drop_last(), c) + if bs.last().1@.len() > 0 && bs.last().1@[0] == c {
            bs.last().0 as int
        } else {
            0
        }
    }
}

impl Vote {
    /// Structural well-formedness: the candidate set has set semantics
    /// (no duplicate identities), and the total number of voters fits the
    /// machine's word so that tallies can be accumulated exactly.
    pub open spec fn wf(self) -> bool {
        &&& self.candidates@.no_duplicates()
        &&& total_weight(self.ballots@) <= usize::MAX
    }

    /// Every ballot ranks every candidate of the election. The pairwise
    /// head-to-head query is only meaningful under this precondition.
    pub open spec fn ballots_rank_all(self) -> bool {
        forall|k: int, c: u64|
            0 <= k < self.ballots@.len() && self.candidates@.contains(c)
                ==> self.ballots@[k].1@.contains(c)
    }

    /// Every ballot is non-empty and opens with a member of the candidate
    /// set, so that first-preference tallying is meaningful.
    pub open spec fn first_prefs_valid(self) -> bool {
        forall|k: int|
            0 <= k < self.ballots@.len() ==> self.ballots@[k].1@.len() > 0
                && self.candidates@.contains(#[trigger] self.ballots@[k].1@[0])
    }

    /// The ballots place `a` above `b` by a strictly larger summed weight
    /// than they place `b` above `a`.
    pub open spec fn beats(self, a: u64, b: u64) -> bool {
        sum_pref(self.ballots@, a, b) > sum_pref(self.ballots@, b, a)
    }

    /// `c` is the Condorcet winner: a candidate that wins the weighted
    /// head-to-head majority against every other candidate.
    pub open spec fn is_condorcet_winner(self, c: u64) -> bool {
        &&& self.candidates@.contains(c)
        &&& forall|o: u64| self.candidates@.contains(o) && o != c ==> self.beats(c, o)
    }

    /// `c`'s accumulated first-preference weight.
    pub open spec fn first_pref_weight(self, c: u64) -> int {
        sum_first(self.ballots@, c)
    }

    /// `c` is the plurality winner: its first-preference weight strictly
    /// exceeds that of every other candidate. A sole candidate wins
    /// outright; any tie at the top means there is no winner.
    pub open spec fn is_plurality_winner(self, c: u64) -> bool {
        &&& self.candidates@.contains(c)
        &&& forall|o: u64|
            self.candidates@.contains(o) && o != c ==> self.first_pref_weight(o)
                < self.first_pref_weight(c)
    }
}

/// The Condorcet rule: a winner must take a strict weighted majority in
/// every pairwise matchup.
pub trait Condorcet<T> {
    /// What the election must satisfy before the winner is computed.
    spec fn condorcet_pre(&self) -> bool;

    /// Exactly which result the rule owes: `Some` of the Condorcet winner
    /// when one exists, `None` when no candidate beats every other.
    spec fn condorcet_post(&self, r: Option<T>) -> bool;

    /// The Condorcet winner of the election, if there is one.
    fn condorcet_winner(&self) -> (r: Option<T>)
        requires
            self.condorcet_pre(),
        ensures
            self.condorcet_post(r),
    ;
}

/// The single-stage plurality rule: count first preferences only, and
/// abstain on a tie at the top.
pub trait OneStage<T> {
    /// What the election must satisfy before the winner is computed.
    spec fn one_stage_pre(&self) -> bool;

    /// Exactly which result the rule owes: `Some` of the strict
    /// first-preference leader when one exists, `None` otherwise.
    spec fn one_stage_post(&self, r: Option<T>) -> bool;

    /// The plurality winner of the election, if there is one.
    fn one_stage(&self) -> (r: Option<T>)
        requires
            self.one_stage_pre(),
        ensures
            self.one_stage_post(r),
    ;
}

/// A prefix of the ballots never outweighs the whole list.
pub proof fn lemma_total_weight_prefix(bs: Seq<Ballot>, k: int)
    requires
        0 <= k <= bs.len(),
    ensures
        total_weight(bs.subrange(0, k)) <= total_weight(bs),
    decreases bs.len() - k,
{
    if k == bs.len() {
        assert(bs.subrange(0, k) =~= bs);
    } else {
        assert(bs.subrange(0, k + 1).drop_last() =~= bs.subrange(0, k));
        assert(bs.subrange(0, k + 1).last() == bs[k]);
        lemma_total_weight_prefix(bs, k + 1);
    }
}

} // verus!
