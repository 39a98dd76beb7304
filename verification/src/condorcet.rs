//! The Condorcet winner computation.

use vstd::prelude::*;

use crate::ballot::lemma_first_of_cases;
use crate::ballot::lemma_first_of_comm;
use crate::ballot::lemma_first_of_present;
use crate::ballot::prefers;
use crate::election::lemma_total_weight_prefix;
use crate::election::sum_pref;
use crate::election::total_weight;
use crate::election::Condorcet;
use crate::election::Vote;

verus! {

impl Vote {
    /// The weighted head-to-head tally of `c` against `o`: how much weight
    /// ranks `c` above `o`, and how much ranks `o` above `c`. Requires
    /// distinct candidates that every ballot ranks, so that each ballot
    /// lands on exactly one side.
    fn pairwise_tally(&self, c: u64, o: u64) -> (scores: (usize, usize))
        requires
            self.wf(),
            self.ballots_rank_all(),
            self.candidates@.contains(c),
            self.candidates@.contains(o),
            c != o,
        ensures
            scores.0 as int == sum_pref(self.ballots@, c, o),
            scores.1 as int == sum_pref(self.ballots@, o, c),
    {
        let m = self.ballots.len();
        let mut score_c: usize = 0;
        let mut score_o: usize = 0;
        let mut k: usize = 0;
        proof {
            assert(self.ballots@.subrange(0, 0).len() == 0);
        }
        while k < m
            invariant
                k <= m,
                m == self.ballots@.len(),
                self.wf(),
                self.ballots_rank_all(),
                self.candidates@.contains(c),
                self.candidates@.contains(o),
                c != o,
                score_c as int == sum_pref(self.ballots@.subrange(0, k as int), c, o),
                score_o as int == sum_pref(self.ballots@.subrange(0, k as int), o, c),
                score_c + score_o == total_weight(self.ballots@.subrange(0, k as int)),
            decreases m - k,
        {
            let weight = self.ballots[k].0;
            let ghost ranking = self.ballots@[k as int].1@;
            proof {
                lemma_first_of_present(ranking, c, o);
                lemma_first_of_cases(ranking, c, o);
                lemma_first_of_comm(ranking, c, o);
                lemma_total_weight_prefix(self.ballots@, k as int + 1);
                assert(self.ballots@.subrange(0, k as int + 1).drop_last() =~= self.ballots@
                    .subrange(0, k as int));
                assert(self.ballots@.subrange(0, k as int + 1).last() == self.ballots@[k as int]);
            }
            let preferred = self.ballots[k].1.who_is_first(c, o).unwrap();
            if preferred == c {
                score_c = score_c + weight;
            } else {
                proof {
                    assert(prefers(ranking, o, c));
                }
                score_o = score_o + weight;
            }
            k = k + 1;
        }
        proof {
            assert(self.ballots@.subrange(0, m as int) =~= self.ballots@);
        }
        (score_c, score_o)
    }

    /// `c` strictly beats every candidate other than itself, checked by
    /// tallying each head-to-head matchup. A tie or a loss in any single
    /// matchup disqualifies `c`.
    fn beats_all_others(&self, c: u64) -> (r: bool)
        requires
            self.wf(),
            self.ballots_rank_all(),
            self.candidates@.contains(c),
        ensures
            r == self.is_condorcet_winner(c),
    {
        let n = self.candidates.len();
        let mut j: usize = 0;
        while j < n
            invariant
                j <= n,
                n == self.candidates@.len(),
                self.wf(),
                self.ballots_rank_all(),
                self.candidates@.contains(c),
                forall|jj: int|
                    0 <= jj < j && self.candidates@[jj] != c ==> self.beats(
                        c,
                        #[trigger] self.candidates@[jj],
                    ),
            decreases n - j,
        {
            let other = self.candidates[j];
            if other != c {
                let scores = self.pairwise_tally(c, other);
                if scores.0 <= scores.1 {
                    proof {
                        assert(!self.beats(c, other));
                    }
                    return false;
                }
            }
            j = j + 1;
        }
        proof {
            assert forall|o: u64| self.candidates@.contains(o) && o != c implies self.beats(
                c,
                o,
            ) by {
                let jj = choose|jj: int|
                    0 <= jj < self.candidates@.len() && self.candidates@[jj] == o;
                assert(self.beats(c, self.candidates@[jj]));
            }
        }
        true
    }
}

impl Condorcet<u64> for Vote {
    open spec fn condorcet_pre(&self) -> bool {
        self.wf() && self.ballots_rank_all()
    }

    open spec fn condorcet_post(&self, r: Option<u64>) -> bool {
        match r {
            Some(w) => self.is_condorcet_winner(w),
            None => forall|c: u64|
                self.candidates@.contains(c) ==> !self.is_condorcet_winner(c),
        }
    }

    /// Scans every candidate and tallies every pairwise matchup; the
    /// candidate that strictly beats all others is the winner. `None`
    /// reports the Condorcet paradox: no candidate beats every other.
    /// An election with no candidates has no winner.
    fn condorcet_winner(&self) -> (r: Option<u64>) {
        let n = self.candidates.len();
        let mut res: Option<u64> = None;
        let mut i: usize = 0;
        while i < n
            invariant
                i <= n,
                n == self.candidates@.len(),
                self.wf(),
                self.ballots_rank_all(),
                match res {
                    Some(w) => self.is_condorcet_winner(w),
                    None => forall|ii: int|
                        0 <= ii < i ==> !self.is_condorcet_winner(
                            #[trigger] self.candidates@[ii],
                        ),
                },
            decreases n - i,
        {
            let candidate = self.candidates[i];
            if self.beats_all_others(candidate) {
                res = Some(candidate);
            }
            i = i + 1;
        }
        proof {
            if res is None {
                assert forall|c: u64|
                    self.candidates@.contains(c) implies !self.is_condorcet_winner(c) by {
                    let ii = choose|ii: int|
                        0 <= ii < self.candidates@.len() && self.candidates@[ii] == c;
                    assert(!self.is_condorcet_winner(self.candidates@[ii]));
                }
            }
        }
        res
    }
}

} // verus!
