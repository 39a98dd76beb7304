//! The single-stage plurality winner computation.

use vstd::prelude::*;

use crate::election::lemma_total_weight_prefix;
use crate::election::sum_first;
use crate::election::total_weight;
use crate::election::OneStage;
use crate::election::Vote;
use itertools::Itertools;

verus! {

/// Relies on itertools' `sorted_by_key`, which collects the items into a
/// vector and sorts it with `Vec::sort_by_key`: the result is a
/// permutation of the input, in ascending order of the key picked by the
/// closure (here, the score component).
#[verifier::external_body]
fn sort_by_score(v: Vec<(u64, usize)>) -> (r: Vec<(u64, usize)>)
    ensures
        r@.len() == v@.len(),
        r@.to_multiset() == v@.to_multiset(),
        forall|i: int, j: int| 0 <= i <= j < r@.len() ==> r@[i].1 <= r@[j].1,
{
    v.into_iter().sorted_by_key(|p: &(u64, usize)| p.1).collect()
}

/// Two sequences with the same multiset of elements contain the same
/// elements.
proof fn lemma_multiset_eq_contains(a: Seq<(u64, usize)>, b: Seq<(u64, usize)>, p: (u64, usize))
    requires
        a.to_multiset() == b.to_multiset(),
        a.contains(p),
    ensures
        b.contains(p),
{
    broadcast use vstd::seq_lib::group_to_multiset_ensures;

    assert(a.to_multiset().count(p) > 0);
    assert(b.to_multiset().count(p) > 0);
}

/// A permutation of a duplicate-free sequence is duplicate-free.
proof fn lemma_perm_no_duplicates(a: Seq<(u64, usize)>, b: Seq<(u64, usize)>)
    requires
        a.to_multiset() == b.to_multiset(),
        a.no_duplicates(),
    ensures
        b.no_duplicates(),
{
    a.lemma_multiset_has_no_duplicates();
    b.lemma_multiset_has_no_duplicates_conv();
}

impl Vote {
    /// The summed weight of the ballots whose first preference is `c`.
    fn first_pref_tally(&self, c: u64) -> (s: usize)
        requires
            self.wf(),
            self.first_prefs_valid(),
        ensures
            s as int == sum_first(self.ballots@, c),
    {
        let m = self.ballots.len();
        let mut s: usize = 0;
        let mut k: usize = 0;
        proof {
            assert(self.ballots@.subrange(0, 0).len() == 0);
        }
        while k < m
            invariant
                k <= m,
                m == self.ballots@.len(),
                self.wf(),
                self.first_prefs_valid(),
                s as int == sum_first(self.ballots@.subrange(0, k as int), c),
                s as int <= total_weight(self.ballots@.subrange(0, k as int)),
            decreases m - k,
        {
            proof {
                lemma_total_weight_prefix(self.ballots@, k as int + 1);
                assert(self.ballots@.subrange(0, k as int + 1).drop_last() =~= self.ballots@
                    .subrange(0, k as int));
                assert(self.ballots@.subrange(0, k as int + 1).last() == self.ballots@[k as int]);
                assert(self.candidates@.contains(self.ballots@[k as int].1@[0]));
            }
            let weight = self.ballots[k].0;
            if self.ballots[k].1.0[0] == c {
                s = s + weight;
            }
            k = k + 1;
        }
        proof {
            assert(self.ballots@.subrange(0, m as int) =~= self.ballots@);
        }
        s
    }

    /// One (candidate, first-preference score) entry per candidate, in the
    /// candidate set's order. Every candidate is present, with score zero
    /// when no ballot ranks it first.
    fn build_tallies(&self) -> (t: Vec<(u64, usize)>)
        requires
            self.wf(),
            self.first_prefs_valid(),
        ensures
            t@.len() == self.candidates@.len(),
            forall|i: int|
                0 <= i < t@.len() ==> (#[trigger] t@[i]).0 == self.candidates@[i] && t@[i].1
                    as int == sum_first(self.ballots@, self.candidates@[i]),
    {
        let n = self.candidates.len();
        let mut t: Vec<(u64, usize)> = Vec::new();
        let mut i: usize = 0;
        while i < n
            invariant
                i <= n,
                n == self.candidates@.len(),
                self.wf(),
                self.first_prefs_valid(),
                t@.len() == i,
                forall|ii: int|
                    0 <= ii < i ==> (#[trigger] t@[ii]).0 == self.candidates@[ii] && t@[ii].1
                        as int == sum_first(self.ballots@, self.candidates@[ii]),
            decreases n - i,
        {
            let c = self.candidates[i];
            let s = self.first_pref_tally(c);
            t.push((c, s));
            i = i + 1;
        }
        t
    }
}

impl OneStage<u64> for Vote {
    open spec fn one_stage_pre(&self) -> bool {
        self.wf() && self.first_prefs_valid()
    }

    open spec fn one_stage_post(&self, r: Option<u64>) -> bool {
        match r {
            Some(w) => self.is_plurality_winner(w),
            None => forall|c: u64|
                self.candidates@.contains(c) ==> !self.is_plurality_winner(c),
        }
    }

    /// Accumulates every candidate's first-preference weight, sorts the
    /// tallies ascending by score, and inspects the two highest: the top
    /// candidate wins only when its score strictly exceeds the runner-up's.
    /// A sole candidate wins outright; an empty election has no winner.
    fn one_stage(&self) -> (r: Option<u64>) {
        let tallies = self.build_tallies();
        let ghost t = tallies@;
        let sorted = sort_by_score(tallies);
        let ghost s = sorted@;
        let n = sorted.len();
        proof {
            assert forall|i: int, j: int| 0 <= i < j < t.len() implies t[i] != t[j] by {
                assert(self.candidates@[i] != self.candidates@[j]);
            }
            assert(t.no_duplicates());
            // every tally entry occurs among the sorted entries, and every
            // sorted entry is a tally entry
            assert forall|ii: int| 0 <= ii < t.len() implies s.contains(t[ii]) by {
                assert(t.contains(t[ii]));
                lemma_multiset_eq_contains(t, s, t[ii]);
            }
            assert forall|jj: int|
                0 <= jj < s.len() implies self.candidates@.contains((#[trigger] s[jj]).0)
                    && s[jj].1 as int == self.first_pref_weight(s[jj].0) by {
                assert(s.contains(s[jj]));
                lemma_multiset_eq_contains(s, t, s[jj]);
                let ii = choose|ii: int| 0 <= ii < t.len() && t[ii] == s[jj];
                assert(self.candidates@[ii] == s[jj].0);
            }
            // the last sorted score bounds every candidate's score
            if n > 0 {
                assert forall|o: u64|
                    self.candidates@.contains(o) implies self.first_pref_weight(o) <= s[n - 1].1
                    as int by {
                    let ii = choose|ii: int|
                        0 <= ii < self.candidates@.len() && self.candidates@[ii] == o;
                    assert(s.contains(t[ii]));
                    let jj = choose|jj: int| 0 <= jj < s.len() && s[jj] == t[ii];
                    assert(s[jj].1 <= s[n - 1].1);
                }
            }
        }
        if n == 0 {
            return None;
        }
        if n == 1 {
            let top = sorted[0];
            proof {
                assert forall|o: u64|
                    self.candidates@.contains(o) && o != top.0 implies self.first_pref_weight(o)
                        < self.first_pref_weight(top.0) by {
                    let ii = choose|ii: int|
                        0 <= ii < self.candidates@.len() && self.candidates@[ii] == o;
                    assert(s.contains(t[ii]));
                    let jj = choose|jj: int| 0 <= jj < s.len() && s[jj] == t[ii];
                    assert(jj == 0);
                }
            }
            return Some(top.0);
        }
        let top = sorted[n - 1];
        let second = sorted[n - 2];
        if second.1 == top.1 {
            proof {
                lemma_perm_no_duplicates(t, s);
                let c1 = s[n - 1].0;
                let c2 = s[n - 2].0;
                assert(s[n - 1] != s[n - 2]);
                assert(c1 != c2);
                assert forall|w: u64|
                    self.candidates@.contains(w) implies !self.is_plurality_winner(w) by {
                    let o = if w == c1 {
                        c2
                    } else {
                        c1
                    };
                    assert(self.candidates@.contains(o) && o != w);
                    assert(self.first_pref_weight(o) == top.1 as int);
                    assert(self.first_pref_weight(w) <= top.1 as int);
                    assert(!(self.first_pref_weight(o) < self.first_pref_weight(w)));
                }
            }
            None
        } else {
            proof {
                let w = s[n - 1].0;
                assert forall|o: u64|
                    self.candidates@.contains(o) && o != w implies self.first_pref_weight(o)
                        < self.first_pref_weight(w) by {
                    let ii = choose|ii: int|
                        0 <= ii < self.candidates@.len() && self.candidates@[ii] == o;
                    assert(s.contains(t[ii]));
                    let jj = choose|jj: int| 0 <= jj < s.len() && s[jj] == t[ii];
                    assert(jj < n - 1);
                    assert(s[jj].1 <= s[n - 2].1);
                }
            }
            Some(top.0)
        }
    }
}

} // verus!
