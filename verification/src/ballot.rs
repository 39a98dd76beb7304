//! Ranked ballots: a strict preference ordering over candidate identities.

use vstd::prelude::*;

verus! {

/// One voter block's ranking of the candidates, most preferred first.
/// Candidates are opaque `u64` identities; each candidate of the election
/// is expected to appear at most once in the sequence.
#[derive(Clone, Debug, Eq, PartialOrd, PartialEq)]
pub struct PreOrder(pub Vec<u64>);

impl View for PreOrder {
    type V = Seq<u64>;

    open spec fn view(&self) -> Seq<u64> {
        self.0@
    }
}

/// Of `a` and `b`, the one that occurs first in `s`, scanning from the
/// front; `None` when neither occurs at all.
pub open spec fn first_of(s: Seq<u64>, a: u64, b: u64) -> Option<u64>
    decreases s.len(),
{
    if s.len() == 0 {
        None
    } else if s[0] == a {
        Some(a)
    } else if s[0] == b {
        Some(b)
    } else {
        first_of(s.drop_first(), a, b)
    }
}

/// The ranking `s` places `a` before `b`.
pub open spec fn prefers(s: Seq<u64>, a: u64, b: u64) -> bool {
    first_of(s, a, b) == Some(a)
}

/// `first_of` only ever reports one of the two queried candidates.
pub proof fn lemma_first_of_cases(s: Seq<u64>, a: u64, b: u64)
    ensures
        first_of(s, a, b) == Some(a) || first_of(s, a, b) == Some(b) || first_of(s, a, b)
            is None,
    decreases s.len(),
{
    if s.len() > 0 && s[0] != a && s[0] != b {
        lemma_first_of_cases(s.drop_first(), a, b);
    }
}

/// When `a` occurs somewhere in `s`, the scan cannot come up empty.
pub proof fn lemma_first_of_present(s: Seq<u64>, a: u64, b: u64)
    requires
        s.contains(a),
    ensures
        first_of(s, a, b) is Some,
    decreases s.len(),
{
    if s.len() > 0 && s[0] != a && s[0] != b {
        let i = choose|i: int| 0 <= i < s.len() && s[i] == a;
        assert(s.drop_first()[i - 1] == a);
        lemma_first_of_present(s.drop_first(), a, b);
    }
}

/// For distinct candidates the scan does not depend on the argument order.
pub proof fn lemma_first_of_comm(s: Seq<u64>, a: u64, b: u64)
    requires
        a != b,
    ensures
        first_of(s, a, b) == first_of(s, b, a),
    decreases s.len(),
{
    if s.len() > 0 && s[0] != a && s[0] != b {
        lemma_first_of_comm(s.drop_first(), a, b);
    }
}

impl PreOrder {
    /// Of candidates `a` and `b`, the one this ballot ranks higher: the
    /// ranking is scanned from most preferred to least, and whichever of
    /// the two is met first is returned. `None` means neither candidate
    /// occurs in the ranking, which callers treat as a contract violation.
    pub fn who_is_first(&self, a: u64, b: u64) -> (r: Option<u64>)
        ensures
            r == first_of(self@, a, b),
    {
        let n = self.0.len();
        let mut i: usize = 0;
        proof {
            assert(self@.skip(0) =~= self@);
        }
        while i < n
            invariant
                i <= n,
                n == self@.len(),
                first_of(self@, a, b) == first_of(self@.skip(i as int), a, b),
            decreases n - i,
        {
            let it = self.0[i];
            proof {
                assert(self@.skip(i as int)[0] == self@[i as int]);
            }
            if a == it {
                return Some(a);
            }
            if b == it {
                return Some(b);
            }
            proof {
                assert(self@.skip(i as int).drop_first() =~= self@.skip(i as int + 1));
            }
            i = i + 1;
        }
        proof {
            assert(self@.skip(n as int).len() == 0);
        }
        None
    }
}

} // verus!
