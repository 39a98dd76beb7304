use ranked_vote::{Condorcet, OneStage, PreOrder, Vote};

#[test]
fn condorcet_1() {
    assert_eq!(
        Vote {
            candidates: vec![1, 2, 3],
            ballots: vec![
                (35, PreOrder(vec![1, 2, 3])),
                (25, PreOrder(vec![2, 3, 1])),
                (15, PreOrder(vec![3, 2, 1])),
            ],
        }
        .condorcet_winner()
        .unwrap(),
        2
    )
}

#[test]
fn condorcet_2() {
    assert_eq!(
        Vote {
            candidates: vec![1, 2, 3, 4],
            ballots: vec![
                (42, PreOrder(vec![1, 2, 3, 4])),
                (26, PreOrder(vec![2, 3, 4, 1])),
                (17, PreOrder(vec![4, 3, 2, 1])),
                (15, PreOrder(vec![3, 4, 2, 1])),
            ],
        }
        .condorcet_winner()
        .unwrap(),
        2
    )
}

#[test]
fn condorcet_pairwise_tie_has_no_winner() {
    // two candidates, 10 voters each way: the only matchup is tied
    let v = Vote {
        candidates: vec![1, 2],
        ballots: vec![(10, PreOrder(vec![1, 2])), (10, PreOrder(vec![2, 1]))],
    };
    assert_eq!(v.condorcet_winner(), None);
}

#[test]
fn condorcet_cycle_has_no_winner() {
    // cyclic pairwise majorities: 1 beats 2, 2 beats 3, 3 beats 1
    let v = Vote {
        candidates: vec![1, 2, 3],
        ballots: vec![
            (1, PreOrder(vec![1, 2, 3])),
            (1, PreOrder(vec![2, 3, 1])),
            (1, PreOrder(vec![3, 1, 2])),
        ],
    };
    assert_eq!(v.condorcet_winner(), None);
}

#[test]
fn plurality_first_preference_tie_has_no_winner() {
    // candidates 1 and 2 tie at 10 first-preference votes; 3 never leads
    let v = Vote {
        candidates: vec![1, 2, 3],
        ballots: vec![(10, PreOrder(vec![1, 2, 3])), (10, PreOrder(vec![2, 1, 3]))],
    };
    assert_eq!(v.one_stage(), None);
}

#[test]
fn plurality_tie_despite_lower_third_score() {
    // 1 and 2 tie at 10 while 3 holds a lower, untied score of 4
    let v = Vote {
        candidates: vec![1, 2, 3],
        ballots: vec![
            (10, PreOrder(vec![1, 2, 3])),
            (10, PreOrder(vec![2, 1, 3])),
            (4, PreOrder(vec![3, 1, 2])),
        ],
    };
    assert_eq!(v.one_stage(), None);
}

#[test]
fn plurality_strict_leader_wins() {
    // first preferences: 1 gets 35, 2 gets 25, 3 gets 15
    let v = Vote {
        candidates: vec![1, 2, 3],
        ballots: vec![
            (35, PreOrder(vec![1, 2, 3])),
            (25, PreOrder(vec![2, 3, 1])),
            (15, PreOrder(vec![3, 2, 1])),
        ],
    };
    assert_eq!(v.one_stage(), Some(1));
}

#[test]
fn plurality_sole_candidate_wins_outright() {
    let v = Vote {
        candidates: vec![9],
        ballots: vec![(3, PreOrder(vec![9]))],
    };
    assert_eq!(v.one_stage(), Some(9));
}

#[test]
fn empty_election_has_no_winner() {
    let v = Vote { candidates: vec![], ballots: vec![] };
    assert_eq!(v.condorcet_winner(), None);
    assert_eq!(v.one_stage(), None);
}

#[test]
fn condorcet_winner_repeats_identically() {
    let v = Vote {
        candidates: vec![1, 2, 3],
        ballots: vec![
            (35, PreOrder(vec![1, 2, 3])),
            (25, PreOrder(vec![2, 3, 1])),
            (15, PreOrder(vec![3, 2, 1])),
        ],
    };
    assert_eq!(v.condorcet_winner(), v.condorcet_winner());
    assert_eq!(v.one_stage(), v.one_stage());
}

#[test]
fn who_is_first_reports_the_earlier_candidate() {
    let p = PreOrder(vec![4, 7, 2]);
    assert_eq!(p.who_is_first(7, 2), Some(7));
    assert_eq!(p.who_is_first(2, 7), Some(7));
    assert_eq!(p.who_is_first(4, 2), Some(4));
}

#[test]
fn who_is_first_absent_candidates_give_none() {
    let p = PreOrder(vec![4, 7, 2]);
    assert_eq!(p.who_is_first(5, 6), None);
    let empty = PreOrder(vec![]);
    assert_eq!(empty.who_is_first(4, 7), None);
}

#[test]
fn zero_weight_ballots_contribute_nothing() {
    // without the zero-weight block, 2 beats 1; the block must not tip it
    let v = Vote {
        candidates: vec![1, 2],
        ballots: vec![(5, PreOrder(vec![2, 1])), (0, PreOrder(vec![1, 2]))],
    };
    assert_eq!(v.condorcet_winner(), Some(2));
    assert_eq!(v.one_stage(), Some(2));
}
