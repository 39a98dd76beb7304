//! Election outcomes from ranked-preference ballots.
//!
//! A `PreOrder` is one voter block's strict ranking of the candidates;
//! a `Vote` is the whole election: the candidate set plus weighted ballots.
//! Two winner-determination rules are provided: the Condorcet method
//! (`Condorcet::condorcet_winner`) and single-stage plurality
//! (`OneStage::one_stage`).

mod ballot;
mod condorcet;
mod election;
mod laws;
mod plurality;

pub use ballot::first_of;
pub use ballot::prefers;
pub use ballot::PreOrder;
pub use election::sum_first;
pub use election::sum_pref;
pub use election::total_weight;
pub use election::Ballot;
pub use election::Condorcet;
pub use election::OneStage;
pub use election::Vote;
pub use laws::lemma_condorcet_majority;
pub use laws::lemma_condorcet_paradox;
pub use laws::lemma_condorcet_winner_deterministic;
pub use laws::lemma_condorcet_winner_membership;
pub use laws::lemma_condorcet_winner_unique;
pub use laws::lemma_one_stage_deterministic;
pub use laws::lemma_plurality_tie;
pub use laws::lemma_plurality_winner_membership;
pub use laws::lemma_plurality_winner_unique;
