//! The governance votes cast by a transaction, by voter and by action.
use vstd::prelude::*;

use crate::kernel::primitives::{ProposalId, Vote, Voter, VotingProcedure};
use crate::ordered_map::{lemma_insert_all_map_values, map_entry_values, seq_insert_all, SortedMap};

verus! {

/// The votes of one voter's procedures, in order: only the decision is kept.
pub open spec fn procedure_votes(procedures: Seq<(ProposalId, VotingProcedure)>) -> Seq<(ProposalId, Vote)> {
    procedures.map_values(|p: (ProposalId, VotingProcedure)| (p.0, p.1.vote))
}

/// Each voter with the map of its votes, its procedures inserted in order.
pub open spec fn votes_by_voter(
    procedures: Seq<(Voter, Vec<(ProposalId, VotingProcedure)>)>,
) -> Seq<(Voter, Seq<(ProposalId, Vote)>)> {
    procedures.map_values(
        |e: (Voter, Vec<(ProposalId, VotingProcedure)>)| (e.0, seq_insert_all(Seq::empty(), procedure_votes(e.1@))),
    )
}

/// The governance votes cast by a transaction: from each voter to the vote
/// (yes, no, abstain) it casts on each governance action. The anchors of the
/// voting procedures are dropped: scripts never see them.
pub struct Votes(pub SortedMap<Voter, SortedMap<ProposalId, Vote>>);

/// The votes as nested entries: each voter with its votes by action.
pub open spec fn votes_view(votes: &Votes) -> Seq<(Voter, Seq<(ProposalId, Vote)>)> {
    map_entry_values(votes.0@, |m: SortedMap<ProposalId, Vote>| m@)
}

impl Default for Votes {
    fn default() -> (v: Self)
        ensures
            v.0@ == Seq::<(Voter, SortedMap<ProposalId, Vote>)>::empty(),
    {
        Votes(SortedMap::new())
    }
}

impl Votes {
    /// The votes of a transaction's voting procedures: the procedures of a
    /// voter inserted in order, then the voters in order, so that a later
    /// entry for the same voter or action replaces an earlier one.
    pub fn from_procedures(voting_procedures: &Vec<(Voter, Vec<(ProposalId, VotingProcedure)>)>) -> (v: Votes)
        ensures
            votes_view(&v) == seq_insert_all(Seq::empty(), votes_by_voter(voting_procedures@)),
    {
        let mut by_voter: Vec<(Voter, SortedMap<ProposalId, Vote>)> = Vec::new();
        let mut i: usize = 0;
        while i < voting_procedures.len()
            invariant
                i <= voting_procedures@.len(),
                map_entry_values(by_voter@, |m: SortedMap<ProposalId, Vote>| m@) == votes_by_voter(
                    voting_procedures@.take(i as int),
                ),
            decreases voting_procedures@.len() - i,
        {
            let (voter, procedures) = &voting_procedures[i];
            let mut votes: Vec<(ProposalId, Vote)> = Vec::new();
            let mut j: usize = 0;
            while j < procedures.len()
                invariant
                    j <= procedures@.len(),
                    votes@ == procedure_votes(procedures@.take(j as int)),
                decreases procedures@.len() - j,
            {
                let (proposal, procedure) = &procedures[j];
                votes.push((*proposal, procedure.vote));
                proof {
                    assert(procedure_votes(procedures@.take(j + 1)) =~= procedure_votes(procedures@.take(j as int)).push(
                        (*proposal, procedure.vote),
                    ));
                }
                j = j + 1;
            }
            proof {
                assert(procedures@.take(j as int) =~= procedures@);
            }
            let ghost before = by_voter@;
            by_voter.push((*voter, SortedMap::from_pairs(votes)));
            proof {
                assert(voting_procedures@.take(i + 1) =~= voting_procedures@.take(i as int).push(voting_procedures@[i as int]));
                assert(map_entry_values(by_voter@, |m: SortedMap<ProposalId, Vote>| m@) =~= map_entry_values(
                    before,
                    |m: SortedMap<ProposalId, Vote>| m@,
                ).push(votes_by_voter(voting_procedures@.take(i + 1)).last()));
                assert(votes_by_voter(voting_procedures@.take(i + 1)) =~= votes_by_voter(
                    voting_procedures@.take(i as int),
                ).push(votes_by_voter(voting_procedures@.take(i + 1)).last()));
            }
            i = i + 1;
        }
        proof {
            assert(voting_procedures@.take(i as int) =~= voting_procedures@);
            let f = |m: SortedMap<ProposalId, Vote>| m@;
            lemma_insert_all_map_values(Seq::empty(), by_voter@, f);
            assert(map_entry_values(Seq::<(Voter, SortedMap<ProposalId, Vote>)>::empty(), f) =~= Seq::empty());
        }
        Votes(SortedMap::from_pairs(by_voter))
    }
}

} // verus!
