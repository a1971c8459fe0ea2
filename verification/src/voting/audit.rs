//! Reading a debate back: whether a stored record satisfies the debate
//! invariant, decided from the record alone.

use super::record::{
    all_bounded, ballots, one_ballot_each, Debate, DebateStatus, Vote, MAX_CONFIDENCE,
    MAX_REASONING_BYTES, MAX_TOPIC_BYTES, MAX_VOTES,
};
use super::tally::{cap, count, decide};
use crate::text::{fits, MAX_ID_BYTES};
use vstd::prelude::*;

verus! {

impl Vote {
    /// Whether the ballot respects the bounds of its fields.
    pub fn is_well_formed(&self) -> (ok: bool)
        ensures
            ok == self@.wf(),
    {
        self.confidence <= MAX_CONFIDENCE && fits(&self.agent_id, MAX_ID_BYTES) && fits(
            &self.reasoning,
            MAX_REASONING_BYTES,
        )
    }
}

/// Whether every ballot of `votes` respects the bounds of its fields.
fn all_well_formed(votes: &Vec<Vote>) -> (ok: bool)
    ensures
        ok == all_bounded(ballots(votes@)),
{
    let mut i: usize = 0;
    while i < votes.len()
        invariant
            i <= votes.len(),
            all_bounded(ballots(votes@).take(i as int)),
        decreases votes.len() - i,
    {
        if !votes[i].is_well_formed() {
            assert(!ballots(votes@)[i as int].wf());
            return false;
        }
        proof {
            let all = ballots(votes@);
            assert(all.take(i + 1) == all.take(i as int).push(all[i as int]));
        }
        i += 1;
    }
    assert(ballots(votes@).take(i as int) == ballots(votes@));
    true
}

/// Whether no agent has more than one ballot among `votes`.
fn has_one_ballot_each(votes: &Vec<Vote>) -> (ok: bool)
    ensures
        ok == one_ballot_each(ballots(votes@)),
{
    let ghost all = ballots(votes@);
    let mut j: usize = 0;
    while j < votes.len()
        invariant
            j <= votes.len(),
            all == ballots(votes@),
            forall|a: int, b: int|
                0 <= a < b < j ==> (#[trigger] all[a]).agent_id != (#[trigger] all[b]).agent_id,
        decreases votes.len() - j,
    {
        let mut i: usize = 0;
        while i < j
            invariant
                i <= j < votes.len(),
                all == ballots(votes@),
                forall|a: int|
                    0 <= a < i ==> (#[trigger] all[a]).agent_id != all[j as int].agent_id,
            decreases j - i,
        {
            if votes[i].agent_id == votes[j].agent_id {
                assert(all[i as int].agent_id == all[j as int].agent_id);
                return false;
            }
            i += 1;
        }
        j += 1;
    }
    true
}

impl Debate {
    /// Whether the scores and the outcome on record are those that the
    /// ballots on record give.
    pub fn tally_matches_ballots(&self) -> (ok: bool)
        ensures
            ok == self@.tally_matches_ballots(),
    {
        let tally = count(&self.votes);
        let winner = decide(&tally);
        let outcome_matches: bool = match self.outcome {
            Some(outcome) => outcome == winner,
            None => false,
        };
        outcome_matches && self.support_score == cap(tally.support)
            && self.oppose_score == cap(tally.oppose)
            && self.neutral_score == cap(tally.neutral)
    }

    /// Whether the record satisfies the debate invariant. A reader that
    /// finds it does not must treat the record as damaged.
    pub fn is_well_formed(&self) -> (ok: bool)
        ensures
            ok == self@.wf(),
    {
        let completed: bool = match self.status {
            DebateStatus::Completed => true,
            _ => false,
        };
        if !fits(&self.debate_id, MAX_ID_BYTES) || !fits(&self.topic, MAX_TOPIC_BYTES) {
            return false;
        }
        if self.current_round > self.max_rounds || self.votes.len() > MAX_VOTES {
            return false;
        }
        if !all_well_formed(&self.votes) || !has_one_ballot_each(&self.votes) {
            return false;
        }
        if self.votes_tallied != completed || self.votes_tallied != self.outcome.is_some() {
            return false;
        }
        !self.votes_tallied || (self.votes.len() >= 1 && self.tally_matches_ballots())
    }
}

} // verus!
