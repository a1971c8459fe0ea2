//! The tally rule: confidence-weighted totals per option, the stored scores
//! and the winning option.
//!
//! Everything is integer arithmetic, so that every replica computes the same
//! record from the same ballots.

use super::record::{Vote, VoteOption, VoteView, ballots};
use vstd::prelude::*;

verus! {

/// Largest score or count that can be stored.
pub const MAX_SCORE: u16 = 65535;

/// What `vote` adds to the total of `option`: its confidence if it is cast
/// for `option`, nothing otherwise.
pub open spec fn contribution(vote: VoteView, option: VoteOption) -> nat {
    if vote.vote_option == option {
        vote.confidence as nat
    } else {
        0
    }
}

/// The sum of the confidences of the ballots cast for `option`.
pub open spec fn weight(votes: Seq<VoteView>, option: VoteOption) -> nat
    decreases votes.len(),
{
    if votes.len() == 0 {
        0
    } else {
        weight(votes.drop_last(), option) + contribution(votes.last(), option)
    }
}

/// The confidence-weighted totals of the three options that can win.
/// Abstentions are not counted.
pub struct Totals {
    pub support: nat,
    pub oppose: nat,
    pub neutral: nat,
}

/// The totals of a list of ballots.
pub open spec fn tally_of(votes: Seq<VoteView>) -> Totals {
    Totals {
        support: weight(votes, VoteOption::Support),
        oppose: weight(votes, VoteOption::Oppose),
        neutral: weight(votes, VoteOption::Neutral),
    }
}

/// What is stored for a count or a total: the number itself, capped at what
/// 16 bits hold.
pub open spec fn capped(total: nat) -> u16 {
    if total > MAX_SCORE {
        MAX_SCORE
    } else {
        total as u16
    }
}

/// The winning option: the one whose total is strictly greater than both
/// others, and `Neutral` when there is none.
pub open spec fn winner(totals: Totals) -> VoteOption {
    if totals.support > totals.oppose && totals.support > totals.neutral {
        VoteOption::Support
    } else if totals.oppose > totals.support && totals.oppose > totals.neutral {
        VoteOption::Oppose
    } else {
        VoteOption::Neutral
    }
}

/// Totals as computed: exact, in integers wide enough for any list of
/// ballots that fits in memory.
#[derive(Clone, Copy, Debug, PartialEq, Eq)]
pub struct Tally {
    pub support: u128,
    pub oppose: u128,
    pub neutral: u128,
}

impl View for Tally {
    type V = Totals;

    open spec fn view(&self) -> Totals {
        Totals {
            support: self.support as nat,
            oppose: self.oppose as nat,
            neutral: self.neutral as nat,
        }
    }
}

/// A total never exceeds 255 per ballot.
proof fn lemma_weight_bound(votes: Seq<VoteView>, option: VoteOption)
    ensures
        weight(votes, option) <= 255 * votes.len(),
    decreases votes.len(),
{
    if votes.len() > 0 {
        lemma_weight_bound(votes.drop_last(), option);
    }
}

/// Adds up the confidences of `votes` per option.
pub fn count(votes: &Vec<Vote>) -> (tally: Tally)
    ensures
        tally@ == tally_of(ballots(votes@)),
{
    let ghost all = ballots(votes@);
    let mut tally = Tally { support: 0, oppose: 0, neutral: 0 };
    let mut i: usize = 0;
    while i < votes.len()
        invariant
            i <= votes.len(),
            all == ballots(votes@),
            tally@ == tally_of(all.take(i as int)),
        decreases votes.len() - i,
    {
        let vote = &votes[i];
        proof {
            let seen = all.take(i as int);
            let next = all.take(i + 1);
            assert(next.drop_last() == seen);
            assert(next.last() == vote@);
            lemma_weight_bound(seen, VoteOption::Support);
            lemma_weight_bound(seen, VoteOption::Oppose);
            lemma_weight_bound(seen, VoteOption::Neutral);
        }
        match vote.vote_option {
            VoteOption::Support => {
                tally.support = tally.support + vote.confidence as u128;
            },
            VoteOption::Oppose => {
                tally.oppose = tally.oppose + vote.confidence as u128;
            },
            VoteOption::Neutral => {
                tally.neutral = tally.neutral + vote.confidence as u128;
            },
            VoteOption::Abstain => {},
        }
        i += 1;
    }
    assert(all.take(i as int) == all);
    tally
}

/// The number to store for `total`.
pub fn cap(total: u128) -> (stored: u16)
    ensures
        stored == capped(total as nat),
{
    if total > MAX_SCORE as u128 {
        MAX_SCORE
    } else {
        total as u16
    }
}

/// The option that wins with the totals `tally`.
pub fn decide(tally: &Tally) -> (outcome: VoteOption)
    ensures
        outcome == winner(tally@),
        outcome != VoteOption::Abstain,
{
    if tally.support > tally.oppose && tally.support > tally.neutral {
        VoteOption::Support
    } else if tally.oppose > tally.support && tally.oppose > tally.neutral {
        VoteOption::Oppose
    } else {
        VoteOption::Neutral
    }
}

} // verus!
