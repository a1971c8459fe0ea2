//! The debate state machine, stated over [`DebateView`].
//!
//! Each transition is a function from the debate before the call and the
//! call's inputs to either the debate after it or the error that refuses it.
//! A refused transition leaves the debate as it was.

use super::record::{
    has_voted, DebateStatus, DebateView, ErrorCode, VoteResultsView, VoteView, MAX_CONFIDENCE,
    MAX_REASONING_BYTES, MAX_TOPIC_BYTES, MAX_VOTES,
};
use super::tally::{capped, tally_of, winner};
use crate::text::{byte_len, MAX_ID_BYTES};
use anchor_lang::prelude::Pubkey;
use vstd::prelude::*;

verus! {

/// The debate that a successful creation stores: active, in round 0, with no
/// ballot and no tally.
pub open spec fn new_debate(
    authority: Pubkey,
    debate_id: Seq<char>,
    topic: Seq<char>,
    max_rounds: u8,
    now: i64,
) -> DebateView {
    DebateView {
        debate_id,
        topic,
        authority,
        max_rounds,
        current_round: 0,
        votes: Seq::empty(),
        timestamp: now,
        completion_timestamp: 0,
        status: DebateStatus::Active,
        outcome: None,
        support_score: 0,
        oppose_score: 0,
        neutral_score: 0,
        votes_tallied: false,
    }
}

/// Creation of a debate in a slot that is `occupied` or not.
pub open spec fn initialize_debate_outcome(
    occupied: bool,
    authority: Pubkey,
    debate_id: Seq<char>,
    topic: Seq<char>,
    max_rounds: u8,
    now: i64,
) -> Result<DebateView, ErrorCode> {
    if occupied {
        Err(ErrorCode::AlreadyExists)
    } else if byte_len(debate_id) > MAX_ID_BYTES || byte_len(topic) > MAX_TOPIC_BYTES {
        Err(ErrorCode::InvalidArgument)
    } else {
        Ok(new_debate(authority, debate_id, topic, max_rounds, now))
    }
}

/// The ballot `vote` is submitted.
pub open spec fn cast_vote_outcome(debate: DebateView, vote: VoteView) -> Result<
    DebateView,
    ErrorCode,
> {
    if debate.status != DebateStatus::Active {
        Err(ErrorCode::DebateNotActive)
    } else if vote.confidence > MAX_CONFIDENCE {
        Err(ErrorCode::InvalidConfidence)
    } else if byte_len(vote.agent_id) > MAX_ID_BYTES || byte_len(vote.reasoning)
        > MAX_REASONING_BYTES {
        Err(ErrorCode::InvalidArgument)
    } else if has_voted(debate.votes, vote.agent_id) {
        Err(ErrorCode::AlreadyVoted)
    } else if debate.votes.len() >= MAX_VOTES {
        Err(ErrorCode::CapacityExceeded)
    } else {
        Ok(DebateView { votes: debate.votes.push(vote), ..debate })
    }
}

/// The authority has the ballots tallied at time `now`.
pub open spec fn tally_votes_outcome(debate: DebateView, caller: Pubkey, now: i64) -> Result<
    DebateView,
    ErrorCode,
> {
    if caller != debate.authority {
        Err(ErrorCode::Unauthorized)
    } else if debate.status != DebateStatus::Active {
        Err(ErrorCode::DebateNotActive)
    } else if debate.votes.len() == 0 {
        Err(ErrorCode::NoVotes)
    } else {
        let counted = tally_of(debate.votes);
        Ok(
            DebateView {
                outcome: Some(winner(counted)),
                support_score: capped(counted.support),
                oppose_score: capped(counted.oppose),
                neutral_score: capped(counted.neutral),
                votes_tallied: true,
                status: DebateStatus::Completed,
                completion_timestamp: now,
                ..debate
            },
        )
    }
}

/// The authority closes the debate. Closing a closed debate changes nothing;
/// a completed debate cannot be closed.
pub open spec fn close_debate_outcome(debate: DebateView, caller: Pubkey) -> Result<
    DebateView,
    ErrorCode,
> {
    if caller != debate.authority {
        Err(ErrorCode::Unauthorized)
    } else {
        match debate.status {
            DebateStatus::Active => Ok(DebateView { status: DebateStatus::Closed, ..debate }),
            DebateStatus::Closed => Ok(debate),
            DebateStatus::Completed => Err(ErrorCode::DebateNotActive),
        }
    }
}

/// The results of a debate: defined once it is tallied with an outcome on
/// record.
pub open spec fn get_results_outcome(debate: DebateView) -> Result<VoteResultsView, ErrorCode> {
    match debate.outcome {
        Some(outcome) if debate.votes_tallied => Ok(
            VoteResultsView {
                debate_id: debate.debate_id,
                outcome,
                support_score: debate.support_score,
                oppose_score: debate.oppose_score,
                neutral_score: debate.neutral_score,
                total_votes: capped(debate.votes.len()),
            },
        ),
        _ => Err(ErrorCode::VotesNotTallied),
    }
}

/// A mutating call on an existing debate, with its inputs.
pub enum DebateOp {
    CastVote { vote: VoteView },
    TallyVotes { caller: Pubkey, now: i64 },
    CloseDebate { caller: Pubkey },
}

/// The outcome of submitting `op` against `debate`.
pub open spec fn attempt(debate: DebateView, op: DebateOp) -> Result<DebateView, ErrorCode> {
    match op {
        DebateOp::CastVote { vote } => cast_vote_outcome(debate, vote),
        DebateOp::TallyVotes { caller, now } => tally_votes_outcome(debate, caller, now),
        DebateOp::CloseDebate { caller } => close_debate_outcome(debate, caller),
    }
}

/// The debate after `op` was submitted: changed if it was accepted, the same
/// if it was refused.
pub open spec fn step(debate: DebateView, op: DebateOp) -> DebateView {
    match attempt(debate, op) {
        Ok(next) => next,
        Err(_) => debate,
    }
}

/// The debate after the calls `ops` were submitted in order.
pub open spec fn run(debate: DebateView, ops: Seq<DebateOp>) -> DebateView
    decreases ops.len(),
{
    if ops.len() == 0 {
        debate
    } else {
        step(run(debate, ops.drop_last()), ops.last())
    }
}

} // verus!
