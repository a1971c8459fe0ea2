//! The debate's transitions, as the ledger invokes them.

use super::model::{
    cast_vote_outcome, close_debate_outcome, get_results_outcome, initialize_debate_outcome,
    tally_votes_outcome,
};
use super::record::{
    ballots, has_voted, CastVote, CloseDebate, Debate, DebateStatus, ErrorCode, GetResults,
    InitializeDebate, TallyVotes, Vote, VoteOption, VoteResults, VoteResultsView, VoteView,
    MAX_CONFIDENCE,
    MAX_REASONING_BYTES, MAX_TOPIC_BYTES, MAX_VOTES,
};
use super::tally::{cap, count, decide, MAX_SCORE};
use crate::principal::same_key;
use crate::text::{fits, MAX_ID_BYTES};
use crate::transition::{carried_out, created};
use vstd::prelude::*;

verus! {

/// Creates the debate `debate_id` on `topic` in the empty slot of `ctx`, with
/// the caller as its authority and `now` as its time of creation.
///
/// Refused with `AlreadyExists` if the slot holds a debate, and otherwise
/// with `InvalidArgument` if the identifier is longer than 32 bytes or the
/// topic longer than 128 bytes. A refusal changes nothing.
pub fn initialize_debate(
    ctx: &mut InitializeDebate,
    debate_id: String,
    topic: String,
    max_rounds: u8,
    now: i64,
) -> (result: Result<(), ErrorCode>)
    ensures
        final(ctx).authority == old(ctx).authority,
        created(
            initialize_debate_outcome(
                old(ctx).debate is Some,
                old(ctx).authority,
                debate_id@,
                topic@,
                max_rounds,
                now,
            ),
            old(ctx).stored(),
            final(ctx).stored(),
            result,
        ),
        result is Err ==> *final(ctx) == *old(ctx),
        result is Ok ==> (final(ctx).stored() matches Some(debate) && debate.wf()),
{
    if ctx.debate.is_some() {
        return Err(ErrorCode::AlreadyExists);
    }
    if !fits(&debate_id, MAX_ID_BYTES) || !fits(&topic, MAX_TOPIC_BYTES) {
        return Err(ErrorCode::InvalidArgument);
    }
    let debate = Debate {
        debate_id,
        topic,
        authority: ctx.authority,
        max_rounds,
        current_round: 0,
        votes: Vec::new(),
        timestamp: now,
        completion_timestamp: 0,
        status: DebateStatus::Active,
        outcome: None,
        support_score: 0,
        oppose_score: 0,
        neutral_score: 0,
        votes_tallied: false,
    };
    assert(debate@.votes =~= Seq::empty());
    ctx.debate = Some(debate);
    Ok(())
}

/// Whether `agent_id` already has a ballot among `votes`.
fn has_ballot_from(votes: &Vec<Vote>, agent_id: &String) -> (found: bool)
    ensures
        found == has_voted(ballots(votes@), agent_id@),
{
    let mut i: usize = 0;
    while i < votes.len()
        invariant
            i <= votes.len(),
            forall|k: int| 0 <= k < i ==> (#[trigger] ballots(votes@)[k]).agent_id != agent_id@,
        decreases votes.len() - i,
    {
        if votes[i].agent_id == *agent_id {
            assert(ballots(votes@)[i as int].agent_id == agent_id@);
            return true;
        }
        i += 1;
    }
    false
}

/// Records the ballot of `agent_id`, cast at time `now`.
///
/// Refused, in this order, with `DebateNotActive` unless the debate is
/// active; `InvalidConfidence` if `confidence` is above 100;
/// `InvalidArgument` if the agent identifier is longer than 32 bytes or the
/// reasoning longer than 128 bytes; `AlreadyVoted` if the agent has a ballot
/// on record; `CapacityExceeded` if the debate holds 20 ballots. A refusal
/// changes nothing.
pub fn cast_vote(
    ctx: &mut CastVote,
    agent_id: String,
    vote_option: VoteOption,
    confidence: u8,
    reasoning: String,
    now: i64,
) -> (result: Result<(), ErrorCode>)
    ensures
        final(ctx).voter == old(ctx).voter,
        carried_out(
            cast_vote_outcome(
                old(ctx).debate@,
                (VoteView {
                    agent_id: agent_id@,
                    vote_option,
                    confidence,
                    reasoning: reasoning@,
                    timestamp: now,
                }),
            ),
            old(ctx).debate@,
            final(ctx).debate@,
            result,
        ),
        result is Err ==> *final(ctx) == *old(ctx),
        old(ctx).debate@.wf() ==> final(ctx).debate@.wf(),
{
    if ctx.debate.status != DebateStatus::Active {
        return Err(ErrorCode::DebateNotActive);
    }
    if confidence > MAX_CONFIDENCE {
        return Err(ErrorCode::InvalidConfidence);
    }
    if !fits(&agent_id, MAX_ID_BYTES) || !fits(&reasoning, MAX_REASONING_BYTES) {
        return Err(ErrorCode::InvalidArgument);
    }
    if has_ballot_from(&ctx.debate.votes, &agent_id) {
        return Err(ErrorCode::AlreadyVoted);
    }
    if ctx.debate.votes.len() >= MAX_VOTES {
        return Err(ErrorCode::CapacityExceeded);
    }
    let vote = Vote { agent_id, vote_option, confidence, reasoning, timestamp: now };
    ctx.debate.votes.push(vote);
    assert(ballots(ctx.debate.votes@) =~= ballots(old(ctx).debate.votes@).push(vote@));
    Ok(())
}

/// Tallies the ballots at time `now`: stores the three scores and the
/// outcome, marks the debate tallied and moves it to `Completed`.
///
/// Refused, in this order, with `Unauthorized` unless the caller is the
/// debate's authority; `DebateNotActive` unless the debate is active;
/// `NoVotes` if there is no ballot. A refusal changes nothing.
pub fn tally_votes(ctx: &mut TallyVotes, now: i64) -> (result: Result<(), ErrorCode>)
    ensures
        final(ctx).authority == old(ctx).authority,
        carried_out(
            tally_votes_outcome(old(ctx).debate@, old(ctx).authority, now),
            old(ctx).debate@,
            final(ctx).debate@,
            result,
        ),
        result is Err ==> *final(ctx) == *old(ctx),
        old(ctx).authority != old(ctx).debate.authority ==> result == Err::<(), ErrorCode>(
            ErrorCode::Unauthorized,
        ),
        old(ctx).debate@.wf() ==> final(ctx).debate@.wf(),
{
    if !same_key(&ctx.authority, &ctx.debate.authority) {
        return Err(ErrorCode::Unauthorized);
    }
    if ctx.debate.status != DebateStatus::Active {
        return Err(ErrorCode::DebateNotActive);
    }
    if ctx.debate.votes.len() == 0 {
        return Err(ErrorCode::NoVotes);
    }
    let tally = count(&ctx.debate.votes);
    ctx.debate.outcome = Some(decide(&tally));
    ctx.debate.support_score = cap(tally.support);
    ctx.debate.oppose_score = cap(tally.oppose);
    ctx.debate.neutral_score = cap(tally.neutral);
    ctx.debate.votes_tallied = true;
    ctx.debate.status = DebateStatus::Completed;
    ctx.debate.completion_timestamp = now;
    Ok(())
}

/// Closes the debate without a tally. Closing a closed debate succeeds and
/// changes nothing.
///
/// Refused with `Unauthorized` unless the caller is the debate's authority,
/// and otherwise with `DebateNotActive` if the debate is completed. A
/// refusal changes nothing.
pub fn close_debate(ctx: &mut CloseDebate) -> (result: Result<(), ErrorCode>)
    ensures
        final(ctx).authority == old(ctx).authority,
        carried_out(
            close_debate_outcome(old(ctx).debate@, old(ctx).authority),
            old(ctx).debate@,
            final(ctx).debate@,
            result,
        ),
        result is Err ==> *final(ctx) == *old(ctx),
        old(ctx).authority != old(ctx).debate.authority ==> result == Err::<(), ErrorCode>(
            ErrorCode::Unauthorized,
        ),
        old(ctx).debate@.wf() ==> final(ctx).debate@.wf(),
{
    if !same_key(&ctx.authority, &ctx.debate.authority) {
        return Err(ErrorCode::Unauthorized);
    }
    match ctx.debate.status {
        DebateStatus::Active => {
            ctx.debate.status = DebateStatus::Closed;
            Ok(())
        },
        DebateStatus::Closed => Ok(()),
        DebateStatus::Completed => Err(ErrorCode::DebateNotActive),
    }
}

/// Whether `returned` is what `outcome` prescribes: the prescribed results,
/// or the prescribed refusal.
pub open spec fn read_as(
    outcome: Result<VoteResultsView, ErrorCode>,
    returned: Result<VoteResults, ErrorCode>,
) -> bool {
    match outcome {
        Ok(expected) => returned matches Ok(results) && results@ == expected,
        Err(error) => returned matches Err(refusal) && refusal == error,
    }
}

/// Reads the results of a tallied debate: its identifier, the outcome, the
/// three scores and the number of ballots.
///
/// Refused with `VotesNotTallied` unless the debate is tallied and has an
/// outcome on record. The debate is only read.
pub fn get_results(ctx: &GetResults) -> (result: Result<VoteResults, ErrorCode>)
    ensures
        read_as(get_results_outcome(ctx.debate@), result),
{
    let debate = &ctx.debate;
    if !debate.votes_tallied {
        return Err(ErrorCode::VotesNotTallied);
    }
    match debate.outcome {
        None => Err(ErrorCode::VotesNotTallied),
        Some(outcome) => {
            let total_votes: u16 = if debate.votes.len() > MAX_SCORE as usize {
                MAX_SCORE
            } else {
                debate.votes.len() as u16
            };
            Ok(
                VoteResults {
                    debate_id: debate.debate_id.clone(),
                    outcome,
                    support_score: debate.support_score,
                    oppose_score: debate.oppose_score,
                    neutral_score: debate.neutral_score,
                    total_votes,
                },
            )
        },
    }
}

} // verus!
