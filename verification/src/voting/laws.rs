//! What holds of every debate, however it was driven.

use super::model::{
    attempt, close_debate_outcome, get_results_outcome, run, step, tally_votes_outcome, DebateOp,
};
use super::record::{
    DebateStatus, DebateView, ErrorCode, VoteOption, VoteResultsView, VoteView, MAX_CONFIDENCE,
    MAX_VOTES,
};
use super::tally::{capped, tally_of, weight, winner, Totals};
use anchor_lang::prelude::Pubkey;
use vstd::prelude::*;

verus! {

/// Exactly one option wins, and it is never `Abstain`: `Support` or `Oppose`
/// when its total is strictly greater than both others, `Neutral` in every
/// other case, a tie at the top and the empty tally among them.
pub proof fn law_winner_is_the_strict_maximum(totals: Totals)
    ensures
        winner(totals) != VoteOption::Abstain,
        winner(totals) == VoteOption::Support <==> totals.support > totals.oppose && totals.support
            > totals.neutral,
        winner(totals) == VoteOption::Oppose <==> totals.oppose > totals.support && totals.oppose
            > totals.neutral,
        totals.neutral > totals.support && totals.neutral > totals.oppose ==> winner(totals)
            == VoteOption::Neutral,
{
}

/// Abstentions weigh nothing: a ballot that abstains changes no total.
pub proof fn law_abstentions_are_not_counted(votes: Seq<VoteView>, vote: VoteView)
    requires
        vote.vote_option == VoteOption::Abstain,
    ensures
        tally_of(votes.push(vote)) == tally_of(votes),
{
    assert(votes.push(vote).drop_last() == votes);
}

/// With at most 20 ballots of at most 100 each, no total exceeds 2000, so
/// every score is stored exactly.
pub proof fn law_bounded_ballots_give_exact_scores(votes: Seq<VoteView>, option: VoteOption)
    requires
        votes.len() <= MAX_VOTES,
        forall|i: int| 0 <= i < votes.len() ==> (#[trigger] votes[i]).confidence <= MAX_CONFIDENCE,
    ensures
        weight(votes, option) <= 100 * votes.len() <= 2000,
        capped(weight(votes, option)) == weight(votes, option),
    decreases votes.len(),
{
    if votes.len() > 0 {
        let earlier = votes.drop_last();
        assert forall|i: int| 0 <= i < earlier.len() implies (#[trigger] earlier[i]).confidence
            <= MAX_CONFIDENCE by {
            assert(earlier[i] == votes[i]);
        }
        law_bounded_ballots_give_exact_scores(earlier, option);
    }
}

/// A call leaves an active debate active, completes it or closes it, and
/// leaves a completed or closed debate exactly as it is. The ballots on
/// record stay, in order; at most one is added, and only to an active debate.
pub proof fn law_step_follows_the_graph(debate: DebateView, op: DebateOp)
    ensures
        debate.status != DebateStatus::Active ==> step(debate, op) == debate,
        step(debate, op).status.rank() >= debate.status.rank(),
        debate.votes.is_prefix_of(step(debate, op).votes),
        step(debate, op).votes.len() <= debate.votes.len() + 1,
        step(debate, op).authority == debate.authority,
        attempt(debate, op) is Err ==> step(debate, op) == debate,
{
    assert(step(debate, op).votes == debate.votes || step(debate, op).votes == debate.votes.push(
        step(debate, op).votes.last(),
    ));
}

/// `Completed` and `Closed` are final: whatever is submitted afterwards, the
/// debate stays as it is, ballots included.
pub proof fn law_final_states_are_frozen(debate: DebateView, ops: Seq<DebateOp>)
    requires
        debate.status != DebateStatus::Active,
    ensures
        run(debate, ops) == debate,
    decreases ops.len(),
{
    if ops.len() > 0 {
        law_final_states_are_frozen(debate, ops.drop_last());
        law_step_follows_the_graph(debate, ops.last());
    }
}

/// The status of a debate never decreases and its ballots only grow: what was
/// on record after the first `i` calls is still on record, in the same order,
/// after the first `j`; and ballots were added in between only if the debate
/// was active after the first `i`.
pub proof fn law_status_and_ballots_only_grow(
    debate: DebateView,
    ops: Seq<DebateOp>,
    i: int,
    j: int,
)
    requires
        0 <= i <= j <= ops.len(),
    ensures
        run(debate, ops.take(i)).status.rank() <= run(debate, ops.take(j)).status.rank(),
        run(debate, ops.take(i)).votes.is_prefix_of(run(debate, ops.take(j)).votes),
        run(debate, ops.take(i)).votes != run(debate, ops.take(j)).votes ==> run(
            debate,
            ops.take(i),
        ).status == DebateStatus::Active,
    decreases j - i,
{
    if i < j {
        law_status_and_ballots_only_grow(debate, ops, i, j - 1);
        assert(ops.take(j).drop_last() == ops.take(j - 1));
        law_step_follows_the_graph(run(debate, ops.take(j - 1)), ops.take(j).last());
    }
}

/// The authority is written once: whatever calls are submitted, the debate
/// keeps the authority it was created with.
pub proof fn law_authority_is_written_once(debate: DebateView, ops: Seq<DebateOp>)
    ensures
        run(debate, ops).authority == debate.authority,
    decreases ops.len(),
{
    if ops.len() > 0 {
        law_authority_is_written_once(debate, ops.drop_last());
        law_step_follows_the_graph(run(debate, ops.drop_last()), ops.last());
    }
}

/// The debate invariant survives every call, accepted or refused.
pub proof fn law_calls_keep_debates_well_formed(debate: DebateView, ops: Seq<DebateOp>)
    requires
        debate.wf(),
    ensures
        run(debate, ops).wf(),
    decreases ops.len(),
{
    if ops.len() > 0 {
        law_calls_keep_debates_well_formed(debate, ops.drop_last());
        lemma_step_keeps_well_formed(run(debate, ops.drop_last()), ops.last());
    }
}

/// One call keeps the debate invariant.
proof fn lemma_step_keeps_well_formed(debate: DebateView, op: DebateOp)
    requires
        debate.wf(),
    ensures
        step(debate, op).wf(),
{
}

/// No two ballots of a debate come from the same agent, and every ballot
/// carries a confidence between 0 and 100.
pub proof fn law_ballots_are_unique_and_bounded(debate: DebateView)
    requires
        debate.wf(),
    ensures
        debate.votes.map_values(|vote: VoteView| vote.agent_id).no_duplicates(),
        forall|i: int|
            0 <= i < debate.votes.len() ==> 0 <= (#[trigger] debate.votes[i]).confidence <= 100,
{
    let ids = debate.votes.map_values(|vote: VoteView| vote.agent_id);
    assert forall|i: int, j: int| 0 <= i < ids.len() && 0 <= j < ids.len() && i != j implies ids[i]
        != ids[j] by {
        if i < j {
            assert(debate.votes[i].agent_id != debate.votes[j].agent_id);
        } else {
            assert(debate.votes[j].agent_id != debate.votes[i].agent_id);
        }
    }
}

/// In a tallied debate the scores on record are the totals of the ballots on
/// record, and the outcome on record is the option that wins with them.
pub proof fn law_recorded_tally_matches_ballots(debate: DebateView)
    requires
        debate.wf(),
        debate.votes_tallied,
    ensures
        debate.status == DebateStatus::Completed,
        debate.support_score == weight(debate.votes, VoteOption::Support),
        debate.oppose_score == weight(debate.votes, VoteOption::Oppose),
        debate.neutral_score == weight(debate.votes, VoteOption::Neutral),
        debate.outcome == Some(winner(tally_of(debate.votes))),
        debate.outcome != Some(VoteOption::Abstain),
        get_results_outcome(debate) is Ok,
{
    let votes = debate.votes;
    assert forall|i: int| 0 <= i < votes.len() implies (#[trigger] votes[i]).confidence
        <= MAX_CONFIDENCE by {
        assert(votes[i].wf());
    }
    law_bounded_ballots_give_exact_scores(debate.votes, VoteOption::Support);
    law_bounded_ballots_give_exact_scores(debate.votes, VoteOption::Oppose);
    law_bounded_ballots_give_exact_scores(debate.votes, VoteOption::Neutral);
}

/// Reading the results is repeatable: the debate determines them, so two
/// reads of the same debate agree, and so do reads made before and after any
/// further calls on a tallied debate.
pub proof fn law_results_are_repeatable(
    debate: DebateView,
    ops: Seq<DebateOp>,
    first: Result<VoteResultsView, ErrorCode>,
    second: Result<VoteResultsView, ErrorCode>,
    later: Result<VoteResultsView, ErrorCode>,
)
    requires
        debate.wf(),
        first == get_results_outcome(debate),
        second == get_results_outcome(debate),
        later == get_results_outcome(run(debate, ops)),
    ensures
        first == second,
        debate.votes_tallied ==> later == first,
{
    if debate.votes_tallied {
        law_final_states_are_frozen(debate, ops);
    }
}

/// Tallying and closing are the authority's alone: requested by anyone
/// else, either is refused as unauthorized, whatever the state of the
/// debate, and the debate stays as it was.
pub proof fn law_strangers_change_nothing(debate: DebateView, caller: Pubkey, now: i64)
    requires
        caller != debate.authority,
    ensures
        tally_votes_outcome(debate, caller, now) == Err::<DebateView, ErrorCode>(
            ErrorCode::Unauthorized,
        ),
        close_debate_outcome(debate, caller) == Err::<DebateView, ErrorCode>(
            ErrorCode::Unauthorized,
        ),
        step(debate, (DebateOp::TallyVotes { caller, now })) == debate,
        step(debate, (DebateOp::CloseDebate { caller })) == debate,
{
}

} // verus!
