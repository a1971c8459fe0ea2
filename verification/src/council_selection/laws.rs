//! What holds of every session, however it was driven.

use super::model::{
    attempt, clock_is_monotonic, on_time, request_vrf_outcome, run, select_agents_outcome,
    selection_holds, step, verify_selection_outcome, SessionOp,
};
use super::record::{ErrorCode, SessionStatus, SessionView};
use anchor_lang::prelude::Pubkey;
use vstd::prelude::*;

verus! {

/// The lifecycle chain, from first stage to last.
pub open spec fn lifecycle() -> Seq<SessionStatus> {
    seq![
        SessionStatus::Initialized,
        SessionStatus::VRFRequested,
        SessionStatus::VRFFulfilled,
        SessionStatus::AgentsSelected,
        SessionStatus::Completed,
    ]
}

/// The stages that `session` passes through while `ops` are submitted, each
/// stage listed once, when it is entered.
pub open spec fn status_path(session: SessionView, ops: Seq<SessionOp>) -> Seq<SessionStatus>
    decreases ops.len(),
{
    if ops.len() == 0 {
        seq![session.status]
    } else {
        let earlier = status_path(session, ops.drop_last());
        let reached = run(session, ops).status;
        if reached == run(session, ops.drop_last()).status {
            earlier
        } else {
            earlier.push(reached)
        }
    }
}

/// A call either leaves the stage alone or moves the session to the next
/// stage of the chain. It never touches the authority or the time of
/// creation, and a refused call touches nothing at all.
pub proof fn law_step_follows_the_chain(session: SessionView, op: SessionOp)
    ensures
        step(session, op).status == session.status || step(session, op).status.rank()
            == session.status.rank() + 1,
        step(session, op).authority == session.authority,
        step(session, op).timestamp == session.timestamp,
        attempt(session, op) is Err ==> step(session, op) == session,
{
}

/// The authority is written once: whatever calls are submitted, the session
/// keeps the authority and the time of creation it was created with.
pub proof fn law_authority_is_written_once(session: SessionView, ops: Seq<SessionOp>)
    ensures
        run(session, ops).authority == session.authority,
        run(session, ops).timestamp == session.timestamp,
    decreases ops.len(),
{
    if ops.len() > 0 {
        law_authority_is_written_once(session, ops.drop_last());
        law_step_follows_the_chain(run(session, ops.drop_last()), ops.last());
    }
}

/// The stage of a session never decreases: after the first `j` calls,
/// however many of them were refused, the session is at the stage it was at
/// after the first `i`, or at a later one.
pub proof fn law_status_never_decreases(session: SessionView, ops: Seq<SessionOp>, i: int, j: int)
    requires
        0 <= i <= j <= ops.len(),
    ensures
        run(session, ops.take(i)).status.rank() <= run(session, ops.take(j)).status.rank(),
    decreases j - i,
{
    if i < j {
        law_status_never_decreases(session, ops, i, j - 1);
        assert(ops.take(j).drop_last() == ops.take(j - 1));
        law_step_follows_the_chain(run(session, ops.take(j - 1)), ops.take(j).last());
    }
}

/// Whatever calls are submitted, in whatever order, the stages a session
/// passes through are consecutive stages of the lifecycle chain, starting at
/// the stage it was in and ending at the stage it is in.
pub proof fn law_status_path_is_a_stretch_of_the_chain(session: SessionView, ops: Seq<SessionOp>)
    ensures
        session.status.rank() <= run(session, ops).status.rank(),
        status_path(session, ops) == lifecycle().subrange(
            session.status.rank(),
            run(session, ops).status.rank() + 1,
        ),
    decreases ops.len(),
{
    let chain = lifecycle();
    let first: int = session.status.rank();
    assert(forall|s: SessionStatus| #[trigger] chain[s.rank()] == s);
    if ops.len() == 0 {
        assert(status_path(session, ops) == chain.subrange(first, first + 1));
    } else {
        let before = run(session, ops.drop_last());
        let reached = run(session, ops).status;
        law_status_path_is_a_stretch_of_the_chain(session, ops.drop_last());
        law_step_follows_the_chain(before, ops.last());
        if reached != before.status {
            assert(status_path(session, ops.drop_last()).push(reached) == chain.subrange(
                first,
                reached.rank() + 1,
            ));
        }
    }
}

/// A session that starts `Initialized` passes through a prefix of the
/// lifecycle chain: `Initialized`, then `VRFRequested`, then `VRFFulfilled`,
/// then `AgentsSelected`, with no stage skipped and none revisited.
pub proof fn law_status_path_is_a_prefix_of_the_chain(session: SessionView, ops: Seq<SessionOp>)
    requires
        session.status == SessionStatus::Initialized,
    ensures
        status_path(session, ops).is_prefix_of(lifecycle()),
        status_path(session, ops).len() == run(session, ops).status.rank() + 1,
{
    law_status_path_is_a_stretch_of_the_chain(session, ops);
}

/// One call keeps a consistent session consistent, and keeps the session
/// invariant if it does not carry a time before the session's creation.
proof fn lemma_step_keeps_well_formed(session: SessionView, op: SessionOp)
    ensures
        session.consistent() ==> step(session, op).consistent(),
        session.wf() && on_time(session, op) ==> step(session, op).wf(),
{
}

/// A consistent session stays consistent through every call, accepted or
/// refused, whatever the host clock does.
pub proof fn law_calls_keep_sessions_consistent(session: SessionView, ops: Seq<SessionOp>)
    requires
        session.consistent(),
    ensures
        run(session, ops).consistent(),
    decreases ops.len(),
{
    if ops.len() > 0 {
        law_calls_keep_sessions_consistent(session, ops.drop_last());
        lemma_step_keeps_well_formed(run(session, ops.drop_last()), ops.last());
    }
}

/// The session invariant survives every call, accepted or refused, as long
/// as the host clock does not run backwards.
pub proof fn law_calls_keep_sessions_well_formed(session: SessionView, ops: Seq<SessionOp>)
    requires
        session.wf(),
        clock_is_monotonic(session, ops),
    ensures
        run(session, ops).wf(),
    decreases ops.len(),
{
    if ops.len() > 0 {
        let earlier = ops.drop_last();
        assert(clock_is_monotonic(session, earlier)) by {
            assert forall|i: int| 0 <= i < earlier.len() implies on_time(
                session,
                #[trigger] earlier[i],
            ) by {
                assert(earlier[i] == ops[i]);
            }
        }
        law_calls_keep_sessions_well_formed(session, earlier);
        law_authority_is_written_once(session, earlier);
        assert(on_time(session, ops[ops.len() - 1]));
        lemma_step_keeps_well_formed(run(session, earlier), ops.last());
    }
}

/// Once agents are selected the session is settled: whatever is submitted
/// afterwards is refused and the session stays as it is.
pub proof fn law_selection_is_final(session: SessionView, ops: Seq<SessionOp>)
    requires
        session.status.rank() >= SessionStatus::AgentsSelected.rank(),
    ensures
        run(session, ops) == session,
    decreases ops.len(),
{
    if ops.len() > 0 {
        law_selection_is_final(session, ops.drop_last());
    }
}

/// Once agents are selected, the committee has exactly the required number
/// of agents and, if diversity is required, no agent twice.
pub proof fn law_selected_committee_is_complete(session: SessionView)
    requires
        session.consistent(),
        session.status.rank() >= SessionStatus::AgentsSelected.rank(),
    ensures
        session.selected_agents.len() == session.required_agents,
        session.diversity_required ==> session.selected_agents.no_duplicates(),
{
}

/// Requesting the VRF and selecting the agents are the authority's alone:
/// attempted by anyone else, either is refused as unauthorized, whatever the
/// stage of the session, and the session stays as it was.
pub proof fn law_strangers_change_nothing(
    session: SessionView,
    caller: Pubkey,
    vrf_seed: u64,
    agent_ids: Seq<Seq<char>>,
    now: i64,
)
    requires
        caller != session.authority,
    ensures
        request_vrf_outcome(session, caller, vrf_seed) == Err::<SessionView, ErrorCode>(
            ErrorCode::Unauthorized,
        ),
        select_agents_outcome(session, caller, agent_ids, now) == Err::<SessionView, ErrorCode>(
            ErrorCode::Unauthorized,
        ),
        step(session, (SessionOp::RequestVrf { caller, vrf_seed })) == session,
        step(session, (SessionOp::SelectAgents { caller, agent_ids, now })) == session,
{
}

/// Checking a selection is repeatable: the session determines the answer, so
/// two checks of the same session agree, and so do checks made before and
/// after any further calls on a session whose agents are selected.
pub proof fn law_verification_is_repeatable(
    session: SessionView,
    ops: Seq<SessionOp>,
    first: Result<bool, ErrorCode>,
    second: Result<bool, ErrorCode>,
    later: Result<bool, ErrorCode>,
)
    requires
        first == verify_selection_outcome(session),
        second == verify_selection_outcome(session),
        later == verify_selection_outcome(run(session, ops)),
    ensures
        first == second,
        session.status == SessionStatus::AgentsSelected ==> later == first,
{
    if session.status == SessionStatus::AgentsSelected {
        law_selection_is_final(session, ops);
    }
}

/// The check of a selection finds nothing wrong with a consistent session
/// whose agents are selected.
pub proof fn law_consistent_selection_verifies(session: SessionView)
    requires
        session.consistent(),
        session.status == SessionStatus::AgentsSelected,
    ensures
        selection_holds(session),
        verify_selection_outcome(session) == Ok::<bool, ErrorCode>(true),
{
}

} // verus!
