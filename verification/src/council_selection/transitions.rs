//! The session's transitions, as the ledger invokes them.

use super::model::{
    fulfill_vrf_outcome, initialize_session_outcome, request_vrf_outcome, select_agents_outcome,
    verify_selection_outcome,
};
use super::record::{
    CouncilSession, ErrorCode, FulfillVRF, InitializeSession, RequestVRF, SelectAgents,
    SessionStatus, VerifySelection, MAX_PROOF_BYTES, MAX_REQUIRED_AGENTS,
};
use crate::principal::same_key;
use crate::transition::{carried_out, created};
use crate::text::{all_distinct, all_fit, fits, texts, MAX_ID_BYTES};
use vstd::prelude::*;

verus! {

/// Creates the session `session_id` in the empty slot of `ctx`, with the
/// caller as its authority and `now` as its time of creation.
///
/// Refused with `AlreadyExists` if the slot holds a session, and otherwise
/// with `InvalidArgument` if the identifier is longer than 32 bytes or
/// `required_agents` is not between 1 and 10. A refusal changes nothing.
pub fn initialize_session(
    ctx: &mut InitializeSession,
    session_id: String,
    required_agents: u8,
    diversity_required: bool,
    now: i64,
) -> (result: Result<(), ErrorCode>)
    ensures
        final(ctx).authority == old(ctx).authority,
        created(
            initialize_session_outcome(
                old(ctx).session is Some,
                old(ctx).authority,
                session_id@,
                required_agents,
                diversity_required,
                now,
            ),
            old(ctx).stored(),
            final(ctx).stored(),
            result,
        ),
        result is Err ==> *final(ctx) == *old(ctx),
        result is Ok ==> (final(ctx).stored() matches Some(session) && session.wf()),
{
    if ctx.session.is_some() {
        return Err(ErrorCode::AlreadyExists);
    }
    if !fits(&session_id, MAX_ID_BYTES) || required_agents < 1 || required_agents
        > MAX_REQUIRED_AGENTS {
        return Err(ErrorCode::InvalidArgument);
    }
    let session = CouncilSession {
        session_id,
        authority: ctx.authority,
        required_agents,
        diversity_required,
        selected_agents: Vec::new(),
        vrf_seed: 0,
        vrf_fulfilled: false,
        random_number: 0,
        vrf_proof: Vec::new(),
        timestamp: now,
        selection_timestamp: now,
        status: SessionStatus::Initialized,
    };
    assert(session@.selected_agents =~= Seq::empty());
    ctx.session = Some(session);
    Ok(())
}

/// Commits the session to `vrf_seed` and moves it to `VRFRequested`.
///
/// Refused with `Unauthorized` unless the caller is the session's authority,
/// and otherwise with `InvalidSessionStatus` unless the session is
/// `Initialized`. A refusal changes nothing.
pub fn request_vrf(ctx: &mut RequestVRF, vrf_seed: u64) -> (result: Result<(), ErrorCode>)
    ensures
        final(ctx).authority == old(ctx).authority,
        carried_out(
            request_vrf_outcome(old(ctx).session@, old(ctx).authority, vrf_seed),
            old(ctx).session@,
            final(ctx).session@,
            result,
        ),
        result is Err ==> *final(ctx) == *old(ctx),
        old(ctx).authority != old(ctx).session.authority ==> result == Err::<(), ErrorCode>(
            ErrorCode::Unauthorized,
        ),
        old(ctx).session@.consistent() ==> final(ctx).session@.consistent(),
        old(ctx).session@.wf() ==> final(ctx).session@.wf(),
{
    if !same_key(&ctx.authority, &ctx.session.authority) {
        return Err(ErrorCode::Unauthorized);
    }
    if ctx.session.status != SessionStatus::Initialized {
        return Err(ErrorCode::InvalidSessionStatus);
    }
    ctx.session.vrf_seed = vrf_seed;
    ctx.session.status = SessionStatus::VRFRequested;
    Ok(())
}

/// Stores the VRF output and its proof and moves the session to
/// `VRFFulfilled`. Any caller may deliver the output.
///
/// Refused with `InvalidVRFProof` if the proof is empty or longer than 256
/// bytes, and otherwise with `InvalidSessionStatus` unless the session is
/// `VRFRequested`. A refusal changes nothing.
pub fn fulfill_vrf(ctx: &mut FulfillVRF, random_number: u64, vrf_proof: Vec<u8>) -> (result: Result<
    (),
    ErrorCode,
>)
    ensures
        final(ctx).authority == old(ctx).authority,
        carried_out(
            fulfill_vrf_outcome(old(ctx).session@, random_number, vrf_proof@),
            old(ctx).session@,
            final(ctx).session@,
            result,
        ),
        result is Err ==> *final(ctx) == *old(ctx),
        old(ctx).session@.consistent() ==> final(ctx).session@.consistent(),
        old(ctx).session@.wf() ==> final(ctx).session@.wf(),
{
    if vrf_proof.len() == 0 || vrf_proof.len() > MAX_PROOF_BYTES {
        return Err(ErrorCode::InvalidVRFProof);
    }
    if ctx.session.status != SessionStatus::VRFRequested {
        return Err(ErrorCode::InvalidSessionStatus);
    }
    ctx.session.vrf_fulfilled = true;
    ctx.session.random_number = random_number;
    ctx.session.vrf_proof = vrf_proof;
    ctx.session.status = SessionStatus::VRFFulfilled;
    Ok(())
}

/// Commits the committee `agent_ids` at time `now` and moves the session to
/// `AgentsSelected`.
///
/// Refused, in this order, with `Unauthorized` unless the caller is the
/// session's authority; `InvalidSessionStatus` unless the session is
/// `VRFFulfilled`; `InvalidAgentCount` unless there are exactly
/// `required_agents` identifiers; `InvalidArgument` if an identifier is
/// longer than 32 bytes; `DiversityViolated` if diversity is required and an
/// identifier occurs twice. A refusal changes nothing.
pub fn select_agents(ctx: &mut SelectAgents, agent_ids: Vec<String>, now: i64) -> (result: Result<
    (),
    ErrorCode,
>)
    ensures
        final(ctx).authority == old(ctx).authority,
        carried_out(
            select_agents_outcome(
                old(ctx).session@,
                old(ctx).authority,
                texts(agent_ids@),
                now,
            ),
            old(ctx).session@,
            final(ctx).session@,
            result,
        ),
        result is Err ==> *final(ctx) == *old(ctx),
        old(ctx).authority != old(ctx).session.authority ==> result == Err::<(), ErrorCode>(
            ErrorCode::Unauthorized,
        ),
        old(ctx).session@.consistent() ==> final(ctx).session@.consistent(),
        old(ctx).session@.wf() && now >= old(ctx).session.timestamp ==> final(ctx).session@.wf(),
{
    if !same_key(&ctx.authority, &ctx.session.authority) {
        return Err(ErrorCode::Unauthorized);
    }
    if ctx.session.status != SessionStatus::VRFFulfilled {
        return Err(ErrorCode::InvalidSessionStatus);
    }
    if agent_ids.len() != ctx.session.required_agents as usize {
        return Err(ErrorCode::InvalidAgentCount);
    }
    if !all_fit(&agent_ids, MAX_ID_BYTES) {
        return Err(ErrorCode::InvalidArgument);
    }
    if ctx.session.diversity_required && !all_distinct(&agent_ids) {
        return Err(ErrorCode::DiversityViolated);
    }
    ctx.session.selected_agents = agent_ids;
    ctx.session.selection_timestamp = now;
    ctx.session.status = SessionStatus::AgentsSelected;
    Ok(())
}

/// Checks the committee on record: that the VRF was fulfilled with a proof on
/// record, that there are exactly `required_agents` agents and, where
/// diversity is required, that no agent occurs twice.
///
/// Refused with `InvalidSessionStatus` unless the session is
/// `AgentsSelected`. The session is only read.
pub fn verify_selection(ctx: &VerifySelection) -> (result: Result<bool, ErrorCode>)
    ensures
        result == verify_selection_outcome(ctx.session@),
{
    if ctx.session.status != SessionStatus::AgentsSelected {
        return Err(ErrorCode::InvalidSessionStatus);
    }
    let session = &ctx.session;
    let is_valid = session.vrf_fulfilled && session.vrf_proof.len() > 0
        && session.selected_agents.len() == session.required_agents as usize && (
    !session.diversity_required || all_distinct(&session.selected_agents));
    Ok(is_valid)
}

} // verus!
