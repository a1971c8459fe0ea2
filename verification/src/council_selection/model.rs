//! The session state machine, stated over [`SessionView`].
//!
//! Each transition is a function from the session before the call and the
//! call's inputs to either the session after it or the error that refuses it.
//! A refused transition leaves the session as it was.

use super::record::{
    ErrorCode, SessionStatus, SessionView, MAX_PROOF_BYTES, MAX_REQUIRED_AGENTS,
};
use crate::text::{all_within, byte_len, MAX_ID_BYTES};
use anchor_lang::prelude::Pubkey;
use vstd::prelude::*;

verus! {

/// The session that a successful creation stores: no seed, no VRF output, no
/// committee, and both timestamps at the time of creation.
pub open spec fn new_session(
    authority: Pubkey,
    session_id: Seq<char>,
    required_agents: u8,
    diversity_required: bool,
    now: i64,
) -> SessionView {
    SessionView {
        session_id,
        authority,
        required_agents,
        diversity_required,
        selected_agents: Seq::empty(),
        vrf_seed: 0,
        vrf_fulfilled: false,
        random_number: 0,
        vrf_proof: Seq::empty(),
        timestamp: now,
        selection_timestamp: now,
        status: SessionStatus::Initialized,
    }
}

/// Creation of a session in a slot that is `occupied` or not.
pub open spec fn initialize_session_outcome(
    occupied: bool,
    authority: Pubkey,
    session_id: Seq<char>,
    required_agents: u8,
    diversity_required: bool,
    now: i64,
) -> Result<SessionView, ErrorCode> {
    if occupied {
        Err(ErrorCode::AlreadyExists)
    } else if byte_len(session_id) > MAX_ID_BYTES || required_agents < 1 || required_agents
        > MAX_REQUIRED_AGENTS {
        Err(ErrorCode::InvalidArgument)
    } else {
        Ok(new_session(authority, session_id, required_agents, diversity_required, now))
    }
}

/// The authority commits to `vrf_seed`.
pub open spec fn request_vrf_outcome(session: SessionView, caller: Pubkey, vrf_seed: u64) -> Result<
    SessionView,
    ErrorCode,
> {
    if caller != session.authority {
        Err(ErrorCode::Unauthorized)
    } else if session.status != SessionStatus::Initialized {
        Err(ErrorCode::InvalidSessionStatus)
    } else {
        Ok(SessionView { vrf_seed, status: SessionStatus::VRFRequested, ..session })
    }
}

/// The VRF output arrives with its proof. The proof is judged first: one that
/// is empty, or too large to persist, is refused whatever the stage.
pub open spec fn fulfill_vrf_outcome(
    session: SessionView,
    random_number: u64,
    vrf_proof: Seq<u8>,
) -> Result<SessionView, ErrorCode> {
    if vrf_proof.len() == 0 || vrf_proof.len() > MAX_PROOF_BYTES {
        Err(ErrorCode::InvalidVRFProof)
    } else if session.status != SessionStatus::VRFRequested {
        Err(ErrorCode::InvalidSessionStatus)
    } else {
        Ok(
            SessionView {
                vrf_fulfilled: true,
                random_number,
                vrf_proof,
                status: SessionStatus::VRFFulfilled,
                ..session
            },
        )
    }
}

/// The authority commits the committee `agent_ids` at time `now`.
pub open spec fn select_agents_outcome(
    session: SessionView,
    caller: Pubkey,
    agent_ids: Seq<Seq<char>>,
    now: i64,
) -> Result<SessionView, ErrorCode> {
    if caller != session.authority {
        Err(ErrorCode::Unauthorized)
    } else if session.status != SessionStatus::VRFFulfilled {
        Err(ErrorCode::InvalidSessionStatus)
    } else if agent_ids.len() != session.required_agents {
        Err(ErrorCode::InvalidAgentCount)
    } else if !all_within(agent_ids, MAX_ID_BYTES as nat) {
        Err(ErrorCode::InvalidArgument)
    } else if session.diversity_required && !agent_ids.no_duplicates() {
        Err(ErrorCode::DiversityViolated)
    } else {
        Ok(
            SessionView {
                selected_agents: agent_ids,
                selection_timestamp: now,
                status: SessionStatus::AgentsSelected,
                ..session
            },
        )
    }
}

/// What the record-side check of a committed selection answers: that the VRF
/// was fulfilled with a proof on record and that the committee is complete.
pub open spec fn selection_holds(session: SessionView) -> bool {
    &&& session.vrf_fulfilled
    &&& session.vrf_proof.len() > 0
    &&& session.committee_complete()
}

/// The check of a selection, which is only defined once agents are selected.
pub open spec fn verify_selection_outcome(session: SessionView) -> Result<bool, ErrorCode> {
    if session.status != SessionStatus::AgentsSelected {
        Err(ErrorCode::InvalidSessionStatus)
    } else {
        Ok(selection_holds(session))
    }
}

/// A mutating call on an existing session, with its inputs.
pub enum SessionOp {
    RequestVrf { caller: Pubkey, vrf_seed: u64 },
    FulfillVrf { random_number: u64, vrf_proof: Seq<u8> },
    SelectAgents { caller: Pubkey, agent_ids: Seq<Seq<char>>, now: i64 },
}

/// The outcome of submitting `op` against `session`.
pub open spec fn attempt(session: SessionView, op: SessionOp) -> Result<SessionView, ErrorCode> {
    match op {
        SessionOp::RequestVrf { caller, vrf_seed } => request_vrf_outcome(
            session,
            caller,
            vrf_seed,
        ),
        SessionOp::FulfillVrf { random_number, vrf_proof } => fulfill_vrf_outcome(
            session,
            random_number,
            vrf_proof,
        ),
        SessionOp::SelectAgents { caller, agent_ids, now } => select_agents_outcome(
            session,
            caller,
            agent_ids,
            now,
        ),
    }
}

/// The session after `op` was submitted: changed if it was accepted, the
/// same if it was refused.
pub open spec fn step(session: SessionView, op: SessionOp) -> SessionView {
    match attempt(session, op) {
        Ok(next) => next,
        Err(_) => session,
    }
}

/// The session after the calls `ops` were submitted in order.
pub open spec fn run(session: SessionView, ops: Seq<SessionOp>) -> SessionView
    decreases ops.len(),
{
    if ops.len() == 0 {
        session
    } else {
        step(run(session, ops.drop_last()), ops.last())
    }
}

/// The call `op` does not carry a time before the creation of `session`.
pub open spec fn on_time(session: SessionView, op: SessionOp) -> bool {
    op matches SessionOp::SelectAgents { now, .. } ==> now >= session.timestamp
}

/// The host clock never runs backwards: no call of `ops` carries a time
/// before the creation of `session`.
pub open spec fn clock_is_monotonic(session: SessionView, ops: Seq<SessionOp>) -> bool {
    forall|i: int| 0 <= i < ops.len() ==> on_time(session, #[trigger] ops[i])
}

} // verus!
