//! The session record and its invariant.

use crate::text::{all_within, byte_len, texts, MAX_ID_BYTES};
use anchor_lang::prelude::Pubkey;
use vstd::prelude::*;

verus! {

/// Largest size of a persisted VRF proof, in bytes.
pub const MAX_PROOF_BYTES: usize = 256;

/// Largest committee a session may ask for.
pub const MAX_REQUIRED_AGENTS: u8 = 10;

/// Lifecycle stage of a council-selection session.
///
/// The stages form a chain, `Initialized → VRFRequested → VRFFulfilled →
/// AgentsSelected → Completed`, and a session only ever moves along it.
#[derive(Clone, Copy, Debug, PartialEq, Eq, Structural)]
pub enum SessionStatus {
    Initialized,
    VRFRequested,
    VRFFulfilled,
    AgentsSelected,
    Completed,
}

impl SessionStatus {
    /// Position of the stage along the lifecycle chain; also its wire value.
    pub open spec fn rank(self) -> int {
        match self {
            SessionStatus::Initialized => 0,
            SessionStatus::VRFRequested => 1,
            SessionStatus::VRFFulfilled => 2,
            SessionStatus::AgentsSelected => 3,
            SessionStatus::Completed => 4,
        }
    }

    /// The stage whose wire value is `value`, if there is one.
    pub open spec fn of_wire(value: u8) -> Option<SessionStatus> {
        match value {
            0 => Some(SessionStatus::Initialized),
            1 => Some(SessionStatus::VRFRequested),
            2 => Some(SessionStatus::VRFFulfilled),
            3 => Some(SessionStatus::AgentsSelected),
            4 => Some(SessionStatus::Completed),
            _ => None,
        }
    }

    /// The stage's fixed wire value.
    pub fn wire_value(&self) -> (value: u8)
        ensures
            value == self.rank(),
            SessionStatus::of_wire(value) == Some(*self),
    {
        match self {
            SessionStatus::Initialized => 0,
            SessionStatus::VRFRequested => 1,
            SessionStatus::VRFFulfilled => 2,
            SessionStatus::AgentsSelected => 3,
            SessionStatus::Completed => 4,
        }
    }

    /// Decodes a wire value; values above 4 name no stage.
    pub fn from_wire(value: u8) -> (status: Option<SessionStatus>)
        ensures
            status == SessionStatus::of_wire(value),
            status is Some <==> value <= 4,
            status matches Some(s) ==> s.rank() == value,
    {
        match value {
            0 => Some(SessionStatus::Initialized),
            1 => Some(SessionStatus::VRFRequested),
            2 => Some(SessionStatus::VRFFulfilled),
            3 => Some(SessionStatus::AgentsSelected),
            4 => Some(SessionStatus::Completed),
            _ => None,
        }
    }
}

/// Why a session transition was refused.
#[derive(Clone, Copy, Debug, PartialEq, Eq, Structural)]
pub enum ErrorCode {
    /// The session is not in the stage the operation starts from.
    InvalidSessionStatus,
    /// The VRF proof is empty or too large to persist.
    InvalidVRFProof,
    /// The committee does not have the required number of agents.
    InvalidAgentCount,
    /// No session is stored under the requested identifier.
    SessionNotFound,
    /// A session is already stored under the requested identifier.
    AlreadyExists,
    /// An argument lies outside its declared bounds.
    InvalidArgument,
    /// The caller is not the session's authority.
    Unauthorized,
    /// Diversity is required and an agent appears more than once.
    DiversityViolated,
}

impl ErrorCode {
    /// The stable numeric code of the error, for the errors that have one.
    pub open spec fn spec_code(self) -> Option<u32> {
        match self {
            ErrorCode::InvalidSessionStatus => Some(6000u32),
            ErrorCode::InvalidVRFProof => Some(6001u32),
            ErrorCode::InvalidAgentCount => Some(6002u32),
            ErrorCode::SessionNotFound => Some(6003u32),
            _ => None,
        }
    }

    /// The stable numeric code of the error. Errors raised by the host's own
    /// guards (existence, bounds, authority, diversity) have no fixed code.
    pub fn code(&self) -> (code: Option<u32>)
        ensures
            code == self.spec_code(),
    {
        match self {
            ErrorCode::InvalidSessionStatus => Some(6000),
            ErrorCode::InvalidVRFProof => Some(6001),
            ErrorCode::InvalidAgentCount => Some(6002),
            ErrorCode::SessionNotFound => Some(6003),
            _ => None,
        }
    }
}

/// One council-selection round, as persisted by the ledger.
#[derive(Debug, PartialEq, Eq)]
pub struct CouncilSession {
    pub session_id: String,
    pub authority: Pubkey,
    pub required_agents: u8,
    pub diversity_required: bool,
    pub selected_agents: Vec<String>,
    pub vrf_seed: u64,
    pub vrf_fulfilled: bool,
    pub random_number: u64,
    pub vrf_proof: Vec<u8>,
    pub timestamp: i64,
    pub selection_timestamp: i64,
    pub status: SessionStatus,
}

/// Mathematical content of a [`CouncilSession`].
#[verifier::ext_equal]
pub struct SessionView {
    pub session_id: Seq<char>,
    pub authority: Pubkey,
    pub required_agents: u8,
    pub diversity_required: bool,
    pub selected_agents: Seq<Seq<char>>,
    pub vrf_seed: u64,
    pub vrf_fulfilled: bool,
    pub random_number: u64,
    pub vrf_proof: Seq<u8>,
    pub timestamp: i64,
    pub selection_timestamp: i64,
    pub status: SessionStatus,
}

impl View for CouncilSession {
    type V = SessionView;

    open spec fn view(&self) -> SessionView {
        SessionView {
            session_id: self.session_id@,
            authority: self.authority,
            required_agents: self.required_agents,
            diversity_required: self.diversity_required,
            selected_agents: texts(self.selected_agents@),
            vrf_seed: self.vrf_seed,
            vrf_fulfilled: self.vrf_fulfilled,
            random_number: self.random_number,
            vrf_proof: self.vrf_proof@,
            timestamp: self.timestamp,
            selection_timestamp: self.selection_timestamp,
            status: self.status,
        }
    }
}

impl Clone for CouncilSession {
    /// A copy with the same content.
    fn clone(&self) -> (copy: Self)
        ensures
            copy@ == self@,
    {
        let copy = CouncilSession {
            session_id: self.session_id.clone(),
            authority: self.authority,
            required_agents: self.required_agents,
            diversity_required: self.diversity_required,
            selected_agents: self.selected_agents.clone(),
            vrf_seed: self.vrf_seed,
            vrf_fulfilled: self.vrf_fulfilled,
            random_number: self.random_number,
            vrf_proof: self.vrf_proof.clone(),
            timestamp: self.timestamp,
            selection_timestamp: self.selection_timestamp,
            status: self.status,
        };
        assert(copy@.selected_agents =~= self@.selected_agents);
        assert(copy@.vrf_proof =~= self@.vrf_proof);
        copy
    }
}

impl SessionView {
    /// The committee is complete: as many agents as required and, where
    /// diversity is required, no agent twice.
    pub open spec fn committee_complete(self) -> bool {
        &&& self.selected_agents.len() == self.required_agents
        &&& self.diversity_required ==> self.selected_agents.no_duplicates()
    }

    /// The fields of the session agree with each other and with its stage,
    /// and each respects its bounds. Every session produced by
    /// `initialize_session` is consistent and every transition keeps it so.
    pub open spec fn consistent(self) -> bool {
        &&& byte_len(self.session_id) <= MAX_ID_BYTES
        &&& 1 <= self.required_agents <= MAX_REQUIRED_AGENTS
        &&& self.vrf_fulfilled <==> self.status.rank() >= SessionStatus::VRFFulfilled.rank()
        &&& self.vrf_fulfilled ==> self.vrf_proof.len() > 0
        &&& self.vrf_proof.len() <= MAX_PROOF_BYTES
        &&& all_within(self.selected_agents, MAX_ID_BYTES as nat)
        &&& self.diversity_required ==> self.selected_agents.no_duplicates()
        &&& if self.status.rank() >= SessionStatus::AgentsSelected.rank() {
            self.selected_agents.len() == self.required_agents
        } else {
            self.selected_agents.len() == 0
        }
    }

    /// The session invariant: the session is consistent and was not selected
    /// before it was created. Every session produced by `initialize_session`
    /// satisfies it, and every transition keeps it as long as the host clock
    /// does not run backwards.
    pub open spec fn wf(self) -> bool {
        &&& self.consistent()
        &&& self.selection_timestamp >= self.timestamp
    }
}

/// Creation of a session. `session` is the storage slot that the ledger keeps
/// for the requested identifier: empty until a session is created in it.
#[derive(Debug, PartialEq, Eq)]
pub struct InitializeSession {
    pub session: Option<CouncilSession>,
    pub authority: Pubkey,
}

impl InitializeSession {
    /// The content of the slot: the stored session, if there is one.
    pub open spec fn stored(self) -> Option<SessionView> {
        match self.session {
            Some(session) => Some(session@),
            None => None,
        }
    }
}

/// A VRF request on `session`, submitted by `authority`.
#[derive(Debug, PartialEq, Eq)]
pub struct RequestVRF {
    pub session: CouncilSession,
    pub authority: Pubkey,
}

/// Delivery of the VRF output to `session`, submitted by `authority`. Any
/// caller may deliver: the proof, not the caller, vouches for the output.
#[derive(Debug, PartialEq, Eq)]
pub struct FulfillVRF {
    pub session: CouncilSession,
    pub authority: Pubkey,
}

/// Commitment of the committee of `session`, submitted by `authority`.
#[derive(Debug, PartialEq, Eq)]
pub struct SelectAgents {
    pub session: CouncilSession,
    pub authority: Pubkey,
}

/// A read-only check of the committee stored in `session`.
#[derive(Debug, PartialEq, Eq)]
pub struct VerifySelection {
    pub session: CouncilSession,
}

} // verus!
