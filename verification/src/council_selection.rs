//! Committee selection: a session commits to a VRF seed, receives the VRF
//! output with its proof, and then records the committee drawn from it.

pub mod audit;
pub mod laws;
pub mod model;
pub mod record;
pub mod transitions;

pub use self::record::{
    CouncilSession, ErrorCode, FulfillVRF, InitializeSession, RequestVRF, SelectAgents,
    SessionStatus, SessionView, VerifySelection, MAX_PROOF_BYTES, MAX_REQUIRED_AGENTS,
};
pub use self::transitions::{
    fulfill_vrf, initialize_session, request_vrf, select_agents, verify_selection,
};
