//! Reading a session back: whether a stored record satisfies the session
//! invariant, decided from the record alone.

use super::record::{CouncilSession, SessionStatus, MAX_PROOF_BYTES, MAX_REQUIRED_AGENTS};
use crate::text::{all_distinct, all_fit, fits, MAX_ID_BYTES};
use vstd::prelude::*;

verus! {

impl CouncilSession {
    /// Whether the fields of the record agree with each other and with its
    /// stage, and each respects its bounds.
    pub fn is_consistent(&self) -> (ok: bool)
        ensures
            ok == self@.consistent(),
    {
        let stage: u8 = self.status.wire_value();
        let fulfilled_stage: bool = stage >= SessionStatus::VRFFulfilled.wire_value();
        let selected_stage: bool = stage >= SessionStatus::AgentsSelected.wire_value();
        let expected_size: usize = if selected_stage {
            self.required_agents as usize
        } else {
            0
        };
        if !fits(&self.session_id, MAX_ID_BYTES) {
            return false;
        }
        if self.required_agents < 1 || self.required_agents > MAX_REQUIRED_AGENTS {
            return false;
        }
        if self.vrf_fulfilled != fulfilled_stage {
            return false;
        }
        if self.vrf_fulfilled && self.vrf_proof.len() == 0 {
            return false;
        }
        if self.vrf_proof.len() > MAX_PROOF_BYTES {
            return false;
        }
        if !all_fit(&self.selected_agents, MAX_ID_BYTES) {
            return false;
        }
        if self.diversity_required && !all_distinct(&self.selected_agents) {
            return false;
        }
        self.selected_agents.len() == expected_size
    }

    /// Whether the record satisfies the session invariant. A reader that
    /// finds it does not must treat the record as damaged.
    pub fn is_well_formed(&self) -> (ok: bool)
        ensures
            ok == self@.wf(),
    {
        self.is_consistent() && self.selection_timestamp >= self.timestamp
    }
}

} // verus!
