//! Two ledger-bound state machines of an AI council, with their transition
//! rules proved.
//!
//! * [`council_selection`]: a session commits to a VRF seed, receives the VRF
//!   output together with its proof, and records the committee of agents
//!   drawn from it.
//! * [`voting`]: a debate collects one confidence-weighted ballot per agent
//!   and is tallied into three integer scores and an outcome.
//!
//! Every transition is a total function of the stored record, the call's
//! inputs, the caller's identity and the host's clock. It either produces the
//! next record or names the guard that refused it, and then leaves the record
//! untouched. The ledger itself (storage, signatures, the clock) stays
//! outside: a caller hands in the record and the time, and stores what comes
//! back.

pub mod council_selection;
pub mod principal;
pub mod text;
pub mod transition;
pub mod voting;
