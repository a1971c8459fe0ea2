//! Voting: a debate collects one confidence-weighted ballot per agent and is
//! then tallied into three scores and an outcome, or closed without a tally.

pub mod audit;
pub mod laws;
pub mod model;
pub mod record;
pub mod tally;
pub mod transitions;

pub use self::record::{
    CastVote, CloseDebate, Debate, DebateStatus, DebateView, ErrorCode, GetResults,
    InitializeDebate, TallyVotes, Vote, VoteOption, VoteResults, VoteResultsView, VoteView,
    MAX_CONFIDENCE, MAX_REASONING_BYTES, MAX_TOPIC_BYTES, MAX_VOTES,
};
pub use self::transitions::{cast_vote, close_debate, get_results, initialize_debate, tally_votes};
